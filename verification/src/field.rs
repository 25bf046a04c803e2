//! Field elements of the BLS12-381 scalar field, held in canonical form as
//! four little-endian 64-bit limbs.  The arithmetic itself is performed by
//! `dusk_bls12_381::BlsScalar` behind trusted wrappers whose contracts state
//! the exact value of each result modulo the field's prime.

use vstd::prelude::*;
use vstd::arithmetic::power::pow;
use vstd::arithmetic::power2::pow2;
use vstd::bytes::{spec_u64_from_le_bytes, spec_u64_to_le_bytes, u64_from_le_bytes,
    u64_to_le_bytes, lemma_auto_spec_u64_to_from_le_bytes};
use vstd::slice::slice_subrange;

verus! {

/// The integer denoted by four 64-bit limbs in little-endian order.
pub open spec fn limbs_value(s: Seq<u64>) -> int
    recommends
        s.len() == 4,
{
    s[0] + s[1] * 0x10000000000000000 + s[2] * 0x10000000000000000 * 0x10000000000000000 + s[3]
        * 0x10000000000000000 * 0x10000000000000000 * 0x10000000000000000
}

/// The prime modulus of the BLS12-381 scalar field,
/// `0x73eda753299d7d483339d80809a1d80553bda402fffe5bfeffffffff00000001`.
pub open spec fn fe_modulus() -> int {
    limbs_value(
        seq![0xffffffff00000001u64, 0x53bda402fffe5bfeu64, 0x3339d80809a1d805u64, 0x73eda753299d7d48u64],
    )
}

/// The exponent of the inverse high-degree S-box: the inverse of 257
/// modulo the order of the field's multiplicative group, a published
/// 256-bit domain constant.
pub open spec fn inv_sbox_exp() -> nat {
    limbs_value(
        seq![8469711284772863745u64, 1214928404647555091u64, 15849274830579433833u64, 3867970841541904563u64],
    ) as nat
}

/// The inverse high-degree S-box: `x` raised to the inverse of 257.
pub open spec fn inv_sbox_value(x: int) -> int {
    pow(x, inv_sbox_exp()) % fe_modulus()
}

/// The Euler-criterion exponent `(p - 1) / 2` of the field's prime `p`.
pub open spec fn legendre_exp() -> nat {
    limbs_value(
        seq![9223372034707292160u64, 12240451741123816959u64, 1845609449319885826u64, 4176758429732224676u64],
    ) as nat
}

/// An element of the scalar field, stored as its canonical little-endian
/// limb representation (an integer below the modulus).
#[derive(Clone, Copy, Debug)]
pub struct Fe {
    pub limbs: [u64; 4],
}

impl PartialEq for Fe {
    fn eq(&self, other: &Fe) -> (r: bool) {
        let r = self.limbs[0] == other.limbs[0] && self.limbs[1] == other.limbs[1]
            && self.limbs[2] == other.limbs[2] && self.limbs[3] == other.limbs[3];
        proof {
            assert(self.limbs@ =~= other.limbs@ <==> (self.limbs@[0] == other.limbs@[0]
                && self.limbs@[1] == other.limbs@[1] && self.limbs@[2] == other.limbs@[2]
                && self.limbs@[3] == other.limbs@[3]));
        }
        r
    }
}

impl vstd::std_specs::cmp::PartialEqSpecImpl for Fe {
    open spec fn obeys_eq_spec() -> bool {
        true
    }

    open spec fn eq_spec(&self, other: &Fe) -> bool {
        self.limbs@ == other.limbs@
    }
}

impl Fe {
    /// The integer this element stands for.
    pub open spec fn value(self) -> int {
        limbs_value(self.limbs@)
    }

    /// Canonical form: the limbs denote an integer below the modulus.
    pub open spec fn wf(self) -> bool {
        self.value() < fe_modulus()
    }

    /// The additive identity.
    pub fn zero() -> (r: Fe)
        ensures
            r.wf(),
            r.value() == 0,
    {
        Fe { limbs: [0, 0, 0, 0] }
    }

    /// The multiplicative identity.
    pub fn one() -> (r: Fe)
        ensures
            r.wf(),
            r.value() == 1,
    {
        Fe { limbs: [1, 0, 0, 0] }
    }

    /// Embeds a 64-bit integer into the field.
    pub fn from_u64(v: u64) -> (r: Fe)
        ensures
            r.wf(),
            r.value() == v,
    {
        Fe { limbs: [v, 0, 0, 0] }
    }

    /// Whether the limbs are in canonical (reduced) form.
    pub fn is_canonical(&self) -> (r: bool)
        ensures
            r == self.wf(),
    {
        let l = self.limbs;
        if l[3] != 0x73eda753299d7d48 {
            l[3] < 0x73eda753299d7d48
        } else if l[2] != 0x3339d80809a1d805 {
            l[2] < 0x3339d80809a1d805
        } else if l[1] != 0x53bda402fffe5bfe {
            l[1] < 0x53bda402fffe5bfe
        } else {
            l[0] < 0xffffffff00000001
        }
    }

    /// Field addition.
    pub fn add(&self, rhs: &Fe) -> (r: Fe)
        ensures
            r.wf(),
            r.value() == (self.value() + rhs.value()) % fe_modulus(),
    {
        fe_add_call(self, rhs)
    }

    /// Field subtraction.
    pub fn sub(&self, rhs: &Fe) -> (r: Fe)
        ensures
            r.wf(),
            r.value() == (self.value() - rhs.value()) % fe_modulus(),
    {
        fe_sub_call(self, rhs)
    }

    /// Field multiplication.
    pub fn mul(&self, rhs: &Fe) -> (r: Fe)
        ensures
            r.wf(),
            r.value() == (self.value() * rhs.value()) % fe_modulus(),
    {
        fe_mul_call(self, rhs)
    }

    /// Field squaring.
    pub fn square(&self) -> (r: Fe)
        ensures
            r.wf(),
            r.value() == (self.value() * self.value()) % fe_modulus(),
    {
        fe_square_call(self)
    }

    /// Field doubling.
    pub fn double(&self) -> (r: Fe)
        ensures
            r.wf(),
            r.value() == (self.value() + self.value()) % fe_modulus(),
    {
        fe_double_call(self)
    }

    /// Fixed-exponent exponentiation; the exponent is given as four
    /// little-endian 64-bit limbs.
    pub fn pow_vartime(&self, by: &[u64; 4]) -> (r: Fe)
        ensures
            r.wf(),
            r.value() == pow(self.value(), limbs_value(by@) as nat) % fe_modulus(),
    {
        fe_pow_call(self, by)
    }

    /// The canonical 32-byte little-endian encoding of the element.
    pub fn to_bytes(&self) -> (r: Vec<u8>)
        ensures
            r@.len() == 32,
            r@ == spec_fe_bytes(*self),
    {
        let mut out: Vec<u8> = Vec::new();
        let mut b0 = u64_to_le_bytes(self.limbs[0]);
        out.append(&mut b0);
        let mut b1 = u64_to_le_bytes(self.limbs[1]);
        out.append(&mut b1);
        let mut b2 = u64_to_le_bytes(self.limbs[2]);
        out.append(&mut b2);
        let mut b3 = u64_to_le_bytes(self.limbs[3]);
        out.append(&mut b3);
        proof {
            vstd::bytes::lemma_auto_spec_u64_to_from_le_bytes();
            assert(out@ =~= spec_fe_bytes(*self));
        }
        out
    }

    /// Decodes a canonical 32-byte little-endian encoding; rejects a
    /// byte string that denotes an integer at or above the modulus.
    pub fn from_bytes(bytes: &[u8]) -> (r: Option<Fe>)
        requires
            bytes@.len() == 32,
        ensures
            r is Some <==> fe_bytes_valid(bytes@),
            match r {
                Some(f) => {
                    &&& f.wf()
                    &&& f.limbs@ == spec_limbs_of_bytes(bytes@)
                    &&& spec_fe_bytes(f) == bytes@
                },
                None => true,
            },
    {
        let l0 = u64_from_le_bytes(slice_subrange(bytes, 0, 8));
        let l1 = u64_from_le_bytes(slice_subrange(bytes, 8, 16));
        let l2 = u64_from_le_bytes(slice_subrange(bytes, 16, 24));
        let l3 = u64_from_le_bytes(slice_subrange(bytes, 24, 32));
        let f = Fe { limbs: [l0, l1, l2, l3] };
        proof {
            assert(f.limbs@ =~= spec_limbs_of_bytes(bytes@));
            lemma_limbs_bytes_of_bytes(bytes@);
        }
        if f.is_canonical() {
            Some(f)
        } else {
            None
        }
    }

    /// The inverse high-degree S-box: raises the element to the published
    /// inverse of 257 modulo the multiplicative-group order.
    pub fn inv_sbox(&self) -> (r: Fe)
        ensures
            r.wf(),
            r.value() == inv_sbox_value(self.value()),
    {
        let e: [u64; 4] = [
            8469711284772863745,
            1214928404647555091,
            15849274830579433833,
            3867970841541904563,
        ];
        proof {
            assert(e@ =~= seq![
                8469711284772863745u64,
                1214928404647555091u64,
                15849274830579433833u64,
                3867970841541904563u64,
            ]);
        }
        self.pow_vartime(&e)
    }

    /// Raises the element to the 257th power by repeated squaring: the
    /// forward direction of the high-degree S-box.
    pub fn pow257(&self) -> (r: Fe)
        ensures
            r.wf(),
            r.value() == pow(self.value(), 257) % fe_modulus(),
    {
        let x = *self;
        let mut acc = x.square();
        proof {
            vstd::arithmetic::power2::lemma2_to64();
            assert(pow(x.value(), 2) == x.value() * (x.value() * 1)) by {
                reveal_with_fuel(pow, 3);
            }
        }
        let mut k: usize = 0;
        while k < 7
            invariant
                k <= 7,
                acc.wf(),
                acc.value() == pow(x.value(), pow2((k + 1) as nat)) % fe_modulus(),
            decreases 7 - k,
        {
            let acc2 = acc.square();
            proof {
                lemma_pow_square(x.value(), pow2((k + 1) as nat));
                vstd::arithmetic::power2::lemma_pow2_unfold((k + 2) as nat);
            }
            acc = acc2;
            k += 1;
        }
        let r = acc.mul(&x);
        proof {
            vstd::arithmetic::power2::lemma2_to64();
            lemma_pow_times_x(x.value(), 256);
        }
        r
    }

    /// The Legendre symbol by Euler's criterion: `0` when the element
    /// raised to `(p - 1) / 2` is zero, `1` when that power is one, and
    /// `-1` otherwise (the element is a quadratic non-residue).
    pub fn legendre_symbol(&self) -> (r: i8)
        ensures
            r == 0 || r == 1 || r == -1,
            r == 0 <==> pow(self.value(), legendre_exp()) % fe_modulus() == 0,
            r == 1 <==> pow(self.value(), legendre_exp()) % fe_modulus() == 1,
    {
        let e: [u64; 4] = [
            9223372034707292160,
            12240451741123816959,
            1845609449319885826,
            4176758429732224676,
        ];
        proof {
            assert(e@ =~= seq![
                9223372034707292160u64,
                12240451741123816959u64,
                1845609449319885826u64,
                4176758429732224676u64,
            ]);
        }
        let p = self.pow_vartime(&e);
        let l = p.limbs;
        if l[0] == 0 && l[1] == 0 && l[2] == 0 && l[3] == 0 {
            0
        } else if l[0] == 1 && l[1] == 0 && l[2] == 0 && l[3] == 0 {
            1
        } else {
            -1
        }
    }
}

/// Raising the inverse S-box's result to the 257th power yields `x`
/// raised to 257 times the inverse exponent, reduced: the two S-box
/// directions compose into a single exponentiation.
pub proof fn lemma_inv_sbox_then_pow257(x: int)
    ensures
        pow(inv_sbox_value(x), 257) % fe_modulus() == pow(x, 257 * inv_sbox_exp()) % fe_modulus(),
{
    vstd::arithmetic::power::lemma_pow_mod_noop(pow(x, inv_sbox_exp()), 257, fe_modulus());
    vstd::arithmetic::power::lemma_pow_multiplies(x, inv_sbox_exp(), 257);
}

/// Squaring a reduced power of `x` yields the reduced power with doubled
/// exponent.
proof fn lemma_pow_square(x: int, e: nat)
    ensures
        ((pow(x, e) % fe_modulus()) * (pow(x, e) % fe_modulus())) % fe_modulus() == pow(
            x,
            2 * e,
        ) % fe_modulus(),
{
    vstd::arithmetic::div_mod::lemma_mul_mod_noop(pow(x, e), pow(x, e), fe_modulus());
    vstd::arithmetic::power::lemma_pow_adds(x, e, e);
}

/// Multiplying a reduced power of `x` by `x` yields the reduced power
/// with the exponent raised by one.
proof fn lemma_pow_times_x(x: int, e: nat)
    ensures
        ((pow(x, e) % fe_modulus()) * x) % fe_modulus() == pow(x, e + 1) % fe_modulus(),
{
    vstd::arithmetic::div_mod::lemma_mul_mod_noop_left(pow(x, e), x, fe_modulus());
    vstd::arithmetic::power::lemma_pow_adds(x, e, 1);
    assert(pow(x, 1) == x * 1) by {
        reveal_with_fuel(pow, 2);
    }
}

/// The canonical 32-byte little-endian encoding of four limbs.
pub open spec fn spec_limbs_bytes(l: Seq<u64>) -> Seq<u8>
    recommends
        l.len() == 4,
{
    spec_u64_to_le_bytes(l[0]) + spec_u64_to_le_bytes(l[1]) + spec_u64_to_le_bytes(l[2])
        + spec_u64_to_le_bytes(l[3])
}

/// The canonical 32-byte little-endian encoding of a field element.
pub open spec fn spec_fe_bytes(f: Fe) -> Seq<u8> {
    spec_limbs_bytes(f.limbs@)
}

/// The four limbs read from a 32-byte little-endian encoding.
pub open spec fn spec_limbs_of_bytes(s: Seq<u8>) -> Seq<u64>
    recommends
        s.len() == 32,
{
    seq![
        spec_u64_from_le_bytes(s.subrange(0, 8)),
        spec_u64_from_le_bytes(s.subrange(8, 16)),
        spec_u64_from_le_bytes(s.subrange(16, 24)),
        spec_u64_from_le_bytes(s.subrange(24, 32)),
    ]
}

/// Whether a 32-byte string is the canonical encoding of a field
/// element: the integer it denotes is below the modulus.
pub open spec fn fe_bytes_valid(s: Seq<u8>) -> bool {
    limbs_value(spec_limbs_of_bytes(s)) < fe_modulus()
}

/// The limb representation is unique: two limb vectors denoting the same
/// integer are equal.
pub proof fn lemma_limbs_value_injective(a: Seq<u64>, b: Seq<u64>)
    requires
        a.len() == 4,
        b.len() == 4,
        limbs_value(a) == limbs_value(b),
    ensures
        a =~= b,
{
    let base = 0x10000000000000000;
    let v = limbs_value(a);
    let qa: int = a[1] + a[2] * base + a[3] * base * base;
    let qb: int = b[1] + b[2] * base + b[3] * base * base;
    assert(v == qa * base + a[0]) by (nonlinear_arith)
        requires
            v == limbs_value(a),
            qa == a[1] + a[2] * base + a[3] * base * base,
            base == 0x10000000000000000,
            a.len() == 4,
    {
        assert(limbs_value(a) == a[0] + a[1] * base + a[2] * base * base + a[3] * base * base
            * base);
    }
    assert(v == qb * base + b[0]) by (nonlinear_arith)
        requires
            v == limbs_value(b),
            qb == b[1] + b[2] * base + b[3] * base * base,
            base == 0x10000000000000000,
            b.len() == 4,
    {
        assert(limbs_value(b) == b[0] + b[1] * base + b[2] * base * base + b[3] * base * base
            * base);
    }
    vstd::arithmetic::div_mod::lemma_fundamental_div_mod_converse(v, base, qa, a[0] as int);
    vstd::arithmetic::div_mod::lemma_fundamental_div_mod_converse(v, base, qb, b[0] as int);
    let q = v / base;
    let qa2: int = a[2] + a[3] * base;
    let qb2: int = b[2] + b[3] * base;
    assert(qa == qa2 * base + a[1]) by (nonlinear_arith)
        requires
            qa == a[1] + a[2] * base + a[3] * base * base,
            qa2 == a[2] + a[3] * base,
            base == 0x10000000000000000,
    ;
    assert(qb == qb2 * base + b[1]) by (nonlinear_arith)
        requires
            qb == b[1] + b[2] * base + b[3] * base * base,
            qb2 == b[2] + b[3] * base,
            base == 0x10000000000000000,
    ;
    vstd::arithmetic::div_mod::lemma_fundamental_div_mod_converse(q, base, qa2, a[1] as int);
    vstd::arithmetic::div_mod::lemma_fundamental_div_mod_converse(q, base, qb2, b[1] as int);
    let q2 = q / base;
    vstd::arithmetic::div_mod::lemma_fundamental_div_mod_converse(
        q2,
        base,
        a[3] as int,
        a[2] as int,
    );
    vstd::arithmetic::div_mod::lemma_fundamental_div_mod_converse(
        q2,
        base,
        b[3] as int,
        b[2] as int,
    );
}

/// Two canonical field elements with the same value are the same
/// element.
pub proof fn lemma_fe_value_injective(a: Fe, b: Fe)
    requires
        a.value() == b.value(),
    ensures
        a == b,
{
    lemma_limbs_value_injective(a.limbs@, b.limbs@);
    assert(a.limbs@ =~= b.limbs@);
    assert(a.limbs == b.limbs);
}

/// Reading the limbs back from an encoding recovers the limbs.
pub proof fn lemma_limbs_of_bytes_of_limbs(l: Seq<u64>)
    requires
        l.len() == 4,
    ensures
        spec_limbs_bytes(l).len() == 32,
        spec_limbs_of_bytes(spec_limbs_bytes(l)) == l,
{
    lemma_auto_spec_u64_to_from_le_bytes();
    assert(spec_limbs_bytes(l).subrange(0, 8) =~= spec_u64_to_le_bytes(l[0]));
    assert(spec_limbs_bytes(l).subrange(8, 16) =~= spec_u64_to_le_bytes(l[1]));
    assert(spec_limbs_bytes(l).subrange(16, 24) =~= spec_u64_to_le_bytes(l[2]));
    assert(spec_limbs_bytes(l).subrange(24, 32) =~= spec_u64_to_le_bytes(l[3]));
    assert(spec_limbs_of_bytes(spec_limbs_bytes(l)) =~= l);
}

/// Re-encoding the limbs read from a 32-byte string recovers the string.
pub proof fn lemma_limbs_bytes_of_bytes(s: Seq<u8>)
    requires
        s.len() == 32,
    ensures
        spec_limbs_bytes(spec_limbs_of_bytes(s)) == s,
{
    lemma_auto_spec_u64_to_from_le_bytes();
    assert(spec_limbs_bytes(spec_limbs_of_bytes(s)) =~= s);
}

/// The field layer of the encode-decode round trip: a canonical
/// element's encoding is valid and reads back as the same limbs.
pub proof fn lemma_fe_bytes_round_trip(f: Fe)
    requires
        f.wf(),
    ensures
        spec_fe_bytes(f).len() == 32,
        fe_bytes_valid(spec_fe_bytes(f)),
        spec_limbs_of_bytes(spec_fe_bytes(f)) == f.limbs@,
{
    lemma_limbs_of_bytes_of_limbs(f.limbs@);
}

/// Builds a field element from four little-endian limbs that are known to
/// denote an integer below the modulus.
pub fn fe_from_limbs(l0: u64, l1: u64, l2: u64, l3: u64) -> (r: Fe)
    requires
        limbs_value(seq![l0, l1, l2, l3]) < fe_modulus(),
    ensures
        r.wf(),
        r.limbs@ == seq![l0, l1, l2, l3],
        r.value() == limbs_value(seq![l0, l1, l2, l3]),
{
    let r = Fe { limbs: [l0, l1, l2, l3] };
    proof {
        assert(r.limbs@ =~= seq![l0, l1, l2, l3]);
    }
    r
}

/// Relies on `dusk_bls12_381::BlsScalar`: `from_raw` turns limbs into the
/// congruent field element, `add` adds modulo the prime, and `to_bytes`
/// yields the canonical little-endian encoding of the result.
#[verifier::external_body]
fn fe_add_call(a: &Fe, b: &Fe) -> (r: Fe)
    ensures
        r.wf(),
        r.value() == (a.value() + b.value()) % fe_modulus(),
{
    let s = dusk_bls12_381::BlsScalar::from_raw(a.limbs).add(&dusk_bls12_381::BlsScalar::from_raw(
        b.limbs,
    ));
    let by = s.to_bytes();
    let mut l = [0u64; 4];
    for i in 0..4 {
        let mut w = [0u8; 8];
        w.copy_from_slice(&by[i * 8..i * 8 + 8]);
        l[i] = u64::from_le_bytes(w);
    }
    Fe { limbs: l }
}

/// Relies on `dusk_bls12_381::BlsScalar`: `from_raw`, `sub` (subtraction
/// modulo the prime) and `to_bytes` (canonical little-endian encoding).
#[verifier::external_body]
fn fe_sub_call(a: &Fe, b: &Fe) -> (r: Fe)
    ensures
        r.wf(),
        r.value() == (a.value() - b.value()) % fe_modulus(),
{
    let s = dusk_bls12_381::BlsScalar::from_raw(a.limbs).sub(&dusk_bls12_381::BlsScalar::from_raw(
        b.limbs,
    ));
    let by = s.to_bytes();
    let mut l = [0u64; 4];
    for i in 0..4 {
        let mut w = [0u8; 8];
        w.copy_from_slice(&by[i * 8..i * 8 + 8]);
        l[i] = u64::from_le_bytes(w);
    }
    Fe { limbs: l }
}

/// Relies on `dusk_bls12_381::BlsScalar`: `from_raw`, `mul` (multiplication
/// modulo the prime) and `to_bytes` (canonical little-endian encoding).
#[verifier::external_body]
fn fe_mul_call(a: &Fe, b: &Fe) -> (r: Fe)
    ensures
        r.wf(),
        r.value() == (a.value() * b.value()) % fe_modulus(),
{
    let s = dusk_bls12_381::BlsScalar::from_raw(a.limbs).mul(&dusk_bls12_381::BlsScalar::from_raw(
        b.limbs,
    ));
    let by = s.to_bytes();
    let mut l = [0u64; 4];
    for i in 0..4 {
        let mut w = [0u8; 8];
        w.copy_from_slice(&by[i * 8..i * 8 + 8]);
        l[i] = u64::from_le_bytes(w);
    }
    Fe { limbs: l }
}

/// Relies on `dusk_bls12_381::BlsScalar`: `from_raw`, `square` (squaring
/// modulo the prime) and `to_bytes` (canonical little-endian encoding).
#[verifier::external_body]
fn fe_square_call(a: &Fe) -> (r: Fe)
    ensures
        r.wf(),
        r.value() == (a.value() * a.value()) % fe_modulus(),
{
    let s = dusk_bls12_381::BlsScalar::from_raw(a.limbs).square();
    let by = s.to_bytes();
    let mut l = [0u64; 4];
    for i in 0..4 {
        let mut w = [0u8; 8];
        w.copy_from_slice(&by[i * 8..i * 8 + 8]);
        l[i] = u64::from_le_bytes(w);
    }
    Fe { limbs: l }
}

/// Relies on `dusk_bls12_381::BlsScalar`: `from_raw`, `double` (doubling
/// modulo the prime) and `to_bytes` (canonical little-endian encoding).
#[verifier::external_body]
fn fe_double_call(a: &Fe) -> (r: Fe)
    ensures
        r.wf(),
        r.value() == (a.value() + a.value()) % fe_modulus(),
{
    let s = dusk_bls12_381::BlsScalar::from_raw(a.limbs).double();
    let by = s.to_bytes();
    let mut l = [0u64; 4];
    for i in 0..4 {
        let mut w = [0u8; 8];
        w.copy_from_slice(&by[i * 8..i * 8 + 8]);
        l[i] = u64::from_le_bytes(w);
    }
    Fe { limbs: l }
}

/// Relies on `dusk_bls12_381::BlsScalar`: `from_raw`, `pow_vartime` (raising
/// to the little-endian integer exponent modulo the prime) and `to_bytes`
/// (canonical little-endian encoding).
#[verifier::external_body]
fn fe_pow_call(a: &Fe, e: &[u64; 4]) -> (r: Fe)
    ensures
        r.wf(),
        r.value() == pow(a.value(), limbs_value(e@) as nat) % fe_modulus(),
{
    let s = dusk_bls12_381::BlsScalar::from_raw(a.limbs).pow_vartime(e);
    let by = s.to_bytes();
    let mut l = [0u64; 4];
    for i in 0..4 {
        let mut w = [0u8; 8];
        w.copy_from_slice(&by[i * 8..i * 8 + 8]);
        l[i] = u64::from_le_bytes(w);
    }
    Fe { limbs: l }
}

} // verus!
