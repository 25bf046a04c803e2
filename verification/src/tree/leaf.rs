//! The capability a payload type must offer to be stored as a leaf of the
//! tree.

use vstd::prelude::*;

use crate::field::Fe;

verus! {

/// A struct that will be used as a tree leaf must implement this trait.
///
/// After a push, `set_pos` is called once to record the index of the leaf
/// on the tree.
pub trait ArionLeaf {
    /// The leaf's own hash; its value is used as the leaf's contribution
    /// to the Merkle digests above it.
    fn arion_hash(&self) -> Fe;

    /// The index of the leaf on the tree.
    fn pos(&self) -> &u64;

    /// Records the index of the leaf on the tree; called once by the tree
    /// when the leaf is inserted.
    fn set_pos(&mut self, pos: u64);
}

} // verus!
