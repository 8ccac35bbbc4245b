use vstd::prelude::*;

use crate::pubkey::Pubkey;
use crate::record::CrateRecord;

verus! {

/// An existing record that a new one descends from: the address it is kept
/// at, and the record as read there. A transformation reads it and never
/// writes to it.
#[derive(Clone, Debug, PartialEq, Eq)]
pub struct ParentCrate {
    pub key: Pubkey,
    pub record: CrateRecord,
}

/// What entering a crate into the ledger works on.
#[derive(Clone, Debug, PartialEq, Eq)]
pub struct CreateCrate {
    /// Storage set aside for the new record; the operation fills it.
    pub crate_record: CrateRecord,
    /// Who asks. They become the owner of the new record.
    pub authority: Pubkey,
}

/// What handing a crate on works on.
#[derive(Clone, Debug, PartialEq, Eq)]
pub struct TransferOwnership {
    /// Storage set aside for the new record; the operation fills it.
    pub crate_record: CrateRecord,
    /// Who asks. They become the owner of the new record.
    pub authority: Pubkey,
    /// The crate that is handed on.
    pub parent_crate: ParentCrate,
}

/// What merging several crates into one works on.
#[derive(Clone, Debug, PartialEq, Eq)]
pub struct MixCrates {
    /// Storage set aside for the new record; the operation fills it.
    pub crate_record: CrateRecord,
    /// Who asks. They become the owner of the new record.
    pub authority: Pubkey,
    /// The crates that are merged, in the order they are recorded.
    pub parent_crates: Vec<ParentCrate>,
}

/// What writing one part of a divided crate works on.
#[derive(Clone, Debug, PartialEq, Eq)]
pub struct SplitCrate {
    /// Storage set aside for the new record; the operation fills it.
    pub crate_record: CrateRecord,
    /// Who asks. They become the owner of the new record.
    pub authority: Pubkey,
    /// The crate that is divided.
    pub parent_crate: ParentCrate,
}

/// What recording a parent's children works on.
#[derive(Clone, Debug, PartialEq, Eq)]
pub struct UpdateParent {
    /// The record whose list of children is replaced.
    pub parent_crate: CrateRecord,
    /// Who asks.
    pub authority: Pubkey,
}

/// What recording one more parent of a child works on.
#[derive(Clone, Debug, PartialEq, Eq)]
pub struct UpdateChild {
    /// The record that gains a parent.
    pub child_crate: CrateRecord,
    /// Who asks.
    pub authority: Pubkey,
}

/// The addresses of a list of parents, in order.
pub open spec fn parent_keys(parents: Seq<ParentCrate>) -> Seq<Pubkey> {
    Seq::new(parents.len(), |i: int| parents[i].key)
}

/// The weights of a list of parents as read, in order.
pub open spec fn parent_weights(parents: Seq<ParentCrate>) -> Seq<u32> {
    Seq::new(parents.len(), |i: int| parents[i].record.weight)
}

} // verus!
