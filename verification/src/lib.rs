//! A provenance ledger for physical goods.
//!
//! Each crate of goods has a record: who owns it, what it weighs, and which
//! records it descends from. A record is written once, by one of four
//! transformations (create, transfer, mix, split), and every one of them
//! accounts for the weight exactly: a transfer keeps it, a mix adds its
//! parents up, a split shares one parent out. Two linking operations later
//! enter the back-edges of the lineage graph into records that exist already,
//! and only a record's owner may do that.
//!
//! Every operation works on values handed to it and touches one record. Where
//! the records are kept, and who signed a request, is for the caller to
//! supply.

pub mod accounts;
pub mod error;
pub mod linking;
pub mod pubkey;
pub mod record;
pub mod transform;

pub use accounts::{
    CreateCrate, MixCrates, ParentCrate, SplitCrate, TransferOwnership, UpdateChild, UpdateParent,
};
pub use error::ErrorCode;
pub use linking::{authorize, update_child_parent, update_parent_children};
pub use pubkey::Pubkey;
pub use record::{CrateRecord, OperationType};
pub use transform::{create_crate, mix_crates, split_crate, transfer_ownership};
