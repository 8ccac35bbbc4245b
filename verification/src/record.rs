use vstd::prelude::*;

use crate::pubkey::Pubkey;

verus! {

/// Which transformation produced a record.
#[derive(Clone, Copy, Debug, PartialEq, Eq, Structural)]
pub enum OperationType {
    /// Entered the ledger with no predecessor.
    Created,
    /// Changed hands; the goods are those of its single parent.
    Transferred,
    /// The goods of several parents, merged.
    Mixed,
    /// One part of a single parent that was divided.
    Split,
}

/// One crate of goods and its place in the lineage graph.
#[derive(Clone, Debug, PartialEq, Eq)]
pub struct CrateRecord {
    /// Current owner.
    pub authority: Pubkey,
    /// Label chosen by the owner.
    pub crate_id: String,
    /// Weight in grams.
    pub weight: u32,
    /// When the operation took place, as stated by the owner.
    pub timestamp: i64,
    /// Content hash, carried as given.
    pub hash: String,
    /// Content address, carried as given.
    pub ipfs_cid: String,
    /// Addresses of the records this one descends from.
    pub parent_crates: Vec<Pubkey>,
    /// Addresses of the records that descend from this one.
    pub child_crates: Vec<Pubkey>,
    /// Weight of each parent at the moment this record was written.
    pub parent_weights: Vec<u32>,
    /// How a divided parent's weight was shared out among its children.
    pub split_distribution: Vec<u32>,
    /// The operation that wrote this record.
    pub operation_type: OperationType,
}

impl CrateRecord {
    /// Most parents a record may be written with.
    pub const MAX_PARENTS: usize = 10;

    /// Most children a record may be written with.
    pub const MAX_CHILDREN: usize = 10;

    /// Bytes reserved for a stored record: every field at its largest, with
    /// a four-byte length before each text (64 bytes at most) and each list.
    pub const MAX_SIZE: usize = 32                  // authority
        + 4 + 64                                    // crate_id
        + 4                                         // weight
        + 8                                         // timestamp
        + 4 + 64                                    // hash
        + 4 + 64                                    // ipfs_cid
        + 4 + (Self::MAX_PARENTS * 32)              // parent_crates
        + 4 + (Self::MAX_CHILDREN * 32)             // child_crates
        + 4 + (Self::MAX_PARENTS * 4)               // parent_weights
        + 4 + (Self::MAX_CHILDREN * 4)              // split_distribution
        + 1;                                        // operation_type
}

/// A record as contracts speak of it: the same fields, with text and lists as
/// sequences.
#[verifier::ext_equal]
pub struct CrateRecordView {
    pub authority: Pubkey,
    pub crate_id: Seq<char>,
    pub weight: u32,
    pub timestamp: i64,
    pub hash: Seq<char>,
    pub ipfs_cid: Seq<char>,
    pub parent_crates: Seq<Pubkey>,
    pub child_crates: Seq<Pubkey>,
    pub parent_weights: Seq<u32>,
    pub split_distribution: Seq<u32>,
    pub operation_type: OperationType,
}

impl View for CrateRecord {
    type V = CrateRecordView;

    open spec fn view(&self) -> CrateRecordView {
        CrateRecordView {
            authority: self.authority,
            crate_id: self.crate_id@,
            weight: self.weight,
            timestamp: self.timestamp,
            hash: self.hash@,
            ipfs_cid: self.ipfs_cid@,
            parent_crates: self.parent_crates@,
            child_crates: self.child_crates@,
            parent_weights: self.parent_weights@,
            split_distribution: self.split_distribution@,
            operation_type: self.operation_type,
        }
    }
}

/// The sum of a list of weights, as a number without bound.
pub open spec fn total_weight(weights: Seq<u32>) -> nat
    decreases weights.len(),
{
    if weights.len() == 0 {
        0
    } else {
        total_weight(weights.drop_last()) + weights.last() as nat
    }
}

impl CrateRecordView {
    /// The weights in the record add up: against the parents' weights as
    /// they were when the record was written, nothing is gained and nothing
    /// is lost. The linking operations never touch the fields this speaks of.
    pub open spec fn conserves_weight(self) -> bool {
        match self.operation_type {
            OperationType::Created => self.parent_weights.len() == 0,
            OperationType::Transferred => self.parent_weights =~= seq![self.weight],
            OperationType::Mixed => {
                &&& 2 <= self.parent_weights.len() <= CrateRecord::MAX_PARENTS
                &&& self.weight == total_weight(self.parent_weights)
            },
            OperationType::Split => {
                &&& self.parent_weights.len() == 1
                &&& 2 <= self.split_distribution.len() <= CrateRecord::MAX_CHILDREN
                &&& total_weight(self.split_distribution) == self.parent_weights[0]
            },
        }
    }

    /// The lineage lists are those a transformation writes: one parent
    /// address for each weight snapshot, and children only on a part of a
    /// divided crate, one for each share.
    pub open spec fn lineage_as_written(self) -> bool {
        &&& self.parent_crates.len() == self.parent_weights.len()
        &&& match self.operation_type {
            OperationType::Split => self.child_crates.len() == self.split_distribution.len(),
            _ => self.child_crates.len() == 0 && self.split_distribution.len() == 0,
        }
    }

    /// What holds of every record at the moment a transformation writes it.
    pub open spec fn well_formed(self) -> bool {
        self.conserves_weight() && self.lineage_as_written()
    }

    /// Whether two records agree in all that is written once and for all:
    /// everything but the two lists of parents and of children.
    pub open spec fn same_but_for_lineage(self, other: CrateRecordView) -> bool {
        &&& self.authority == other.authority
        &&& self.crate_id == other.crate_id
        &&& self.weight == other.weight
        &&& self.timestamp == other.timestamp
        &&& self.hash == other.hash
        &&& self.ipfs_cid == other.ipfs_cid
        &&& self.parent_weights == other.parent_weights
        &&& self.split_distribution == other.split_distribution
        &&& self.operation_type == other.operation_type
    }
}

/// Appending one weight adds it to the total.
pub proof fn lemma_total_weight_push(weights: Seq<u32>, last: u32)
    ensures
        total_weight(weights.push(last)) == total_weight(weights) + last,
{
    assert(weights.push(last).drop_last() =~= weights);
}

/// No beginning of a list weighs more than the whole list.
pub proof fn lemma_total_weight_prefix(weights: Seq<u32>, n: int)
    requires
        0 <= n <= weights.len(),
    ensures
        total_weight(weights.take(n)) <= total_weight(weights),
    decreases weights.len(),
{
    if n == weights.len() {
        assert(weights.take(n) =~= weights);
    } else {
        lemma_total_weight_prefix(weights.drop_last(), n);
        assert(weights.drop_last().take(n) =~= weights.take(n));
    }
}

/// A list of weights cannot total more than the largest weight times its
/// length.
pub proof fn lemma_total_weight_bound(weights: Seq<u32>)
    ensures
        total_weight(weights) <= weights.len() * u32::MAX,
    decreases weights.len(),
{
    if weights.len() > 0 {
        lemma_total_weight_bound(weights.drop_last());
        assert((weights.len() - 1) * u32::MAX + u32::MAX == weights.len() * u32::MAX)
            by (nonlinear_arith);
    }
}

} // verus!
