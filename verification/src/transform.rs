use vstd::prelude::*;

use crate::accounts::{CreateCrate, MixCrates, SplitCrate, TransferOwnership};
use crate::accounts::{parent_keys, parent_weights};
use crate::error::ErrorCode;
use crate::pubkey::Pubkey;
use crate::record::{CrateRecord, CrateRecordView, OperationType};
use crate::record::{
    lemma_total_weight_bound, lemma_total_weight_prefix, lemma_total_weight_push, total_weight,
};

verus! {

/// The record of a crate that enters the ledger with no predecessor.
pub open spec fn created_record(
    authority: Pubkey,
    crate_id: Seq<char>,
    weight: u32,
    timestamp: i64,
    hash: Seq<char>,
    ipfs_cid: Seq<char>,
) -> CrateRecordView {
    CrateRecordView {
        authority,
        crate_id,
        weight,
        timestamp,
        hash,
        ipfs_cid,
        parent_crates: Seq::empty(),
        child_crates: Seq::empty(),
        parent_weights: Seq::empty(),
        split_distribution: Seq::empty(),
        operation_type: OperationType::Created,
    }
}

/// Enters a crate into the ledger: fills the record set aside for it, owned
/// by whoever asks, with no parents and no children. Nothing is asked of the
/// weight, so this never fails.
pub fn create_crate(
    ctx: &mut CreateCrate,
    crate_id: String,
    weight: u32,
    timestamp: i64,
    hash: String,
    ipfs_cid: String,
) -> (res: Result<(), ErrorCode>)
    ensures
        res is Ok,
        final(ctx).crate_record@ == created_record(
            old(ctx).authority,
            crate_id@,
            weight,
            timestamp,
            hash@,
            ipfs_cid@,
        ),
        final(ctx).authority == old(ctx).authority,
        final(ctx).crate_record@.well_formed(),
{
    ctx.crate_record = CrateRecord {
        authority: ctx.authority,
        crate_id,
        weight,
        timestamp,
        hash,
        ipfs_cid,
        parent_crates: Vec::new(),
        child_crates: Vec::new(),
        parent_weights: Vec::new(),
        split_distribution: Vec::new(),
        operation_type: OperationType::Created,
    };
    Ok(())
}

/// The record of a crate that changed hands: the goods of the parent kept at
/// `parent_key`, at the weight that parent had when it was read.
pub open spec fn transferred_record(
    authority: Pubkey,
    crate_id: Seq<char>,
    timestamp: i64,
    hash: Seq<char>,
    ipfs_cid: Seq<char>,
    parent_key: Pubkey,
    parent_weight: u32,
) -> CrateRecordView {
    CrateRecordView {
        authority,
        crate_id,
        weight: parent_weight,
        timestamp,
        hash,
        ipfs_cid,
        parent_crates: seq![parent_key],
        child_crates: Seq::empty(),
        parent_weights: seq![parent_weight],
        split_distribution: Seq::empty(),
        operation_type: OperationType::Transferred,
    }
}

/// Hands a crate on to whoever asks, neither merged nor divided: accepted
/// only at the weight its parent has. The parent is read, never written; it
/// learns of its child through a later linking call.
pub fn transfer_ownership(
    ctx: &mut TransferOwnership,
    crate_id: String,
    weight: u32,
    timestamp: i64,
    hash: String,
    ipfs_cid: String,
) -> (res: Result<(), ErrorCode>)
    ensures
        res is Ok <==> weight == old(ctx).parent_crate.record.weight,
        res is Err ==> res == Err::<(), ErrorCode>(ErrorCode::WeightMismatchOnTransfer)
            && *final(ctx) == *old(ctx),
        res is Ok ==> {
            &&& final(ctx).crate_record@ == transferred_record(
                old(ctx).authority,
                crate_id@,
                timestamp,
                hash@,
                ipfs_cid@,
                old(ctx).parent_crate.key,
                old(ctx).parent_crate.record.weight,
            )
            &&& final(ctx).authority == old(ctx).authority
            &&& final(ctx).parent_crate == old(ctx).parent_crate
        },
        res is Ok ==> final(ctx).crate_record@.weight == old(ctx).parent_crate.record.weight,
        res is Ok ==> final(ctx).crate_record@.parent_weights == seq![
            old(ctx).parent_crate.record.weight,
        ],
        res is Ok ==> final(ctx).crate_record@.well_formed(),
{
    if weight != ctx.parent_crate.record.weight {
        return Err(ErrorCode::WeightMismatchOnTransfer);
    }
    let mut parent_crates: Vec<Pubkey> = Vec::new();
    parent_crates.push(ctx.parent_crate.key);
    let mut parent_weights: Vec<u32> = Vec::new();
    parent_weights.push(ctx.parent_crate.record.weight);
    ctx.crate_record = CrateRecord {
        authority: ctx.authority,
        crate_id,
        weight,
        timestamp,
        hash,
        ipfs_cid,
        parent_crates,
        child_crates: Vec::new(),
        parent_weights,
        split_distribution: Vec::new(),
        operation_type: OperationType::Transferred,
    };
    Ok(())
}

/// Why a merge of parents with these weights is refused, if it is. The tests
/// are made in this order, and the first that fails decides.
pub open spec fn mix_refusal(parent_weights: Seq<u32>) -> Option<ErrorCode> {
    if parent_weights.len() < 2 {
        Some(ErrorCode::MixRequiresMultipleParents)
    } else if parent_weights.len() > CrateRecord::MAX_PARENTS {
        Some(ErrorCode::TooManyParents)
    } else if total_weight(parent_weights) > u32::MAX {
        Some(ErrorCode::WeightOverflow)
    } else {
        None
    }
}

/// The record of a merge: it weighs what its parents weigh together, and
/// keeps each parent's address and weight in the order given.
pub open spec fn mixed_record(
    authority: Pubkey,
    crate_id: Seq<char>,
    timestamp: i64,
    hash: Seq<char>,
    ipfs_cid: Seq<char>,
    parent_keys: Seq<Pubkey>,
    parent_weights: Seq<u32>,
) -> CrateRecordView {
    CrateRecordView {
        authority,
        crate_id,
        weight: total_weight(parent_weights) as u32,
        timestamp,
        hash,
        ipfs_cid,
        parent_crates: parent_keys,
        child_crates: Seq::empty(),
        parent_weights,
        split_distribution: Seq::empty(),
        operation_type: OperationType::Mixed,
    }
}

/// Merges two to ten crates into one, owned by whoever asks. The new record
/// weighs exactly the sum of its parents; a sum too large for a weight is
/// refused, never cut short. The parents are read, never written.
pub fn mix_crates(
    ctx: &mut MixCrates,
    crate_id: String,
    timestamp: i64,
    hash: String,
    ipfs_cid: String,
) -> (res: Result<(), ErrorCode>)
    ensures
        mix_refusal(parent_weights(old(ctx).parent_crates@)) matches Some(e)
            ==> res == Err::<(), ErrorCode>(e) && *final(ctx) == *old(ctx),
        mix_refusal(parent_weights(old(ctx).parent_crates@)) is None ==> {
            &&& res is Ok
            &&& final(ctx).crate_record@ == mixed_record(
                old(ctx).authority,
                crate_id@,
                timestamp,
                hash@,
                ipfs_cid@,
                parent_keys(old(ctx).parent_crates@),
                parent_weights(old(ctx).parent_crates@),
            )
            &&& final(ctx).authority == old(ctx).authority
            &&& final(ctx).parent_crates == old(ctx).parent_crates
        },
        res is Ok ==> final(ctx).crate_record@.weight == total_weight(
            parent_weights(old(ctx).parent_crates@),
        ),
        res is Ok ==> final(ctx).crate_record@.well_formed(),
{
    let count: usize = ctx.parent_crates.len();
    if count < 2 {
        return Err(ErrorCode::MixRequiresMultipleParents);
    }
    if count > CrateRecord::MAX_PARENTS {
        return Err(ErrorCode::TooManyParents);
    }
    let ghost parents = ctx.parent_crates@;
    let mut total: u32 = 0;
    let mut keys: Vec<Pubkey> = Vec::new();
    let mut weights: Vec<u32> = Vec::new();
    let mut i: usize = 0;
    while i < count
        invariant
            *ctx == *old(ctx),
            parents == ctx.parent_crates@,
            2 <= count <= CrateRecord::MAX_PARENTS,
            i <= count == parents.len(),
            keys@ == parent_keys(parents).take(i as int),
            weights@ == parent_weights(parents).take(i as int),
            total == total_weight(weights@),
        decreases count - i,
    {
        let parent_weight: u32 = ctx.parent_crates[i].record.weight;
        proof {
            lemma_total_weight_push(weights@, parent_weight);
            lemma_total_weight_prefix(parent_weights(parents), i + 1);
            assert(weights@.push(parent_weight) =~= parent_weights(parents).take(i + 1));
        }
        match total.checked_add(parent_weight) {
            Some(sum) => {
                total = sum;
            },
            None => {
                return Err(ErrorCode::WeightOverflow);
            },
        }
        keys.push(ctx.parent_crates[i].key);
        weights.push(parent_weight);
        i += 1;
    }
    proof {
        assert(parent_weights(parents).take(i as int) =~= parent_weights(parents));
        assert(parent_keys(parents).take(i as int) =~= parent_keys(parents));
    }
    ctx.crate_record = CrateRecord {
        authority: ctx.authority,
        crate_id,
        weight: total,
        timestamp,
        hash,
        ipfs_cid,
        parent_crates: keys,
        child_crates: Vec::new(),
        parent_weights: weights,
        split_distribution: Vec::new(),
        operation_type: OperationType::Mixed,
    };
    Ok(())
}

/// Why a division into `child_keys` with shares `child_weights` of a parent
/// weighing `parent_weight` is refused, if it is. The tests are made in this
/// order, and the first that fails decides.
pub open spec fn split_refusal(
    parent_weight: u32,
    child_keys: Seq<Pubkey>,
    child_weights: Seq<u32>,
) -> Option<ErrorCode> {
    if child_keys.len() < 2 {
        Some(ErrorCode::SplitRequiresMultipleChildren)
    } else if child_keys.len() > CrateRecord::MAX_CHILDREN {
        Some(ErrorCode::TooManyChildren)
    } else if child_keys.len() != child_weights.len() {
        Some(ErrorCode::ChildKeyWeightMismatch)
    } else if total_weight(child_weights) != parent_weight {
        Some(ErrorCode::SplitWeightMismatch)
    } else {
        None
    }
}

/// The record of one part of a crate, kept at `parent_key`, that was divided.
/// `weight` is what this part is declared to weigh; it is recorded as given
/// and not held against its share in `child_weights`.
pub open spec fn split_record(
    authority: Pubkey,
    crate_id: Seq<char>,
    weight: u32,
    timestamp: i64,
    hash: Seq<char>,
    ipfs_cid: Seq<char>,
    parent_key: Pubkey,
    parent_weight: u32,
    child_keys: Seq<Pubkey>,
    child_weights: Seq<u32>,
) -> CrateRecordView {
    CrateRecordView {
        authority,
        crate_id,
        weight,
        timestamp,
        hash,
        ipfs_cid,
        parent_crates: seq![parent_key],
        child_crates: child_keys,
        parent_weights: seq![parent_weight],
        split_distribution: child_weights,
        operation_type: OperationType::Split,
    }
}

/// Adds up at most `MAX_CHILDREN` shares without loss.
fn sum_shares(weights: &Vec<u32>) -> (sum: u64)
    requires
        weights@.len() <= CrateRecord::MAX_CHILDREN,
    ensures
        sum == total_weight(weights@),
{
    let mut sum: u64 = 0;
    let mut i: usize = 0;
    while i < weights.len()
        invariant
            i <= weights@.len() <= CrateRecord::MAX_CHILDREN,
            sum == total_weight(weights@.take(i as int)),
        decreases weights@.len() - i,
    {
        proof {
            lemma_total_weight_bound(weights@.take(i as int));
            lemma_total_weight_push(weights@.take(i as int), weights@[i as int]);
            assert(weights@.take(i as int).push(weights@[i as int]) =~= weights@.take(i + 1));
        }
        sum = sum + weights[i] as u64;
        i += 1;
    }
    proof {
        assert(weights@.take(i as int) =~= weights@);
    }
    sum
}

/// Writes the record of one part of a divided crate. The parent's weight
/// must be shared out exactly among two to ten children, one share for each
/// child named. Every part is written by a call of its own, with the same
/// children and shares.
pub fn split_crate(
    ctx: &mut SplitCrate,
    crate_id: String,
    weight: u32,
    timestamp: i64,
    hash: String,
    ipfs_cid: String,
    child_keys: Vec<Pubkey>,
    child_weights: Vec<u32>,
) -> (res: Result<(), ErrorCode>)
    ensures
        split_refusal(old(ctx).parent_crate.record.weight, child_keys@, child_weights@) matches Some(e)
            ==> res == Err::<(), ErrorCode>(e) && *final(ctx) == *old(ctx),
        split_refusal(old(ctx).parent_crate.record.weight, child_keys@, child_weights@) is None ==> {
            &&& res is Ok
            &&& final(ctx).crate_record@ == split_record(
                old(ctx).authority,
                crate_id@,
                weight,
                timestamp,
                hash@,
                ipfs_cid@,
                old(ctx).parent_crate.key,
                old(ctx).parent_crate.record.weight,
                child_keys@,
                child_weights@,
            )
            &&& final(ctx).authority == old(ctx).authority
            &&& final(ctx).parent_crate == old(ctx).parent_crate
        },
        res is Ok ==> total_weight(final(ctx).crate_record@.split_distribution)
            == old(ctx).parent_crate.record.weight,
        res is Ok ==> final(ctx).crate_record@.well_formed(),
{
    if child_keys.len() < 2 {
        return Err(ErrorCode::SplitRequiresMultipleChildren);
    }
    if child_keys.len() > CrateRecord::MAX_CHILDREN {
        return Err(ErrorCode::TooManyChildren);
    }
    if child_keys.len() != child_weights.len() {
        return Err(ErrorCode::ChildKeyWeightMismatch);
    }
    let total_child_weight: u64 = sum_shares(&child_weights);
    if total_child_weight != ctx.parent_crate.record.weight as u64 {
        return Err(ErrorCode::SplitWeightMismatch);
    }
    let mut parent_crates: Vec<Pubkey> = Vec::new();
    parent_crates.push(ctx.parent_crate.key);
    let mut parent_weights: Vec<u32> = Vec::new();
    parent_weights.push(ctx.parent_crate.record.weight);
    ctx.crate_record = CrateRecord {
        authority: ctx.authority,
        crate_id,
        weight,
        timestamp,
        hash,
        ipfs_cid,
        parent_crates,
        child_crates: child_keys,
        parent_weights,
        split_distribution: child_weights,
        operation_type: OperationType::Split,
    };
    Ok(())
}

} // verus!
