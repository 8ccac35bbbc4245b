use vstd::prelude::*;

use crate::accounts::{UpdateChild, UpdateParent};
use crate::error::ErrorCode;
use crate::pubkey::Pubkey;
use crate::record::{CrateRecord, CrateRecordView};

verus! {

/// The one test that guards every change to a stored record: only its owner
/// may change it.
pub fn authorize(signer: &Pubkey, record: &CrateRecord) -> (res: Result<(), ErrorCode>)
    ensures
        res is Ok <==> *signer == record.authority,
        res is Err ==> res == Err::<(), ErrorCode>(ErrorCode::UnauthorizedUpdate),
{
    if *signer == record.authority {
        Ok(())
    } else {
        Err(ErrorCode::UnauthorizedUpdate)
    }
}

/// `record` with its list of children replaced by `child_keys`.
pub open spec fn with_children(record: CrateRecordView, child_keys: Seq<Pubkey>) -> CrateRecordView {
    CrateRecordView { child_crates: child_keys, ..record }
}

/// `parents` with `parent_key` at the end, unless it is among them already.
pub open spec fn link_parent(parents: Seq<Pubkey>, parent_key: Pubkey) -> Seq<Pubkey> {
    if parents.contains(parent_key) {
        parents
    } else {
        parents.push(parent_key)
    }
}

/// `record` with `parent_key` among its parents.
pub open spec fn with_parent(record: CrateRecordView, parent_key: Pubkey) -> CrateRecordView {
    CrateRecordView { parent_crates: link_parent(record.parent_crates, parent_key), ..record }
}

/// Whether `key` is one of `keys`.
fn contains_key(keys: &Vec<Pubkey>, key: &Pubkey) -> (found: bool)
    ensures
        found == keys@.contains(*key),
{
    let mut i: usize = 0;
    while i < keys.len()
        invariant
            i <= keys@.len(),
            forall|j: int| 0 <= j < i ==> keys@[j] != *key,
        decreases keys@.len() - i,
    {
        if keys[i] == *key {
            return true;
        }
        i += 1;
    }
    false
}

/// Lets a parent record its children: replaces the whole list with
/// `child_keys`, so the caller passes every child, not only new ones. Only
/// the parent's owner may do this; for anyone else the record stays as it was.
pub fn update_parent_children(
    ctx: &mut UpdateParent,
    child_keys: Vec<Pubkey>,
) -> (res: Result<(), ErrorCode>)
    ensures
        res is Ok <==> old(ctx).authority == old(ctx).parent_crate.authority,
        res is Err ==> res == Err::<(), ErrorCode>(ErrorCode::UnauthorizedUpdate)
            && *final(ctx) == *old(ctx),
        res is Ok ==> final(ctx).authority == old(ctx).authority,
        res is Ok ==> final(ctx).parent_crate@ == with_children(old(ctx).parent_crate@, child_keys@),
        final(ctx).parent_crate@.same_but_for_lineage(old(ctx).parent_crate@),
        final(ctx).parent_crate@.parent_crates == old(ctx).parent_crate@.parent_crates,
        final(ctx).parent_crate@.conserves_weight() == old(ctx).parent_crate@.conserves_weight(),
{
    authorize(&ctx.authority, &ctx.parent_crate)?;
    ctx.parent_crate.child_crates = child_keys;
    Ok(())
}

/// Lets a child record one more parent: `parent_key` is added at the end of
/// its parents unless it is there already. Only the child's owner may do
/// this; for anyone else the record stays as it was.
pub fn update_child_parent(
    ctx: &mut UpdateChild,
    parent_key: Pubkey,
) -> (res: Result<(), ErrorCode>)
    ensures
        res is Ok <==> old(ctx).authority == old(ctx).child_crate.authority,
        res is Err ==> res == Err::<(), ErrorCode>(ErrorCode::UnauthorizedUpdate)
            && *final(ctx) == *old(ctx),
        res is Ok ==> final(ctx).authority == old(ctx).authority,
        res is Ok ==> final(ctx).child_crate@ == with_parent(old(ctx).child_crate@, parent_key),
        final(ctx).child_crate@.same_but_for_lineage(old(ctx).child_crate@),
        final(ctx).child_crate@.child_crates == old(ctx).child_crate@.child_crates,
        final(ctx).child_crate@.conserves_weight() == old(ctx).child_crate@.conserves_weight(),
{
    authorize(&ctx.authority, &ctx.child_crate)?;
    if !contains_key(&ctx.child_crate.parent_crates, &parent_key) {
        ctx.child_crate.parent_crates.push(parent_key);
    }
    Ok(())
}

/// How many times `key` stands in `keys`.
pub open spec fn occurrences(keys: Seq<Pubkey>, key: Pubkey) -> nat
    decreases keys.len(),
{
    if keys.len() == 0 {
        0
    } else if keys.last() == key {
        occurrences(keys.drop_last(), key) + 1
    } else {
        occurrences(keys.drop_last(), key)
    }
}

/// A key stands in a list at least once exactly when the list contains it.
pub proof fn lemma_occurrences_contains(keys: Seq<Pubkey>, key: Pubkey)
    ensures
        occurrences(keys, key) > 0 <==> keys.contains(key),
    decreases keys.len(),
{
    if keys.len() > 0 {
        lemma_occurrences_contains(keys.drop_last(), key);
        if keys.last() == key {
            assert(keys[keys.len() - 1] == key);
        } else if keys.contains(key) {
            let i = choose|i: int| 0 <= i < keys.len() && keys[i] == key;
            assert(keys.drop_last()[i] == key);
        } else if keys.drop_last().contains(key) {
            let i = choose|i: int| 0 <= i < keys.drop_last().len() && keys.drop_last()[i] == key;
            assert(keys[i] == key);
        }
    }
}

/// Recording a parent a second time changes nothing: the record after two
/// calls with the same parent is the record after one. The owner is the same
/// after the first call, so whoever was let in once is let in again.
pub proof fn lemma_update_child_parent_idempotent(child: CrateRecordView, parent_key: Pubkey)
    ensures
        with_parent(child, parent_key).authority == child.authority,
        with_parent(child, parent_key).parent_crates.contains(parent_key),
        with_parent(with_parent(child, parent_key), parent_key) == with_parent(child, parent_key),
{
    let once = link_parent(child.parent_crates, parent_key);
    if !child.parent_crates.contains(parent_key) {
        assert(once[once.len() - 1] == parent_key);
    }
}

/// After recording a parent twice, the child lists it exactly once, provided
/// it did not list it several times to begin with.
pub proof fn lemma_update_child_parent_links_once(child: CrateRecordView, parent_key: Pubkey)
    requires
        occurrences(child.parent_crates, parent_key) <= 1,
    ensures
        occurrences(
            with_parent(with_parent(child, parent_key), parent_key).parent_crates,
            parent_key,
        ) == 1,
{
    lemma_update_child_parent_idempotent(child, parent_key);
    lemma_occurrences_contains(child.parent_crates, parent_key);
    if !child.parent_crates.contains(parent_key) {
        assert(child.parent_crates.push(parent_key).drop_last() =~= child.parent_crates);
    }
}

/// The linking operations change the lineage lists and nothing else: what a
/// transformation wrote of weights, labels, owner and kind stays, and with it
/// the conservation of weight. Each of the two changes one list and leaves
/// the other alone.
pub proof fn lemma_linking_keeps_what_was_written(
    record: CrateRecordView,
    child_keys: Seq<Pubkey>,
    parent_key: Pubkey,
)
    ensures
        with_children(record, child_keys).same_but_for_lineage(record),
        with_children(record, child_keys).parent_crates == record.parent_crates,
        with_children(record, child_keys).conserves_weight() == record.conserves_weight(),
        with_parent(record, parent_key).same_but_for_lineage(record),
        with_parent(record, parent_key).child_crates == record.child_crates,
        with_parent(record, parent_key).conserves_weight() == record.conserves_weight(),
{
}

} // verus!
