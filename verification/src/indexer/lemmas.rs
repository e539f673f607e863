//! What holds of normalization for every block.

use crate::indexer::block::{RawBlockView, RawTransactionView};
use crate::indexer::transaction::{
    classify, contribution, entry_at, movements, movements_upto, normalized_block, normalizes_to,
    positions, skip_at, skip_reason, skipped_entries, walked,
};
use crate::models::transaction::{AccountType, Transaction, TransactionView};
use vstd::prelude::*;

verus! {

/// The role of an account depends only on its position and on the sign of
/// its balance change: the first position is the fee payer; a later one is
/// a sender where the balance fell and a receiver where it rose.
pub proof fn lemma_classification(index: int, change: int, other: int)
    requires
        index >= 0,
        change != 0,
        other != 0,
        (change < 0) == (other < 0),
    ensures
        classify(index, change) == classify(index, other),
        index == 0 ==> classify(index, change) == AccountType::FeePayer,
        index > 0 && change < 0 ==> classify(index, change) == AccountType::Sender,
        index > 0 && change > 0 ==> classify(index, change) == AccountType::Receiver,
        classify(index, change) != AccountType::Other,
{
}

/// The positions among the first `count` whose balance changed, in
/// increasing order.
pub open spec fn changed_positions(pre: Seq<u64>, post: Seq<u64>, count: nat) -> Seq<int> {
    positions(count).filter(|i: int| post[i] != pre[i])
}

proof fn lemma_changed_positions(pre: Seq<u64>, post: Seq<u64>, count: nat)
    ensures
        forall|j: int|
            0 <= j < changed_positions(pre, post, count).len() ==> {
                let i = #[trigger] changed_positions(pre, post, count)[j];
                0 <= i < count && post[i] != pre[i]
            },
        forall|j: int, k: int|
            0 <= j < k < changed_positions(pre, post, count).len() ==> changed_positions(
                pre,
                post,
                count,
            )[j] < changed_positions(pre, post, count)[k],
        forall|i: int|
            0 <= i < count && post[i] != pre[i] ==> changed_positions(pre, post, count).contains(i),
    decreases count,
{
    reveal(Seq::filter);
    let changed = |i: int| post[i] != pre[i];
    if count > 0 {
        let before = (count - 1) as nat;
        lemma_changed_positions(pre, post, before);
        assert(positions(count).drop_last() =~= positions(before));
        let earlier = changed_positions(pre, post, before);
        let all = changed_positions(pre, post, count);
        if changed(before as int) {
            assert(all == earlier.push(before as int));
            assert(all[earlier.len() as int] == before);
            assert forall|i: int| 0 <= i < count && post[i] != pre[i] implies all.contains(i) by {
                if i < before {
                    let j = choose|j: int| 0 <= j < earlier.len() && earlier[j] == i;
                    assert(all[j] == i);
                } else {
                    assert(all[earlier.len() as int] == i);
                }
            }
        } else {
            assert(all == earlier);
        }
    }
}

/// Normalization records exactly the positions whose balance changed.
///
/// The changed positions are the positions that both balance arrays cover
/// and whose two balances differ, each once and in increasing order. The
/// recorded entries stand one for one, and in that order, for the changed
/// positions, and each holds the two balances of its position, their
/// exact difference, and the role and the address of that position.
pub proof fn lemma_movements_exact(pre: Seq<u64>, post: Seq<u64>, addresses: Seq<Seq<char>>)
    ensures
        ({
            let count = walked(pre, post);
            let changed = changed_positions(pre, post, count);
            let recorded = movements(pre, post, addresses);
            &&& forall|i: int| 0 <= i < count && post[i] != pre[i] ==> changed.contains(i)
            &&& forall|j: int|
                0 <= j < changed.len() ==> 0 <= (#[trigger] changed[j]) < count
                    && post[changed[j]] != pre[changed[j]]
            &&& forall|j: int, k: int|
                0 <= j < k < changed.len() ==> (#[trigger] changed[j]) < (#[trigger] changed[k])
            &&& recorded.len() == changed.len()
            &&& forall|j: int|
                0 <= j < recorded.len() ==> #[trigger] recorded[j] == entry_at(
                    pre,
                    post,
                    addresses,
                    changed[j],
                )
            &&& forall|j: int|
                0 <= j < recorded.len() ==> (#[trigger] recorded[j]).balance_change
                    == post[changed[j]] - pre[changed[j]]
        }),
{
    lemma_changed_positions(pre, post, walked(pre, post));
    lemma_movements_upto_exact(pre, post, addresses, walked(pre, post));
}

proof fn lemma_movements_upto_exact(
    pre: Seq<u64>,
    post: Seq<u64>,
    addresses: Seq<Seq<char>>,
    count: nat,
)
    ensures
        movements_upto(pre, post, addresses, count).len() == changed_positions(
            pre,
            post,
            count,
        ).len(),
        forall|j: int|
            0 <= j < movements_upto(pre, post, addresses, count).len()
                ==> #[trigger] movements_upto(pre, post, addresses, count)[j] == entry_at(
                pre,
                post,
                addresses,
                changed_positions(pre, post, count)[j],
            ),
    decreases count,
{
    reveal(Seq::filter);
    if count > 0 {
        let before = (count - 1) as nat;
        lemma_movements_upto_exact(pre, post, addresses, before);
        assert(positions(count).drop_last() =~= positions(before));
    }
}

/// Every recorded entry is well formed. The account at the first position
/// is recorded as the fee payer whenever its balance changed, and it is
/// then the first entry; no other entry is the fee payer.
pub proof fn lemma_movements_well_formed(
    pre: Seq<u64>,
    post: Seq<u64>,
    addresses: Seq<Seq<char>>,
)
    ensures
        forall|j: int|
            0 <= j < movements(pre, post, addresses).len() ==> (#[trigger] movements(
                pre,
                post,
                addresses,
            )[j]).well_formed(),
        forall|j: int|
            0 < j < movements(pre, post, addresses).len() ==> (#[trigger] movements(
                pre,
                post,
                addresses,
            )[j]).account_type != AccountType::FeePayer,
        walked(pre, post) > 0 && post[0] != pre[0] ==> movements(pre, post, addresses).len() > 0
            && movements(pre, post, addresses)[0] == entry_at(pre, post, addresses, 0)
            && movements(pre, post, addresses)[0].account_type == AccountType::FeePayer,
{
    let count = walked(pre, post);
    let moved = movements(pre, post, addresses);
    let changed = changed_positions(pre, post, count);
    lemma_movements_exact(pre, post, addresses);
    lemma_changed_positions(pre, post, count);
    assert forall|j: int| 0 <= j < moved.len() implies (#[trigger] moved[j]).well_formed() by {
        let i = changed[j];
        assert(0 <= i < count && post[i] != pre[i]);
    }
    assert forall|j: int| 0 < j < moved.len() implies (#[trigger] moved[j]).account_type
        != AccountType::FeePayer by {
        let i = changed[j];
        assert(changed[0] < changed[j]);
        assert(0 <= changed[0]);
    }
    if count > 0 && post[0] != pre[0] {
        assert(changed.contains(0));
        let j = choose|j: int| 0 <= j < changed.len() && changed[j] == 0;
        if j > 0 {
            assert(changed[0] < changed[j]);
            assert(0 <= changed[0]);
        }
        assert(moved[0] == entry_at(pre, post, addresses, changed[0]));
    }
}

/// Every record of a block is well formed.
pub proof fn lemma_records_well_formed(block: RawBlockView)
    ensures
        forall|j: int|
            0 <= j < normalized_block(block).len() ==> (#[trigger] normalized_block(
                block,
            )[j]).well_formed(),
{
    let contributes = contribution(block.block_height, block.blockhash, block.block_time);
    let records = normalized_block(block);
    assert forall|j: int| 0 <= j < records.len() implies (#[trigger] records[j]).well_formed() by {
        assert(records.contains(records[j]));
        block.transactions.lemma_filter_map_contains(contributes, records[j]);
        let raw = choose|raw: RawTransactionView| #[trigger]
            block.transactions.contains(raw) && contributes(raw) == Some(records[j]);
        lemma_movements_well_formed(
            raw.meta->0.pre_balances,
            raw.meta->0.post_balances,
            raw.transaction->addresses,
        );
    }
}

/// Normalization is a function of the block: two results for one block
/// hold the same records, or the same refusal.
pub proof fn lemma_normalization_deterministic(
    block: RawBlockView,
    first: Result<Vec<Transaction>, String>,
    second: Result<Vec<Transaction>, String>,
)
    requires
        normalizes_to(block, first),
        normalizes_to(block, second),
    ensures
        first matches Ok(records) ==> (second matches Ok(again) && records.deep_view()
            == again.deep_view()),
        first matches Err(message) ==> (second matches Err(again) && message@ == again@),
{
}

/// Mapping and filtering a sequence in one pass goes through
/// concatenation.
proof fn lemma_filter_map_concat<A, B>(
    left: Seq<A>,
    right: Seq<A>,
    f: spec_fn(A) -> Option<B>,
)
    ensures
        (left + right).filter_map(f) == left.filter_map(f) + right.filter_map(f),
    decreases right.len(),
{
    if right.len() == 0 {
        assert(left + right =~= left);
        assert(left.filter_map(f) + right.filter_map(f) =~= left.filter_map(f));
    } else {
        lemma_filter_map_concat(left, right.drop_last(), f);
        assert((left + right).drop_last() =~= left + right.drop_last());
        assert((left + right).last() == right.last());
        match f(right.last()) {
            Some(b) => {
                assert((left.filter_map(f) + right.drop_last().filter_map(f)) + seq![b]
                    =~= left.filter_map(f) + (right.drop_last().filter_map(f) + seq![b]));
            },
            None => {},
        }
    }
}

/// An entry that is skipped contributes nothing and leaves the records of
/// the entries around it as they are: the block gives the records that it
/// would give without that entry.
pub proof fn lemma_skipped_entry_contributes_nothing(
    block: RawBlockView,
    before: Seq<RawTransactionView>,
    entry: RawTransactionView,
    after: Seq<RawTransactionView>,
)
    requires
        block.transactions == before + seq![entry] + after,
        skip_reason(entry) is Some,
    ensures
        normalized_block(block) == normalized_block(
            RawBlockView { transactions: before + after, ..block },
        ),
{
    let contributes = contribution(block.block_height, block.blockhash, block.block_time);
    lemma_filter_map_concat(before + seq![entry], after, contributes);
    lemma_filter_map_concat(before, seq![entry], contributes);
    lemma_filter_map_concat(before, after, contributes);
    Seq::lemma_filter_map_singleton(entry, contributes);
    assert(before.filter_map(contributes) + Seq::<TransactionView>::empty() =~= before.filter_map(
        contributes,
    ));
}

/// Every entry of a block is accounted for: it gives a record or is
/// listed as skipped, and an entry is listed only with the reason for
/// which it is skipped.
pub proof fn lemma_every_entry_accounted_for(block: RawBlockView)
    ensures
        normalized_block(block).len() + skipped_entries(block).len() == block.transactions.len(),
        forall|j: int|
            0 <= j < skipped_entries(block).len() ==> {
                let listed = #[trigger] skipped_entries(block)[j];
                &&& 0 <= listed.0 < block.transactions.len()
                &&& skip_reason(block.transactions[listed.0]) == Some(listed.1)
            },
{
    lemma_entries_accounted_for_upto(block, block.transactions.len());
    assert(block.transactions.take(block.transactions.len() as int) =~= block.transactions);
}

proof fn lemma_entries_accounted_for_upto(block: RawBlockView, count: nat)
    requires
        count <= block.transactions.len(),
    ensures
        block.transactions.take(count as int).filter_map(
            contribution(block.block_height, block.blockhash, block.block_time),
        ).len() + positions(count).filter_map(skip_at(block.transactions)).len() == count,
        forall|j: int|
            0 <= j < positions(count).filter_map(skip_at(block.transactions)).len() ==> {
                let listed = #[trigger] positions(count).filter_map(
                    skip_at(block.transactions),
                )[j];
                &&& 0 <= listed.0 < count
                &&& skip_reason(block.transactions[listed.0]) == Some(listed.1)
            },
    decreases count,
{
    if count > 0 {
        let before = (count - 1) as nat;
        lemma_entries_accounted_for_upto(block, before);
        assert(positions(count).drop_last() =~= positions(before));
        assert(block.transactions.take(count as int).drop_last() =~= block.transactions.take(
            before as int,
        ));
    }
}

} // verus!
