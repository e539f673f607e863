//! A model of the store, and what the coordinator's decisions mean for it:
//! a block leaves either all of its rows or none.
//!
//! The store of the model is transactional. Rows written inside an atomic
//! write are staged. A commit that succeeds makes them durable; a
//! rollback, or a commit that fails, discards them.

use crate::db::coordinator::{
    enter_account, enter_transaction, next_phase, pending, BlockOutcome, PhaseView,
    StoreActionView, StoreEventView,
};
use crate::db::transaction::{
    account_row_of, transaction_row_of, AccountRowView, TransactionRowView,
};
use crate::models::transaction::{TransactionDBView, TransactionView};
use vstd::prelude::*;

verus! {

/// One row that the store holds.
pub enum Write {
    /// A row of the transaction table, with the identifier that the store
    /// reported for it.
    Transaction { id: Option<int>, row: TransactionRowView },
    /// A row of the account-balance table.
    Account { entry: AccountRowView },
}

/// The rows of the store: those that are durable, and those that the open
/// atomic write has staged.
pub struct Store {
    pub durable: Seq<Write>,
    pub staged: Seq<Write>,
}

/// The store after it has answered `event` to `action`.
pub open spec fn store_after(
    store: Store,
    action: StoreActionView,
    event: StoreEventView,
) -> Store {
    match action {
        StoreActionView::Begin => match event {
            StoreEventView::Done => Store { staged: Seq::empty(), ..store },
            _ => store,
        },
        StoreActionView::SaveTransaction(row) => match event {
            StoreEventView::TransactionSaved(record) => Store {
                staged: store.staged.push(Write::Transaction { id: record.id, row }),
                ..store
            },
            _ => store,
        },
        StoreActionView::SaveAccount(row) => match event {
            StoreEventView::Done => Store {
                staged: store.staged.push(Write::Account { entry: row }),
                ..store
            },
            _ => store,
        },
        StoreActionView::Commit => match event {
            StoreEventView::Done => Store {
                durable: store.durable + store.staged,
                staged: Seq::empty(),
            },
            _ => Store { staged: Seq::empty(), ..store },
        },
        StoreActionView::Rollback => Store { staged: Seq::empty(), ..store },
        StoreActionView::Finished(_) => store,
    }
}

/// Where persisting a block stands: the coordinator's phase and the rows
/// of the store.
pub struct Progress {
    pub phase: PhaseView,
    pub store: Store,
}

/// Persisting the records `transactions` against `store`, as far as the
/// store's answers `events` lead: each answer is given to the action that
/// is outstanding when it comes.
pub open spec fn run(
    transactions: Seq<TransactionView>,
    store: Store,
    events: Seq<StoreEventView>,
) -> Progress
    decreases events.len(),
{
    if events.len() == 0 {
        Progress { phase: PhaseView::Beginning, store }
    } else {
        let before = run(transactions, store, events.drop_last());
        Progress {
            phase: next_phase(transactions, before.phase, events.last()),
            store: store_after(before.store, pending(transactions, before.phase), events.last()),
        }
    }
}

/// The answer `event` is a failure of the write that is outstanding in
/// `phase`.
pub open spec fn write_failed(phase: PhaseView, event: StoreEventView) -> bool {
    match phase {
        PhaseView::SavingTransaction { index } => match event {
            StoreEventView::TransactionSaved(record) => record.id is None,
            StoreEventView::Duplicate => false,
            _ => true,
        },
        PhaseView::SavingAccount { index, account, transaction_id } => event
            != StoreEventView::Done,
        _ => false,
    }
}

/// The positions of the coordinator never leave the block.
pub proof fn lemma_run_in_range(
    transactions: Seq<TransactionView>,
    store: Store,
    events: Seq<StoreEventView>,
)
    ensures
        run(transactions, store, events).phase.in_range(transactions),
    decreases events.len(),
{
    if events.len() > 0 {
        lemma_run_in_range(transactions, store, events.drop_last());
    }
}

/// Atomicity: whatever the store answers, no row of a block becomes
/// durable unless the block was committed.
pub proof fn lemma_uncommitted_block_leaves_no_row(
    transactions: Seq<TransactionView>,
    store: Store,
    events: Seq<StoreEventView>,
)
    ensures
        run(transactions, store, events).phase != PhaseView::Finished(BlockOutcome::Committed)
            ==> run(transactions, store, events).store.durable == store.durable,
    decreases events.len(),
{
    if events.len() > 0 {
        lemma_uncommitted_block_leaves_no_row(transactions, store, events.drop_last());
        lemma_finished_stays(transactions, store, events.drop_last());
    }
}

/// Once a block is finished, further answers change neither its outcome
/// nor the store.
pub proof fn lemma_finished_stays(
    transactions: Seq<TransactionView>,
    store: Store,
    events: Seq<StoreEventView>,
)
    ensures
        forall|event: StoreEventView|
            run(transactions, store, events).phase is Finished ==> #[trigger] run(
                transactions,
                store,
                events.push(event),
            ) == run(transactions, store, events),
{
    assert forall|event: StoreEventView|
        run(transactions, store, events).phase is Finished implies #[trigger] run(
        transactions,
        store,
        events.push(event),
    ) == run(transactions, store, events) by {
        assert(events.push(event).drop_last() =~= events);
    }
}

/// One more answer takes the run one step further.
pub proof fn lemma_run_push(
    transactions: Seq<TransactionView>,
    store: Store,
    events: Seq<StoreEventView>,
    event: StoreEventView,
)
    ensures
        run(transactions, store, events.push(event)) == (Progress {
            phase: next_phase(transactions, run(transactions, store, events).phase, event),
            store: store_after(
                run(transactions, store, events).store,
                pending(transactions, run(transactions, store, events).phase),
                event,
            ),
        }),
{
    assert(events.push(event).drop_last() =~= events);
}

/// A write that fails is never followed by a commit: the next action is
/// the rollback, the block then ends as rolled back, and no row of the
/// block is durable or staged afterward, whatever the store answers from
/// then on.
pub proof fn lemma_failed_write_rolls_back(
    transactions: Seq<TransactionView>,
    store: Store,
    events: Seq<StoreEventView>,
    at: int,
)
    requires
        0 <= at < events.len(),
        write_failed(run(transactions, store, events.take(at)).phase, events[at]),
    ensures
        run(transactions, store, events).store.durable == store.durable,
        events.len() == at + 1 ==> run(transactions, store, events).phase == PhaseView::RollingBack,
        events.len() > at + 1 ==> run(transactions, store, events).phase == PhaseView::Finished(
            BlockOutcome::RolledBack,
        ),
        events.len() > at + 1 ==> run(transactions, store, events).store.staged == Seq::<
            Write,
        >::empty(),
    decreases events.len(),
{
    let earlier = events.drop_last();
    if events.len() == at + 1 {
        assert(earlier =~= events.take(at));
        lemma_uncommitted_block_leaves_no_row(transactions, store, events);
    } else {
        assert(earlier.take(at) =~= events.take(at));
        lemma_failed_write_rolls_back(transactions, store, earlier, at);
    }
}

/// What the store answers while transaction `transaction` is persisted
/// without a failure: that it is stored already, or the stored record and
/// a success for each of its entries.
pub open spec fn answers_for(
    transaction: TransactionView,
    saved: Option<TransactionDBView>,
) -> Seq<StoreEventView> {
    match saved {
        Some(record) => seq![StoreEventView::TransactionSaved(record)] + Seq::new(
            transaction.accounts.len(),
            |i: int| StoreEventView::Done,
        ),
        None => seq![StoreEventView::Duplicate],
    }
}

/// The rows of a transaction in the order in which they are written:
/// none where the store held the transaction already; else its own row,
/// then one row for each of its entries, in their order, under the
/// identifier of the stored record.
pub open spec fn writes_for(transaction: TransactionView, saved: Option<TransactionDBView>) -> Seq<
    Write,
> {
    match saved {
        Some(record) => seq![
            Write::Transaction { id: record.id, row: transaction_row_of(transaction) },
        ] + Seq::new(
            transaction.accounts.len(),
            |i: int|
                Write::Account { entry: account_row_of(transaction.accounts[i], record.id->0) },
        ),
        None => Seq::empty(),
    }
}

/// The store's answers up to the point where the first `count`
/// transactions are persisted without a failure.
pub open spec fn answers_upto(
    transactions: Seq<TransactionView>,
    saved: Seq<Option<TransactionDBView>>,
    count: nat,
) -> Seq<StoreEventView>
    decreases count,
{
    if count == 0 {
        seq![StoreEventView::Done]
    } else {
        answers_upto(transactions, saved, (count - 1) as nat) + answers_for(
            transactions[count - 1],
            saved[count - 1],
        )
    }
}

/// The rows of the first `count` transactions, in the order in which they
/// are written.
pub open spec fn writes_upto(
    transactions: Seq<TransactionView>,
    saved: Seq<Option<TransactionDBView>>,
    count: nat,
) -> Seq<Write>
    decreases count,
{
    if count == 0 {
        Seq::empty()
    } else {
        writes_upto(transactions, saved, (count - 1) as nat) + writes_for(
            transactions[count - 1],
            saved[count - 1],
        )
    }
}

/// `saved` says of each transaction whether the store held it already
/// or stored it, and each stored record has an identifier.
pub open spec fn answers_each(
    transactions: Seq<TransactionView>,
    saved: Seq<Option<TransactionDBView>>,
) -> bool {
    &&& saved.len() == transactions.len()
    &&& forall|k: int|
        0 <= k < saved.len() ==> ((#[trigger] saved[k]) matches Some(record) ==> record.id is Some)
}

proof fn lemma_entries_persisted(
    transactions: Seq<TransactionView>,
    store: Store,
    events: Seq<StoreEventView>,
    index: int,
    record: TransactionDBView,
    count: nat,
)
    requires
        0 <= index < transactions.len(),
        record.id is Some,
        count <= transactions[index].accounts.len(),
        run(transactions, store, events).phase == (PhaseView::SavingTransaction { index }),
    ensures
        run(
            transactions,
            store,
            events + seq![StoreEventView::TransactionSaved(record)] + Seq::new(
                count,
                |i: int| StoreEventView::Done,
            ),
        ) == (Progress {
            phase: enter_account(transactions, index, count as int, record.id->0),
            store: Store {
                staged: run(transactions, store, events).store.staged + seq![
                    Write::Transaction {
                        id: record.id,
                        row: transaction_row_of(transactions[index]),
                    },
                ] + Seq::new(
                    count,
                    |i: int|
                        Write::Account {
                            entry: account_row_of(transactions[index].accounts[i], record.id->0),
                        },
                ),
                ..run(transactions, store, events).store
            },
        }),
    decreases count,
{
    let saved = StoreEventView::TransactionSaved(record);
    let before = run(transactions, store, events);
    let row = Write::Transaction { id: record.id, row: transaction_row_of(transactions[index]) };
    let entry = |i: int|
        Write::Account { entry: account_row_of(transactions[index].accounts[i], record.id->0) };
    let done = |i: int| StoreEventView::Done;
    if count == 0 {
        lemma_run_push(transactions, store, events, saved);
        assert(events + seq![saved] + Seq::new(0, done) =~= events.push(saved));
        assert(before.store.staged + seq![row] + Seq::new(0, entry) =~= before.store.staged.push(
            row,
        ));
    } else {
        let fewer = (count - 1) as nat;
        lemma_entries_persisted(transactions, store, events, index, record, fewer);
        let earlier = events + seq![saved] + Seq::new(fewer, done);
        lemma_run_push(transactions, store, earlier, StoreEventView::Done);
        assert(events + seq![saved] + Seq::new(count, done) =~= earlier.push(StoreEventView::Done));
        assert(before.store.staged + seq![row] + Seq::new(count, entry) =~= (before.store.staged
            + seq![row] + Seq::new(fewer, entry)).push(entry(fewer as int)));
    }
}

proof fn lemma_transactions_persisted(
    transactions: Seq<TransactionView>,
    store: Store,
    saved: Seq<Option<TransactionDBView>>,
    count: nat,
)
    requires
        answers_each(transactions, saved),
        count <= transactions.len(),
    ensures
        run(transactions, store, answers_upto(transactions, saved, count)) == (Progress {
            phase: enter_transaction(transactions, count as int),
            store: Store {
                durable: store.durable,
                staged: writes_upto(transactions, saved, count),
            },
        }),
    decreases count,
{
    if count == 0 {
        lemma_run_push(transactions, store, Seq::empty(), StoreEventView::Done);
        assert(seq![StoreEventView::Done] =~= Seq::<StoreEventView>::empty().push(
            StoreEventView::Done,
        ));
    } else {
        let index = count - 1;
        let earlier = answers_upto(transactions, saved, index as nat);
        lemma_transactions_persisted(transactions, store, saved, index as nat);
        match saved[index] {
            Some(record) => {
                lemma_entries_persisted(
                    transactions,
                    store,
                    earlier,
                    index,
                    record,
                    transactions[index].accounts.len(),
                );
                assert(earlier + answers_for(transactions[index], saved[index]) =~= earlier
                    + seq![StoreEventView::TransactionSaved(record)] + Seq::new(
                    transactions[index].accounts.len(),
                    |i: int| StoreEventView::Done,
                ));
                let staged = writes_upto(transactions, saved, index as nat);
                assert(staged + writes_for(transactions[index], saved[index]) =~= staged + seq![
                    Write::Transaction {
                        id: record.id,
                        row: transaction_row_of(transactions[index]),
                    },
                ] + Seq::new(
                    transactions[index].accounts.len(),
                    |i: int|
                        Write::Account {
                            entry: account_row_of(transactions[index].accounts[i], record.id->0),
                        },
                ));
            },
            None => {
                lemma_run_push(transactions, store, earlier, StoreEventView::Duplicate);
                assert(earlier + seq![StoreEventView::Duplicate] =~= earlier.push(
                    StoreEventView::Duplicate,
                ));
                let staged = writes_upto(transactions, saved, index as nat);
                assert(staged + Seq::<Write>::empty() =~= staged);
            },
        }
    }
}

/// A block persisted without a failure is committed whole: where the
/// store opens the atomic write, answers every transaction by storing it
/// or by reporting that it holds it already, stores every entry of the
/// transactions it stored, and commits, the block ends as committed, and
/// the store then holds, after the rows it held before, the rows of the
/// stored transactions, in block order, each followed by the rows of its
/// entries in their order.
pub proof fn lemma_block_without_failure_commits(
    transactions: Seq<TransactionView>,
    store: Store,
    saved: Seq<Option<TransactionDBView>>,
)
    requires
        answers_each(transactions, saved),
    ensures
        run(
            transactions,
            store,
            answers_upto(transactions, saved, transactions.len()).push(StoreEventView::Done),
        ) == (Progress {
            phase: PhaseView::Finished(BlockOutcome::Committed),
            store: Store {
                durable: store.durable + writes_upto(transactions, saved, transactions.len()),
                staged: Seq::empty(),
            },
        }),
{
    lemma_transactions_persisted(transactions, store, saved, transactions.len());
    lemma_run_push(
        transactions,
        store,
        answers_upto(transactions, saved, transactions.len()),
        StoreEventView::Done,
    );
}

/// A block whose transactions the store all holds already is committed
/// and adds no row: delivering a block again changes nothing.
pub proof fn lemma_redelivery_adds_no_row(
    transactions: Seq<TransactionView>,
    store: Store,
    saved: Seq<Option<TransactionDBView>>,
)
    requires
        saved.len() == transactions.len(),
        forall|k: int| 0 <= k < saved.len() ==> (#[trigger] saved[k]) is None,
    ensures
        run(
            transactions,
            store,
            answers_upto(transactions, saved, transactions.len()).push(StoreEventView::Done),
        ) == (Progress {
            phase: PhaseView::Finished(BlockOutcome::Committed),
            store: Store { durable: store.durable, staged: Seq::empty() },
        }),
{
    lemma_block_without_failure_commits(transactions, store, saved);
    lemma_no_writes_for_duplicates(transactions, saved, transactions.len());
    assert(store.durable + Seq::<Write>::empty() =~= store.durable);
}

proof fn lemma_no_writes_for_duplicates(
    transactions: Seq<TransactionView>,
    saved: Seq<Option<TransactionDBView>>,
    count: nat,
)
    requires
        count <= saved.len(),
        forall|k: int| 0 <= k < saved.len() ==> (#[trigger] saved[k]) is None,
    ensures
        writes_upto(transactions, saved, count) == Seq::<Write>::empty(),
    decreases count,
{
    if count > 0 {
        lemma_no_writes_for_duplicates(transactions, saved, (count - 1) as nat);
        assert(saved[count - 1] is None);
        assert(Seq::<Write>::empty() + Seq::<Write>::empty() =~= Seq::<Write>::empty());
    }
}

/// Some transaction row among `rows` has the signature `signature`.
pub open spec fn holds_signature(rows: Seq<Write>, signature: Seq<char>) -> bool {
    exists|i: int|
        0 <= i < rows.len() && (#[trigger] rows[i]) is Transaction && rows[i]->row.signature
            == signature
}

/// No two transaction rows among `rows` have the same signature.
pub open spec fn signatures_unique(rows: Seq<Write>) -> bool {
    forall|i: int, j: int|
        0 <= i < j < rows.len() && (#[trigger] rows[i]) is Transaction && (#[trigger] rows[j])
            is Transaction ==> rows[i]->row.signature != rows[j]->row.signature
}

/// The store keeps signatures unique: along the run, it never answers
/// that it stored a transaction whose signature one of its rows, durable
/// or staged, has already.
pub open spec fn refuses_stored_signatures(
    transactions: Seq<TransactionView>,
    store: Store,
    events: Seq<StoreEventView>,
) -> bool
    decreases events.len(),
{
    events.len() > 0 ==> {
        let before = run(transactions, store, events.drop_last());
        &&& refuses_stored_signatures(transactions, store, events.drop_last())
        &&& before.phase is SavingTransaction && events.last() is TransactionSaved
            ==> !holds_signature(
            before.store.durable + before.store.staged,
            transactions[before.phase->SavingTransaction_index].signature,
        )
    }
}

/// No second row for a signature: against a store that keeps signatures
/// unique, whatever block is persisted and however it ends, no two
/// durable transaction rows have the same signature. A transaction that
/// is delivered again leaves the one row it had.
pub proof fn lemma_signatures_stay_unique(
    transactions: Seq<TransactionView>,
    store: Store,
    events: Seq<StoreEventView>,
)
    requires
        signatures_unique(store.durable),
        refuses_stored_signatures(transactions, store, events),
    ensures
        signatures_unique(run(transactions, store, events).store.durable),
        run(transactions, store, events).phase is SavingTransaction || run(
            transactions,
            store,
            events,
        ).phase is SavingAccount || run(transactions, store, events).phase is Committing
            ==> signatures_unique(
            run(transactions, store, events).store.durable + run(
                transactions,
                store,
                events,
            ).store.staged,
        ),
    decreases events.len(),
{
    if events.len() > 0 {
        let earlier = events.drop_last();
        lemma_signatures_stay_unique(transactions, store, earlier);
        lemma_run_in_range(transactions, store, earlier);
        let before = run(transactions, store, earlier);
        let after = run(transactions, store, events);
        let held = before.store.durable + before.store.staged;
        match before.phase {
            PhaseView::Beginning => {
                assert(before.store.durable + Seq::<Write>::empty() =~= before.store.durable);
            },
            PhaseView::SavingTransaction { index } => {
                if events.last() is TransactionSaved {
                    let row = Write::Transaction {
                        id: events.last()->TransactionSaved_0.id,
                        row: transaction_row_of(transactions[index]),
                    };
                    let grown = after.store.durable + after.store.staged;
                    assert(grown =~= held.push(row));
                    assert forall|i: int, j: int|
                        0 <= i < j < grown.len() && (#[trigger] grown[i]) is Transaction
                            && (#[trigger] grown[j]) is Transaction implies grown[i]->row.signature
                        != grown[j]->row.signature by {
                        if j == held.len() {
                            assert(held[i] is Transaction);
                        } else {
                            assert(held[i] is Transaction && held[j] is Transaction);
                        }
                    }
                }
            },
            PhaseView::SavingAccount { index, account, transaction_id } => {
                if events.last() == StoreEventView::Done {
                    let grown = after.store.durable + after.store.staged;
                    assert(grown =~= held.push(grown.last()));
                    assert forall|i: int, j: int|
                        0 <= i < j < grown.len() && (#[trigger] grown[i]) is Transaction
                            && (#[trigger] grown[j]) is Transaction implies grown[i]->row.signature
                        != grown[j]->row.signature by {
                        assert(held[i] is Transaction && held[j] is Transaction);
                    }
                }
            },
            _ => {},
        }
    }
}

} // verus!
