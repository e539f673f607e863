//! The decisions of persisting one block: which write comes next, and
//! whether the block is committed or rolled back.
//!
//! The coordinator performs no write itself. It hands out one action at a
//! time; the caller performs it against the store and reports what the
//! store answered.

use crate::db::transaction::{
    account_row, account_row_of, transaction_row, transaction_row_of, AccountRow, AccountRowView,
    TransactionRow, TransactionRowView,
};
use crate::models::transaction::{Transaction, TransactionDB, TransactionDBView, TransactionView};
use vstd::prelude::*;

verus! {

/// How persisting a block ended.
#[derive(Debug, Clone, Copy, PartialEq, Eq, Structural)]
pub enum BlockOutcome {
    /// Every write of the block succeeded and the commit did.
    Committed,
    /// A write failed and the writes of the block were rolled back.
    RolledBack,
    /// The atomic write could not be opened; nothing was written.
    BeginFailed,
    /// Every write succeeded and the commit failed; nothing was kept.
    CommitFailed,
}

/// What the caller is to do next.
#[derive(Debug, Clone, PartialEq, Eq)]
pub enum StoreAction {
    /// Open the atomic write.
    Begin,
    /// Insert a row of the transaction table.
    SaveTransaction(TransactionRow),
    /// Insert a row of the account-balance table.
    SaveAccount(AccountRow),
    Commit,
    Rollback,
    /// Nothing more: the block is done.
    Finished(BlockOutcome),
}

/// What an action holds, as mathematical values.
pub enum StoreActionView {
    Begin,
    SaveTransaction(TransactionRowView),
    SaveAccount(AccountRowView),
    Commit,
    Rollback,
    Finished(BlockOutcome),
}

impl View for StoreAction {
    type V = StoreActionView;

    open spec fn view(&self) -> StoreActionView {
        match self {
            StoreAction::Begin => StoreActionView::Begin,
            StoreAction::SaveTransaction(row) => StoreActionView::SaveTransaction(row@),
            StoreAction::SaveAccount(row) => StoreActionView::SaveAccount(row@),
            StoreAction::Commit => StoreActionView::Commit,
            StoreAction::Rollback => StoreActionView::Rollback,
            StoreAction::Finished(outcome) => StoreActionView::Finished(*outcome),
        }
    }
}

/// What the store answered to the last action.
#[derive(Debug, Clone, PartialEq, Eq)]
pub enum StoreEvent {
    /// The action succeeded.
    Done,
    /// The transaction row was inserted; this is the stored record.
    TransactionSaved(TransactionDB),
    /// A transaction with this signature is stored already; nothing was
    /// inserted.
    Duplicate,
    /// The action failed.
    Failed,
}

/// What an event holds, as mathematical values.
pub enum StoreEventView {
    Done,
    TransactionSaved(TransactionDBView),
    Duplicate,
    Failed,
}

impl View for StoreEvent {
    type V = StoreEventView;

    open spec fn view(&self) -> StoreEventView {
        match self {
            StoreEvent::Done => StoreEventView::Done,
            StoreEvent::TransactionSaved(record) => StoreEventView::TransactionSaved(record@),
            StoreEvent::Duplicate => StoreEventView::Duplicate,
            StoreEvent::Failed => StoreEventView::Failed,
        }
    }
}

/// Where the coordinator stands: the action that is outstanding.
#[derive(Debug, Clone, Copy, PartialEq, Eq, Structural)]
enum Phase {
    Beginning,
    SavingTransaction { index: usize },
    SavingAccount { index: usize, account: usize, transaction_id: i32 },
    Committing,
    RollingBack,
    Finished(BlockOutcome),
}

/// A phase, with positions as mathematical integers.
pub enum PhaseView {
    /// The atomic write is being opened.
    Beginning,
    /// The row of transaction `index` is being inserted.
    SavingTransaction { index: int },
    /// The row of entry `account` of transaction `index`, which is stored
    /// under `transaction_id`, is being inserted.
    SavingAccount { index: int, account: int, transaction_id: int },
    Committing,
    RollingBack,
    Finished(BlockOutcome),
}

impl View for Phase {
    type V = PhaseView;

    closed spec fn view(&self) -> PhaseView {
        match self {
            Phase::Beginning => PhaseView::Beginning,
            Phase::SavingTransaction { index } => PhaseView::SavingTransaction {
                index: *index as int,
            },
            Phase::SavingAccount { index, account, transaction_id } => PhaseView::SavingAccount {
                index: *index as int,
                account: *account as int,
                transaction_id: *transaction_id as int,
            },
            Phase::Committing => PhaseView::Committing,
            Phase::RollingBack => PhaseView::RollingBack,
            Phase::Finished(outcome) => PhaseView::Finished(*outcome),
        }
    }
}

impl PhaseView {
    /// The positions of the phase lie within the block.
    pub open spec fn in_range(self, transactions: Seq<TransactionView>) -> bool {
        match self {
            PhaseView::SavingTransaction { index } => 0 <= index < transactions.len(),
            PhaseView::SavingAccount { index, account, transaction_id } => {
                &&& 0 <= index < transactions.len()
                &&& 0 <= account < transactions[index].accounts.len()
            },
            _ => true,
        }
    }
}

/// The phase in which transaction `index` is taken up: its row is
/// inserted, or, past the last transaction, the block is committed.
pub open spec fn enter_transaction(transactions: Seq<TransactionView>, index: int) -> PhaseView {
    if index < transactions.len() {
        PhaseView::SavingTransaction { index }
    } else {
        PhaseView::Committing
    }
}

/// The phase in which entry `account` of transaction `index` is taken up:
/// its row is inserted, or, past the last entry, the next transaction is
/// taken up.
pub open spec fn enter_account(
    transactions: Seq<TransactionView>,
    index: int,
    account: int,
    transaction_id: int,
) -> PhaseView {
    if account < transactions[index].accounts.len() {
        PhaseView::SavingAccount { index, account, transaction_id }
    } else {
        enter_transaction(transactions, index + 1)
    }
}

/// The phase that follows `phase` once the store has answered `event`.
///
/// A write that succeeds leads to the next write in block order, and the
/// last one to the commit. A transaction that the store holds already is
/// passed over with its entries. Any other answer to a write leads to the
/// rollback.
pub open spec fn next_phase(
    transactions: Seq<TransactionView>,
    phase: PhaseView,
    event: StoreEventView,
) -> PhaseView {
    match phase {
        PhaseView::Beginning => match event {
            StoreEventView::Done => enter_transaction(transactions, 0),
            _ => PhaseView::Finished(BlockOutcome::BeginFailed),
        },
        PhaseView::SavingTransaction { index } => match event {
            StoreEventView::TransactionSaved(record) => match record.id {
                Some(transaction_id) => enter_account(transactions, index, 0, transaction_id),
                None => PhaseView::RollingBack,
            },
            StoreEventView::Duplicate => enter_transaction(transactions, index + 1),
            _ => PhaseView::RollingBack,
        },
        PhaseView::SavingAccount { index, account, transaction_id } => match event {
            StoreEventView::Done => enter_account(transactions, index, account + 1, transaction_id),
            _ => PhaseView::RollingBack,
        },
        PhaseView::Committing => match event {
            StoreEventView::Done => PhaseView::Finished(BlockOutcome::Committed),
            _ => PhaseView::Finished(BlockOutcome::CommitFailed),
        },
        PhaseView::RollingBack => PhaseView::Finished(BlockOutcome::RolledBack),
        PhaseView::Finished(outcome) => PhaseView::Finished(outcome),
    }
}

/// The action that is outstanding in `phase`.
pub open spec fn pending(transactions: Seq<TransactionView>, phase: PhaseView) -> StoreActionView {
    match phase {
        PhaseView::Beginning => StoreActionView::Begin,
        PhaseView::SavingTransaction { index } => StoreActionView::SaveTransaction(
            transaction_row_of(transactions[index]),
        ),
        PhaseView::SavingAccount { index, account, transaction_id } => StoreActionView::SaveAccount(
            account_row_of(transactions[index].accounts[account], transaction_id),
        ),
        PhaseView::Committing => StoreActionView::Commit,
        PhaseView::RollingBack => StoreActionView::Rollback,
        PhaseView::Finished(outcome) => StoreActionView::Finished(outcome),
    }
}

/// Decides, write by write, how the records of one block are persisted.
pub struct PersistenceCoordinator {
    transactions: Vec<Transaction>,
    phase: Phase,
}

impl PersistenceCoordinator {
    #[verifier::type_invariant]
    spec fn positions_in_range(&self) -> bool {
        self.phase@.in_range(self.transactions.deep_view())
    }

    /// The records that are being persisted.
    pub closed spec fn transactions(&self) -> Seq<TransactionView> {
        self.transactions.deep_view()
    }

    /// The phase in which the coordinator stands.
    pub closed spec fn phase(&self) -> PhaseView {
        self.phase@
    }

    /// Takes the records of one block, in block order, and asks for the
    /// atomic write to be opened.
    pub fn begin(transactions: Vec<Transaction>) -> (started: (PersistenceCoordinator, StoreAction))
        ensures
            started.0.transactions() == transactions.deep_view(),
            started.0.phase() == PhaseView::Beginning,
            started.1@ == StoreActionView::Begin,
    {
        (PersistenceCoordinator { transactions, phase: Phase::Beginning }, StoreAction::Begin)
    }

    fn enter_transaction(&self, index: usize) -> (phase: Phase)
        requires
            index <= self.transactions.len(),
        ensures
            phase@ == enter_transaction(self.transactions.deep_view(), index as int),
            phase@.in_range(self.transactions.deep_view()),
    {
        if index < self.transactions.len() {
            Phase::SavingTransaction { index }
        } else {
            Phase::Committing
        }
    }

    fn enter_account(&self, index: usize, account: usize, transaction_id: i32) -> (phase: Phase)
        requires
            index < self.transactions.len(),
            account <= self.transactions[index as int].accounts.len(),
        ensures
            phase@ == enter_account(
                self.transactions.deep_view(),
                index as int,
                account as int,
                transaction_id as int,
            ),
            phase@.in_range(self.transactions.deep_view()),
    {
        if account < self.transactions[index].accounts.len() {
            Phase::SavingAccount { index, account, transaction_id }
        } else {
            self.enter_transaction(index + 1)
        }
    }

    fn pending_action(&self) -> (action: StoreAction)
        requires
            self.phase@.in_range(self.transactions.deep_view()),
        ensures
            action@ == pending(self.transactions.deep_view(), self.phase@),
    {
        match self.phase {
            Phase::Beginning => StoreAction::Begin,
            Phase::SavingTransaction { index } => StoreAction::SaveTransaction(
                transaction_row(&self.transactions[index]),
            ),
            Phase::SavingAccount { index, account, transaction_id } => StoreAction::SaveAccount(
                account_row(&self.transactions[index].accounts[account], transaction_id),
            ),
            Phase::Committing => StoreAction::Commit,
            Phase::RollingBack => StoreAction::Rollback,
            Phase::Finished(outcome) => StoreAction::Finished(outcome),
        }
    }

    /// Takes the store's answer to the outstanding action and gives the
    /// next action.
    pub fn advance(&mut self, event: StoreEvent) -> (action: StoreAction)
        ensures
            final(self).transactions() == old(self).transactions(),
            final(self).phase() == next_phase(old(self).transactions(), old(self).phase(), event@),
            action@ == pending(final(self).transactions(), final(self).phase()),
    {
        proof {
            use_type_invariant(&*self);
            let all = self.transactions.deep_view();
            assert(all.len() == self.transactions.len());
            assert(forall|i: int|
                0 <= i < all.len() ==> (#[trigger] all[i]).accounts.len()
                    == self.transactions[i].accounts.len());
        }
        let next = match self.phase {
            Phase::Beginning => match event {
                StoreEvent::Done => self.enter_transaction(0),
                _ => Phase::Finished(BlockOutcome::BeginFailed),
            },
            Phase::SavingTransaction { index } => match event {
                StoreEvent::TransactionSaved(record) => match record.id {
                    Some(transaction_id) => self.enter_account(index, 0, transaction_id),
                    None => Phase::RollingBack,
                },
                StoreEvent::Duplicate => self.enter_transaction(index + 1),
                _ => Phase::RollingBack,
            },
            Phase::SavingAccount { index, account, transaction_id } => match event {
                StoreEvent::Done => self.enter_account(index, account + 1, transaction_id),
                _ => Phase::RollingBack,
            },
            Phase::Committing => match event {
                StoreEvent::Done => Phase::Finished(BlockOutcome::Committed),
                _ => Phase::Finished(BlockOutcome::CommitFailed),
            },
            Phase::RollingBack => Phase::Finished(BlockOutcome::RolledBack),
            Phase::Finished(outcome) => Phase::Finished(outcome),
        };
        self.phase = next;
        self.pending_action()
    }

    /// How the block ended, once it has.
    pub fn outcome(&self) -> (outcome: Option<BlockOutcome>)
        ensures
            outcome == match self.phase() {
                PhaseView::Finished(ended) => Some(ended),
                _ => None,
            },
    {
        match self.phase {
            Phase::Finished(ended) => Some(ended),
            _ => None,
        }
    }
}

} // verus!
