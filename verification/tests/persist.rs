use solana_indexer::db::coordinator::{
    BlockOutcome, PersistenceCoordinator, StoreAction, StoreEvent,
};
use solana_indexer::db::transaction::{account_row, transaction_row, AccountRow, TransactionRow};
use solana_indexer::models::transaction::{
    AccountBalance, AccountType, Transaction, TransactionDB,
};

/// A store in memory with the two tables, a unique signature, and atomic
/// writes. It can be told to fail the n-th action of an atomic write.
#[derive(Debug, Clone, PartialEq, Default)]
struct MemoryStore {
    transactions: Vec<(i32, TransactionRow)>,
    accounts: Vec<AccountRow>,
    staged_transactions: Vec<(i32, TransactionRow)>,
    staged_accounts: Vec<AccountRow>,
    next_id: i32,
    fail_at: Option<usize>,
    performed: usize,
    without_id: bool,
}

impl MemoryStore {
    fn durable(&self) -> (Vec<(i32, TransactionRow)>, Vec<AccountRow>) {
        (self.transactions.clone(), self.accounts.clone())
    }

    fn perform(&mut self, action: &StoreAction) -> StoreEvent {
        let position = self.performed;
        self.performed += 1;
        let fails = self.fail_at == Some(position);
        match action {
            StoreAction::Begin => {
                self.staged_transactions.clear();
                self.staged_accounts.clear();
                if fails { StoreEvent::Failed } else { StoreEvent::Done }
            },
            StoreAction::SaveTransaction(row) => {
                if fails {
                    return StoreEvent::Failed;
                }
                let known = self
                    .transactions
                    .iter()
                    .chain(self.staged_transactions.iter())
                    .any(|(_, held)| held.signature == row.signature);
                if known {
                    return StoreEvent::Duplicate;
                }
                self.next_id += 1;
                self.staged_transactions.push((self.next_id, row.clone()));
                StoreEvent::TransactionSaved(TransactionDB {
                    id: if self.without_id { None } else { Some(self.next_id) },
                    signature: row.signature.clone(),
                    block_height: row.block_height,
                    block_hash: row.block_hash.clone(),
                    block_time: row.block_time,
                    success: row.success,
                    fee: row.fee,
                    created_at: Some(0),
                })
            },
            StoreAction::SaveAccount(row) => {
                if fails {
                    return StoreEvent::Failed;
                }
                self.staged_accounts.push(row.clone());
                StoreEvent::Done
            },
            StoreAction::Commit => {
                if fails {
                    self.staged_transactions.clear();
                    self.staged_accounts.clear();
                    return StoreEvent::Failed;
                }
                self.transactions.append(&mut self.staged_transactions);
                self.accounts.append(&mut self.staged_accounts);
                StoreEvent::Done
            },
            StoreAction::Rollback => {
                self.staged_transactions.clear();
                self.staged_accounts.clear();
                if fails { StoreEvent::Failed } else { StoreEvent::Done }
            },
            StoreAction::Finished(_) => StoreEvent::Done,
        }
    }
}

fn persist(
    store: &mut MemoryStore,
    transactions: Vec<Transaction>,
) -> (BlockOutcome, Vec<StoreAction>) {
    store.performed = 0;
    let (mut coordinator, mut action) = PersistenceCoordinator::begin(transactions);
    let mut actions = Vec::new();
    for _ in 0..10_000 {
        actions.push(action.clone());
        if let StoreAction::Finished(outcome) = action {
            assert_eq!(coordinator.outcome(), Some(outcome));
            return (outcome, actions);
        }
        assert_eq!(coordinator.outcome(), None);
        let event = store.perform(&action);
        action = coordinator.advance(event);
    }
    panic!("the block did not finish");
}

fn account(address: &str, pre: i64, post: i64, account_type: AccountType) -> AccountBalance {
    AccountBalance {
        address: address.to_string(),
        pre_balance: pre,
        post_balance: post,
        balance_change: post - pre,
        account_type,
    }
}

fn transaction(signature: &str, accounts: Vec<AccountBalance>) -> Transaction {
    Transaction {
        signature: signature.to_string(),
        block_height: Some(100),
        block_hash: "hash".to_string(),
        block_time: Some(1_700_000_000),
        success: true,
        fee: 100,
        accounts,
    }
}

fn sample_block() -> Vec<Transaction> {
    vec![
        transaction(
            "sig1",
            vec![
                account("alice", 1000, 900, AccountType::FeePayer),
                account("bob", 500, 600, AccountType::Receiver),
            ],
        ),
        transaction("sig2", vec![]),
        transaction("sig3", vec![account("carol", 10, 4, AccountType::FeePayer)]),
    ]
}

/// The actions of `sample_block` when nothing fails: 1 to open, 6 rows,
/// 1 to commit.
const SAMPLE_ACTIONS: usize = 8;

#[test]
fn row_of_a_transaction_holds_its_fields() {
    let row = transaction_row(&sample_block()[0]);
    assert_eq!(
        row,
        TransactionRow {
            signature: "sig1".to_string(),
            block_height: Some(100),
            block_time: Some(1_700_000_000),
            block_hash: "hash".to_string(),
            success: true,
            fee: 100,
        }
    );
}

#[test]
fn row_of_an_account_holds_its_fields_and_the_stored_role() {
    let row = account_row(&account("bob", 500, 600, AccountType::Receiver), 17);
    assert_eq!(
        row,
        AccountRow {
            address: "bob".to_string(),
            pre_balance: 500,
            post_balance: 600,
            balance_change: 100,
            account_type: "receiver".to_string(),
            transaction_id: 17,
        }
    );
    let payer = account_row(&account("a", 2, 1, AccountType::FeePayer), 1);
    assert_eq!(payer.account_type, "fee_payer");
    assert_eq!(account_row(&account("a", 2, 1, AccountType::Sender), 1).account_type, "sender");
    assert_eq!(account_row(&account("a", 2, 1, AccountType::Other), 1).account_type, "other");
}

#[test]
fn block_is_written_in_order_and_committed() {
    let mut store = MemoryStore::default();
    let block = sample_block();
    let (outcome, actions) = persist(&mut store, block.clone());
    assert_eq!(outcome, BlockOutcome::Committed);
    assert_eq!(
        actions,
        vec![
            StoreAction::Begin,
            StoreAction::SaveTransaction(transaction_row(&block[0])),
            StoreAction::SaveAccount(account_row(&block[0].accounts[0], 1)),
            StoreAction::SaveAccount(account_row(&block[0].accounts[1], 1)),
            StoreAction::SaveTransaction(transaction_row(&block[1])),
            StoreAction::SaveTransaction(transaction_row(&block[2])),
            StoreAction::SaveAccount(account_row(&block[2].accounts[0], 3)),
            StoreAction::Commit,
            StoreAction::Finished(BlockOutcome::Committed),
        ]
    );
    assert_eq!(
        store.transactions,
        vec![
            (1, transaction_row(&block[0])),
            (2, transaction_row(&block[1])),
            (3, transaction_row(&block[2])),
        ]
    );
    assert_eq!(
        store.accounts,
        vec![
            account_row(&block[0].accounts[0], 1),
            account_row(&block[0].accounts[1], 1),
            account_row(&block[2].accounts[0], 3),
        ]
    );
}

#[test]
fn empty_block_is_opened_and_committed() {
    let mut store = MemoryStore::default();
    let (outcome, actions) = persist(&mut store, vec![]);
    assert_eq!(outcome, BlockOutcome::Committed);
    assert_eq!(
        actions,
        vec![
            StoreAction::Begin,
            StoreAction::Commit,
            StoreAction::Finished(BlockOutcome::Committed),
        ]
    );
    assert_eq!(store.durable(), (vec![], vec![]));
}

#[test]
fn failed_insert_leaves_no_row_of_the_block() {
    let mut earlier = MemoryStore::default();
    let old = transaction("old", vec![account("z", 3, 1, AccountType::FeePayer)]);
    persist(&mut earlier, vec![old]);
    let before = earlier.durable();
    for failing in 1..SAMPLE_ACTIONS - 1 {
        let mut store = earlier.clone();
        store.fail_at = Some(failing);
        let (outcome, actions) = persist(&mut store, sample_block());
        assert_eq!(outcome, BlockOutcome::RolledBack);
        assert_eq!(actions.len(), failing + 3);
        assert_eq!(actions[failing + 1], StoreAction::Rollback);
        assert!(!actions.contains(&StoreAction::Commit));
        assert_eq!(store.durable(), before);
        assert!(store.staged_transactions.is_empty() && store.staged_accounts.is_empty());
    }
}

#[test]
fn failed_begin_writes_nothing() {
    let mut store = MemoryStore::default();
    store.fail_at = Some(0);
    let (outcome, actions) = persist(&mut store, sample_block());
    assert_eq!(outcome, BlockOutcome::BeginFailed);
    assert_eq!(actions, vec![StoreAction::Begin, StoreAction::Finished(BlockOutcome::BeginFailed)]);
    assert_eq!(store.durable(), (vec![], vec![]));
}

#[test]
fn failed_commit_keeps_nothing() {
    let mut store = MemoryStore::default();
    store.fail_at = Some(SAMPLE_ACTIONS - 1);
    let (outcome, actions) = persist(&mut store, sample_block());
    assert_eq!(outcome, BlockOutcome::CommitFailed);
    assert_eq!(actions[SAMPLE_ACTIONS - 1], StoreAction::Commit);
    assert!(!actions.contains(&StoreAction::Rollback));
    assert_eq!(store.durable(), (vec![], vec![]));
}

#[test]
fn failed_rollback_still_ends_the_block_as_rolled_back() {
    let mut store = MemoryStore::default();
    let (mut coordinator, _) = PersistenceCoordinator::begin(sample_block());
    coordinator.advance(store.perform(&StoreAction::Begin));
    assert_eq!(coordinator.advance(StoreEvent::Failed), StoreAction::Rollback);
    assert_eq!(
        coordinator.advance(StoreEvent::Failed),
        StoreAction::Finished(BlockOutcome::RolledBack)
    );
}

#[test]
fn stored_record_without_an_identifier_rolls_the_block_back() {
    let mut store = MemoryStore::default();
    store.without_id = true;
    let (outcome, actions) = persist(&mut store, sample_block());
    assert_eq!(outcome, BlockOutcome::RolledBack);
    assert_eq!(actions.len(), 4);
    assert_eq!(store.durable(), (vec![], vec![]));
}

#[test]
fn redelivered_block_leaves_one_row_for_each_signature() {
    let mut store = MemoryStore::default();
    persist(&mut store, sample_block());
    let before = store.durable();
    let (outcome, actions) = persist(&mut store, sample_block());
    assert_eq!(outcome, BlockOutcome::Committed);
    assert_eq!(store.durable(), before);
    assert_eq!(store.transactions.iter().filter(|(_, row)| row.signature == "sig1").count(), 1);
    assert!(actions.iter().all(|action| !matches!(action, StoreAction::SaveAccount(_))));
}

#[test]
fn block_with_a_known_signature_still_stores_the_new_ones() {
    let mut store = MemoryStore::default();
    persist(&mut store, vec![sample_block().remove(0)]);
    let (outcome, _) = persist(&mut store, sample_block());
    assert_eq!(outcome, BlockOutcome::Committed);
    let signatures: Vec<&str> =
        store.transactions.iter().map(|(_, row)| row.signature.as_str()).collect();
    assert_eq!(signatures, vec!["sig1", "sig2", "sig3"]);
    assert_eq!(store.accounts.len(), 3);
    assert_eq!(store.accounts[2].transaction_id, store.transactions[2].0);
}

#[test]
fn signature_twice_in_one_block_is_stored_once() {
    let mut store = MemoryStore::default();
    let twice = vec![
        transaction("same", vec![account("a", 2, 1, AccountType::FeePayer)]),
        transaction("same", vec![account("a", 2, 1, AccountType::FeePayer)]),
    ];
    let (outcome, _) = persist(&mut store, twice);
    assert_eq!(outcome, BlockOutcome::Committed);
    assert_eq!(store.transactions.len(), 1);
    assert_eq!(store.accounts.len(), 1);
}

#[test]
fn answer_that_fits_no_write_rolls_the_block_back() {
    let (mut coordinator, _) = PersistenceCoordinator::begin(sample_block());
    assert!(matches!(coordinator.advance(StoreEvent::Done), StoreAction::SaveTransaction(_)));
    assert_eq!(coordinator.advance(StoreEvent::Done), StoreAction::Rollback);

    let (mut coordinator, _) = PersistenceCoordinator::begin(sample_block());
    coordinator.advance(StoreEvent::Done);
    let record = TransactionDB {
        id: Some(5),
        signature: "sig1".to_string(),
        block_height: None,
        block_hash: String::new(),
        block_time: None,
        success: true,
        fee: 0,
        created_at: None,
    };
    assert!(matches!(
        coordinator.advance(StoreEvent::TransactionSaved(record)),
        StoreAction::SaveAccount(_)
    ));
    assert_eq!(coordinator.advance(StoreEvent::Duplicate), StoreAction::Rollback);
}

#[test]
fn answer_other_than_success_fails_the_begin() {
    for event in [StoreEvent::Failed, StoreEvent::Duplicate] {
        let (mut coordinator, _) = PersistenceCoordinator::begin(sample_block());
        assert_eq!(coordinator.advance(event), StoreAction::Finished(BlockOutcome::BeginFailed));
    }
}

#[test]
fn finished_block_stays_finished() {
    let mut store = MemoryStore::default();
    let (mut coordinator, mut action) = PersistenceCoordinator::begin(vec![]);
    while !matches!(action, StoreAction::Finished(_)) {
        action = coordinator.advance(store.perform(&action));
    }
    for event in [StoreEvent::Done, StoreEvent::Failed, StoreEvent::Duplicate] {
        assert_eq!(coordinator.advance(event), StoreAction::Finished(BlockOutcome::Committed));
    }
    assert_eq!(coordinator.outcome(), Some(BlockOutcome::Committed));
}
