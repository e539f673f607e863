use solana_indexer::indexer::block::{
    ParsedAccountKey, RawBlock, RawEncoding, RawMessage, RawMeta, RawTransaction,
};
use solana_indexer::indexer::transaction::{
    balance_movements, classify_account, get_transactions_from_block, normalize_block,
    normalize_transaction, resolve_address, Normalized, SkipReason, Skipped,
};
use solana_indexer::models::transaction::{AccountBalance, AccountType, Transaction};

fn raw_keys(keys: &[&str]) -> RawMessage {
    RawMessage::Raw(keys.iter().map(|k| k.to_string()).collect())
}

fn parsed_keys(keys: &[&str]) -> RawMessage {
    RawMessage::Parsed(keys.iter().map(|k| ParsedAccountKey { pubkey: k.to_string() }).collect())
}

fn meta(fee: u64, pre: &[u64], post: &[u64]) -> RawMeta {
    RawMeta { err: None, fee, pre_balances: pre.to_vec(), post_balances: post.to_vec() }
}

fn json(signature: &str, message: RawMessage, meta: Option<RawMeta>) -> RawTransaction {
    RawTransaction {
        transaction: RawEncoding::Json { signatures: vec![signature.to_string()], message },
        meta,
    }
}

fn block(height: Option<u64>, transactions: Option<Vec<RawTransaction>>) -> RawBlock {
    RawBlock {
        blockhash: "hash".to_string(),
        block_time: Some(1_700_000_000),
        block_height: height,
        transactions,
    }
}

fn entry(address: &str, pre: i64, post: i64, account_type: AccountType) -> AccountBalance {
    AccountBalance {
        address: address.to_string(),
        pre_balance: pre,
        post_balance: post,
        balance_change: post - pre,
        account_type,
    }
}

fn normalize(raw: &RawTransaction) -> Normalized {
    normalize_transaction(raw, Some(7), &"hash".to_string(), Some(9))
}

#[test]
fn one_transaction_gives_fee_payer_and_receiver() {
    let raw = json("sig1", raw_keys(&["alice", "bob"]), Some(meta(100, &[1000, 500], &[900, 600])));
    let records = get_transactions_from_block(block(Some(100), Some(vec![raw]))).unwrap();
    assert_eq!(
        records,
        vec![Transaction {
            signature: "sig1".to_string(),
            block_height: Some(100),
            block_hash: "hash".to_string(),
            block_time: Some(1_700_000_000),
            success: true,
            fee: 100,
            accounts: vec![
                entry("alice", 1000, 900, AccountType::FeePayer),
                entry("bob", 500, 600, AccountType::Receiver),
            ],
        }]
    );
    assert_eq!(records[0].accounts[0].balance_change, -100);
    assert_eq!(records[0].accounts[1].balance_change, 100);
}

#[test]
fn entry_without_metadata_is_skipped_and_the_rest_is_kept() {
    let first = json("sig1", raw_keys(&["a", "b"]), Some(meta(5, &[10, 0], &[5, 5])));
    let second = json("sig2", raw_keys(&["a", "b"]), None);
    let third = json("sig3", raw_keys(&["c", "d"]), Some(meta(7, &[20, 1], &[13, 1])));
    let records =
        get_transactions_from_block(block(Some(1), Some(vec![first, second, third]))).unwrap();
    assert_eq!(records.len(), 2);
    assert_eq!(records[0].signature, "sig1");
    assert_eq!(records[1].signature, "sig3");
    assert_eq!(records[1].accounts, vec![entry("c", 20, 13, AccountType::FeePayer)]);
}

#[test]
fn only_changed_positions_are_recorded() {
    let pre = vec![50, 10, 10, 0, 99, 7];
    let post = vec![45, 10, 12, 0, 90, 8];
    let message = raw_keys(&["k0", "k1", "k2", "k3", "k4", "k5"]);
    let accounts = balance_movements(&pre, &post, &message).unwrap();
    assert_eq!(
        accounts,
        vec![
            entry("k0", 50, 45, AccountType::FeePayer),
            entry("k2", 10, 12, AccountType::Receiver),
            entry("k4", 99, 90, AccountType::Sender),
            entry("k5", 7, 8, AccountType::Receiver),
        ]
    );
    for account in &accounts {
        assert_eq!(account.balance_change, account.post_balance - account.pre_balance);
        assert_ne!(account.balance_change, 0);
    }
}

#[test]
fn unchanged_balances_give_no_entry() {
    let message = raw_keys(&["a", "b", "c"]);
    assert_eq!(balance_movements(&vec![1, 2, 3], &vec![1, 2, 3], &message), Some(vec![]));
    assert_eq!(balance_movements(&vec![], &vec![], &message), Some(vec![]));
}

#[test]
fn first_position_without_a_change_is_dropped() {
    let message = raw_keys(&["payer", "from", "to"]);
    let accounts = balance_movements(&vec![10, 20, 30], &vec![10, 15, 35], &message).unwrap();
    assert_eq!(
        accounts,
        vec![entry("from", 20, 15, AccountType::Sender), entry("to", 30, 35, AccountType::Receiver)]
    );
}

#[test]
fn classification_goes_by_position_and_sign() {
    assert_eq!(classify_account(0, -100), AccountType::FeePayer);
    assert_eq!(classify_account(0, 100), AccountType::FeePayer);
    assert_eq!(classify_account(1, -1), AccountType::Sender);
    assert_eq!(classify_account(1, i64::MIN), AccountType::Sender);
    assert_eq!(classify_account(1, 1), AccountType::Receiver);
    assert_eq!(classify_account(usize::MAX, i64::MAX), AccountType::Receiver);
    assert_eq!(classify_account(5, -3), classify_account(5, -3000));
    assert_eq!(classify_account(5, 3), classify_account(5, 3000));
}

#[test]
fn normalizing_twice_gives_the_same_records() {
    let entries = vec![
        json("sig1", raw_keys(&["a", "b"]), Some(meta(5, &[10, 0], &[5, 5]))),
        json("sig2", parsed_keys(&["c"]), Some(meta(1, &[3, 4], &[2, 5]))),
    ];
    let first = get_transactions_from_block(block(Some(3), Some(entries.clone())));
    let second = get_transactions_from_block(block(Some(3), Some(entries)));
    assert_eq!(first, second);
    assert_eq!(first.unwrap().len(), 2);
}

#[test]
fn position_beyond_the_key_list_gets_the_sentinel() {
    let raw = json("sig", raw_keys(&["only"]), Some(meta(1, &[10, 20, 30], &[9, 20, 31])));
    match normalize(&raw) {
        Normalized::Record(record) => assert_eq!(
            record.accounts,
            vec![
                entry("only", 10, 9, AccountType::FeePayer),
                entry("unknown", 30, 31, AccountType::Receiver),
            ]
        ),
        other => panic!("{:?}", other),
    }
}

#[test]
fn address_is_resolved_from_either_key_form() {
    assert_eq!(resolve_address(&raw_keys(&["a", "b"]), 1), "b");
    assert_eq!(resolve_address(&parsed_keys(&["a", "b"]), 1), "b");
    assert_eq!(resolve_address(&raw_keys(&["a", "b"]), 0), "a");
    assert_eq!(resolve_address(&raw_keys(&["a", "b"]), 2), "unknown");
    assert_eq!(resolve_address(&parsed_keys(&["a", "b"]), 2), "unknown");
    assert_eq!(resolve_address(&parsed_keys(&[]), 0), "unknown");
}

#[test]
fn parsed_and_raw_keys_give_the_same_entries() {
    let pre = vec![8, 8];
    let post = vec![7, 9];
    assert_eq!(
        balance_movements(&pre, &post, &parsed_keys(&["x", "y"])),
        balance_movements(&pre, &post, &raw_keys(&["x", "y"]))
    );
}

#[test]
fn balance_arrays_are_walked_over_their_common_positions() {
    let message = raw_keys(&["a", "b", "c"]);
    let shorter_post = balance_movements(&vec![5, 5, 5], &vec![4, 6], &message).unwrap();
    assert_eq!(
        shorter_post,
        vec![entry("a", 5, 4, AccountType::FeePayer), entry("b", 5, 6, AccountType::Receiver)]
    );
    let shorter_pre = balance_movements(&vec![5], &vec![4, 6, 7], &message).unwrap();
    assert_eq!(shorter_pre, vec![entry("a", 5, 4, AccountType::FeePayer)]);
}

#[test]
fn other_encodings_are_skipped() {
    for transaction in [RawEncoding::LegacyBinary, RawEncoding::Binary, RawEncoding::Accounts] {
        let raw = RawTransaction { transaction, meta: Some(meta(1, &[2], &[1])) };
        assert_eq!(normalize(&raw), Normalized::Skipped(SkipReason::UnsupportedEncoding));
    }
}

#[test]
fn missing_metadata_comes_before_the_encoding() {
    let raw = RawTransaction { transaction: RawEncoding::Binary, meta: None };
    assert_eq!(normalize(&raw), Normalized::Skipped(SkipReason::MissingMetadata));
    let decoded = json("sig", raw_keys(&[]), None);
    assert_eq!(normalize(&decoded), Normalized::Skipped(SkipReason::MissingMetadata));
}

#[test]
fn entry_without_a_signature_is_skipped() {
    let none = RawTransaction {
        transaction: RawEncoding::Json { signatures: vec![], message: raw_keys(&["a"]) },
        meta: Some(meta(1, &[2], &[1])),
    };
    assert_eq!(normalize(&none), Normalized::Skipped(SkipReason::MissingSignature));
    let empty = json("", raw_keys(&["a"]), Some(meta(1, &[2], &[1])));
    assert_eq!(normalize(&empty), Normalized::Skipped(SkipReason::MissingSignature));
}

#[test]
fn first_signature_is_the_one_recorded() {
    let raw = RawTransaction {
        transaction: RawEncoding::Json {
            signatures: vec!["first".to_string(), "second".to_string()],
            message: raw_keys(&["a"]),
        },
        meta: Some(meta(1, &[2], &[1])),
    };
    match normalize(&raw) {
        Normalized::Record(record) => assert_eq!(record.signature, "first"),
        other => panic!("{:?}", other),
    }
}

#[test]
fn amounts_beyond_the_signed_range_skip_the_entry() {
    let limit = i64::MAX as u64;
    let fee = json("sig", raw_keys(&["a"]), Some(meta(limit + 1, &[2], &[1])));
    assert_eq!(normalize(&fee), Normalized::Skipped(SkipReason::AmountOutOfRange));
    let pre = json("sig", raw_keys(&["a"]), Some(meta(1, &[limit + 1], &[1])));
    assert_eq!(normalize(&pre), Normalized::Skipped(SkipReason::AmountOutOfRange));
    let post = json("sig", raw_keys(&["a"]), Some(meta(1, &[1], &[u64::MAX])));
    assert_eq!(normalize(&post), Normalized::Skipped(SkipReason::AmountOutOfRange));
    assert_eq!(balance_movements(&vec![1], &vec![u64::MAX], &raw_keys(&["a"])), None);
}

#[test]
fn largest_signed_amounts_are_exact() {
    let limit = i64::MAX as u64;
    let raw = json("sig", raw_keys(&["a", "b"]), Some(meta(limit, &[limit, 0], &[0, limit])));
    match normalize(&raw) {
        Normalized::Record(record) => {
            assert_eq!(record.fee, i64::MAX);
            assert_eq!(
                record.accounts,
                vec![
                    entry("a", i64::MAX, 0, AccountType::FeePayer),
                    entry("b", 0, i64::MAX, AccountType::Receiver),
                ]
            );
            assert_eq!(record.accounts[0].balance_change, -i64::MAX);
        },
        other => panic!("{:?}", other),
    }
}

#[test]
fn unchanged_balance_beyond_the_signed_range_is_no_fault() {
    let keys = raw_keys(&["a", "b"]);
    let accounts = balance_movements(&vec![u64::MAX, 3], &vec![u64::MAX, 4], &keys);
    assert_eq!(accounts, Some(vec![entry("b", 3, 4, AccountType::Receiver)]));
}

#[test]
fn skipped_entry_in_the_middle_keeps_the_order_of_the_rest() {
    let limit = i64::MAX as u64;
    let entries = vec![
        json("one", raw_keys(&["a"]), Some(meta(1, &[2], &[1]))),
        RawTransaction { transaction: RawEncoding::LegacyBinary, meta: Some(meta(1, &[2], &[1])) },
        json("two", raw_keys(&["a"]), Some(meta(1, &[2], &[1]))),
        json("", raw_keys(&["a"]), Some(meta(1, &[2], &[1]))),
        json("big", raw_keys(&["a"]), Some(meta(limit + 1, &[2], &[1]))),
        json("three", raw_keys(&["a"]), Some(meta(1, &[2], &[1]))),
    ];
    let records = get_transactions_from_block(block(None, Some(entries))).unwrap();
    let signatures: Vec<&str> = records.iter().map(|r| r.signature.as_str()).collect();
    assert_eq!(signatures, vec!["one", "two", "three"]);
}

#[test]
fn execution_error_makes_the_record_unsuccessful() {
    let mut failed = meta(1, &[2], &[1]);
    failed.err = Some("InsufficientFunds".to_string());
    match normalize(&json("sig", raw_keys(&["a"]), Some(failed))) {
        Normalized::Record(record) => assert!(!record.success),
        other => panic!("{:?}", other),
    }
    match normalize(&json("sig", raw_keys(&["a"]), Some(meta(1, &[2], &[1])))) {
        Normalized::Record(record) => assert!(record.success),
        other => panic!("{:?}", other),
    }
}

#[test]
fn block_fields_are_copied_onto_every_record() {
    let raw = RawBlock {
        blockhash: "H".to_string(),
        block_time: None,
        block_height: Some(42),
        transactions: Some(vec![
            json("one", raw_keys(&["a"]), Some(meta(1, &[2], &[1]))),
            json("two", raw_keys(&["a"]), Some(meta(1, &[2], &[1]))),
        ]),
    };
    let records = get_transactions_from_block(raw).unwrap();
    assert_eq!(records.len(), 2);
    for record in &records {
        assert_eq!(record.block_hash, "H");
        assert_eq!(record.block_height, Some(42));
        assert_eq!(record.block_time, None);
    }
}

#[test]
fn block_without_a_transaction_list_gives_no_record() {
    assert_eq!(get_transactions_from_block(block(Some(1), None)), Ok(vec![]));
    assert_eq!(get_transactions_from_block(block(Some(1), Some(vec![]))), Ok(vec![]));
}

#[test]
fn block_height_beyond_the_signed_range_is_refused() {
    let raw = json("sig", raw_keys(&["a"]), Some(meta(1, &[2], &[1])));
    assert_eq!(
        get_transactions_from_block(block(Some(i64::MAX as u64 + 1), Some(vec![raw.clone()]))),
        Err("block height out of range".to_string())
    );
    let records = get_transactions_from_block(block(Some(i64::MAX as u64), Some(vec![raw])));
    assert_eq!(records.unwrap()[0].block_height, Some(i64::MAX));
}

#[test]
fn role_other_is_never_given() {
    let pre: Vec<u64> = (0..40).map(|i| i * 3 % 7).collect();
    let post: Vec<u64> = (0..40).map(|i| i * 5 % 11).collect();
    let accounts = balance_movements(&pre, &post, &raw_keys(&["a", "b"])).unwrap();
    let expected = (0..40).filter(|i| pre[*i] != post[*i]).count();
    assert_eq!(accounts.len(), expected);
    for (position, account) in accounts.iter().enumerate() {
        assert_ne!(account.account_type, AccountType::Other);
        if position > 0 {
            assert_ne!(account.account_type, AccountType::FeePayer);
        }
        match account.account_type {
            AccountType::Sender => assert!(account.balance_change < 0),
            AccountType::Receiver => assert!(account.balance_change > 0),
            _ => {},
        }
    }
}

#[test]
fn skipped_entries_are_listed_with_position_and_reason() {
    let limit = i64::MAX as u64;
    let entries = vec![
        json("one", raw_keys(&["a"]), Some(meta(1, &[2], &[1]))),
        RawTransaction { transaction: RawEncoding::LegacyBinary, meta: Some(meta(1, &[2], &[1])) },
        json("two", raw_keys(&["a"]), None),
        json("", raw_keys(&["a"]), Some(meta(1, &[2], &[1]))),
        json("big", raw_keys(&["a"]), Some(meta(limit + 1, &[2], &[1]))),
        json("three", raw_keys(&["a"]), Some(meta(1, &[2], &[1]))),
    ];
    let normalized = normalize_block(block(Some(5), Some(entries.clone()))).unwrap();
    assert_eq!(
        normalized.skipped,
        vec![
            Skipped { position: 1, reason: SkipReason::UnsupportedEncoding },
            Skipped { position: 2, reason: SkipReason::MissingMetadata },
            Skipped { position: 3, reason: SkipReason::MissingSignature },
            Skipped { position: 4, reason: SkipReason::AmountOutOfRange },
        ]
    );
    assert_eq!(normalized.transactions.len() + normalized.skipped.len(), entries.len());
    assert_eq!(
        Ok(normalized.transactions),
        get_transactions_from_block(block(Some(5), Some(entries)))
    );
}

#[test]
fn block_with_its_skipped_entries_is_refused_for_its_height_too() {
    assert_eq!(
        normalize_block(block(Some(u64::MAX), None)),
        Err("block height out of range".to_string())
    );
    let normalized = normalize_block(block(None, None)).unwrap();
    assert!(normalized.transactions.is_empty() && normalized.skipped.is_empty());
}
