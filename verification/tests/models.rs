use solana_indexer::models::transaction::AccountType;

#[test]
fn account_types_have_their_stored_text() {
    assert_eq!(AccountType::FeePayer.to_string(), "fee_payer");
    assert_eq!(AccountType::Sender.to_string(), "sender");
    assert_eq!(AccountType::Receiver.to_string(), "receiver");
    assert_eq!(AccountType::Other.to_string(), "other");
}
