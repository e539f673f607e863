//! Turning the transaction entries of a raw block into canonical
//! transactions.

use crate::indexer::block::{
    RawBlock, RawBlockView, RawEncoding, RawEncodingView, RawMessage, RawMetaView, RawTransaction,
    RawTransactionView,
};
use crate::indexer::lemmas::lemma_movements_well_formed;
use crate::models::transaction::{
    int_of, AccountBalance, AccountBalanceView, AccountType, Transaction, TransactionView,
};
use vstd::prelude::*;

verus! {

/// The address recorded for a position that the key list does not cover.
pub open spec fn unknown_address() -> Seq<char> {
    "unknown"@
}

/// The role of the account at `index` whose balance moved by `change`.
pub open spec fn classify(index: int, change: int) -> AccountType {
    if index == 0 {
        AccountType::FeePayer
    } else if change < 0 {
        AccountType::Sender
    } else {
        AccountType::Receiver
    }
}

/// The address of position `index` in a key list.
pub open spec fn address_at(addresses: Seq<Seq<char>>, index: int) -> Seq<char> {
    if 0 <= index < addresses.len() {
        addresses[index]
    } else {
        unknown_address()
    }
}

/// How many positions the two balance arrays have in common.
pub open spec fn walked(pre: Seq<u64>, post: Seq<u64>) -> nat {
    if pre.len() <= post.len() {
        pre.len()
    } else {
        post.len()
    }
}

/// The entry for position `index`, given that its balance changed.
pub open spec fn entry_at(
    pre: Seq<u64>,
    post: Seq<u64>,
    addresses: Seq<Seq<char>>,
    index: int,
) -> AccountBalanceView {
    AccountBalanceView {
        address: address_at(addresses, index),
        pre_balance: pre[index] as int,
        post_balance: post[index] as int,
        balance_change: post[index] - pre[index],
        account_type: classify(index, post[index] - pre[index]),
    }
}

/// The entry that position `index` contributes: none where the balance
/// did not change.
pub open spec fn movement_at(
    pre: Seq<u64>,
    post: Seq<u64>,
    addresses: Seq<Seq<char>>,
) -> spec_fn(int) -> Option<AccountBalanceView> {
    |index: int|
        if post[index] != pre[index] {
            Some(entry_at(pre, post, addresses, index))
        } else {
            None
        }
}

/// The positions `0, 1, .., count - 1`.
pub open spec fn positions(count: nat) -> Seq<int> {
    Seq::new(count, |i: int| i)
}

/// The entries of the first `count` positions, in order of position.
pub open spec fn movements_upto(
    pre: Seq<u64>,
    post: Seq<u64>,
    addresses: Seq<Seq<char>>,
    count: nat,
) -> Seq<AccountBalanceView> {
    positions(count).filter_map(movement_at(pre, post, addresses))
}

/// The entries of a transaction: one for each position that both balance
/// arrays cover and whose balance changed, in order of position.
pub open spec fn movements(
    pre: Seq<u64>,
    post: Seq<u64>,
    addresses: Seq<Seq<char>>,
) -> Seq<AccountBalanceView> {
    movements_upto(pre, post, addresses, walked(pre, post))
}

/// Every changed balance among the first `count` positions can be held as
/// a signed 64-bit amount.
pub open spec fn balances_fit(pre: Seq<u64>, post: Seq<u64>, count: nat) -> bool {
    forall|i: int|
        0 <= i < count && post[i] != pre[i] ==> #[trigger] pre[i] <= i64::MAX && #[trigger] post[i]
            <= i64::MAX
}

/// The role of the account at position `index` of the balance arrays, whose
/// balance moved by `balance_change`: the first position is the fee payer;
/// a later one is a sender where the balance fell, else a receiver.
pub fn classify_account(index: usize, balance_change: i64) -> (account_type: AccountType)
    ensures
        account_type == classify(index as int, balance_change as int),
{
    if index == 0 {
        AccountType::FeePayer
    } else if balance_change < 0 {
        AccountType::Sender
    } else {
        AccountType::Receiver
    }
}

/// The address of position `index` in the key list that the message
/// carries, or the sentinel where the list is too short.
pub fn resolve_address(message: &RawMessage, index: usize) -> (address: String)
    ensures
        address@ == address_at(message.addresses(), index as int),
{
    match message {
        RawMessage::Parsed(keys) => {
            if index < keys.len() {
                keys[index].pubkey.clone()
            } else {
                "unknown".to_owned()
            }
        },
        RawMessage::Raw(keys) => {
            if index < keys.len() {
                keys[index].clone()
            } else {
                "unknown".to_owned()
            }
        },
    }
}

/// Walks the two balance arrays in lockstep and records every position
/// whose balance changed, with the address that the message has for it.
/// Gives nothing where a changed balance does not fit a signed 64-bit
/// amount.
pub fn balance_movements(
    pre_balances: &Vec<u64>,
    post_balances: &Vec<u64>,
    message: &RawMessage,
) -> (result: Option<Vec<AccountBalance>>)
    ensures
        result is Some <==> balances_fit(
            pre_balances@,
            post_balances@,
            walked(pre_balances@, post_balances@),
        ),
        result matches Some(accounts) ==> accounts.deep_view() == movements(
            pre_balances@,
            post_balances@,
            message.addresses(),
        ),
{
    let count: usize = if pre_balances.len() <= post_balances.len() {
        pre_balances.len()
    } else {
        post_balances.len()
    };
    let ghost pre = pre_balances@;
    let ghost post = post_balances@;
    let ghost addresses = message.addresses();
    let mut accounts: Vec<AccountBalance> = Vec::new();
    let mut i: usize = 0;
    while i < count
        invariant
            i <= count,
            count == walked(pre, post),
            pre == pre_balances@,
            post == post_balances@,
            addresses == message.addresses(),
            balances_fit(pre, post, i as nat),
            accounts.deep_view() == movements_upto(pre, post, addresses, i as nat),
        decreases count - i,
    {
        let before: u64 = pre_balances[i];
        let after: u64 = post_balances[i];
        let ghost earlier = accounts.deep_view();
        if after != before {
            if before > i64::MAX as u64 || after > i64::MAX as u64 {
                return None;
            }
            let balance_change: i64 = after as i64 - before as i64;
            let entry = AccountBalance {
                address: resolve_address(message, i),
                pre_balance: before as i64,
                post_balance: after as i64,
                balance_change,
                account_type: classify_account(i, balance_change),
            };
            accounts.push(entry);
            assert(accounts.deep_view() =~= earlier.push(
                entry_at(pre, post, addresses, i as int),
            ));
        }
        proof {
            let all = positions((i + 1) as nat);
            assert(all.take(i as int) =~= positions(i as nat));
            assert(all.take(i + 1) =~= all);
            all.lemma_filter_map_take_succ(movement_at(pre, post, addresses), i as int);
        }
        i += 1;
    }
    Some(accounts)
}

/// Why a transaction entry contributes no record.
#[derive(Debug, Clone, Copy, PartialEq, Eq, Structural)]
pub enum SkipReason {
    /// The entry carries no execution metadata.
    MissingMetadata,
    /// The entry is not in the decoded form.
    UnsupportedEncoding,
    /// The entry has no first signature, or an empty one.
    MissingSignature,
    /// The fee or a changed balance does not fit a signed 64-bit amount.
    AmountOutOfRange,
}

/// What normalizing one transaction entry gives.
#[derive(Debug, Clone, PartialEq, Eq)]
pub enum Normalized {
    Record(Transaction),
    Skipped(SkipReason),
}

/// The fee and every changed balance can be held as signed 64-bit amounts.
pub open spec fn amounts_fit(meta: RawMetaView) -> bool {
    &&& meta.fee <= i64::MAX
    &&& balances_fit(
        meta.pre_balances,
        meta.post_balances,
        walked(meta.pre_balances, meta.post_balances),
    )
}

/// The reason for which an entry is skipped, if it is.
pub open spec fn skip_reason(raw: RawTransactionView) -> Option<SkipReason> {
    match raw.meta {
        None => Some(SkipReason::MissingMetadata),
        Some(meta) => match raw.transaction {
            RawEncodingView::Json { signatures, addresses } => {
                if signatures.len() == 0 || signatures[0].len() == 0 {
                    Some(SkipReason::MissingSignature)
                } else if !amounts_fit(meta) {
                    Some(SkipReason::AmountOutOfRange)
                } else {
                    None
                }
            },
            _ => Some(SkipReason::UnsupportedEncoding),
        },
    }
}

/// The record of an entry that is not skipped, in a block with the given
/// height, hash and time.
pub open spec fn record_of(
    block_height: Option<int>,
    block_hash: Seq<char>,
    block_time: Option<int>,
    raw: RawTransactionView,
) -> TransactionView
    recommends
        skip_reason(raw) is None,
{
    TransactionView {
        signature: raw.transaction->signatures[0],
        block_height,
        block_hash,
        block_time,
        success: !raw.meta->0.failed,
        fee: raw.meta->0.fee,
        accounts: movements(
            raw.meta->0.pre_balances,
            raw.meta->0.post_balances,
            raw.transaction->addresses,
        ),
    }
}

/// What an entry contributes to the records of a block with the given
/// height, hash and time: its record, or nothing where it is skipped.
pub open spec fn contribution(
    block_height: Option<int>,
    block_hash: Seq<char>,
    block_time: Option<int>,
) -> spec_fn(RawTransactionView) -> Option<TransactionView> {
    |raw: RawTransactionView|
        if skip_reason(raw) is None {
            Some(record_of(block_height, block_hash, block_time, raw))
        } else {
            None
        }
}

/// The records of a block: the contributions of its entries, in the order
/// of the entries.
pub open spec fn normalized_block(block: RawBlockView) -> Seq<TransactionView> {
    block.transactions.filter_map(
        contribution(block.block_height, block.blockhash, block.block_time),
    )
}

/// The height of the block, if it has one, can be held as a signed 64-bit
/// number.
pub open spec fn height_fits(block: RawBlockView) -> bool {
    block.block_height matches Some(height) ==> height <= i64::MAX
}

/// The message with which a block of unrepresentable height is refused.
pub open spec fn height_error() -> Seq<char> {
    "block height out of range"@
}

/// What normalizing a block gives: its records where the height fits, the
/// refusal where it does not.
pub open spec fn normalizes_to(
    block: RawBlockView,
    result: Result<Vec<Transaction>, String>,
) -> bool {
    if height_fits(block) {
        result matches Ok(transactions) && transactions.deep_view() == normalized_block(block)
    } else {
        result matches Err(message) && message@ == height_error()
    }
}

/// Normalizes one transaction entry of a block with the given height, hash
/// and time.
pub fn normalize_transaction(
    raw: &RawTransaction,
    block_height: Option<i64>,
    block_hash: &String,
    block_time: Option<i64>,
) -> (result: Normalized)
    ensures
        match result {
            Normalized::Record(transaction) => {
                &&& skip_reason(raw@) is None
                &&& transaction@ == record_of(
                    int_of(block_height),
                    block_hash@,
                    int_of(block_time),
                    raw@,
                )
                &&& transaction@.well_formed()
            },
            Normalized::Skipped(reason) => skip_reason(raw@) == Some(reason),
        },
{
    let meta = match &raw.meta {
        Some(meta) => meta,
        None => {
            return Normalized::Skipped(SkipReason::MissingMetadata);
        },
    };
    match &raw.transaction {
        RawEncoding::Json { signatures, message } => {
            if signatures.len() == 0 || signatures[0].as_str().is_empty() {
                return Normalized::Skipped(SkipReason::MissingSignature);
            }
            if meta.fee > i64::MAX as u64 {
                return Normalized::Skipped(SkipReason::AmountOutOfRange);
            }
            proof {
                lemma_movements_well_formed(
                    meta.pre_balances@,
                    meta.post_balances@,
                    message.addresses(),
                );
            }
            match balance_movements(&meta.pre_balances, &meta.post_balances, message) {
                Some(accounts) => Normalized::Record(
                    Transaction {
                        signature: signatures[0].clone(),
                        block_height,
                        block_hash: block_hash.clone(),
                        block_time,
                        success: meta.err.is_none(),
                        fee: meta.fee as i64,
                        accounts,
                    },
                ),
                None => Normalized::Skipped(SkipReason::AmountOutOfRange),
            }
        },
        _ => Normalized::Skipped(SkipReason::UnsupportedEncoding),
    }
}

/// An entry of a block that contributed no record: its position among the
/// entries, and why it was skipped.
#[derive(Debug, Clone, Copy, PartialEq, Eq, Structural)]
pub struct Skipped {
    pub position: usize,
    pub reason: SkipReason,
}

impl View for Skipped {
    type V = (int, SkipReason);

    open spec fn view(&self) -> (int, SkipReason) {
        (self.position as int, self.reason)
    }
}

impl DeepView for Skipped {
    type V = (int, SkipReason);

    open spec fn deep_view(&self) -> (int, SkipReason) {
        self@
    }
}

/// A block after normalization: its records, and the entries that were
/// skipped, both in the order of the entries.
#[derive(Debug, Clone, PartialEq, Eq)]
pub struct NormalizedBlock {
    pub transactions: Vec<Transaction>,
    pub skipped: Vec<Skipped>,
}

/// The position and the reason, where the entry at a position is skipped.
pub open spec fn skip_at(entries: Seq<RawTransactionView>) -> spec_fn(int) -> Option<
    (int, SkipReason),
> {
    |position: int|
        match skip_reason(entries[position]) {
            Some(reason) => Some((position, reason)),
            None => None,
        }
}

/// The entries of a block that are skipped, in the order of the entries.
pub open spec fn skipped_entries(block: RawBlockView) -> Seq<(int, SkipReason)> {
    positions(block.transactions.len()).filter_map(skip_at(block.transactions))
}

/// What normalizing a block with its skipped entries gives: the records
/// and the skipped entries where the height fits, the refusal where it
/// does not.
pub open spec fn normalizes_fully_to(
    block: RawBlockView,
    result: Result<NormalizedBlock, String>,
) -> bool {
    if height_fits(block) {
        &&& result matches Ok(normalized)
        &&& normalized.transactions.deep_view() == normalized_block(block)
        &&& normalized.skipped.deep_view() == skipped_entries(block)
    } else {
        result matches Err(message) && message@ == height_error()
    }
}

/// Normalizes a raw block and says which entries were skipped: one record
/// for each entry that is not skipped, in the order of the entries, each
/// with the block's height, hash and time. No entry makes the block fail.
/// A block whose height cannot be represented is refused.
pub fn normalize_block(block: RawBlock) -> (result: Result<NormalizedBlock, String>)
    ensures
        normalizes_fully_to(block@, result),
{
    let block_height: Option<i64> = match block.block_height {
        Some(height) => {
            if height > i64::MAX as u64 {
                return Err("block height out of range".to_owned());
            }
            Some(height as i64)
        },
        None => None,
    };
    let ghost contributes = contribution(
        block@.block_height,
        block@.blockhash,
        block@.block_time,
    );
    let ghost all = block@.transactions;
    let mut transactions: Vec<Transaction> = Vec::new();
    let mut skipped: Vec<Skipped> = Vec::new();
    match &block.transactions {
        Some(entries) => {
            let mut i: usize = 0;
            while i < entries.len()
                invariant
                    i <= entries.len(),
                    all == entries.deep_view(),
                    all == block@.transactions,
                    int_of(block_height) == block@.block_height,
                    contributes == contribution(
                        block@.block_height,
                        block@.blockhash,
                        block@.block_time,
                    ),
                    transactions.deep_view() == all.take(i as int).filter_map(contributes),
                    skipped.deep_view() == positions(i as nat).filter_map(skip_at(all)),
                decreases entries.len() - i,
            {
                let ghost earlier = transactions.deep_view();
                let ghost passed_over = skipped.deep_view();
                match normalize_transaction(
                    &entries[i],
                    block_height,
                    &block.blockhash,
                    block.block_time,
                ) {
                    Normalized::Record(transaction) => {
                        transactions.push(transaction);
                        assert(transactions.deep_view() =~= earlier.push(transaction@));
                    },
                    Normalized::Skipped(reason) => {
                        skipped.push(Skipped { position: i, reason });
                        assert(skipped.deep_view() =~= passed_over.push((i as int, reason)));
                    },
                }
                proof {
                    all.lemma_filter_map_take_succ(contributes, i as int);
                    let upto = positions((i + 1) as nat);
                    assert(upto.take(i as int) =~= positions(i as nat));
                    assert(upto.take(i + 1) =~= upto);
                    upto.lemma_filter_map_take_succ(skip_at(all), i as int);
                }
                i += 1;
            }
            assert(all.take(i as int) =~= all);
        },
        None => {},
    }
    assert(transactions.deep_view() =~= normalized_block(block@));
    assert(skipped.deep_view() =~= skipped_entries(block@));
    Ok(NormalizedBlock { transactions, skipped })
}

/// Normalizes a raw block: one record for each entry that is not skipped,
/// in the order of the entries, each with the block's height, hash and
/// time. A block whose height cannot be represented is refused.
pub fn get_transactions_from_block(block: RawBlock) -> (result: Result<Vec<Transaction>, String>)
    ensures
        normalizes_to(block@, result),
{
    match normalize_block(block) {
        Ok(normalized) => Ok(normalized.transactions),
        Err(message) => Err(message),
    }
}

} // verus!
