//! The rows that persisting a transaction writes.

use crate::models::transaction::{
    int_of, AccountBalance, AccountBalanceView, Transaction, TransactionView,
};
use vstd::prelude::*;

verus! {

/// The values of one row of the transaction table, but for the identifier
/// and the creation time, which the store assigns.
#[derive(Debug, Clone, PartialEq, Eq)]
pub struct TransactionRow {
    pub signature: String,
    pub block_height: Option<i64>,
    pub block_time: Option<i64>,
    pub block_hash: String,
    pub success: bool,
    pub fee: i64,
}

/// What a transaction row holds, as mathematical values.
pub struct TransactionRowView {
    pub signature: Seq<char>,
    pub block_height: Option<int>,
    pub block_time: Option<int>,
    pub block_hash: Seq<char>,
    pub success: bool,
    pub fee: int,
}

impl View for TransactionRow {
    type V = TransactionRowView;

    open spec fn view(&self) -> TransactionRowView {
        TransactionRowView {
            signature: self.signature@,
            block_height: int_of(self.block_height),
            block_time: int_of(self.block_time),
            block_hash: self.block_hash@,
            success: self.success,
            fee: self.fee as int,
        }
    }
}

/// The values of one row of the account-balance table.
#[derive(Debug, Clone, PartialEq, Eq)]
pub struct AccountRow {
    pub address: String,
    pub pre_balance: i64,
    pub post_balance: i64,
    pub balance_change: i64,
    pub account_type: String,
    pub transaction_id: i32,
}

/// What an account-balance row holds, as mathematical values.
pub struct AccountRowView {
    pub address: Seq<char>,
    pub pre_balance: int,
    pub post_balance: int,
    pub balance_change: int,
    pub account_type: Seq<char>,
    pub transaction_id: int,
}

impl View for AccountRow {
    type V = AccountRowView;

    open spec fn view(&self) -> AccountRowView {
        AccountRowView {
            address: self.address@,
            pre_balance: self.pre_balance as int,
            post_balance: self.post_balance as int,
            balance_change: self.balance_change as int,
            account_type: self.account_type@,
            transaction_id: self.transaction_id as int,
        }
    }
}

/// The row that stands for a transaction.
pub open spec fn transaction_row_of(transaction: TransactionView) -> TransactionRowView {
    TransactionRowView {
        signature: transaction.signature,
        block_height: transaction.block_height,
        block_time: transaction.block_time,
        block_hash: transaction.block_hash,
        success: transaction.success,
        fee: transaction.fee,
    }
}

/// The row that stands for an account entry of the transaction stored
/// under `transaction_id`.
pub open spec fn account_row_of(
    account: AccountBalanceView,
    transaction_id: int,
) -> AccountRowView {
    AccountRowView {
        address: account.address,
        pre_balance: account.pre_balance,
        post_balance: account.post_balance,
        balance_change: account.balance_change,
        account_type: account.account_type.label(),
        transaction_id,
    }
}

/// The row to insert for a transaction.
pub fn transaction_row(transaction: &Transaction) -> (row: TransactionRow)
    ensures
        row@ == transaction_row_of(transaction@),
{
    TransactionRow {
        signature: transaction.signature.clone(),
        block_height: transaction.block_height,
        block_time: transaction.block_time,
        block_hash: transaction.block_hash.clone(),
        success: transaction.success,
        fee: transaction.fee,
    }
}

/// The row to insert for an account entry of the transaction stored under
/// `transaction_id`.
pub fn account_row(account: &AccountBalance, transaction_id: i32) -> (row: AccountRow)
    ensures
        row@ == account_row_of(account@, transaction_id as int),
{
    AccountRow {
        address: account.address.clone(),
        pre_balance: account.pre_balance,
        post_balance: account.post_balance,
        balance_change: account.balance_change,
        account_type: account.account_type.to_string(),
        transaction_id,
    }
}

} // verus!
