//! Transactions and the balance movements they carry.

use vstd::prelude::*;

verus! {

/// The role an account played in a transaction.
#[derive(Debug, Clone, Copy, PartialEq, Eq, Structural)]
pub enum AccountType {
    FeePayer,
    Sender,
    Receiver,
    Other,
}

impl AccountType {
    /// The text under which the role is stored.
    pub open spec fn label(self) -> Seq<char> {
        match self {
            AccountType::FeePayer => "fee_payer"@,
            AccountType::Sender => "sender"@,
            AccountType::Receiver => "receiver"@,
            AccountType::Other => "other"@,
        }
    }

    /// The role as the text under which it is stored.
    pub fn to_string(&self) -> (text: String)
        ensures
            text@ == self.label(),
    {
        match self {
            AccountType::FeePayer => "fee_payer".to_owned(),
            AccountType::Sender => "sender".to_owned(),
            AccountType::Receiver => "receiver".to_owned(),
            AccountType::Other => "other".to_owned(),
        }
    }
}

/// One account whose balance a transaction changed.
#[derive(Debug, Clone, PartialEq, Eq)]
pub struct AccountBalance {
    pub address: String,
    pub pre_balance: i64,
    pub post_balance: i64,
    pub balance_change: i64,
    pub account_type: AccountType,
}

/// What an `AccountBalance` holds, as mathematical values.
pub struct AccountBalanceView {
    pub address: Seq<char>,
    pub pre_balance: int,
    pub post_balance: int,
    pub balance_change: int,
    pub account_type: AccountType,
}

impl AccountBalanceView {
    /// The change is the exact difference of the two balances and is not
    /// zero, and the role agrees with the direction of the change.
    pub open spec fn well_formed(self) -> bool {
        &&& self.balance_change == self.post_balance - self.pre_balance
        &&& self.balance_change != 0
        &&& self.account_type != AccountType::Other
        &&& self.account_type == AccountType::Sender ==> self.balance_change < 0
        &&& self.account_type == AccountType::Receiver ==> self.balance_change > 0
    }
}

impl View for AccountBalance {
    type V = AccountBalanceView;

    open spec fn view(&self) -> AccountBalanceView {
        AccountBalanceView {
            address: self.address@,
            pre_balance: self.pre_balance as int,
            post_balance: self.post_balance as int,
            balance_change: self.balance_change as int,
            account_type: self.account_type,
        }
    }
}

impl DeepView for AccountBalance {
    type V = AccountBalanceView;

    open spec fn deep_view(&self) -> AccountBalanceView {
        self@
    }
}

/// A transaction of one block together with the accounts it moved funds on.
#[derive(Debug, Clone, PartialEq, Eq)]
pub struct Transaction {
    pub signature: String,
    pub block_height: Option<i64>,
    pub block_hash: String,
    pub block_time: Option<i64>,
    pub success: bool,
    pub fee: i64,
    pub accounts: Vec<AccountBalance>,
}

/// What a `Transaction` holds, as mathematical values.
pub struct TransactionView {
    pub signature: Seq<char>,
    pub block_height: Option<int>,
    pub block_hash: Seq<char>,
    pub block_time: Option<int>,
    pub success: bool,
    pub fee: int,
    pub accounts: Seq<AccountBalanceView>,
}

impl TransactionView {
    /// The signature is not empty, every account entry is well formed, and
    /// only the first entry can be the fee payer.
    pub open spec fn well_formed(self) -> bool {
        &&& self.signature.len() > 0
        &&& forall|j: int|
            0 <= j < self.accounts.len() ==> (#[trigger] self.accounts[j]).well_formed()
        &&& forall|j: int|
            0 < j < self.accounts.len() ==> (#[trigger] self.accounts[j]).account_type
                != AccountType::FeePayer
    }
}

/// An optional machine integer as an optional mathematical one.
pub open spec fn int_of(value: Option<i64>) -> Option<int> {
    match value {
        Some(v) => Some(v as int),
        None => None,
    }
}

impl View for Transaction {
    type V = TransactionView;

    open spec fn view(&self) -> TransactionView {
        TransactionView {
            signature: self.signature@,
            block_height: int_of(self.block_height),
            block_hash: self.block_hash@,
            block_time: int_of(self.block_time),
            success: self.success,
            fee: self.fee as int,
            accounts: self.accounts.deep_view(),
        }
    }
}

impl DeepView for Transaction {
    type V = TransactionView;

    open spec fn deep_view(&self) -> TransactionView {
        self@
    }
}

/// A transaction as the store holds it: the fields of the transaction, the
/// identifier that the store assigned, and the time of creation in
/// microseconds since the epoch.
#[derive(Debug, Clone, PartialEq, Eq)]
pub struct TransactionDB {
    pub id: Option<i32>,
    pub signature: String,
    pub block_height: Option<i64>,
    pub block_hash: String,
    pub block_time: Option<i64>,
    pub success: bool,
    pub fee: i64,
    pub created_at: Option<i64>,
}

/// What a stored transaction holds, as mathematical values.
pub struct TransactionDBView {
    pub id: Option<int>,
    pub signature: Seq<char>,
    pub block_height: Option<int>,
    pub block_hash: Seq<char>,
    pub block_time: Option<int>,
    pub success: bool,
    pub fee: int,
    pub created_at: Option<int>,
}

impl View for TransactionDB {
    type V = TransactionDBView;

    open spec fn view(&self) -> TransactionDBView {
        TransactionDBView {
            id: match self.id {
                Some(id) => Some(id as int),
                None => None,
            },
            signature: self.signature@,
            block_height: int_of(self.block_height),
            block_hash: self.block_hash@,
            block_time: int_of(self.block_time),
            success: self.success,
            fee: self.fee as int,
            created_at: int_of(self.created_at),
        }
    }
}

} // verus!
