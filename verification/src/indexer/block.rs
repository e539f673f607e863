//! A confirmed block as the feed delivers it, reduced to what normalization
//! reads.

use vstd::prelude::*;

verus! {

/// One entry of a structured account-key list.
#[derive(Debug, Clone, PartialEq, Eq)]
pub struct ParsedAccountKey {
    pub pubkey: String,
}

/// The account keys of a message, in one of the two forms the feed uses.
#[derive(Debug, Clone, PartialEq, Eq)]
pub enum RawMessage {
    /// A structured list: every entry carries its address in a field.
    Parsed(Vec<ParsedAccountKey>),
    /// A bare list of addresses.
    Raw(Vec<String>),
}

impl RawMessage {
    /// The addresses by position, whichever form the message has.
    pub open spec fn addresses(self) -> Seq<Seq<char>> {
        match self {
            RawMessage::Parsed(keys) => Seq::new(keys@.len(), |i: int| keys@[i].pubkey@),
            RawMessage::Raw(keys) => Seq::new(keys@.len(), |i: int| keys@[i]@),
        }
    }
}

/// How the feed encoded a transaction.
#[derive(Debug, Clone, PartialEq, Eq)]
pub enum RawEncoding {
    LegacyBinary,
    Binary,
    Json { signatures: Vec<String>, message: RawMessage },
    Accounts,
}

/// What an encoded transaction holds, as mathematical values.
pub enum RawEncodingView {
    LegacyBinary,
    Binary,
    Json { signatures: Seq<Seq<char>>, addresses: Seq<Seq<char>> },
    Accounts,
}

impl View for RawEncoding {
    type V = RawEncodingView;

    open spec fn view(&self) -> RawEncodingView {
        match self {
            RawEncoding::LegacyBinary => RawEncodingView::LegacyBinary,
            RawEncoding::Binary => RawEncodingView::Binary,
            RawEncoding::Json { signatures, message } => RawEncodingView::Json {
                signatures: signatures.deep_view(),
                addresses: message.addresses(),
            },
            RawEncoding::Accounts => RawEncodingView::Accounts,
        }
    }
}

/// The execution metadata of a transaction.
#[derive(Debug, Clone, PartialEq, Eq)]
pub struct RawMeta {
    /// The execution error, if one was recorded.
    pub err: Option<String>,
    pub fee: u64,
    pub pre_balances: Vec<u64>,
    pub post_balances: Vec<u64>,
}

/// What execution metadata holds, as mathematical values.
pub struct RawMetaView {
    pub failed: bool,
    pub fee: int,
    pub pre_balances: Seq<u64>,
    pub post_balances: Seq<u64>,
}

impl View for RawMeta {
    type V = RawMetaView;

    open spec fn view(&self) -> RawMetaView {
        RawMetaView {
            failed: self.err is Some,
            fee: self.fee as int,
            pre_balances: self.pre_balances@,
            post_balances: self.post_balances@,
        }
    }
}

/// One transaction entry of a raw block.
#[derive(Debug, Clone, PartialEq, Eq)]
pub struct RawTransaction {
    pub transaction: RawEncoding,
    pub meta: Option<RawMeta>,
}

/// What a raw transaction entry holds, as mathematical values.
pub struct RawTransactionView {
    pub transaction: RawEncodingView,
    pub meta: Option<RawMetaView>,
}

impl View for RawTransaction {
    type V = RawTransactionView;

    open spec fn view(&self) -> RawTransactionView {
        RawTransactionView {
            transaction: self.transaction@,
            meta: match self.meta {
                Some(meta) => Some(meta@),
                None => None,
            },
        }
    }
}

impl DeepView for RawTransaction {
    type V = RawTransactionView;

    open spec fn deep_view(&self) -> RawTransactionView {
        self@
    }
}

/// A confirmed block as delivered by the feed.
#[derive(Debug, Clone, PartialEq, Eq)]
pub struct RawBlock {
    pub blockhash: String,
    pub block_time: Option<i64>,
    pub block_height: Option<u64>,
    pub transactions: Option<Vec<RawTransaction>>,
}

/// What a raw block holds, as mathematical values. A block delivered
/// without a transaction list counts as one with an empty list.
pub struct RawBlockView {
    pub blockhash: Seq<char>,
    pub block_time: Option<int>,
    pub block_height: Option<int>,
    pub transactions: Seq<RawTransactionView>,
}

impl View for RawBlock {
    type V = RawBlockView;

    open spec fn view(&self) -> RawBlockView {
        RawBlockView {
            blockhash: self.blockhash@,
            block_time: match self.block_time {
                Some(t) => Some(t as int),
                None => None,
            },
            block_height: match self.block_height {
                Some(h) => Some(h as int),
                None => None,
            },
            transactions: match self.transactions {
                Some(entries) => entries.deep_view(),
                None => Seq::empty(),
            },
        }
    }
}

} // verus!
