//! The broker's native record shapes, as decoded from its export.

use vstd::prelude::*;
use crate::datetime::DateTime;
use crate::decimal::Dec;
use crate::text::str_eq;

verus! {

/// The trade direction vocabulary of this broker.
#[derive(Clone, Copy, PartialEq, Eq, Structural, Debug)]
pub enum TradeOperationSide {
    Buy,
    Sell,
}

/// The side named by a field value; sides are load-bearing, so an unknown
/// value is a decode failure, not a tolerated fallback.
pub open spec fn spec_side_of_string(s: Seq<char>) -> Option<TradeOperationSide> {
    if s == "buy"@ {
        Some(TradeOperationSide::Buy)
    } else if s == "sell"@ {
        Some(TradeOperationSide::Sell)
    } else {
        None
    }
}

pub fn side_of_string(s: &str) -> (r: Option<TradeOperationSide>)
    ensures
        r == spec_side_of_string(s@),
{
    if str_eq(s, "buy") {
        Some(TradeOperationSide::Buy)
    } else if str_eq(s, "sell") {
        Some(TradeOperationSide::Sell)
    } else {
        None
    }
}

/// One trade row of the export.
#[derive(Clone, PartialEq, Debug)]
pub struct TradeOperation {
    pub timestamp: DateTime,
    pub account_id: String,
    pub side: TradeOperationSide,
    pub symbol_id: String,
    pub isin: String,
    /// The instrument kind, like "STOCK".
    pub trade_operation_type: String,
    pub price: Dec,
    pub currency: String,
    pub quantity: i32,
    pub commission: Dec,
    pub commission_currency: String,
    pub pnl: Dec,
    /// The settled amount without commission.
    pub traded_volume: Dec,
    /// The broker's order id, a UUID in hyphenated lower-case text form.
    pub order_id: String,
    pub order_pos: i32,
    pub value_date: String,
    pub uti: String,
    /// The row kind, like "TRADE".
    pub trade_type: String,
}

/// The value of a native trade row.
#[verifier::ext_equal]
pub struct TradeOperationV {
    pub timestamp: DateTime,
    pub account_id: Seq<char>,
    pub side: TradeOperationSide,
    pub symbol_id: Seq<char>,
    pub isin: Seq<char>,
    pub trade_operation_type: Seq<char>,
    pub price: Dec,
    pub currency: Seq<char>,
    pub quantity: i32,
    pub commission: Dec,
    pub commission_currency: Seq<char>,
    pub pnl: Dec,
    pub traded_volume: Dec,
    pub order_id: Seq<char>,
    pub order_pos: i32,
    pub value_date: Seq<char>,
    pub uti: Seq<char>,
    pub trade_type: Seq<char>,
}

impl TradeOperationV {
    /// Every decoded amount is a well-formed decimal and the timestamp a
    /// real calendar time.
    pub open spec fn valid(self) -> bool {
        &&& self.timestamp.valid()
        &&& self.price.valid()
        &&& self.commission.valid()
        &&& self.pnl.valid()
        &&& self.traded_volume.valid()
    }
}

impl View for TradeOperation {
    type V = TradeOperationV;

    open spec fn view(&self) -> TradeOperationV {
        TradeOperationV {
            timestamp: self.timestamp,
            account_id: self.account_id@,
            side: self.side,
            symbol_id: self.symbol_id@,
            isin: self.isin@,
            trade_operation_type: self.trade_operation_type@,
            price: self.price,
            currency: self.currency@,
            quantity: self.quantity,
            commission: self.commission,
            commission_currency: self.commission_currency@,
            pnl: self.pnl,
            traded_volume: self.traded_volume,
            order_id: self.order_id@,
            order_pos: self.order_pos,
            value_date: self.value_date@,
            uti: self.uti@,
            trade_type: self.trade_type@,
        }
    }
}

/// The cash-event vocabulary of this broker; unknown values survive
/// verbatim.
#[derive(Clone, PartialEq, Debug)]
pub enum TransactionOperationType {
    UsTax,
    Tax,
    Dividend,
    Trade,
    Commission,
    FundingWithdrawal,
    Unrecognized(String),
}

/// The value of a `TransactionOperationType`.
#[verifier::ext_equal]
pub enum TransactionOperationTypeV {
    UsTax,
    Tax,
    Dividend,
    Trade,
    Commission,
    FundingWithdrawal,
    Unrecognized(Seq<char>),
}

impl View for TransactionOperationType {
    type V = TransactionOperationTypeV;

    open spec fn view(&self) -> TransactionOperationTypeV {
        match self {
            TransactionOperationType::UsTax => TransactionOperationTypeV::UsTax,
            TransactionOperationType::Tax => TransactionOperationTypeV::Tax,
            TransactionOperationType::Dividend => TransactionOperationTypeV::Dividend,
            TransactionOperationType::Trade => TransactionOperationTypeV::Trade,
            TransactionOperationType::Commission => TransactionOperationTypeV::Commission,
            TransactionOperationType::FundingWithdrawal
                => TransactionOperationTypeV::FundingWithdrawal,
            TransactionOperationType::Unrecognized(s)
                => TransactionOperationTypeV::Unrecognized(s@),
        }
    }
}

/// The cash-event kind named by a field value; anything outside the known
/// set becomes `Unrecognized` with the original text.
pub open spec fn spec_tx_type_of_string(s: Seq<char>) -> TransactionOperationTypeV {
    if s == "US TAX"@ {
        TransactionOperationTypeV::UsTax
    } else if s == "TAX"@ {
        TransactionOperationTypeV::Tax
    } else if s == "DIVIDEND"@ {
        TransactionOperationTypeV::Dividend
    } else if s == "TRADE"@ {
        TransactionOperationTypeV::Trade
    } else if s == "COMMISSION"@ {
        TransactionOperationTypeV::Commission
    } else if s == "FUNDING/WITHDRAWAL"@ {
        TransactionOperationTypeV::FundingWithdrawal
    } else {
        TransactionOperationTypeV::Unrecognized(s)
    }
}

pub fn tx_type_of_string(s: &str) -> (r: TransactionOperationType)
    ensures
        r@ == spec_tx_type_of_string(s@),
{
    if str_eq(s, "US TAX") {
        TransactionOperationType::UsTax
    } else if str_eq(s, "TAX") {
        TransactionOperationType::Tax
    } else if str_eq(s, "DIVIDEND") {
        TransactionOperationType::Dividend
    } else if str_eq(s, "TRADE") {
        TransactionOperationType::Trade
    } else if str_eq(s, "COMMISSION") {
        TransactionOperationType::Commission
    } else if str_eq(s, "FUNDING/WITHDRAWAL") {
        TransactionOperationType::FundingWithdrawal
    } else {
        TransactionOperationType::Unrecognized(s.to_owned())
    }
}

/// One cash-event row of the export.
#[derive(Clone, PartialEq, Debug)]
pub struct Transaction {
    pub id: String,
    pub account_id: String,
    /// A ticker, or the sentinel "None" for pure cash movements.
    pub symbol_id: String,
    /// The ISIN of the asset when it is a ticker, else the sentinel "None".
    pub isin: String,
    pub operation_type: TransactionOperationType,
    pub timestamp: DateTime,
    pub sum: Dec,
    /// Always a currency or a ticker.
    pub asset: String,
    pub eur_equivalent: Dec,
    pub comment: String,
    pub uuid: String,
    pub parent_uuid: String,
}

/// The value of a native cash-event row.
#[verifier::ext_equal]
pub struct TransactionV {
    pub id: Seq<char>,
    pub account_id: Seq<char>,
    pub symbol_id: Seq<char>,
    pub isin: Seq<char>,
    pub operation_type: TransactionOperationTypeV,
    pub timestamp: DateTime,
    pub sum: Dec,
    pub asset: Seq<char>,
    pub eur_equivalent: Dec,
    pub comment: Seq<char>,
    pub uuid: Seq<char>,
    pub parent_uuid: Seq<char>,
}

impl TransactionV {
    /// Every decoded amount is a well-formed decimal and the timestamp a
    /// real calendar time.
    pub open spec fn valid(self) -> bool {
        &&& self.timestamp.valid()
        &&& self.sum.valid()
        &&& self.eur_equivalent.valid()
    }
}

impl View for Transaction {
    type V = TransactionV;

    open spec fn view(&self) -> TransactionV {
        TransactionV {
            id: self.id@,
            account_id: self.account_id@,
            symbol_id: self.symbol_id@,
            isin: self.isin@,
            operation_type: self.operation_type@,
            timestamp: self.timestamp,
            sum: self.sum,
            asset: self.asset@,
            eur_equivalent: self.eur_equivalent,
            comment: self.comment@,
            uuid: self.uuid@,
            parent_uuid: self.parent_uuid@,
        }
    }
}

/// A whole decoded export: the trade rows, and the cash-event rows that are
/// genuine fiscal events (trade-settlement mirror rows are filtered out).
#[derive(Clone, PartialEq, Debug)]
pub struct Report {
    pub trade_operations: Vec<TradeOperation>,
    pub transactions: Vec<Transaction>,
}

#[verifier::ext_equal]
pub struct ReportV {
    pub trade_operations: Seq<TradeOperationV>,
    pub transactions: Seq<TransactionV>,
}

impl ReportV {
    /// Every record of the report is well-formed.
    pub open spec fn valid(self) -> bool {
        &&& forall|k: int|
            0 <= k < self.trade_operations.len() ==> (#[trigger] self.trade_operations[k]).valid()
        &&& forall|k: int|
            0 <= k < self.transactions.len() ==> (#[trigger] self.transactions[k]).valid()
    }
}

impl View for Report {
    type V = ReportV;

    open spec fn view(&self) -> ReportV {
        ReportV {
            trade_operations: self.trade_operations@.map_values(|t: TradeOperation| t@),
            transactions: self.transactions@.map_values(|t: Transaction| t@),
        }
    }
}

/// Why a decode failed: the stream is not UTF-8 text, the first rows match
/// no known header, or a data row does not fit the active shape (the text
/// names the offending column).
#[derive(Clone, PartialEq, Debug)]
pub enum ExanteReportParsingError {
    Encoding,
    UnknownHeader,
    Row(String),
}

#[verifier::ext_equal]
pub enum ExanteReportParsingErrorV {
    Encoding,
    UnknownHeader,
    Row(Seq<char>),
}

impl View for ExanteReportParsingError {
    type V = ExanteReportParsingErrorV;

    open spec fn view(&self) -> ExanteReportParsingErrorV {
        match self {
            ExanteReportParsingError::Encoding => ExanteReportParsingErrorV::Encoding,
            ExanteReportParsingError::UnknownHeader => ExanteReportParsingErrorV::UnknownHeader,
            ExanteReportParsingError::Row(s) => ExanteReportParsingErrorV::Row(s@),
        }
    }
}

} // verus!
