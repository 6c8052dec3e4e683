//! The broker's native record shapes, as decoded from its JSON export.

use vstd::prelude::*;
use crate::datetime::{Date, DateTime};
use crate::decimal::Dec;
use crate::text::str_eq;

verus! {

/// The trade direction vocabulary of this broker.
#[derive(Clone, Copy, PartialEq, Eq, Structural, Debug)]
pub enum TradeOperationSide {
    Buy,
    Sell,
}

/// The side named by a field value; an unknown side is a decode failure.
pub open spec fn spec_side_of_string(s: Seq<char>) -> Option<TradeOperationSide> {
    if s == "buy"@ {
        Some(TradeOperationSide::Buy)
    } else if s == "sell"@ {
        Some(TradeOperationSide::Sell)
    } else {
        None
    }
}

pub fn side_of_string(s: &str) -> (r: Option<TradeOperationSide>)
    ensures
        r == spec_side_of_string(s@),
{
    if str_eq(s, "buy") {
        Some(TradeOperationSide::Buy)
    } else if str_eq(s, "sell") {
        Some(TradeOperationSide::Sell)
    } else {
        None
    }
}

/// The cash-in/out vocabulary of this broker; unknown values survive
/// verbatim.
#[derive(Clone, PartialEq, Debug)]
pub enum CashInOutType {
    DividendReverted,
    Dividend,
    Card,
    Unrecognized(String),
}

#[verifier::ext_equal]
pub enum CashInOutTypeV {
    DividendReverted,
    Dividend,
    Card,
    Unrecognized(Seq<char>),
}

impl View for CashInOutType {
    type V = CashInOutTypeV;

    open spec fn view(&self) -> CashInOutTypeV {
        match self {
            CashInOutType::DividendReverted => CashInOutTypeV::DividendReverted,
            CashInOutType::Dividend => CashInOutTypeV::Dividend,
            CashInOutType::Card => CashInOutTypeV::Card,
            CashInOutType::Unrecognized(s) => CashInOutTypeV::Unrecognized(s@),
        }
    }
}

/// The cash-in/out kind named by a field value.
pub open spec fn spec_cio_type_of_string(s: Seq<char>) -> CashInOutTypeV {
    if s == "dividend_reverted"@ {
        CashInOutTypeV::DividendReverted
    } else if s == "dividend"@ {
        CashInOutTypeV::Dividend
    } else if s == "card"@ {
        CashInOutTypeV::Card
    } else {
        CashInOutTypeV::Unrecognized(s)
    }
}

pub fn cio_type_of_string(s: &str) -> (r: CashInOutType)
    ensures
        r@ == spec_cio_type_of_string(s@),
{
    if str_eq(s, "dividend_reverted") {
        CashInOutType::DividendReverted
    } else if str_eq(s, "dividend") {
        CashInOutType::Dividend
    } else if str_eq(s, "card") {
        CashInOutType::Card
    } else {
        CashInOutType::Unrecognized(s.to_owned())
    }
}

/// One trade of the export's trades section.
#[derive(Clone, PartialEq, Debug)]
pub struct DetailedTrade {
    pub trade_id: u64,
    pub date: DateTime,
    pub instr_nm: String,
    pub instr_kind: String,
    pub operation: TradeOperationSide,
    pub price: Dec,
    pub curr_c: String,
    pub quantity: i32,
    pub summ: Dec,
    pub order_id: String,
    pub commission: Dec,
    pub commission_currency: String,
    pub comment: String,
    pub transaction_id: u64,
    pub isin: String,
    pub trade_nb: String,
    pub mkt_name: String,
    pub id: String,
}

#[verifier::ext_equal]
pub struct DetailedTradeV {
    pub trade_id: u64,
    pub date: DateTime,
    pub instr_nm: Seq<char>,
    pub instr_kind: Seq<char>,
    pub operation: TradeOperationSide,
    pub price: Dec,
    pub curr_c: Seq<char>,
    pub quantity: i32,
    pub summ: Dec,
    pub order_id: Seq<char>,
    pub commission: Dec,
    pub commission_currency: Seq<char>,
    pub comment: Seq<char>,
    pub transaction_id: u64,
    pub isin: Seq<char>,
    pub trade_nb: Seq<char>,
    pub mkt_name: Seq<char>,
    pub id: Seq<char>,
}

impl DetailedTradeV {
    pub open spec fn valid(self) -> bool {
        &&& self.date.valid()
        &&& self.price.valid()
        &&& self.summ.valid()
        &&& self.commission.valid()
    }
}

impl View for DetailedTrade {
    type V = DetailedTradeV;

    open spec fn view(&self) -> DetailedTradeV {
        DetailedTradeV {
            trade_id: self.trade_id,
            date: self.date,
            instr_nm: self.instr_nm@,
            instr_kind: self.instr_kind@,
            operation: self.operation,
            price: self.price,
            curr_c: self.curr_c@,
            quantity: self.quantity,
            summ: self.summ,
            order_id: self.order_id@,
            commission: self.commission,
            commission_currency: self.commission_currency@,
            comment: self.comment@,
            transaction_id: self.transaction_id,
            isin: self.isin@,
            trade_nb: self.trade_nb@,
            mkt_name: self.mkt_name@,
            id: self.id@,
        }
    }
}

/// One row of the export's cash-flow section.
#[derive(Clone, PartialEq, Debug)]
pub struct CashFlow {
    pub date: Date,
    pub account: String,
    pub sum: String,
    pub amount: Dec,
    pub currency: String,
    pub type_id: String,
    pub comment: String,
}

#[verifier::ext_equal]
pub struct CashFlowV {
    pub date: Date,
    pub account: Seq<char>,
    pub sum: Seq<char>,
    pub amount: Dec,
    pub currency: Seq<char>,
    pub type_id: Seq<char>,
    pub comment: Seq<char>,
}

impl CashFlowV {
    pub open spec fn valid(self) -> bool {
        &&& self.date.valid()
        &&& self.amount.valid()
    }
}

impl View for CashFlow {
    type V = CashFlowV;

    open spec fn view(&self) -> CashFlowV {
        CashFlowV {
            date: self.date,
            account: self.account@,
            sum: self.sum@,
            amount: self.amount,
            currency: self.currency@,
            type_id: self.type_id@,
            comment: self.comment@,
        }
    }
}

/// One entry of the export's cash-in/out list.
#[derive(Clone, PartialEq, Debug)]
pub struct CashInOut {
    pub id: u64,
    pub datetime: DateTime,
    pub ticker: Option<String>,
    pub amount: Dec,
    pub currency: String,
    pub commission: Dec,
    pub commission_currency: Option<String>,
    pub operation_type: CashInOutType,
    pub transaction_id: u64,
    pub details: String,
    pub value_usd_details: String,
    pub reverted: u64,
}

#[verifier::ext_equal]
pub struct CashInOutV {
    pub id: u64,
    pub datetime: DateTime,
    pub ticker: Option<Seq<char>>,
    pub amount: Dec,
    pub currency: Seq<char>,
    pub commission: Dec,
    pub commission_currency: Option<Seq<char>>,
    pub operation_type: CashInOutTypeV,
    pub transaction_id: u64,
    pub details: Seq<char>,
    pub value_usd_details: Seq<char>,
    pub reverted: u64,
}

impl CashInOutV {
    pub open spec fn valid(self) -> bool {
        &&& self.datetime.valid()
        &&& self.amount.valid()
        &&& self.commission.valid()
    }
}

impl View for CashInOut {
    type V = CashInOutV;

    open spec fn view(&self) -> CashInOutV {
        CashInOutV {
            id: self.id,
            datetime: self.datetime,
            ticker: crate::model::opt_str_view(self.ticker),
            amount: self.amount,
            currency: self.currency@,
            commission: self.commission,
            commission_currency: crate::model::opt_str_view(self.commission_currency),
            operation_type: self.operation_type@,
            transaction_id: self.transaction_id,
            details: self.details@,
            value_usd_details: self.value_usd_details@,
            reverted: self.reverted,
        }
    }
}

/// The export's trades section.
#[derive(Clone, PartialEq, Debug)]
pub struct Trades {
    pub detailed: Vec<DetailedTrade>,
}

/// The export's cash-flow section.
#[derive(Clone, PartialEq, Debug)]
pub struct CashFlows {
    pub detailed: Vec<CashFlow>,
}

/// A whole decoded export.
#[derive(Clone, PartialEq, Debug)]
pub struct Report {
    pub trades: Trades,
    pub cash_flows: CashFlows,
    pub cash_in_outs: Vec<CashInOut>,
}

#[verifier::ext_equal]
pub struct ReportV {
    pub trades: Seq<DetailedTradeV>,
    pub cash_flows: Seq<CashFlowV>,
    pub cash_in_outs: Seq<CashInOutV>,
}

impl ReportV {
    pub open spec fn valid(self) -> bool {
        &&& forall|k: int| 0 <= k < self.trades.len() ==> (#[trigger] self.trades[k]).valid()
        &&& forall|k: int|
            0 <= k < self.cash_flows.len() ==> (#[trigger] self.cash_flows[k]).valid()
        &&& forall|k: int|
            0 <= k < self.cash_in_outs.len() ==> (#[trigger] self.cash_in_outs[k]).valid()
    }
}

impl View for Report {
    type V = ReportV;

    open spec fn view(&self) -> ReportV {
        ReportV {
            trades: self.trades.detailed@.map_values(|t: DetailedTrade| t@),
            cash_flows: self.cash_flows.detailed@.map_values(|t: CashFlow| t@),
            cash_in_outs: self.cash_in_outs@.map_values(|t: CashInOut| t@),
        }
    }
}

/// Why a decode failed: the document is not well-formed JSON, or its
/// structure does not fit the expected shape (the text names what is
/// wrong).
#[derive(Clone, PartialEq, Debug)]
pub enum FreedomfinanceReportParsingError {
    Malformed(String),
}

#[verifier::ext_equal]
pub enum FreedomfinanceReportParsingErrorV {
    Malformed(Seq<char>),
}

impl View for FreedomfinanceReportParsingError {
    type V = FreedomfinanceReportParsingErrorV;

    open spec fn view(&self) -> FreedomfinanceReportParsingErrorV {
        match self {
            FreedomfinanceReportParsingError::Malformed(s)
                => FreedomfinanceReportParsingErrorV::Malformed(s@),
        }
    }
}

} // verus!
