//! Portfolio-facing shapes: the creation payload, the query-surface
//! markers, and the older broker-independent record shapes kept for
//! compatibility.

use vstd::prelude::*;
use crate::datetime::DateTime;
use crate::decimal::Dec;

verus! {

/// The payload a new portfolio is created from.
#[derive(Clone, PartialEq, Debug)]
pub struct CreatePortfolio {
    pub title: String,
}

/// The portfolio query surface marker.
pub struct PortfolioQuery {}

/// The portfolio mutation surface marker.
pub struct PortfolioMutation {}

/// Provenance vocabulary of the older record shapes.
#[derive(Clone, Copy, PartialEq, Eq, Structural, Debug)]
pub enum AbstractOperationSource {
    ExanteReport,
    FreedomfinanceReport,
}

/// Trade direction of the older record shapes.
#[derive(Clone, Copy, PartialEq, Eq, Structural, Debug)]
pub enum AbstractTradeSide {
    Buy,
    Sell,
}

/// Event vocabulary of the older record shapes, with the same
/// forward-compatible fallback as the canonical model.
#[derive(Clone, PartialEq, Debug)]
pub enum AbstractTransactionType {
    Tax,
    Divident,
    Trade,
    Commission,
    FundingWithdrawal,
    RevertedDivident,
    Unrecognized(String),
}

/// An older broker-independent transaction shape, kept for compatibility.
#[derive(Clone, PartialEq, Debug)]
pub struct AbstractTransaction {
    pub source: AbstractOperationSource,
    pub external_id: Option<String>,
    pub date_time: DateTime,
    pub symbol_id: Option<String>,
    pub amount: Dec,
    pub currency: String,
    pub operation_type: AbstractTransactionType,
    pub comission: Option<Dec>,
    pub comission_currency: Option<String>,
}

} // verus!
