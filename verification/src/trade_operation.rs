//! The canonical trade-execution record and its user-authored entry shape.

use vstd::prelude::*;
use crate::datetime::DateTime;
use crate::model::{
    BrokerType, MetadataEntry, Money, MoneyV, OperationSource, metadata_view, opt_money_view,
    opt_str_view,
};

verus! {

/// The direction of a trade.
#[derive(Clone, Copy, PartialEq, Eq, Structural, Debug)]
pub enum TradeOperationSide {
    Buy,
    Sell,
}

/// One executed trade fill in the canonical model.
#[derive(Clone, PartialEq, Debug)]
pub struct TradeOperation {
    pub operation_source: OperationSource,
    pub broker: Option<BrokerType>,
    pub external_id: Option<String>,
    pub date_time: DateTime,
    pub side: TradeOperationSide,
    pub instrument_symbol: String,
    pub isin: Option<String>,
    pub price: Money,
    pub quantity: i32,
    pub commission: Option<Money>,
    pub order_id: Option<String>,
    /// Total settled amount without commission; direction is carried by
    /// `side`, not by this amount's sign.
    pub summ: Money,
    pub metadata: Vec<MetadataEntry>,
}

/// The mathematical value of a `TradeOperation`.
#[verifier::ext_equal]
pub struct TradeOperationV {
    pub operation_source: OperationSource,
    pub broker: Option<BrokerType>,
    pub external_id: Option<Seq<char>>,
    pub date_time: DateTime,
    pub side: TradeOperationSide,
    pub instrument_symbol: Seq<char>,
    pub isin: Option<Seq<char>>,
    pub price: MoneyV,
    pub quantity: i32,
    pub commission: Option<MoneyV>,
    pub order_id: Option<Seq<char>>,
    pub summ: MoneyV,
    pub metadata: Seq<(Seq<char>, Seq<char>)>,
}

impl View for TradeOperation {
    type V = TradeOperationV;

    open spec fn view(&self) -> TradeOperationV {
        TradeOperationV {
            operation_source: self.operation_source,
            broker: self.broker,
            external_id: opt_str_view(self.external_id),
            date_time: self.date_time,
            side: self.side,
            instrument_symbol: self.instrument_symbol@,
            isin: opt_str_view(self.isin),
            price: self.price@,
            quantity: self.quantity,
            commission: opt_money_view(self.commission),
            order_id: opt_str_view(self.order_id),
            summ: self.summ@,
            metadata: metadata_view(self.metadata@),
        }
    }
}

/// A trade record tagged for persistence under a portfolio and an upload.
#[derive(Clone, PartialEq, Debug)]
pub struct InsertTradeOperation {
    pub portfolio_id: String,
    pub report_upload_id: Option<String>,
    pub trade_operation: TradeOperation,
}

#[verifier::ext_equal]
pub struct InsertTradeOperationV {
    pub portfolio_id: Seq<char>,
    pub report_upload_id: Option<Seq<char>>,
    pub trade_operation: TradeOperationV,
}

impl View for InsertTradeOperation {
    type V = InsertTradeOperationV;

    open spec fn view(&self) -> InsertTradeOperationV {
        InsertTradeOperationV {
            portfolio_id: self.portfolio_id@,
            report_upload_id: opt_str_view(self.report_upload_id),
            trade_operation: self.trade_operation@,
        }
    }
}

/// A stored trade row: its row id and the record.
#[derive(Clone, PartialEq, Debug)]
pub struct SelectTradeOperation {
    pub id: String,
    pub portfolio_id: String,
    pub i: TradeOperation,
}

/// A user-authored trade entry, before validation.
#[derive(Clone, PartialEq, Debug)]
pub struct CreateTradeOperation {
    pub portfolio_id: String,
    pub ticker: String,
    pub side: TradeOperationSide,
    pub price: Money,
    pub quantity: i32,
    pub summ: Money,
    pub isin: Option<String>,
    pub date_time: DateTime,
    pub brokerage: Option<BrokerType>,
}

/// The complaint, if any, against a user-authored trade entry: a negative
/// settled amount, a negative price, or a negative quantity.
pub open spec fn spec_check_create_trade(v: &CreateTradeOperation) -> Option<Seq<char>> {
    if v.summ.amount.negative {
        Some("summ.amount must be positive"@)
    } else if v.price.amount.negative {
        Some("price.amount must be positive"@)
    } else if v.quantity < 0 {
        Some("quantity must be positive"@)
    } else {
        None
    }
}

/// Validation of user-authored trade entries.
pub struct CreateTradeOperationValidator {}

impl CreateTradeOperationValidator {
    /// Accepts an entry exactly when no amount or quantity is negative.
    pub fn check(&self, value: &CreateTradeOperation) -> (r: Result<(), String>)
        ensures
            r is Ok <==> spec_check_create_trade(value) is None,
            r is Err ==> Some(r->Err_0@) == spec_check_create_trade(value),
    {
        if value.summ.amount.is_sign_negative() {
            Err("summ.amount must be positive".to_owned())
        } else if value.price.amount.is_sign_negative() {
            Err("price.amount must be positive".to_owned())
        } else if value.quantity < 0 {
            Err("quantity must be positive".to_owned())
        } else {
            Ok(())
        }
    }
}

impl CreateTradeOperation {
    /// The canonical manual-entry record: no external id (manual entries
    /// are never deduplicated), no commission, an empty metadata bag.
    pub fn into_insert(self) -> (r: InsertTradeOperation)
        ensures
            r@ == (InsertTradeOperationV {
                portfolio_id: self.portfolio_id@,
                report_upload_id: None,
                trade_operation: TradeOperationV {
                    operation_source: OperationSource::Manual,
                    broker: self.brokerage,
                    external_id: None,
                    date_time: self.date_time,
                    side: self.side,
                    instrument_symbol: self.ticker@,
                    isin: opt_str_view(self.isin),
                    price: self.price@,
                    quantity: self.quantity,
                    commission: None,
                    order_id: None,
                    summ: self.summ@,
                    metadata: Seq::empty(),
                },
            }),
    {
        let r = InsertTradeOperation {
            portfolio_id: self.portfolio_id,
            report_upload_id: None,
            trade_operation: TradeOperation {
                operation_source: OperationSource::Manual,
                broker: self.brokerage,
                external_id: None,
                date_time: self.date_time,
                side: self.side,
                instrument_symbol: self.ticker,
                isin: self.isin,
                price: self.price,
                quantity: self.quantity,
                commission: None,
                order_id: None,
                summ: self.summ,
                metadata: Vec::new(),
            },
        };
        proof {
            assert(metadata_view(r.trade_operation.metadata@) =~= Seq::<(
                Seq<char>,
                Seq<char>,
            )>::empty());
            assert(r@ =~= (InsertTradeOperationV {
                portfolio_id: r.portfolio_id@,
                report_upload_id: None,
                trade_operation: TradeOperationV {
                    operation_source: OperationSource::Manual,
                    broker: r.trade_operation.broker,
                    external_id: None,
                    date_time: r.trade_operation.date_time,
                    side: r.trade_operation.side,
                    instrument_symbol: r.trade_operation.instrument_symbol@,
                    isin: opt_str_view(r.trade_operation.isin),
                    price: r.trade_operation.price@,
                    quantity: r.trade_operation.quantity,
                    commission: None,
                    order_id: None,
                    summ: r.trade_operation.summ@,
                    metadata: Seq::empty(),
                },
            }));
        }
        r
    }
}

/// The trade-operation mutation surface marker.
pub struct TradeOperationMutation {}

} // verus!
