//! Normalization of this broker's native records into the canonical model.

use vstd::prelude::*;
use super::model;
use crate::fiscal_transaction::{FiscalTransaction, FiscalTransactionV, FiscalTransactionTypeV};
use crate::model::{BrokerType, MetadataEntry, Money, MoneyV, OperationSource};
use crate::report::{AbstractReport, AbstractReportV};
use crate::text::{spec_digits_of, u64_to_string};
use crate::trade_operation::{TradeOperation, TradeOperationV, TradeOperationSide};

verus! {

/// The canonical trade record of a native trade. A numerically zero
/// commission is normalized away.
pub open spec fn spec_trade_from_freedomfinance(v: model::DetailedTradeV) -> TradeOperationV {
    TradeOperationV {
        operation_source: OperationSource::FreedomfinanceReport,
        broker: Some(BrokerType::Freedomfinance),
        external_id: Some(v.id),
        date_time: v.date,
        side: match v.operation {
            model::TradeOperationSide::Buy => TradeOperationSide::Buy,
            model::TradeOperationSide::Sell => TradeOperationSide::Sell,
        },
        instrument_symbol: v.instr_nm,
        isin: Some(v.isin),
        price: MoneyV { amount: v.price, currency: v.curr_c },
        quantity: v.quantity,
        commission: if v.commission.mantissa == 0 {
            None
        } else {
            Some(MoneyV { amount: v.commission, currency: v.commission_currency })
        },
        order_id: Some(v.order_id),
        summ: MoneyV { amount: v.summ, currency: v.curr_c },
        metadata: seq![
            ("comment"@, v.comment),
            ("market"@, v.mkt_name),
            ("instr_kind"@, v.instr_kind),
            ("trade_id"@, spec_digits_of(v.trade_id as int)),
        ],
    }
}

/// The canonical fiscal record of a native cash-in/out entry: the broker
/// vocabulary is translated with the `Unrecognized` escape hatch, and a
/// commission is kept only when a currency is given and the amount is not
/// numerically zero.
pub open spec fn spec_fiscal_from_freedomfinance(v: model::CashInOutV) -> FiscalTransactionV {
    FiscalTransactionV {
        operation_source: OperationSource::FreedomfinanceReport,
        broker: Some(BrokerType::Freedomfinance),
        external_id: Some(spec_digits_of(v.id as int)),
        date_time: v.datetime,
        symbol_id: v.ticker,
        amount: MoneyV { amount: v.amount, currency: v.currency },
        operation_type: match v.operation_type {
            model::CashInOutTypeV::DividendReverted => FiscalTransactionTypeV::RevertedDividend,
            model::CashInOutTypeV::Dividend => FiscalTransactionTypeV::Dividend,
            model::CashInOutTypeV::Card => FiscalTransactionTypeV::FundingWithdrawal,
            model::CashInOutTypeV::Unrecognized(a) => FiscalTransactionTypeV::Unrecognized(a),
        },
        commission: match v.commission_currency {
            Some(cur) => if v.commission.mantissa == 0 {
                None
            } else {
                Some(MoneyV { amount: v.commission, currency: cur })
            },
            None => None,
        },
        metadata: seq![
            ("transaction_id"@, spec_digits_of(v.transaction_id as int)),
            ("details"@, v.details),
            ("value_usd_details"@, v.value_usd_details),
            ("reverted"@, spec_digits_of(v.reverted as int)),
        ],
    }
}

impl model::DetailedTrade {
    /// Maps one native trade into the canonical model.
    pub fn to_canonical(self) -> (r: TradeOperation)
        ensures
            r@ == spec_trade_from_freedomfinance(self@),
    {
        let trade_id_str = u64_to_string(self.trade_id);
        let mut metadata: Vec<MetadataEntry> = Vec::new();
        metadata.push(MetadataEntry::new("comment", self.comment));
        metadata.push(MetadataEntry::new("market", self.mkt_name));
        metadata.push(MetadataEntry::new("instr_kind", self.instr_kind));
        metadata.push(MetadataEntry::new("trade_id", trade_id_str));
        let commission = if self.commission.is_zero() {
            None
        } else {
            Some(Money::new(self.commission, self.commission_currency))
        };
        let r = TradeOperation {
            operation_source: OperationSource::FreedomfinanceReport,
            broker: Some(BrokerType::Freedomfinance),
            external_id: Some(self.id),
            date_time: self.date,
            side: match self.operation {
                model::TradeOperationSide::Buy => TradeOperationSide::Buy,
                model::TradeOperationSide::Sell => TradeOperationSide::Sell,
            },
            instrument_symbol: self.instr_nm,
            isin: Some(self.isin),
            price: Money::new(self.price, self.curr_c.clone()),
            quantity: self.quantity,
            commission,
            order_id: Some(self.order_id),
            summ: Money::new(self.summ, self.curr_c),
            metadata,
        };
        proof {
            assert(crate::model::metadata_view(r.metadata@) =~= spec_trade_from_freedomfinance(
                self@,
            ).metadata);
            assert(r@ =~= spec_trade_from_freedomfinance(self@));
        }
        r
    }
}

impl model::CashInOut {
    /// Maps one native cash-in/out entry into the canonical model.
    pub fn to_canonical(self) -> (r: FiscalTransaction)
        ensures
            r@ == spec_fiscal_from_freedomfinance(self@),
    {
        let id_str = u64_to_string(self.id);
        let tx_str = u64_to_string(self.transaction_id);
        let rev_str = u64_to_string(self.reverted);
        let mut metadata: Vec<MetadataEntry> = Vec::new();
        metadata.push(MetadataEntry::new("transaction_id", tx_str));
        metadata.push(MetadataEntry::new("details", self.details));
        metadata.push(MetadataEntry::new("value_usd_details", self.value_usd_details));
        metadata.push(MetadataEntry::new("reverted", rev_str));
        let commission = match self.commission_currency {
            Some(cur) => {
                if self.commission.is_zero() {
                    None
                } else {
                    Some(Money::new(self.commission, cur))
                }
            },
            None => None,
        };
        let r = FiscalTransaction {
            operation_source: OperationSource::FreedomfinanceReport,
            broker: Some(BrokerType::Freedomfinance),
            external_id: Some(id_str),
            date_time: self.datetime,
            symbol_id: self.ticker,
            amount: Money::new(self.amount, self.currency),
            operation_type: match self.operation_type {
                model::CashInOutType::DividendReverted
                    => crate::fiscal_transaction::FiscalTransactionType::RevertedDividend,
                model::CashInOutType::Dividend
                    => crate::fiscal_transaction::FiscalTransactionType::Dividend,
                model::CashInOutType::Card
                    => crate::fiscal_transaction::FiscalTransactionType::FundingWithdrawal,
                model::CashInOutType::Unrecognized(a)
                    => crate::fiscal_transaction::FiscalTransactionType::Unrecognized(a),
            },
            commission,
            metadata,
        };
        proof {
            assert(crate::model::metadata_view(r.metadata@) =~= spec_fiscal_from_freedomfinance(
                self@,
            ).metadata);
            assert(r@ =~= spec_fiscal_from_freedomfinance(self@));
        }
        r
    }
}

/// The broker-independent report of a whole decoded export: the detailed
/// trades and the cash-in/out list; the cash-flow section carries no
/// canonical record.
pub open spec fn spec_abstract_from_freedomfinance(rv: model::ReportV) -> AbstractReportV {
    AbstractReportV {
        broker: BrokerType::Freedomfinance,
        trade_operations: rv.trades.map_values(
            |t: model::DetailedTradeV| spec_trade_from_freedomfinance(t),
        ),
        fiscal_transactions: rv.cash_in_outs.map_values(
            |t: model::CashInOutV| spec_fiscal_from_freedomfinance(t),
        ),
    }
}

impl model::Report {
    /// Maps a whole decoded export into the broker-independent report.
    pub fn into_abstract(self) -> (r: AbstractReport)
        ensures
            r@ == spec_abstract_from_freedomfinance(self@),
    {
        let ghost rv = self@;
        let mut trades: Vec<TradeOperation> = Vec::new();
        let mut fiscals: Vec<FiscalTransaction> = Vec::new();
        let mut src_trades = self.trades.detailed;
        let mut src_cios = self.cash_in_outs;
        proof {
            assert(src_trades@.map_values(|t: model::DetailedTrade| t@) =~= rv.trades);
            assert(src_cios@.map_values(|t: model::CashInOut| t@) =~= rv.cash_in_outs);
        }
        let ghost src_trades_g = src_trades@;
        let ghost src_cios_g = src_cios@;
        while src_trades.len() > 0
            invariant
                src_trades@.len() <= src_trades_g.len(),
                src_trades@ == src_trades_g.skip(src_trades_g.len() - src_trades@.len()),
                src_trades_g.map_values(|t: model::DetailedTrade| t@) == rv.trades,
                src_trades_g.len() == rv.trades.len(),
                trades@.map_values(|t: TradeOperation| t@) == rv.trades.take(
                    rv.trades.len() - src_trades@.len(),
                ).map_values(|t: model::DetailedTradeV| spec_trade_from_freedomfinance(t)),
            decreases src_trades@.len(),
        {
            let ghost done = rv.trades.len() - src_trades@.len();
            let ghost before = src_trades@;
            let t = src_trades.remove(0);
            proof {
                assert(t == before[0]);
                let start = src_trades_g.len() - before.len();
                assert(src_trades_g.skip(start)[0] == src_trades_g[start]);
                assert(before[0] == src_trades_g[done]);
                assert(src_trades_g.map_values(|t: model::DetailedTrade| t@)[done]
                    == src_trades_g[done]@);
                assert(t@ == rv.trades[done]);
                assert(src_trades@ =~= src_trades_g.skip(src_trades_g.len()
                    - src_trades@.len()));
            }
            let c = t.to_canonical();
            let ghost trades_old = trades@;
            trades.push(c);
            proof {
                assert(trades@.map_values(|t: TradeOperation| t@) =~= trades_old.map_values(
                    |t: TradeOperation| t@,
                ).push(c@));
                assert(rv.trades.take(done + 1).map_values(
                    |t: model::DetailedTradeV| spec_trade_from_freedomfinance(t),
                ) =~= rv.trades.take(done).map_values(
                    |t: model::DetailedTradeV| spec_trade_from_freedomfinance(t),
                ).push(spec_trade_from_freedomfinance(rv.trades[done])));
            }
        }
        proof {
            assert(rv.trades.take(rv.trades.len() as int) == rv.trades);
        }
        while src_cios.len() > 0
            invariant
                src_cios@.len() <= src_cios_g.len(),
                src_cios@ == src_cios_g.skip(src_cios_g.len() - src_cios@.len()),
                src_cios_g.map_values(|t: model::CashInOut| t@) == rv.cash_in_outs,
                src_cios_g.len() == rv.cash_in_outs.len(),
                fiscals@.map_values(|t: FiscalTransaction| t@) == rv.cash_in_outs.take(
                    rv.cash_in_outs.len() - src_cios@.len(),
                ).map_values(|t: model::CashInOutV| spec_fiscal_from_freedomfinance(t)),
            decreases src_cios@.len(),
        {
            let ghost done = rv.cash_in_outs.len() - src_cios@.len();
            let ghost before = src_cios@;
            let t = src_cios.remove(0);
            proof {
                assert(t == before[0]);
                let start = src_cios_g.len() - before.len();
                assert(src_cios_g.skip(start)[0] == src_cios_g[start]);
                assert(before[0] == src_cios_g[done]);
                assert(src_cios_g.map_values(|t: model::CashInOut| t@)[done]
                    == src_cios_g[done]@);
                assert(t@ == rv.cash_in_outs[done]);
                assert(src_cios@ =~= src_cios_g.skip(src_cios_g.len() - src_cios@.len()));
            }
            let c = t.to_canonical();
            let ghost fiscals_old = fiscals@;
            fiscals.push(c);
            proof {
                assert(fiscals@.map_values(|t: FiscalTransaction| t@) =~= fiscals_old.map_values(
                    |t: FiscalTransaction| t@,
                ).push(c@));
                assert(rv.cash_in_outs.take(done + 1).map_values(
                    |t: model::CashInOutV| spec_fiscal_from_freedomfinance(t),
                ) =~= rv.cash_in_outs.take(done).map_values(
                    |t: model::CashInOutV| spec_fiscal_from_freedomfinance(t),
                ).push(spec_fiscal_from_freedomfinance(rv.cash_in_outs[done])));
            }
        }
        proof {
            assert(rv.cash_in_outs.take(rv.cash_in_outs.len() as int) == rv.cash_in_outs);
        }
        let r = AbstractReport {
            broker: BrokerType::Freedomfinance,
            trade_operations: trades,
            fiscal_transactions: fiscals,
        };
        proof {
            assert(r@ =~= spec_abstract_from_freedomfinance(rv));
        }
        r
    }
}

} // verus!
