//! Normalization of this broker's native records into the canonical model:
//! vocabulary translation with the `Unrecognized` escape hatch, money and
//! metadata construction, and natural-identity derivation.

use vstd::prelude::*;
use super::model;
use crate::fiscal_transaction::{FiscalTransaction, FiscalTransactionV, FiscalTransactionTypeV};
use crate::model::{BrokerType, MetadataEntry, Money, MoneyV, OperationSource};
use crate::report::{AbstractReport, AbstractReportV};
use crate::text::{i64_to_string, spec_signed_digits_of};
use crate::trade_operation::{TradeOperation, TradeOperationV, TradeOperationSide};

verus! {

/// The external id a broker-A trade is deduplicated by: one order can yield
/// several partial fills, so the order id alone would collide; the order
/// position disambiguates them.
pub open spec fn spec_exante_trade_external_id(v: model::TradeOperationV) -> Seq<char> {
    v.order_id + "/"@ + spec_signed_digits_of(v.order_pos as int)
}

/// The canonical trade record of a native trade row. A commission that the
/// source reports as numerically zero is normalized away, not stored as an
/// explicit zero.
pub open spec fn spec_trade_from_exante(v: model::TradeOperationV) -> TradeOperationV {
    TradeOperationV {
        operation_source: OperationSource::ExanteReport,
        broker: Some(BrokerType::Exante),
        external_id: Some(spec_exante_trade_external_id(v)),
        date_time: v.timestamp,
        side: match v.side {
            model::TradeOperationSide::Buy => TradeOperationSide::Buy,
            model::TradeOperationSide::Sell => TradeOperationSide::Sell,
        },
        instrument_symbol: v.symbol_id,
        isin: Some(v.isin),
        price: MoneyV { amount: v.price, currency: v.currency },
        quantity: v.quantity,
        commission: if v.commission.mantissa == 0 {
            None
        } else {
            Some(MoneyV { amount: v.commission, currency: v.commission_currency })
        },
        order_id: Some(v.order_id),
        summ: MoneyV { amount: v.traded_volume, currency: v.currency },
        metadata: seq![
            ("uti"@, v.uti),
            ("trade_type"@, v.trade_type),
            ("type"@, v.trade_operation_type),
            ("order_pos"@, spec_signed_digits_of(v.order_pos as int)),
            ("account_id"@, v.account_id),
        ],
    }
}

/// The canonical fiscal record of a native cash-event row: the "None"
/// instrument sentinel becomes a missing symbol, the broker vocabulary is
/// translated (the trade pseudo-kind deliberately lands in `Unrecognized`,
/// such rows being filtered out upstream), and the source reports no
/// cash-event commission.
pub open spec fn spec_fiscal_from_exante(v: model::TransactionV) -> FiscalTransactionV {
    FiscalTransactionV {
        operation_source: OperationSource::ExanteReport,
        broker: Some(BrokerType::Exante),
        external_id: Some(v.id),
        date_time: v.timestamp,
        symbol_id: if v.symbol_id == "None"@ {
            None
        } else {
            Some(v.symbol_id)
        },
        operation_type: match v.operation_type {
            model::TransactionOperationTypeV::UsTax => FiscalTransactionTypeV::Tax,
            model::TransactionOperationTypeV::Tax => FiscalTransactionTypeV::Tax,
            model::TransactionOperationTypeV::Dividend => FiscalTransactionTypeV::Dividend,
            model::TransactionOperationTypeV::Trade => FiscalTransactionTypeV::Unrecognized(
                "Trade"@,
            ),
            model::TransactionOperationTypeV::Commission => FiscalTransactionTypeV::Commission,
            model::TransactionOperationTypeV::FundingWithdrawal
                => FiscalTransactionTypeV::FundingWithdrawal,
            model::TransactionOperationTypeV::Unrecognized(a)
                => FiscalTransactionTypeV::Unrecognized(a),
        },
        amount: MoneyV { amount: v.sum, currency: v.asset },
        commission: None,
        metadata: seq![
            ("account_id"@, v.account_id),
            ("isin"@, v.isin),
            ("eur_equivalent"@, crate::decimal::spec_format_dec(v.eur_equivalent)),
            ("comment"@, v.comment),
            ("uuid"@, v.uuid),
            ("parent_uuid"@, v.parent_uuid),
        ],
    }
}

impl model::TradeOperation {
    /// Maps one native trade row into the canonical model.
    pub fn to_canonical(self) -> (r: TradeOperation)
        ensures
            r@ == spec_trade_from_exante(self@),
    {
        let pos_str = i64_to_string(self.order_pos as i64);
        let external_id = self.order_id.clone().concat("/").concat(pos_str.as_str());
        proof {
            assert(external_id@ =~= spec_exante_trade_external_id(self@));
        }
        let mut metadata: Vec<MetadataEntry> = Vec::new();
        metadata.push(MetadataEntry::new("uti", self.uti));
        metadata.push(MetadataEntry::new("trade_type", self.trade_type));
        metadata.push(MetadataEntry::new("type", self.trade_operation_type));
        metadata.push(MetadataEntry::new("order_pos", pos_str));
        metadata.push(MetadataEntry::new("account_id", self.account_id));
        let commission = if self.commission.is_zero() {
            None
        } else {
            Some(Money::new(self.commission, self.commission_currency))
        };
        let r = TradeOperation {
            operation_source: OperationSource::ExanteReport,
            broker: Some(BrokerType::Exante),
            external_id: Some(external_id),
            date_time: self.timestamp,
            side: match self.side {
                model::TradeOperationSide::Buy => TradeOperationSide::Buy,
                model::TradeOperationSide::Sell => TradeOperationSide::Sell,
            },
            instrument_symbol: self.symbol_id,
            isin: Some(self.isin),
            price: Money::new(self.price, self.currency.clone()),
            quantity: self.quantity,
            commission,
            order_id: Some(self.order_id),
            summ: Money::new(self.traded_volume, self.currency),
            metadata,
        };
        proof {
            assert(crate::model::metadata_view(r.metadata@) =~= spec_trade_from_exante(
                self@,
            ).metadata);
            assert(r@ =~= spec_trade_from_exante(self@));
        }
        r
    }
}

impl model::Transaction {
    /// Maps one native cash-event row into the canonical model.
    pub fn to_canonical(self) -> (r: FiscalTransaction)
        requires
            self@.valid(),
        ensures
            r@ == spec_fiscal_from_exante(self@),
    {
        let eur_str = crate::decimal::format_dec(&self.eur_equivalent);
        let mut metadata: Vec<MetadataEntry> = Vec::new();
        metadata.push(MetadataEntry::new("account_id", self.account_id));
        metadata.push(MetadataEntry::new("isin", self.isin));
        metadata.push(MetadataEntry::new("eur_equivalent", eur_str));
        metadata.push(MetadataEntry::new("comment", self.comment));
        metadata.push(MetadataEntry::new("uuid", self.uuid));
        metadata.push(MetadataEntry::new("parent_uuid", self.parent_uuid));
        let symbol_id = if crate::text::str_eq(self.symbol_id.as_str(), "None") {
            None
        } else {
            Some(self.symbol_id)
        };
        let r = FiscalTransaction {
            operation_source: OperationSource::ExanteReport,
            broker: Some(BrokerType::Exante),
            external_id: Some(self.id),
            date_time: self.timestamp,
            symbol_id,
            amount: Money::new(self.sum, self.asset),
            operation_type: match self.operation_type {
                model::TransactionOperationType::UsTax
                    => crate::fiscal_transaction::FiscalTransactionType::Tax,
                model::TransactionOperationType::Tax
                    => crate::fiscal_transaction::FiscalTransactionType::Tax,
                model::TransactionOperationType::Dividend
                    => crate::fiscal_transaction::FiscalTransactionType::Dividend,
                model::TransactionOperationType::Trade
                    => crate::fiscal_transaction::FiscalTransactionType::Unrecognized(
                    "Trade".to_owned(),
                ),
                model::TransactionOperationType::Commission
                    => crate::fiscal_transaction::FiscalTransactionType::Commission,
                model::TransactionOperationType::FundingWithdrawal
                    => crate::fiscal_transaction::FiscalTransactionType::FundingWithdrawal,
                model::TransactionOperationType::Unrecognized(a)
                    => crate::fiscal_transaction::FiscalTransactionType::Unrecognized(a),
            },
            commission: None,
            metadata,
        };
        proof {
            assert(crate::model::metadata_view(r.metadata@) =~= spec_fiscal_from_exante(
                self@,
            ).metadata);
            assert(r@ =~= spec_fiscal_from_exante(self@));
        }
        r
    }
}

/// The broker-independent report of a whole decoded export.
pub open spec fn spec_abstract_from_exante(rv: model::ReportV) -> AbstractReportV {
    AbstractReportV {
        broker: BrokerType::Exante,
        trade_operations: rv.trade_operations.map_values(
            |t: model::TradeOperationV| spec_trade_from_exante(t),
        ),
        fiscal_transactions: rv.transactions.map_values(
            |t: model::TransactionV| spec_fiscal_from_exante(t),
        ),
    }
}

impl model::Report {
    /// Maps a whole decoded export into the broker-independent report.
    pub fn into_abstract(self) -> (r: AbstractReport)
        requires
            self@.valid(),
        ensures
            r@ == spec_abstract_from_exante(self@),
    {
        let ghost rv = self@;
        let mut trades: Vec<TradeOperation> = Vec::new();
        let mut fiscals: Vec<FiscalTransaction> = Vec::new();
        let mut src_trades = self.trade_operations;
        let mut src_txs = self.transactions;
        proof {
            assert(src_trades@.map_values(|t: model::TradeOperation| t@) =~= rv.trade_operations);
            assert(src_txs@.map_values(|t: model::Transaction| t@) =~= rv.transactions);
        }
        let ghost src_trades_g = src_trades@;
        let ghost src_txs_g = src_txs@;
        while src_trades.len() > 0
            invariant
                src_trades@.len() <= src_trades_g.len(),
                src_trades@ == src_trades_g.skip(src_trades_g.len() - src_trades@.len()),
                src_trades_g.map_values(|t: model::TradeOperation| t@) == rv.trade_operations,
                src_trades_g.len() == rv.trade_operations.len(),
                rv.valid(),
                trades@.map_values(|t: TradeOperation| t@) == rv.trade_operations.take(
                    rv.trade_operations.len() - src_trades@.len(),
                ).map_values(|t: model::TradeOperationV| spec_trade_from_exante(t)),
            decreases src_trades@.len(),
        {
            let ghost done = rv.trade_operations.len() - src_trades@.len();
            let ghost before = src_trades@;
            let t = src_trades.remove(0);
            proof {
                assert(t == before[0]);
                let start = src_trades_g.len() - before.len();
                assert(src_trades_g.skip(start)[0] == src_trades_g[start]);
                assert(before[0] == src_trades_g[done]);
                assert(src_trades_g.map_values(|t: model::TradeOperation| t@)[done]
                    == src_trades_g[done]@);
                assert(t@ == rv.trade_operations[done]);
                assert(src_trades@ =~= src_trades_g.skip(src_trades_g.len()
                    - src_trades@.len()));
            }
            let c = t.to_canonical();
            let ghost trades_old = trades@;
            trades.push(c);
            proof {
                assert(trades@.map_values(|t: TradeOperation| t@) =~= trades_old.map_values(
                    |t: TradeOperation| t@,
                ).push(c@));
                assert(rv.trade_operations.take(done + 1).map_values(
                    |t: model::TradeOperationV| spec_trade_from_exante(t),
                ) =~= rv.trade_operations.take(done).map_values(
                    |t: model::TradeOperationV| spec_trade_from_exante(t),
                ).push(spec_trade_from_exante(rv.trade_operations[done])));
            }
        }
        proof {
            assert(rv.trade_operations.take(rv.trade_operations.len() as int)
                == rv.trade_operations);
        }
        while src_txs.len() > 0
            invariant
                src_txs@.len() <= src_txs_g.len(),
                src_txs@ == src_txs_g.skip(src_txs_g.len() - src_txs@.len()),
                src_txs_g.map_values(|t: model::Transaction| t@) == rv.transactions,
                src_txs_g.len() == rv.transactions.len(),
                rv.valid(),
                fiscals@.map_values(|t: FiscalTransaction| t@) == rv.transactions.take(
                    rv.transactions.len() - src_txs@.len(),
                ).map_values(|t: model::TransactionV| spec_fiscal_from_exante(t)),
            decreases src_txs@.len(),
        {
            let ghost done = rv.transactions.len() - src_txs@.len();
            let ghost before = src_txs@;
            let t = src_txs.remove(0);
            proof {
                assert(t == before[0]);
                let start = src_txs_g.len() - before.len();
                assert(src_txs_g.skip(start)[0] == src_txs_g[start]);
                assert(before[0] == src_txs_g[done]);
                assert(src_txs_g.map_values(|t: model::Transaction| t@)[done]
                    == src_txs_g[done]@);
                assert(t@ == rv.transactions[done]);
                assert(t@.valid());
                assert(src_txs@ =~= src_txs_g.skip(src_txs_g.len() - src_txs@.len()));
            }
            let c = t.to_canonical();
            let ghost fiscals_old = fiscals@;
            fiscals.push(c);
            proof {
                assert(fiscals@.map_values(|t: FiscalTransaction| t@) =~= fiscals_old.map_values(
                    |t: FiscalTransaction| t@,
                ).push(c@));
                assert(rv.transactions.take(done + 1).map_values(
                    |t: model::TransactionV| spec_fiscal_from_exante(t),
                ) =~= rv.transactions.take(done).map_values(
                    |t: model::TransactionV| spec_fiscal_from_exante(t),
                ).push(spec_fiscal_from_exante(rv.transactions[done])));
            }
        }
        proof {
            assert(rv.transactions.take(rv.transactions.len() as int) == rv.transactions);
        }
        let r = AbstractReport {
            broker: BrokerType::Exante,
            trade_operations: trades,
            fiscal_transactions: fiscals,
        };
        proof {
            assert(r@ =~= spec_abstract_from_exante(rv));
        }
        r
    }
}

} // verus!
