use broker_ingest::datetime::parse_datetime;
use broker_ingest::decimal::parse_dec;
use broker_ingest::fiscal_transaction::{
    FiscalTransaction, FiscalTransactionType, SelectFiscalTransaction,
};
use broker_ingest::model::{BrokerType, Money, OperationSource};
use broker_ingest::trade_operation::{SelectTradeOperation, TradeOperation, TradeOperationSide};
use broker_ingest::user_transaction::{
    generate_user_transaction_list, UserTransactionTradeSide, UserTransactionType,
};

fn trade_row(id: &str, when: &str, side: TradeOperationSide) -> SelectTradeOperation {
    SelectTradeOperation {
        id: id.to_string(),
        portfolio_id: "portfolio-1".to_string(),
        i: TradeOperation {
            operation_source: OperationSource::ExanteReport,
            broker: Some(BrokerType::Exante),
            external_id: Some(format!("{id}/1")),
            date_time: parse_datetime(when).unwrap(),
            side,
            instrument_symbol: "AAPL".to_string(),
            isin: None,
            price: Money::new(parse_dec("76.49").unwrap(), "USD".to_string()),
            quantity: 10,
            commission: None,
            order_id: Some(id.to_string()),
            summ: Money::new(parse_dec("764.90").unwrap(), "USD".to_string()),
            metadata: Vec::new(),
        },
    }
}

fn fiscal_row(id: &str, when: &str, kind: FiscalTransactionType) -> SelectFiscalTransaction {
    SelectFiscalTransaction {
        id: id.to_string(),
        i: FiscalTransaction {
            operation_source: OperationSource::ExanteReport,
            broker: Some(BrokerType::Exante),
            external_id: Some(id.to_string()),
            date_time: parse_datetime(when).unwrap(),
            symbol_id: None,
            amount: Money::new(parse_dec("-1.25").unwrap(), "USD".to_string()),
            operation_type: kind,
            commission: None,
            metadata: Vec::new(),
        },
    }
}

#[test]
fn buys_show_as_outflows_and_sells_as_inflows() {
    let buy = trade_row("a", "2023-01-02 00:00:00", TradeOperationSide::Buy)
        .into_user_transaction();
    assert_eq!(buy.user_transaction_type, UserTransactionType::Trade);
    assert!(buy.summ.amount.negative);
    assert_eq!(buy.summ.amount.mantissa, 76490);
    assert_eq!(buy.trade_side, Some(UserTransactionTradeSide::Buy));
    assert_eq!(buy.trade_operation_id.as_deref(), Some("a"));
    assert!(buy.fiscal_transaction_id.is_none());
    let sell = trade_row("b", "2023-01-02 00:00:00", TradeOperationSide::Sell)
        .into_user_transaction();
    assert!(!sell.summ.amount.negative);
}

#[test]
fn fiscal_rows_carry_their_kind_and_fallback_text() {
    let tax = fiscal_row("f1", "2023-01-02 00:00:00", FiscalTransactionType::Tax)
        .into_user_transaction();
    assert_eq!(tax.user_transaction_type, UserTransactionType::Tax);
    assert!(tax.unrecognized_type.is_none());
    assert_eq!(tax.fiscal_transaction_id.as_deref(), Some("f1"));
    let odd = fiscal_row(
        "f2",
        "2023-01-02 00:00:00",
        FiscalTransactionType::Unrecognized("ODD".to_string()),
    )
        .into_user_transaction();
    assert_eq!(odd.user_transaction_type, UserTransactionType::Unrecognized);
    assert_eq!(odd.unrecognized_type.as_deref(), Some("ODD"));
}

#[test]
fn the_merged_list_is_chronological() {
    let trades = vec![
        trade_row("t2", "2023-01-05 00:00:00", TradeOperationSide::Buy),
        trade_row("t1", "2023-01-01 00:00:00", TradeOperationSide::Sell),
    ];
    let fiscals = vec![
        fiscal_row("f1", "2023-01-03 00:00:00", FiscalTransactionType::Tax),
        fiscal_row("f2", "2023-01-02 00:00:00", FiscalTransactionType::Dividend),
    ];
    let list = generate_user_transaction_list(trades, fiscals);
    assert_eq!(list.len(), 4);
    let order: Vec<Option<&str>> = list
        .iter()
        .map(|u| {
            u.trade_operation_id
                .as_deref()
                .or(u.fiscal_transaction_id.as_deref())
        })
        .collect();
    assert_eq!(order, vec![Some("t1"), Some("f2"), Some("f1"), Some("t2")]);
    for w in list.windows(2) {
        assert!(w[0].date_time.key() <= w[1].date_time.key());
    }
}
