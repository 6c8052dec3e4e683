use broker_ingest::exante::model::{
    ExanteReportParsingError, TransactionOperationType, TradeOperationSide,
};
use broker_ingest::exante::parse::{keep_transaction, parse_report};
use broker_ingest::fiscal_transaction::FiscalTransactionType;
use broker_ingest::model::{BrokerType, OperationSource};

const TRADE_HEADER: &str = "Time\tAccount ID\tSide\tSymbol ID\tISIN\tType\tPrice\tCurrency\tQuantity\tCommission\tCommission Currency\tP&L\tTraded Volume\tOrder Id\tOrder pos\tValue Date\tUnique Transaction Identifier (UTI)\tTrade type";

const CASH_HEADER: &str = "Transaction ID\tAccount ID\tSymbol ID\tISIN\tOperation type\tWhen\tSum\tAsset\tEUR equivalent\tComment\tUUID\tParent UUID";

fn trade_row(side: &str, price: &str, pos: u32) -> String {
    format!(
        "2023-01-02 03:04:05\tACC1\t{side}\tAAPL.NASDAQ\tUS0378331005\tSTOCK\t{price}\tUSD\t10\t0.50\tUSD\t0\t764.90\t123E4567-e89b-12d3-a456-426614174000\t{pos}\t2023-01-04\tUTI1\tTRADE"
    )
}

fn cash_row(id: &str, symbol: &str, isin: &str, kind: &str, sum: &str) -> String {
    format!(
        "{id}\tACC1\t{symbol}\t{isin}\t{kind}\t2023-01-03 10:00:00\t{sum}\tUSD\t-1.10\tsome comment\tU1\tP1"
    )
}

#[test]
fn empty_input_is_an_empty_report() {
    let report = parse_report("").unwrap();
    assert!(report.trade_operations.is_empty());
    assert!(report.transactions.is_empty());
}

#[test]
fn section_switch_yields_both_sections_in_order() {
    // two trade rows, a header switch, then two genuine cash rows
    let text = format!(
        "{TRADE_HEADER}\n{}\n{}\n{CASH_HEADER}\n{}\n{}",
        trade_row("buy", "76.49", 1),
        trade_row("sell", "80.00", 2),
        cash_row("T1", "None", "None", "TAX", "-1.25"),
        cash_row("T2", "None", "None", "DIVIDEND", "3.00"),
    );
    let report = parse_report(&text).unwrap();
    assert_eq!(report.trade_operations.len(), 2);
    assert_eq!(report.transactions.len(), 2);
    assert_eq!(report.trade_operations[0].order_pos, 1);
    assert_eq!(report.trade_operations[1].order_pos, 2);
    assert_eq!(report.transactions[0].id, "T1");
    assert_eq!(report.transactions[1].id, "T2");
    // order ids are normalized to lower case
    assert_eq!(
        report.trade_operations[0].order_id,
        "123e4567-e89b-12d3-a456-426614174000"
    );
    // number precision carries through
    let p = &report.trade_operations[0].price;
    assert_eq!((p.negative, p.mantissa, p.scale), (false, 7649, 2));
}

#[test]
fn trade_settlement_mirror_rows_are_filtered() {
    // a "None"-instrument TRADE row mirrors a trade's settlement: dropped;
    // a "None"-instrument TAX row is a genuine fiscal event: kept
    let text = format!(
        "{CASH_HEADER}\n{}\n{}\n{}",
        cash_row("T1", "None", "None", "TRADE", "-764.90"),
        cash_row("T2", "None", "None", "TAX", "-1.25"),
        cash_row("T3", "AAPL.NASDAQ", "US0378331005", "DIVIDEND", "2.00"),
    );
    let report = parse_report(&text).unwrap();
    assert_eq!(report.transactions.len(), 1);
    assert_eq!(report.transactions[0].id, "T2");
}

#[test]
fn retention_rule_on_single_rows() {
    let keep = |symbol: &str, isin: &str, kind: &str| {
        let text = format!("{CASH_HEADER}\n{}", cash_row("T1", symbol, isin, kind, "-1"));
        let report = parse_report(&text).unwrap();
        let all = report.transactions;
        !all.is_empty()
    };
    assert!(!keep("None", "None", "TRADE"));
    assert!(keep("None", "None", "TAX"));
    assert!(keep("None", "None", "WEIRD KIND"));
    assert!(!keep("AAPL.NASDAQ", "US0378331005", "DIVIDEND"));
}

#[test]
fn unknown_vocabulary_is_tolerated() {
    let text = format!("{CASH_HEADER}\n{}", cash_row("T1", "None", "None", "NEW KIND", "-1"));
    let report = parse_report(&text).unwrap();
    assert_eq!(report.transactions.len(), 1);
    match &report.transactions[0].operation_type {
        TransactionOperationType::Unrecognized(s) => assert_eq!(s, "NEW KIND"),
        other => panic!("expected the fallback, got {other:?}"),
    }
    assert!(keep_transaction(&report.transactions[0]));
}

#[test]
fn data_row_before_any_header_fails() {
    let text = format!("{}\n{TRADE_HEADER}", trade_row("buy", "1", 1));
    match parse_report(&text) {
        Err(ExanteReportParsingError::UnknownHeader) => {},
        other => panic!("expected the unknown-header failure, got {other:?}"),
    }
}

#[test]
fn malformed_data_row_is_fatal() {
    let text = format!("{TRADE_HEADER}\n{}", trade_row("buy", "not-a-number", 1));
    match parse_report(&text) {
        Err(ExanteReportParsingError::Row(col)) => assert_eq!(col, "Price"),
        other => panic!("expected a row failure, got {other:?}"),
    }
    // an unknown side is load-bearing and fatal, unlike cash vocabulary
    let text2 = format!("{TRADE_HEADER}\n{}", trade_row("short", "1", 1));
    match parse_report(&text2) {
        Err(ExanteReportParsingError::Row(col)) => assert_eq!(col, "Side"),
        other => panic!("expected a row failure, got {other:?}"),
    }
}

#[test]
fn column_order_may_differ_from_declaration() {
    // the recorded header order drives the decode
    let header = "Account ID\tTime\tSide\tSymbol ID\tISIN\tType\tPrice\tCurrency\tQuantity\tCommission\tCommission Currency\tP&L\tTraded Volume\tOrder Id\tOrder pos\tValue Date\tUnique Transaction Identifier (UTI)\tTrade type";
    let row = "ACC9\t2023-01-02 03:04:05\tbuy\tAAPL.NASDAQ\tUS0378331005\tSTOCK\t1.5\tUSD\t10\t0\tUSD\t0\t15\t123e4567-e89b-12d3-a456-426614174000\t1\t2023-01-04\tUTI1\tTRADE";
    let report = parse_report(&format!("{header}\n{row}")).unwrap();
    assert_eq!(report.trade_operations[0].account_id, "ACC9");
    assert_eq!(report.trade_operations[0].side, TradeOperationSide::Buy);
}

#[test]
fn normalization_of_a_trade() {
    let text = format!("{TRADE_HEADER}\n{}", trade_row("buy", "76.49", 3));
    let report = parse_report(&text).unwrap();
    let trade = report.trade_operations.into_iter().next().unwrap();
    let canonical = trade.to_canonical();
    assert_eq!(canonical.operation_source, OperationSource::ExanteReport);
    assert_eq!(canonical.broker, Some(BrokerType::Exante));
    assert_eq!(
        canonical.external_id.as_deref(),
        Some("123e4567-e89b-12d3-a456-426614174000/3")
    );
    assert_eq!(canonical.instrument_symbol, "AAPL.NASDAQ");
    assert_eq!(canonical.isin.as_deref(), Some("US0378331005"));
    assert_eq!(canonical.quantity, 10);
    assert_eq!(canonical.summ.currency, "USD");
    assert_eq!((canonical.summ.amount.mantissa, canonical.summ.amount.scale), (76490, 2));
    // a half-dollar commission is kept
    let com = canonical.commission.unwrap();
    assert_eq!((com.amount.mantissa, com.amount.scale), (50, 2));
    let keys: Vec<&str> = canonical.metadata.iter().map(|e| e.key.as_str()).collect();
    assert_eq!(keys, vec!["uti", "trade_type", "type", "order_pos", "account_id"]);
}

#[test]
fn zero_commission_is_normalized_away() {
    let row = "2023-01-02 03:04:05\tACC1\tbuy\tAAPL.NASDAQ\tUS0378331005\tSTOCK\t1\tUSD\t1\t0.00\tUSD\t0\t1\t123e4567-e89b-12d3-a456-426614174000\t1\t2023-01-04\tUTI1\tTRADE";
    let report = parse_report(&format!("{TRADE_HEADER}\n{row}")).unwrap();
    let canonical = report.trade_operations.into_iter().next().unwrap().to_canonical();
    assert!(canonical.commission.is_none());
}

#[test]
fn normalization_of_a_cash_event() {
    let text = format!("{CASH_HEADER}\n{}", cash_row("T7", "None", "None", "US TAX", "-1.25"));
    let report = parse_report(&text).unwrap();
    let canonical = report.transactions.into_iter().next().unwrap().to_canonical();
    assert_eq!(canonical.operation_source, OperationSource::ExanteReport);
    assert_eq!(canonical.external_id.as_deref(), Some("T7"));
    assert!(canonical.symbol_id.is_none());
    assert_eq!(canonical.operation_type, FiscalTransactionType::Tax);
    assert!(canonical.commission.is_none());
    assert!(canonical.amount.amount.negative);
    let eur = canonical.metadata.iter().find(|e| e.key == "eur_equivalent").unwrap();
    assert_eq!(eur.value, "-1.10");
}
