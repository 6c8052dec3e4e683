use broker_ingest::fiscal_transaction::FiscalTransactionType;
use broker_ingest::freedomfinance::model::{
    CashInOutType, FreedomfinanceReportParsingError, TradeOperationSide,
};
use broker_ingest::freedomfinance::parse::parse_report;
use broker_ingest::model::{BrokerType, OperationSource};

fn trade_json(id: &str, op: &str, price: &str) -> String {
    format!(
        "{{\"trade_id\": 11, \"date\": \"2023-05-06 07:08:09\", \"instr_nm\": \"SBER\", \
         \"instr_kind\": \"stock\", \"operation\": \"{op}\", \"p\": {price}, \"curr_c\": \"RUB\", \
         \"q\": 5, \"summ\": 382.45, \"order_id\": \"ORD-1\", \"commission\": 0.30, \
         \"commission_currency\": \"RUB\", \"comment\": \"c\", \"transaction_id\": 21, \
         \"isin\": \"RU0009029540\", \"trade_nb\": \"NB\", \"mkt_name\": \"MOEX\", \"id\": \"{id}\"}}"
    )
}

fn cio_json(id: u64, kind: &str, ticker: &str, commission: &str, commission_currency: &str) -> String {
    format!(
        "{{\"id\": {id}, \"datetime\": \"2023-05-07 00:00:01\", \"ticker\": {ticker}, \
         \"amount\": 10.50, \"currency\": \"USD\", \"commission\": {commission}, \
         \"commission_currency\": {commission_currency}, \"type\": \"{kind}\", \
         \"transaction_id\": 9, \"details\": \"d\", \"value_usd_details\": \"v\", \"reverted\": 0}}"
    )
}

fn report_json(trades: &[String], flows: &[String], cios: &[String]) -> String {
    format!(
        "{{\"trades\": {{\"detailed\": [{}]}}, \"cash_flows\": {{\"detailed\": [{}]}}, \"cash_in_outs\": [{}]}}",
        trades.join(","),
        flows.join(","),
        cios.join(","),
    )
}

fn flow_json() -> String {
    "{\"date\": \"2023-05-06\", \"account\": \"A\", \"sum\": \"10.5\", \"amount\": 10.5, \
     \"currency\": \"USD\", \"type_id\": \"t\", \"comment\": \"c\"}"
        .to_string()
}

#[test]
fn whole_document_decodes() {
    let doc = report_json(
        &[trade_json("t1", "buy", "76.49"), trade_json("t2", "sell", "80")],
        &[flow_json()],
        &[cio_json(5, "dividend", "\"AAPL\"", "0.00", "null")],
    );
    let report = parse_report(doc.as_bytes()).unwrap();
    assert_eq!(report.trades.detailed.len(), 2);
    assert_eq!(report.cash_flows.detailed.len(), 1);
    assert_eq!(report.cash_in_outs.len(), 1);
    let t = &report.trades.detailed[0];
    assert_eq!(t.operation, TradeOperationSide::Buy);
    // a JSON number keeps its exact digits
    assert_eq!((t.price.mantissa, t.price.scale), (7649, 2));
    assert_eq!(t.id, "t1");
    let c = &report.cash_in_outs[0];
    assert_eq!(c.ticker.as_deref(), Some("AAPL"));
    assert_eq!(c.operation_type, CashInOutType::Dividend);
}

#[test]
fn empty_bytes_are_an_empty_report() {
    let report = parse_report(b"").unwrap();
    assert!(report.trades.detailed.is_empty());
    assert!(report.cash_flows.detailed.is_empty());
    assert!(report.cash_in_outs.is_empty());
}

#[test]
fn malformed_document_fails() {
    match parse_report(b"{ not json") {
        Err(FreedomfinanceReportParsingError::Malformed(_)) => {},
        other => panic!("expected a malformed-document failure, got {other:?}"),
    }
    // structurally wrong: the trades section is missing
    match parse_report(b"{\"cash_flows\": {\"detailed\": []}, \"cash_in_outs\": []}") {
        Err(FreedomfinanceReportParsingError::Malformed(what)) => assert_eq!(what, "trades"),
        other => panic!("expected a malformed-document failure, got {other:?}"),
    }
}

#[test]
fn wrong_field_kind_is_fatal_and_named() {
    let bad = trade_json("t1", "buy", "\"x\"");
    let doc = report_json(&[bad], &[], &[]);
    match parse_report(doc.as_bytes()) {
        Err(FreedomfinanceReportParsingError::Malformed(what)) => assert_eq!(what, "p"),
        other => panic!("expected a malformed-document failure, got {other:?}"),
    }
    let bad_side = trade_json("t1", "short", "1");
    let doc2 = report_json(&[bad_side], &[], &[]);
    match parse_report(doc2.as_bytes()) {
        Err(FreedomfinanceReportParsingError::Malformed(what)) => assert_eq!(what, "operation"),
        other => panic!("expected a malformed-document failure, got {other:?}"),
    }
}

#[test]
fn unknown_cash_kind_survives_verbatim() {
    let doc = report_json(&[], &[], &[cio_json(5, "mystery_kind", "null", "0", "null")]);
    let report = parse_report(doc.as_bytes()).unwrap();
    match &report.cash_in_outs[0].operation_type {
        CashInOutType::Unrecognized(s) => assert_eq!(s, "mystery_kind"),
        other => panic!("expected the fallback, got {other:?}"),
    }
    assert!(report.cash_in_outs[0].ticker.is_none());
}

#[test]
fn normalization_of_a_cash_in_out() {
    let doc = report_json(&[], &[], &[cio_json(5, "card", "null", "1.20", "\"USD\"")]);
    let report = parse_report(doc.as_bytes()).unwrap();
    let canonical = report.cash_in_outs.into_iter().next().unwrap().to_canonical();
    assert_eq!(canonical.operation_source, OperationSource::FreedomfinanceReport);
    assert_eq!(canonical.broker, Some(BrokerType::Freedomfinance));
    assert_eq!(canonical.external_id.as_deref(), Some("5"));
    assert_eq!(canonical.operation_type, FiscalTransactionType::FundingWithdrawal);
    let com = canonical.commission.unwrap();
    assert_eq!((com.amount.mantissa, com.amount.scale), (120, 2));
    assert_eq!(com.currency, "USD");
}

#[test]
fn zero_or_currencyless_commission_is_omitted() {
    let doc = report_json(
        &[],
        &[],
        &[
            cio_json(1, "dividend", "null", "0.00", "\"USD\""),
            cio_json(2, "dividend", "null", "1.00", "null"),
        ],
    );
    let report = parse_report(doc.as_bytes()).unwrap();
    let mut it = report.cash_in_outs.into_iter();
    assert!(it.next().unwrap().to_canonical().commission.is_none());
    assert!(it.next().unwrap().to_canonical().commission.is_none());
}

#[test]
fn dividend_reverted_maps_to_reverted_dividend() {
    let doc = report_json(&[], &[], &[cio_json(1, "dividend_reverted", "null", "0", "null")]);
    let report = parse_report(doc.as_bytes()).unwrap();
    let canonical = report.cash_in_outs.into_iter().next().unwrap().to_canonical();
    assert_eq!(canonical.operation_type, FiscalTransactionType::RevertedDividend);
}

#[test]
fn normalization_of_a_detailed_trade() {
    let doc = report_json(&[trade_json("t9", "sell", "76.49")], &[], &[]);
    let report = parse_report(doc.as_bytes()).unwrap();
    let canonical = report.trades.detailed.into_iter().next().unwrap().to_canonical();
    assert_eq!(canonical.external_id.as_deref(), Some("t9"));
    assert_eq!(canonical.order_id.as_deref(), Some("ORD-1"));
    assert_eq!(canonical.instrument_symbol, "SBER");
    assert_eq!(canonical.price.currency, "RUB");
    let keys: Vec<&str> = canonical.metadata.iter().map(|e| e.key.as_str()).collect();
    assert_eq!(keys, vec!["comment", "market", "instr_kind", "trade_id"]);
    let tid = canonical.metadata.iter().find(|e| e.key == "trade_id").unwrap();
    assert_eq!(tid.value, "11");
}

#[test]
fn amounts_may_come_as_json_strings() {
    let t = trade_json("t1", "buy", "\"76.49\"");
    let doc = report_json(&[t], &[], &[]);
    let report = parse_report(doc.as_bytes()).unwrap();
    let p = &report.trades.detailed[0].price;
    assert_eq!((p.mantissa, p.scale), (7649, 2));
}
