use broker_ingest::datetime::parse_datetime;
use broker_ingest::decimal::parse_dec;
use broker_ingest::fiscal_transaction::{
    CreateFiscalTransaction, CreateFiscalTransactionValidator, CreateableFiscalTransactionType,
    FiscalTransactionType,
};
use broker_ingest::model::{BrokerType, Money, OperationSource};
use broker_ingest::trade_operation::{
    CreateTradeOperation, CreateTradeOperationValidator, TradeOperationSide,
};

#[test]
fn fiscal_kind_text_roundtrip() {
    // reading a kind from text and writing it back yields the original
    // text, for the fallback too
    for s in ["Tax", "Dividend", "Commission", "FundingWithdrawal", "RevertedDividend", "odd"] {
        let t = FiscalTransactionType::from_text(s);
        assert_eq!(t.to_text(), s);
    }
    match FiscalTransactionType::from_text("odd") {
        FiscalTransactionType::Unrecognized(o) => assert_eq!(o, "odd"),
        other => panic!("expected the fallback, got {other:?}"),
    }
}

fn fiscal_entry(
    kind: CreateableFiscalTransactionType,
    ticker: Option<&str>,
    amount: &str,
) -> CreateFiscalTransaction {
    CreateFiscalTransaction {
        portfolio_id: "portfolio-1".to_string(),
        brokerage: Some(BrokerType::Exante),
        date_time: parse_datetime("2023-01-02 03:04:05").unwrap(),
        ticker: ticker.map(|s| s.to_string()),
        amount: Money::new(parse_dec(amount).unwrap(), "USD".to_string()),
        transaction_type: kind,
    }
}

#[test]
fn fiscal_entry_validation() {
    let v = CreateFiscalTransactionValidator {};
    // a dividend needs an instrument and a non-negative amount
    assert_eq!(
        v.check(&fiscal_entry(CreateableFiscalTransactionType::Dividend, None, "1")),
        Err("DIVIDEND transaction must be associated with an instrument".to_string())
    );
    assert_eq!(
        v.check(&fiscal_entry(CreateableFiscalTransactionType::Dividend, Some("AAPL"), "-1")),
        Err("DIVIDEND transaction must contain positive amount".to_string())
    );
    assert!(v.check(&fiscal_entry(CreateableFiscalTransactionType::Dividend, Some("AAPL"), "1")).is_ok());
    assert!(v.check(&fiscal_entry(CreateableFiscalTransactionType::Dividend, Some("AAPL"), "0")).is_ok());
    // a funding/withdrawal carries no instrument
    assert_eq!(
        v.check(&fiscal_entry(CreateableFiscalTransactionType::FundingWithdrawal, Some("AAPL"), "1")),
        Err("FUNDING_WITHDRAWAL transaction can't be associated with an instrument".to_string())
    );
    assert!(v.check(&fiscal_entry(CreateableFiscalTransactionType::FundingWithdrawal, None, "1")).is_ok());
    // a tax or commission is non-positive
    assert_eq!(
        v.check(&fiscal_entry(CreateableFiscalTransactionType::Tax, None, "1")),
        Err("TAX transaction must contain negative amount".to_string())
    );
    assert!(v.check(&fiscal_entry(CreateableFiscalTransactionType::Tax, None, "-1")).is_ok());
    assert!(v.check(&fiscal_entry(CreateableFiscalTransactionType::Tax, None, "0")).is_ok());
    assert_eq!(
        v.check(&fiscal_entry(CreateableFiscalTransactionType::Comission, None, "0.01")),
        Err("COMISSION transaction must contain negative amount".to_string())
    );
}

#[test]
fn manual_fiscal_entry_becomes_a_keyless_record() {
    let row = fiscal_entry(CreateableFiscalTransactionType::Comission, None, "-1").into_insert();
    assert_eq!(row.fiscal_transaction.operation_source, OperationSource::Manual);
    assert!(row.fiscal_transaction.external_id.is_none());
    assert!(row.fiscal_transaction.commission.is_none());
    assert!(row.fiscal_transaction.metadata.is_empty());
    assert_eq!(row.fiscal_transaction.operation_type, FiscalTransactionType::Commission);
}

#[test]
fn trade_entry_validation() {
    let entry = |price: &str, summ: &str, quantity: i32| CreateTradeOperation {
        portfolio_id: "portfolio-1".to_string(),
        ticker: "AAPL".to_string(),
        side: TradeOperationSide::Buy,
        price: Money::new(parse_dec(price).unwrap(), "USD".to_string()),
        quantity,
        summ: Money::new(parse_dec(summ).unwrap(), "USD".to_string()),
        isin: None,
        date_time: parse_datetime("2023-01-02 03:04:05").unwrap(),
        brokerage: None,
    };
    let v = CreateTradeOperationValidator {};
    assert!(v.check(&entry("1", "10", 10)).is_ok());
    assert_eq!(v.check(&entry("1", "-10", 10)), Err("summ.amount must be positive".to_string()));
    assert_eq!(v.check(&entry("-1", "10", 10)), Err("price.amount must be positive".to_string()));
    assert_eq!(v.check(&entry("1", "10", -10)), Err("quantity must be positive".to_string()));
}
