use broker_ingest::errors::DescriptiveError;
use broker_ingest::model::BrokerType;
use broker_ingest::report::process_report;
use broker_ingest::repository::CommonRepository;
use broker_ingest::datetime::parse_datetime;
use broker_ingest::decimal::parse_dec;
use broker_ingest::model::Money;
use broker_ingest::trade_operation::{CreateTradeOperation, TradeOperationSide};

const TRADE_HEADER: &str = "Time\tAccount ID\tSide\tSymbol ID\tISIN\tType\tPrice\tCurrency\tQuantity\tCommission\tCommission Currency\tP&L\tTraded Volume\tOrder Id\tOrder pos\tValue Date\tUnique Transaction Identifier (UTI)\tTrade type";

const CASH_HEADER: &str = "Transaction ID\tAccount ID\tSymbol ID\tISIN\tOperation type\tWhen\tSum\tAsset\tEUR equivalent\tComment\tUUID\tParent UUID";

fn export(commission: &str) -> String {
    format!(
        "{TRADE_HEADER}\n\
         2023-01-02 03:04:05\tACC1\tbuy\tAAPL.NASDAQ\tUS0378331005\tSTOCK\t76.49\tUSD\t10\t{commission}\tUSD\t0\t764.90\t123e4567-e89b-12d3-a456-426614174000\t1\t2023-01-04\tUTI1\tTRADE\n\
         2023-01-02 03:04:06\tACC1\tsell\tAAPL.NASDAQ\tUS0378331005\tSTOCK\t80\tUSD\t10\t0.10\tUSD\t0\t800\t123e4567-e89b-12d3-a456-426614174000\t2\t2023-01-04\tUTI2\tTRADE\n\
         {CASH_HEADER}\n\
         T1\tACC1\tNone\tNone\tTAX\t2023-01-03 10:00:00\t-1.25\tUSD\t-1.10\tc\tU1\tP1\n\
         T2\tACC1\tNone\tNone\tNEW KIND\t2023-01-03 11:00:00\t5\tUSD\t4.40\tc\tU2\tP2"
    )
}

#[test]
fn reingesting_an_unchanged_export_creates_no_rows() {
    let mut repo = CommonRepository::new();
    let (first, warnings) = process_report(
        &mut repo,
        "portfolio-1".to_string(),
        BrokerType::Exante,
        export("0.50").as_bytes(),
        "report.tsv".to_string(),
        "upload-1".to_string(),
    )
        .unwrap();
    assert_eq!(first.trade_operations, 2);
    assert_eq!(first.fiscal_transactions, 2);
    assert_eq!(first.id, "upload-1");
    // exactly one warning, for the one unrecognized kind
    assert_eq!(warnings.len(), 1);
    assert_eq!(
        warnings[0],
        "When parsing Exante report for transactions, found unrecognized type: 'NEW KIND'"
    );
    let trades_after_first = repo.trade_operations.clone();
    let fiscals_after_first = repo.fiscal_transactions.clone();
    // the same export a second time: counts reported, but no new rows
    let (second, _) = process_report(
        &mut repo,
        "portfolio-1".to_string(),
        BrokerType::Exante,
        export("0.50").as_bytes(),
        "report.tsv".to_string(),
        "upload-2".to_string(),
    )
        .unwrap();
    assert_eq!(second.trade_operations, 2);
    assert_eq!(second.fiscal_transactions, 2);
    assert_eq!(repo.trade_operations.len(), trades_after_first.len());
    assert_eq!(repo.fiscal_transactions.len(), fiscals_after_first.len());
    // the rows differ only in the upload they came from
    for (a, b) in repo.trade_operations.iter().zip(trades_after_first.iter()) {
        assert_eq!(a.trade_operation, b.trade_operation);
        assert_eq!(a.report_upload_id.as_deref(), Some("upload-2"));
    }
}

#[test]
fn a_changed_field_refreshes_the_row_in_place() {
    let mut repo = CommonRepository::new();
    process_report(
        &mut repo,
        "portfolio-1".to_string(),
        BrokerType::Exante,
        export("0.50").as_bytes(),
        "report.tsv".to_string(),
        "upload-1".to_string(),
    )
        .unwrap();
    let rows_before = repo.trade_operations.len();
    // the same export with a corrected commission
    process_report(
        &mut repo,
        "portfolio-1".to_string(),
        BrokerType::Exante,
        export("0.75").as_bytes(),
        "report.tsv".to_string(),
        "upload-2".to_string(),
    )
        .unwrap();
    assert_eq!(repo.trade_operations.len(), rows_before);
    let first = &repo.trade_operations[0].trade_operation;
    let com = first.commission.as_ref().unwrap();
    assert_eq!((com.amount.mantissa, com.amount.scale), (75, 2));
    // the owning portfolio is never overwritten
    assert_eq!(repo.trade_operations[0].portfolio_id, "portfolio-1");
}

#[test]
fn manual_entries_are_never_deduplicated() {
    let mut repo = CommonRepository::new();
    let entry = || CreateTradeOperation {
        portfolio_id: "portfolio-1".to_string(),
        ticker: "AAPL".to_string(),
        side: TradeOperationSide::Buy,
        price: Money::new(parse_dec("10").unwrap(), "USD".to_string()),
        quantity: 1,
        summ: Money::new(parse_dec("10").unwrap(), "USD".to_string()),
        isin: None,
        date_time: parse_datetime("2023-01-02 03:04:05").unwrap(),
        brokerage: None,
    };
    let n1 = repo.create_trade_operations(vec![entry().into_insert()]);
    let n2 = repo.create_trade_operations(vec![entry().into_insert()]);
    assert_eq!((n1, n2), (1, 1));
    assert_eq!(repo.trade_operations.len(), 2);
}

#[test]
fn a_failed_decode_persists_nothing() {
    let mut repo = CommonRepository::new();
    let r = process_report(
        &mut repo,
        "portfolio-1".to_string(),
        BrokerType::Exante,
        b"no such header\tat all",
        "report.tsv".to_string(),
        "upload-1".to_string(),
    );
    match r {
        Err(DescriptiveError::ReportProcessingError(_)) => {},
        other => panic!("expected a processing failure, got {other:?}"),
    }
    assert!(repo.report_uploads.is_empty());
    assert!(repo.trade_operations.is_empty());
    assert!(repo.fiscal_transactions.is_empty());
    // bytes that are not UTF-8 text fail the text format the same way
    let r2 = process_report(
        &mut repo,
        "portfolio-1".to_string(),
        BrokerType::Exante,
        &[0xff, 0xfe, 0x00],
        "report.tsv".to_string(),
        "upload-1".to_string(),
    );
    assert!(r2.is_err());
    assert!(repo.trade_operations.is_empty());
}

#[test]
fn empty_input_processes_to_zero_counts() {
    let mut repo = CommonRepository::new();
    for broker in [BrokerType::Exante, BrokerType::Freedomfinance] {
        let (result, warnings) = process_report(
            &mut repo,
            "portfolio-1".to_string(),
            broker,
            b"",
            "empty.dat".to_string(),
            "upload-x".to_string(),
        )
            .unwrap();
        assert_eq!(result.trade_operations, 0);
        assert_eq!(result.fiscal_transactions, 0);
        assert!(warnings.is_empty());
    }
    assert!(repo.trade_operations.is_empty());
    assert!(repo.fiscal_transactions.is_empty());
    assert_eq!(repo.report_uploads.len(), 2);
}

#[test]
fn freedomfinance_upload_end_to_end() {
    let doc = "{\"trades\": {\"detailed\": [{\"trade_id\": 11, \"date\": \"2023-05-06 07:08:09\", \
               \"instr_nm\": \"SBER\", \"instr_kind\": \"stock\", \"operation\": \"buy\", \"p\": 1.5, \
               \"curr_c\": \"RUB\", \"q\": 5, \"summ\": 7.50, \"order_id\": \"O1\", \"commission\": 0, \
               \"commission_currency\": \"RUB\", \"comment\": \"c\", \"transaction_id\": 21, \
               \"isin\": \"RU0009029540\", \"trade_nb\": \"NB\", \"mkt_name\": \"MOEX\", \"id\": \"t1\"}]}, \
               \"cash_flows\": {\"detailed\": []}, \
               \"cash_in_outs\": [{\"id\": 5, \"datetime\": \"2023-05-07 00:00:01\", \"ticker\": null, \
               \"amount\": 10.50, \"currency\": \"USD\", \"commission\": 0, \"commission_currency\": null, \
               \"type\": \"odd_kind\", \"transaction_id\": 9, \"details\": \"d\", \
               \"value_usd_details\": \"v\", \"reverted\": 0}]}";
    let mut repo = CommonRepository::new();
    let (result, warnings) = process_report(
        &mut repo,
        "portfolio-2".to_string(),
        BrokerType::Freedomfinance,
        doc.as_bytes(),
        "report.json".to_string(),
        "upload-9".to_string(),
    )
        .unwrap();
    assert_eq!(result.trade_operations, 1);
    assert_eq!(result.fiscal_transactions, 1);
    assert_eq!(
        warnings,
        vec![
            "When parsing Freedomfinance report for transactions, found unrecognized type: 'odd_kind'"
                .to_string(),
        ]
    );
    assert_eq!(repo.trade_operations[0].trade_operation.external_id.as_deref(), Some("t1"));
    assert_eq!(repo.fiscal_transactions[0].fiscal_transaction.external_id.as_deref(), Some("5"));
}
