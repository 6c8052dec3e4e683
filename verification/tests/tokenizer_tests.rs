use broker_ingest::datetime::{parse_date, parse_datetime};
use broker_ingest::exante::parse::{split_csv_line_to_fields, ReportRecordType};

#[test]
fn quoted_field_with_delimiter_and_escaped_quote() {
    // a quoted field keeps its embedded tab, and a doubled quote collapses
    // to one literal quote
    let fields = split_csv_line_to_fields("a\t\"x\ty\"\"z\"\tb");
    assert_eq!(fields, vec!["a".to_string(), "x\ty\"z".to_string(), "b".to_string()]);
}

#[test]
fn trailing_empty_field_is_kept() {
    let fields = split_csv_line_to_fields("a\tb\t");
    assert_eq!(fields, vec!["a".to_string(), "b".to_string(), "".to_string()]);
}

#[test]
fn fields_are_trimmed_and_bom_is_stripped() {
    let fields = split_csv_line_to_fields("\u{feff}  a  \t b\t c ");
    assert_eq!(fields, vec!["a".to_string(), "b".to_string(), "c".to_string()]);
}

#[test]
fn empty_line_is_one_empty_field() {
    assert_eq!(split_csv_line_to_fields(""), vec!["".to_string()]);
}

fn trade_header() -> Vec<String> {
    [
        "Time", "Account ID", "Side", "Symbol ID", "ISIN", "Type", "Price", "Currency",
        "Quantity", "Commission", "Commission Currency", "P&L", "Traded Volume", "Order Id",
        "Order pos", "Value Date", "Unique Transaction Identifier (UTI)", "Trade type",
    ]
        .iter()
        .map(|s| s.to_string())
        .collect()
}

fn cash_header() -> Vec<String> {
    [
        "Transaction ID", "Account ID", "Symbol ID", "ISIN", "Operation type", "When", "Sum",
        "Asset", "EUR equivalent", "Comment", "UUID", "Parent UUID",
    ]
        .iter()
        .map(|s| s.to_string())
        .collect()
}

#[test]
fn header_recognition() {
    assert_eq!(
        ReportRecordType::get_suitable_type_for_header(&trade_header()),
        Some(ReportRecordType::TradeOperation)
    );
    assert_eq!(
        ReportRecordType::get_suitable_type_for_header(&cash_header()),
        Some(ReportRecordType::Transaction)
    );
    let not_header = vec!["2023-01-02 03:04:05".to_string(), "ACC1".to_string()];
    assert_eq!(ReportRecordType::get_suitable_type_for_header(&not_header), None);
}

#[test]
fn header_recognition_ignores_order_and_extras() {
    let mut h = cash_header();
    h.reverse();
    h.push("Extra column".to_string());
    assert_eq!(
        ReportRecordType::get_suitable_type_for_header(&h),
        Some(ReportRecordType::Transaction)
    );
}

#[test]
fn header_recognition_needs_every_column() {
    let mut h = trade_header();
    h.pop();
    assert_eq!(ReportRecordType::get_suitable_type_for_header(&h), None);
}

#[test]
fn datetime_parsing() {
    let dt = parse_datetime("2023-02-28 10:11:12").unwrap();
    assert_eq!(dt.date.year, 2023);
    assert_eq!(dt.date.month, 2);
    assert_eq!(dt.date.day, 28);
    assert_eq!(dt.hour, 10);
    assert_eq!(dt.minute, 11);
    assert_eq!(dt.second, 12);
    assert!(parse_datetime("2023-02-29 00:00:00").is_none());
    assert!(parse_datetime("2024-02-29 00:00:00").is_some());
    assert!(parse_datetime("2023-13-01 00:00:00").is_none());
    assert!(parse_datetime("2023-01-01 24:00:00").is_none());
    assert!(parse_datetime("2023-01-01T00:00:00").is_none());
    assert!(parse_datetime("2023-01-01 00:00").is_none());
}

#[test]
fn date_parsing() {
    let d = parse_date("2024-02-29").unwrap();
    assert_eq!((d.year, d.month, d.day), (2024, 2, 29));
    assert!(parse_date("2023-02-29").is_none());
    assert!(parse_date("2023-00-10").is_none());
    assert!(parse_date("20230210").is_none());
}

#[test]
fn datetime_key_orders_chronologically() {
    let a = parse_datetime("2023-01-02 03:04:05").unwrap();
    let b = parse_datetime("2023-01-02 03:04:06").unwrap();
    let c = parse_datetime("2024-01-01 00:00:00").unwrap();
    assert!(a.key() < b.key());
    assert!(b.key() < c.key());
}
