//! The tab-delimited multi-section decoder: a quote-aware line tokenizer,
//! a header recognizer driven by static required-column tables, and a
//! line-by-line state machine that switches its active record shape on each
//! recognized header row.

use vstd::prelude::*;
use crate::text::{
    spec_trim, str_eq, str_chars, string_from_chars, strings_view, trim_chars,
};

verus! {

/// The export's field delimiter.
pub open spec fn spec_delimiter() -> char {
    '\t'
}

/// The input with every leading byte-order mark removed.
pub open spec fn strip_boms(s: Seq<char>) -> Seq<char>
    decreases s.len(),
{
    if s.len() > 0 && s[0] == '\u{feff}' {
        strip_boms(s.drop_first())
    } else {
        s
    }
}

proof fn lemma_strip_boms_skip(s: Seq<char>, b: int)
    requires
        0 <= b <= s.len(),
        forall|k: int| 0 <= k < b ==> s[k] == '\u{feff}',
        b < s.len() ==> s[b] != '\u{feff}',
    ensures
        strip_boms(s) == s.skip(b),
    decreases b,
{
    if b == 0 {
        assert(s.skip(0) == s);
    } else {
        lemma_strip_boms_skip(s.drop_first(), b - 1);
        assert(s.drop_first().skip(b - 1) == s.skip(b));
    }
}

/// One step at a time through the line: outside quotes the delimiter closes
/// the field (trimmed); a doubled double-quote is one literal quote; a
/// single double-quote toggles the in-quotes state and is dropped; any
/// other character joins the current field. The last field is always
/// closed, so a trailing delimiter yields a trailing empty field.
pub open spec fn spec_tokenize_at(
    s: Seq<char>,
    i: int,
    inq: bool,
    cur: Seq<char>,
    acc: Seq<Seq<char>>,
) -> Seq<Seq<char>>
    decreases s.len() - i,
{
    if i < 0 || i >= s.len() {
        acc.push(spec_trim(cur))
    } else {
        let c = s[i];
        if c == spec_delimiter() && !inq {
            spec_tokenize_at(s, i + 1, inq, Seq::empty(), acc.push(spec_trim(cur)))
        } else if c == '"' && i + 1 < s.len() && s[i + 1] == '"' {
            spec_tokenize_at(s, i + 2, inq, cur.push('"'), acc)
        } else if c == '"' {
            spec_tokenize_at(s, i + 1, !inq, cur, acc)
        } else {
            spec_tokenize_at(s, i + 1, inq, cur.push(c), acc)
        }
    }
}

/// The fields of one export line.
pub open spec fn spec_tokenize(line: Seq<char>) -> Seq<Seq<char>> {
    spec_tokenize_at(strip_boms(line), 0, false, Seq::empty(), Seq::empty())
}

/// Splits one line of the export into its trimmed fields.
pub fn split_csv_line_to_fields(line: &str) -> (fields: Vec<String>)
    ensures
        strings_view(fields@) == spec_tokenize(line@),
{
    let cs = str_chars(line);
    let mut b: usize = 0;
    while b < cs.len() && cs[b] == '\u{feff}'
        invariant
            0 <= b <= cs@.len(),
            forall|k: int| 0 <= k < b ==> cs@[k] == '\u{feff}',
        decreases cs@.len() - b,
    {
        b = b + 1;
    }
    proof {
        lemma_strip_boms_skip(cs@, b as int);
    }
    let ghost t = strip_boms(line@);
    proof {
        assert(t == cs@.skip(b as int));
        assert(strings_view(Seq::<String>::empty()) =~= Seq::<Seq<char>>::empty());
    }
    let mut i: usize = b;
    let mut inq: bool = false;
    let mut cur: Vec<char> = Vec::new();
    let mut fields: Vec<String> = Vec::new();
    while i < cs.len()
        invariant
            b <= i <= cs@.len(),
            t == cs@.skip(b as int),
            t.len() == cs@.len() - b,
            forall|k: int| 0 <= k < t.len() ==> t[k] == cs@[k + b],
            spec_tokenize_at(t, i - b, inq, cur@, strings_view(fields@)) == spec_tokenize(
                line@,
            ),
        decreases cs@.len() - i,
    {
        let c = cs[i];
        let ghost fields_old = fields@;
        let ghost cur_old = cur@;
        if c == '\t' && !inq {
            let f = trim_chars(&cur);
            fields.push(string_from_chars(f.as_slice()));
            cur = Vec::new();
            proof {
                assert(strings_view(fields@) =~= strings_view(fields_old).push(
                    spec_trim(cur_old),
                ));
            }
            i = i + 1;
        } else if c == '"' {
            if i + 1 < cs.len() && cs[i + 1] == '"' {
                cur.push('"');
                proof {
                    assert(cur@ =~= cur_old.push('"'));
                }
                i = i + 2;
            } else {
                inq = !inq;
                i = i + 1;
            }
        } else {
            cur.push(c);
            proof {
                assert(cur@ =~= cur_old.push(c));
            }
            i = i + 1;
        }
    }
    let f = trim_chars(&cur);
    let ghost fields_old = fields@;
    let ghost cur_old = cur@;
    fields.push(string_from_chars(f.as_slice()));
    proof {
        assert(strings_view(fields@) =~= strings_view(fields_old).push(spec_trim(cur_old)));
    }
    fields
}

// ---- header recognition

/// The columns every cash-event section header must name.
pub open spec fn spec_transaction_fields() -> Seq<Seq<char>> {
    seq![
        "Transaction ID"@,
        "Account ID"@,
        "Symbol ID"@,
        "ISIN"@,
        "Operation type"@,
        "When"@,
        "Sum"@,
        "Asset"@,
        "EUR equivalent"@,
        "Comment"@,
        "UUID"@,
        "Parent UUID"@,
    ]
}

/// The columns every trade section header must name.
pub open spec fn spec_trade_fields() -> Seq<Seq<char>> {
    seq![
        "Time"@,
        "Account ID"@,
        "Side"@,
        "Symbol ID"@,
        "ISIN"@,
        "Type"@,
        "Price"@,
        "Currency"@,
        "Quantity"@,
        "Commission"@,
        "Commission Currency"@,
        "P&L"@,
        "Traded Volume"@,
        "Order Id"@,
        "Order pos"@,
        "Value Date"@,
        "Unique Transaction Identifier (UTI)"@,
        "Trade type"@,
    ]
}

/// The character sequences of a list of string slices.
pub open spec fn strs_view(v: Seq<&str>) -> Seq<Seq<char>> {
    v.map_values(|s: &str| s@)
}

/// The cash-event required-column table.
pub fn transaction_required_fields() -> (v: Vec<&'static str>)
    ensures
        strs_view(v@) == spec_transaction_fields(),
{
    let mut v: Vec<&'static str> = Vec::new();
    v.push("Transaction ID");
    v.push("Account ID");
    v.push("Symbol ID");
    v.push("ISIN");
    v.push("Operation type");
    v.push("When");
    v.push("Sum");
    v.push("Asset");
    v.push("EUR equivalent");
    v.push("Comment");
    v.push("UUID");
    v.push("Parent UUID");
    proof {
        assert(strs_view(v@) =~= spec_transaction_fields());
    }
    v
}

/// The trade required-column table.
pub fn trade_required_fields() -> (v: Vec<&'static str>)
    ensures
        strs_view(v@) == spec_trade_fields(),
{
    let mut v: Vec<&'static str> = Vec::new();
    v.push("Time");
    v.push("Account ID");
    v.push("Side");
    v.push("Symbol ID");
    v.push("ISIN");
    v.push("Type");
    v.push("Price");
    v.push("Currency");
    v.push("Quantity");
    v.push("Commission");
    v.push("Commission Currency");
    v.push("P&L");
    v.push("Traded Volume");
    v.push("Order Id");
    v.push("Order pos");
    v.push("Value Date");
    v.push("Unique Transaction Identifier (UTI)");
    v.push("Trade type");
    proof {
        assert(strs_view(v@) =~= spec_trade_fields());
    }
    v
}

/// Whether some header field equals the name.
pub open spec fn header_contains(header: Seq<Seq<char>>, name: Seq<char>) -> bool {
    exists|i: int| 0 <= i < header.len() && header[i] == name
}

/// Whether a row is a header of a shape: every required column name occurs
/// somewhere in it, order-independent, extra columns tolerated.
pub open spec fn spec_header_suitable(header: Seq<Seq<char>>, req: Seq<Seq<char>>) -> bool {
    forall|j: int| 0 <= j < req.len() ==> header_contains(header, #[trigger] req[j])
}

/// Whether the row names every required column.
pub fn is_header_suitable(header: &[String], required: &Vec<&str>) -> (r: bool)
    ensures
        r == spec_header_suitable(strings_view(header@), strs_view(required@)),
{
    let ghost hv = strings_view(header@);
    let ghost rv = strs_view(required@);
    let mut j: usize = 0;
    while j < required.len()
        invariant
            0 <= j <= required@.len(),
            hv == strings_view(header@),
            rv == strs_view(required@),
            forall|k: int| 0 <= k < j ==> header_contains(hv, #[trigger] rv[k]),
        decreases required@.len() - j,
    {
        let name = required[j];
        let mut i: usize = 0;
        let mut found = false;
        while i < header.len() && !found
            invariant
                0 <= i <= header@.len(),
                hv == strings_view(header@),
                found ==> header_contains(hv, name@),
                !found ==> forall|k: int| 0 <= k < i ==> hv[k] != name@,
            decreases header@.len() - i + (if found { 0int } else { 1int }),
        {
            if str_eq(header[i].as_str(), name) {
                found = true;
                proof {
                    assert(hv[i as int] == name@);
                }
            } else {
                i = i + 1;
            }
        }
        if !found {
            proof {
                assert(!header_contains(hv, name@));
                assert(rv[j as int] == name@);
            }
            return false;
        }
        proof {
            assert(rv[j as int] == name@);
        }
        j = j + 1;
    }
    true
}

// ---- field lookup against the recorded header order

/// The first position of a column name in the header, if any.
pub open spec fn spec_field_position(header: Seq<Seq<char>>, name: Seq<char>) -> Option<int>
    decreases header.len(),
{
    if header.len() == 0 {
        None
    } else if header[0] == name {
        Some(0int)
    } else {
        match spec_field_position(header.drop_first(), name) {
            Some(p) => Some(p + 1),
            None => None,
        }
    }
}

/// The row's value under a column name, resolved through the header's
/// recorded order; `None` when the header lacks the column or the row is
/// too short.
pub open spec fn spec_field(header: Seq<Seq<char>>, row: Seq<Seq<char>>, name: Seq<char>) ->
    Option<Seq<char>> {
    match spec_field_position(header, name) {
        Some(p) => if p < row.len() {
            Some(row[p])
        } else {
            None
        },
        None => None,
    }
}

proof fn lemma_field_position_at(header: Seq<Seq<char>>, name: Seq<char>, p: int)
    requires
        0 <= p <= header.len(),
        forall|k: int| 0 <= k < p ==> header[k] != name,
        p < header.len() ==> header[p] == name,
    ensures
        spec_field_position(header, name) == if p < header.len() {
            Some(p)
        } else {
            None::<int>
        },
    decreases p,
{
    if header.len() == 0 {
    } else if p == 0 {
    } else {
        lemma_field_position_at(header.drop_first(), name, p - 1);
    }
}

/// Looks a column's value up in a row.
pub fn get_field(header: &Vec<String>, row: &Vec<String>, name: &str) -> (r: Option<String>)
    ensures
        r is Some <==> spec_field(strings_view(header@), strings_view(row@), name@) is Some,
        r is Some ==> Some(r->Some_0@) == spec_field(
            strings_view(header@),
            strings_view(row@),
            name@,
        ),
{
    let ghost hv = strings_view(header@);
    let mut i: usize = 0;
    while i < header.len() && !str_eq(header[i].as_str(), name)
        invariant
            0 <= i <= header@.len(),
            hv == strings_view(header@),
            forall|k: int| 0 <= k < i ==> hv[k] != name@,
        decreases header@.len() - i,
    {
        i = i + 1;
    }
    proof {
        lemma_field_position_at(hv, name@, i as int);
    }
    if i < header.len() {
        if i < row.len() {
            Some(row[i].clone())
        } else {
            None
        }
    } else {
        None
    }
}

// ---- typed field reads

pub open spec fn spec_str_field(h: Seq<Seq<char>>, r: Seq<Seq<char>>, name: Seq<char>) -> Result<
    Seq<char>,
    Seq<char>,
> {
    match spec_field(h, r, name) {
        Some(t) => Ok(t),
        None => Err(name),
    }
}

pub open spec fn spec_dt_field(h: Seq<Seq<char>>, r: Seq<Seq<char>>, name: Seq<char>) -> Result<
    crate::datetime::DateTime,
    Seq<char>,
> {
    match spec_field(h, r, name) {
        None => Err(name),
        Some(t) => match crate::datetime::spec_parse_datetime(t) {
            Some(v) => Ok(v),
            None => Err(name),
        },
    }
}

pub open spec fn spec_dec_field(h: Seq<Seq<char>>, r: Seq<Seq<char>>, name: Seq<char>) -> Result<
    crate::decimal::Dec,
    Seq<char>,
> {
    match spec_field(h, r, name) {
        None => Err(name),
        Some(t) => match crate::decimal::spec_parse_dec(t) {
            Some(v) => Ok(v),
            None => Err(name),
        },
    }
}

pub open spec fn spec_i32_field(h: Seq<Seq<char>>, r: Seq<Seq<char>>, name: Seq<char>) -> Result<
    i32,
    Seq<char>,
> {
    match spec_field(h, r, name) {
        None => Err(name),
        Some(t) => match crate::text::spec_parse_i32(t) {
            Some(v) => Ok(v),
            None => Err(name),
        },
    }
}

pub open spec fn spec_side_field(h: Seq<Seq<char>>, r: Seq<Seq<char>>, name: Seq<char>) -> Result<
    super::model::TradeOperationSide,
    Seq<char>,
> {
    match spec_field(h, r, name) {
        None => Err(name),
        Some(t) => match super::model::spec_side_of_string(t) {
            Some(v) => Ok(v),
            None => Err(name),
        },
    }
}

pub open spec fn spec_txtype_field(h: Seq<Seq<char>>, r: Seq<Seq<char>>, name: Seq<char>) ->
    Result<super::model::TransactionOperationTypeV, Seq<char>> {
    match spec_field(h, r, name) {
        None => Err(name),
        Some(t) => Ok(super::model::spec_tx_type_of_string(t)),
    }
}

fn str_field(header: &Vec<String>, row: &Vec<String>, name: &str) -> (r: Result<String, String>)
    ensures
        r is Ok <==> spec_str_field(strings_view(header@), strings_view(row@), name@) is Ok,
        r is Ok ==> Ok::<Seq<char>, Seq<char>>(r->Ok_0@) == spec_str_field(strings_view(header@), strings_view(row@), name@),
        r is Err ==> r->Err_0@ == name@,
{
    match get_field(header, row, name) {
        Some(v) => Ok(v),
        None => Err(name.to_owned()),
    }
}

fn dt_field(header: &Vec<String>, row: &Vec<String>, name: &str) -> (r: Result<
    crate::datetime::DateTime,
    String,
>)
    ensures
        r is Ok <==> spec_dt_field(strings_view(header@), strings_view(row@), name@) is Ok,
        r is Ok ==> Ok::<crate::datetime::DateTime, Seq<char>>(r->Ok_0) == spec_dt_field(strings_view(header@), strings_view(row@), name@),
        r is Ok ==> r->Ok_0.valid(),
        r is Err ==> r->Err_0@ == name@,
{
    match get_field(header, row, name) {
        Some(v) => match crate::datetime::parse_datetime(v.as_str()) {
            Some(d) => Ok(d),
            None => Err(name.to_owned()),
        },
        None => Err(name.to_owned()),
    }
}

fn dec_field(header: &Vec<String>, row: &Vec<String>, name: &str) -> (r: Result<
    crate::decimal::Dec,
    String,
>)
    ensures
        r is Ok <==> spec_dec_field(strings_view(header@), strings_view(row@), name@) is Ok,
        r is Ok ==> Ok::<crate::decimal::Dec, Seq<char>>(r->Ok_0) == spec_dec_field(strings_view(header@), strings_view(row@), name@),
        r is Ok ==> r->Ok_0.valid(),
        r is Err ==> r->Err_0@ == name@,
{
    match get_field(header, row, name) {
        Some(v) => match crate::decimal::parse_dec(v.as_str()) {
            Some(d) => Ok(d),
            None => Err(name.to_owned()),
        },
        None => Err(name.to_owned()),
    }
}

fn i32_field(header: &Vec<String>, row: &Vec<String>, name: &str) -> (r: Result<i32, String>)
    ensures
        r is Ok <==> spec_i32_field(strings_view(header@), strings_view(row@), name@) is Ok,
        r is Ok ==> Ok::<i32, Seq<char>>(r->Ok_0) == spec_i32_field(strings_view(header@), strings_view(row@), name@),
        r is Err ==> r->Err_0@ == name@,
{
    match get_field(header, row, name) {
        Some(v) => {
            let cs = str_chars(v.as_str());
            match crate::text::parse_i32(&cs) {
                Some(d) => Ok(d),
                None => Err(name.to_owned()),
            }
        },
        None => Err(name.to_owned()),
    }
}

fn side_field(header: &Vec<String>, row: &Vec<String>, name: &str) -> (r: Result<
    super::model::TradeOperationSide,
    String,
>)
    ensures
        r is Ok <==> spec_side_field(strings_view(header@), strings_view(row@), name@) is Ok,
        r is Ok ==> Ok::<super::model::TradeOperationSide, Seq<char>>(r->Ok_0) == spec_side_field(
            strings_view(header@),
            strings_view(row@),
            name@,
        ),
        r is Err ==> r->Err_0@ == name@,
{
    match get_field(header, row, name) {
        Some(v) => match super::model::side_of_string(v.as_str()) {
            Some(d) => Ok(d),
            None => Err(name.to_owned()),
        },
        None => Err(name.to_owned()),
    }
}

fn txtype_field(header: &Vec<String>, row: &Vec<String>, name: &str) -> (r: Result<
    super::model::TransactionOperationType,
    String,
>)
    ensures
        r is Ok <==> spec_txtype_field(strings_view(header@), strings_view(row@), name@) is Ok,
        r is Ok ==> Ok::<super::model::TransactionOperationTypeV, Seq<char>>(r->Ok_0@) == spec_txtype_field(
            strings_view(header@),
            strings_view(row@),
            name@,
        ),
        r is Err ==> r->Err_0@ == name@,
{
    match get_field(header, row, name) {
        Some(v) => Ok(super::model::tx_type_of_string(v.as_str())),
        None => Err(name.to_owned()),
    }
}

// ---- order ids

pub open spec fn is_hex_digit(c: char) -> bool {
    ('0' <= c && c <= '9') || ('a' <= c && c <= 'f') || ('A' <= c && c <= 'F')
}

pub open spec fn lower_hex(c: char) -> char {
    if 'A' <= c && c <= 'F' {
        ((c as u32 + 32) as u8) as char
    } else {
        c
    }
}

/// The four separator positions of a hyphenated UUID.
pub open spec fn spec_uuid_sep(i: int) -> bool {
    i == 8 || i == 13 || i == 18 || i == 23
}

/// The hyphenated lower-case form of a UUID given in hyphenated text form
/// (either case); `None` for anything else.
pub open spec fn spec_norm_uuid(s: Seq<char>) -> Option<Seq<char>> {
    if s.len() == 36 && (forall|i: int|
        0 <= i < 36 ==> (if spec_uuid_sep(i) {
            s[i] == '-'
        } else {
            is_hex_digit(#[trigger] s[i])
        })) {
        Some(Seq::new(36, |i: int| if spec_uuid_sep(i) {
            '-'
        } else {
            lower_hex(s[i])
        }))
    } else {
        None
    }
}

/// Normalizes a hyphenated UUID to lower case.
pub fn normalize_uuid(s: &str) -> (r: Option<String>)
    ensures
        r is Some <==> spec_norm_uuid(s@) is Some,
        r is Some ==> Some(r->Some_0@) == spec_norm_uuid(s@),
{
    let cs = str_chars(s);
    if cs.len() != 36 {
        return None;
    }
    let ghost target = Seq::new(36nat, |i: int| if spec_uuid_sep(i) {
        '-'
    } else {
        lower_hex(s@[i])
    });
    let mut out: Vec<char> = Vec::new();
    let mut i: usize = 0;
    while i < 36
        invariant
            0 <= i <= 36,
            cs@ == s@,
            cs@.len() == 36,
            out@ == target.take(i as int),
            target == Seq::new(36nat, |k: int| if spec_uuid_sep(k) {
                '-'
            } else {
                lower_hex(s@[k])
            }),
            forall|k: int|
                0 <= k < i ==> (if spec_uuid_sep(k) {
                    s@[k] == '-'
                } else {
                    is_hex_digit(#[trigger] s@[k])
                }),
        decreases 36 - i,
    {
        let c = cs[i];
        if i == 8 || i == 13 || i == 18 || i == 23 {
            if c != '-' {
                return None;
            }
            out.push('-');
        } else {
            let is_hex = ('0' <= c && c <= '9') || ('a' <= c && c <= 'f') || ('A' <= c && c
                <= 'F');
            if !is_hex {
                return None;
            }
            if 'A' <= c && c <= 'F' {
                out.push(((c as u32 + 32) as u8) as char);
            } else {
                out.push(c);
            }
        }
        proof {
            assert(out@ =~= target.take(i + 1));
        }
        i = i + 1;
    }
    proof {
        assert(out@ =~= target);
    }
    Some(string_from_chars(out.as_slice()))
}

fn uuid_field(header: &Vec<String>, row: &Vec<String>, name: &str) -> (r: Result<String, String>)
    ensures
        r is Ok <==> spec_uuid_field(strings_view(header@), strings_view(row@), name@) is Ok,
        r is Ok ==> Ok::<Seq<char>, Seq<char>>(r->Ok_0@) == spec_uuid_field(
            strings_view(header@),
            strings_view(row@),
            name@,
        ),
        r is Err ==> r->Err_0@ == name@,
{
    match get_field(header, row, name) {
        Some(v) => match normalize_uuid(v.as_str()) {
            Some(u) => Ok(u),
            None => Err(name.to_owned()),
        },
        None => Err(name.to_owned()),
    }
}

pub open spec fn spec_uuid_field(h: Seq<Seq<char>>, r: Seq<Seq<char>>, name: Seq<char>) -> Result<
    Seq<char>,
    Seq<char>,
> {
    match spec_field(h, r, name) {
        None => Err(name),
        Some(t) => match spec_norm_uuid(t) {
            Some(v) => Ok(v),
            None => Err(name),
        },
    }
}

/// The two record shapes a section of the export can hold.
#[derive(Clone, Copy, PartialEq, Eq, Structural, Debug)]
pub enum ReportRecordType {
    Transaction,
    TradeOperation,
}

/// The shape whose required columns the row names, cash events tried first;
/// `None` when the row is no known header.
pub open spec fn spec_classify(header: Seq<Seq<char>>) -> Option<ReportRecordType> {
    if spec_header_suitable(header, spec_transaction_fields()) {
        Some(ReportRecordType::Transaction)
    } else if spec_header_suitable(header, spec_trade_fields()) {
        Some(ReportRecordType::TradeOperation)
    } else {
        None
    }
}

impl ReportRecordType {
    /// Recognizes which known record shape, if any, a candidate header row
    /// matches.
    pub fn get_suitable_type_for_header(header: &[String]) -> (r: Option<ReportRecordType>)
        ensures
            r == spec_classify(strings_view(header@)),
    {
        let tx_req = transaction_required_fields();
        if is_header_suitable(header, &tx_req) {
            Some(ReportRecordType::Transaction)
        } else {
            let tr_req = trade_required_fields();
            if is_header_suitable(header, &tr_req) {
                Some(ReportRecordType::TradeOperation)
            } else {
                None
            }
        }
    }
}

// ---- row decoding

/// The native trade row decoded from a data row against the active header,
/// or the name of the first column that is missing or malformed.
pub open spec fn spec_decode_trade_row(h: Seq<Seq<char>>, row: Seq<Seq<char>>) -> Result<
    super::model::TradeOperationV,
    Seq<char>,
> {
    if spec_dt_field(h, row, "Time"@) is Err {
        Err("Time"@)
    } else if spec_str_field(h, row, "Account ID"@) is Err {
        Err("Account ID"@)
    } else if spec_side_field(h, row, "Side"@) is Err {
        Err("Side"@)
    } else if spec_str_field(h, row, "Symbol ID"@) is Err {
        Err("Symbol ID"@)
    } else if spec_str_field(h, row, "ISIN"@) is Err {
        Err("ISIN"@)
    } else if spec_str_field(h, row, "Type"@) is Err {
        Err("Type"@)
    } else if spec_dec_field(h, row, "Price"@) is Err {
        Err("Price"@)
    } else if spec_str_field(h, row, "Currency"@) is Err {
        Err("Currency"@)
    } else if spec_i32_field(h, row, "Quantity"@) is Err {
        Err("Quantity"@)
    } else if spec_dec_field(h, row, "Commission"@) is Err {
        Err("Commission"@)
    } else if spec_str_field(h, row, "Commission Currency"@) is Err {
        Err("Commission Currency"@)
    } else if spec_dec_field(h, row, "P&L"@) is Err {
        Err("P&L"@)
    } else if spec_dec_field(h, row, "Traded Volume"@) is Err {
        Err("Traded Volume"@)
    } else if spec_uuid_field(h, row, "Order Id"@) is Err {
        Err("Order Id"@)
    } else if spec_i32_field(h, row, "Order pos"@) is Err {
        Err("Order pos"@)
    } else if spec_str_field(h, row, "Value Date"@) is Err {
        Err("Value Date"@)
    } else if spec_str_field(h, row, "Unique Transaction Identifier (UTI)"@) is Err {
        Err("Unique Transaction Identifier (UTI)"@)
    } else if spec_str_field(h, row, "Trade type"@) is Err {
        Err("Trade type"@)
    } else {
        Ok(super::model::TradeOperationV {
            timestamp: spec_dt_field(h, row, "Time"@)->Ok_0,
            account_id: spec_str_field(h, row, "Account ID"@)->Ok_0,
            side: spec_side_field(h, row, "Side"@)->Ok_0,
            symbol_id: spec_str_field(h, row, "Symbol ID"@)->Ok_0,
            isin: spec_str_field(h, row, "ISIN"@)->Ok_0,
            trade_operation_type: spec_str_field(h, row, "Type"@)->Ok_0,
            price: spec_dec_field(h, row, "Price"@)->Ok_0,
            currency: spec_str_field(h, row, "Currency"@)->Ok_0,
            quantity: spec_i32_field(h, row, "Quantity"@)->Ok_0,
            commission: spec_dec_field(h, row, "Commission"@)->Ok_0,
            commission_currency: spec_str_field(h, row, "Commission Currency"@)->Ok_0,
            pnl: spec_dec_field(h, row, "P&L"@)->Ok_0,
            traded_volume: spec_dec_field(h, row, "Traded Volume"@)->Ok_0,
            order_id: spec_uuid_field(h, row, "Order Id"@)->Ok_0,
            order_pos: spec_i32_field(h, row, "Order pos"@)->Ok_0,
            value_date: spec_str_field(h, row, "Value Date"@)->Ok_0,
            uti: spec_str_field(h, row, "Unique Transaction Identifier (UTI)"@)->Ok_0,
            trade_type: spec_str_field(h, row, "Trade type"@)->Ok_0,
        })
    }
}

/// Decodes one data row of a trade section.
#[verifier::rlimit(60)]
pub fn decode_trade_row(header: &Vec<String>, row: &Vec<String>) -> (r: Result<
    super::model::TradeOperation,
    String,
>)
    ensures
        r is Ok <==> spec_decode_trade_row(strings_view(header@), strings_view(row@)) is Ok,
        r is Ok ==> Ok::<super::model::TradeOperationV, Seq<char>>(r->Ok_0@)
            == spec_decode_trade_row(strings_view(header@), strings_view(row@)),
        r is Err ==> Err::<super::model::TradeOperationV, Seq<char>>(r->Err_0@)
            == spec_decode_trade_row(strings_view(header@), strings_view(row@)),
        r is Ok ==> r->Ok_0@.valid(),
{
    let timestamp = match dt_field(header, row, "Time") {
        Ok(v) => v,
        Err(e) => {
            return Err(e);
        },
    };
    let account_id = match str_field(header, row, "Account ID") {
        Ok(v) => v,
        Err(e) => {
            return Err(e);
        },
    };
    let side = match side_field(header, row, "Side") {
        Ok(v) => v,
        Err(e) => {
            return Err(e);
        },
    };
    let symbol_id = match str_field(header, row, "Symbol ID") {
        Ok(v) => v,
        Err(e) => {
            return Err(e);
        },
    };
    let isin = match str_field(header, row, "ISIN") {
        Ok(v) => v,
        Err(e) => {
            return Err(e);
        },
    };
    let trade_operation_type = match str_field(header, row, "Type") {
        Ok(v) => v,
        Err(e) => {
            return Err(e);
        },
    };
    let price = match dec_field(header, row, "Price") {
        Ok(v) => v,
        Err(e) => {
            return Err(e);
        },
    };
    let currency = match str_field(header, row, "Currency") {
        Ok(v) => v,
        Err(e) => {
            return Err(e);
        },
    };
    let quantity = match i32_field(header, row, "Quantity") {
        Ok(v) => v,
        Err(e) => {
            return Err(e);
        },
    };
    let commission = match dec_field(header, row, "Commission") {
        Ok(v) => v,
        Err(e) => {
            return Err(e);
        },
    };
    let commission_currency = match str_field(header, row, "Commission Currency") {
        Ok(v) => v,
        Err(e) => {
            return Err(e);
        },
    };
    let pnl = match dec_field(header, row, "P&L") {
        Ok(v) => v,
        Err(e) => {
            return Err(e);
        },
    };
    let traded_volume = match dec_field(header, row, "Traded Volume") {
        Ok(v) => v,
        Err(e) => {
            return Err(e);
        },
    };
    let order_id = match uuid_field(header, row, "Order Id") {
        Ok(v) => v,
        Err(e) => {
            return Err(e);
        },
    };
    let order_pos = match i32_field(header, row, "Order pos") {
        Ok(v) => v,
        Err(e) => {
            return Err(e);
        },
    };
    let value_date = match str_field(header, row, "Value Date") {
        Ok(v) => v,
        Err(e) => {
            return Err(e);
        },
    };
    let uti = match str_field(header, row, "Unique Transaction Identifier (UTI)") {
        Ok(v) => v,
        Err(e) => {
            return Err(e);
        },
    };
    let trade_type = match str_field(header, row, "Trade type") {
        Ok(v) => v,
        Err(e) => {
            return Err(e);
        },
    };
    Ok(super::model::TradeOperation {
        timestamp,
        account_id,
        side,
        symbol_id,
        isin,
        trade_operation_type,
        price,
        currency,
        quantity,
        commission,
        commission_currency,
        pnl,
        traded_volume,
        order_id,
        order_pos,
        value_date,
        uti,
        trade_type,
    })
}

/// The native cash-event row decoded from a data row against the active
/// header, or the name of the first column that is missing or malformed.
pub open spec fn spec_decode_transaction_row(h: Seq<Seq<char>>, row: Seq<Seq<char>>) -> Result<
    super::model::TransactionV,
    Seq<char>,
> {
    if spec_str_field(h, row, "Transaction ID"@) is Err {
        Err("Transaction ID"@)
    } else if spec_str_field(h, row, "Account ID"@) is Err {
        Err("Account ID"@)
    } else if spec_str_field(h, row, "Symbol ID"@) is Err {
        Err("Symbol ID"@)
    } else if spec_str_field(h, row, "ISIN"@) is Err {
        Err("ISIN"@)
    } else if spec_txtype_field(h, row, "Operation type"@) is Err {
        Err("Operation type"@)
    } else if spec_dt_field(h, row, "When"@) is Err {
        Err("When"@)
    } else if spec_dec_field(h, row, "Sum"@) is Err {
        Err("Sum"@)
    } else if spec_str_field(h, row, "Asset"@) is Err {
        Err("Asset"@)
    } else if spec_dec_field(h, row, "EUR equivalent"@) is Err {
        Err("EUR equivalent"@)
    } else if spec_str_field(h, row, "Comment"@) is Err {
        Err("Comment"@)
    } else if spec_str_field(h, row, "UUID"@) is Err {
        Err("UUID"@)
    } else if spec_str_field(h, row, "Parent UUID"@) is Err {
        Err("Parent UUID"@)
    } else {
        Ok(super::model::TransactionV {
            id: spec_str_field(h, row, "Transaction ID"@)->Ok_0,
            account_id: spec_str_field(h, row, "Account ID"@)->Ok_0,
            symbol_id: spec_str_field(h, row, "Symbol ID"@)->Ok_0,
            isin: spec_str_field(h, row, "ISIN"@)->Ok_0,
            operation_type: spec_txtype_field(h, row, "Operation type"@)->Ok_0,
            timestamp: spec_dt_field(h, row, "When"@)->Ok_0,
            sum: spec_dec_field(h, row, "Sum"@)->Ok_0,
            asset: spec_str_field(h, row, "Asset"@)->Ok_0,
            eur_equivalent: spec_dec_field(h, row, "EUR equivalent"@)->Ok_0,
            comment: spec_str_field(h, row, "Comment"@)->Ok_0,
            uuid: spec_str_field(h, row, "UUID"@)->Ok_0,
            parent_uuid: spec_str_field(h, row, "Parent UUID"@)->Ok_0,
        })
    }
}

/// Decodes one data row of a cash-event section.
#[verifier::rlimit(60)]
pub fn decode_transaction_row(header: &Vec<String>, row: &Vec<String>) -> (r: Result<
    super::model::Transaction,
    String,
>)
    ensures
        r is Ok <==> spec_decode_transaction_row(strings_view(header@), strings_view(row@)) is Ok,
        r is Ok ==> Ok::<super::model::TransactionV, Seq<char>>(r->Ok_0@)
            == spec_decode_transaction_row(strings_view(header@), strings_view(row@)),
        r is Err ==> Err::<super::model::TransactionV, Seq<char>>(r->Err_0@)
            == spec_decode_transaction_row(strings_view(header@), strings_view(row@)),
        r is Ok ==> r->Ok_0@.valid(),
{
    let id = match str_field(header, row, "Transaction ID") {
        Ok(v) => v,
        Err(e) => {
            return Err(e);
        },
    };
    let account_id = match str_field(header, row, "Account ID") {
        Ok(v) => v,
        Err(e) => {
            return Err(e);
        },
    };
    let symbol_id = match str_field(header, row, "Symbol ID") {
        Ok(v) => v,
        Err(e) => {
            return Err(e);
        },
    };
    let isin = match str_field(header, row, "ISIN") {
        Ok(v) => v,
        Err(e) => {
            return Err(e);
        },
    };
    let operation_type = match txtype_field(header, row, "Operation type") {
        Ok(v) => v,
        Err(e) => {
            return Err(e);
        },
    };
    let timestamp = match dt_field(header, row, "When") {
        Ok(v) => v,
        Err(e) => {
            return Err(e);
        },
    };
    let sum = match dec_field(header, row, "Sum") {
        Ok(v) => v,
        Err(e) => {
            return Err(e);
        },
    };
    let asset = match str_field(header, row, "Asset") {
        Ok(v) => v,
        Err(e) => {
            return Err(e);
        },
    };
    let eur_equivalent = match dec_field(header, row, "EUR equivalent") {
        Ok(v) => v,
        Err(e) => {
            return Err(e);
        },
    };
    let comment = match str_field(header, row, "Comment") {
        Ok(v) => v,
        Err(e) => {
            return Err(e);
        },
    };
    let uuid = match str_field(header, row, "UUID") {
        Ok(v) => v,
        Err(e) => {
            return Err(e);
        },
    };
    let parent_uuid = match str_field(header, row, "Parent UUID") {
        Ok(v) => v,
        Err(e) => {
            return Err(e);
        },
    };
    Ok(super::model::Transaction {
        id,
        account_id,
        symbol_id,
        isin,
        operation_type,
        timestamp,
        sum,
        asset,
        eur_equivalent,
        comment,
        uuid,
        parent_uuid,
    })
}

// ---- lines

/// The position of the first line feed, or the length.
pub open spec fn find_nl(s: Seq<char>) -> nat
    decreases s.len(),
{
    if s.len() == 0 {
        0
    } else if s[0] == '\n' {
        0
    } else {
        1 + find_nl(s.drop_first())
    }
}

proof fn lemma_find_nl_at(s: Seq<char>, p: int)
    requires
        0 <= p <= s.len(),
        forall|k: int| 0 <= k < p ==> s[k] != '\n',
        p < s.len() ==> s[p] == '\n',
    ensures
        find_nl(s) == p,
    decreases p,
{
    if s.len() == 0 {
    } else if p == 0 {
    } else {
        lemma_find_nl_at(s.drop_first(), p - 1);
    }
}

/// A line with one trailing carriage return removed.
pub open spec fn strip_cr(s: Seq<char>) -> Seq<char> {
    if s.len() > 0 && s.last() == '\r' {
        s.drop_last()
    } else {
        s
    }
}

/// The lines of the input from a position on: split at each line feed,
/// one carriage return stripped from the end of each fed line, and no
/// final empty line when the input ends with a line feed.
pub open spec fn spec_lines_at(s: Seq<char>, pos: int) -> Seq<Seq<char>>
    decreases s.len() - pos,
{
    if pos < 0 || pos >= s.len() {
        Seq::empty()
    } else {
        let i = pos + find_nl(s.skip(pos));
        if i >= s.len() {
            seq![s.skip(pos)]
        } else {
            seq![strip_cr(s.subrange(pos, i))] + spec_lines_at(s, i + 1)
        }
    }
}

/// The lines of the whole input.
pub open spec fn spec_lines(s: Seq<char>) -> Seq<Seq<char>> {
    spec_lines_at(s, 0)
}

/// Splits the input into its lines.
pub fn split_lines(cs: &Vec<char>) -> (lines: Vec<String>)
    ensures
        strings_view(lines@) == spec_lines(cs@),
{
    let mut lines: Vec<String> = Vec::new();
    let mut pos: usize = 0;
    proof {
        assert(strings_view(lines@) =~= Seq::<Seq<char>>::empty());
    }
    while pos < cs.len()
        invariant
            0 <= pos <= cs@.len(),
            spec_lines(cs@) == strings_view(lines@) + spec_lines_at(cs@, pos as int),
        decreases cs@.len() - pos,
    {
        let ghost lines_old = lines@;
        let ghost pos_old = pos as int;
        let mut j: usize = pos;
        while j < cs.len() && cs[j] != '\n'
            invariant
                pos <= j <= cs@.len(),
                forall|k: int| pos <= k < j ==> cs@[k] != '\n',
            decreases cs@.len() - j,
        {
            j = j + 1;
        }
        proof {
            let rest = cs@.skip(pos as int);
            assert(forall|k: int| 0 <= k < j - pos ==> rest[k] != '\n');
            if j < cs@.len() {
                assert(rest[j - pos_old] == '\n');
            }
            lemma_find_nl_at(rest, j - pos_old);
        }
        if j == cs.len() {
            let line = crate::text::vec_slice(cs, pos, j);
            lines.push(string_from_chars(line.as_slice()));
            proof {
                assert(line@ =~= cs@.skip(pos_old));
                assert(spec_lines_at(cs@, pos_old) =~= seq![cs@.skip(pos_old)]);
                assert(strings_view(lines@) =~= strings_view(lines_old).push(cs@.skip(pos_old)));
                assert(strings_view(lines@) + spec_lines_at(cs@, j as int) =~= strings_view(
                    lines_old,
                ) + spec_lines_at(cs@, pos_old));
            }
            pos = j;
        } else {
            let end: usize = if j > pos && cs[j - 1] == '\r' {
                j - 1
            } else {
                j
            };
            let line = crate::text::vec_slice(cs, pos, end);
            lines.push(string_from_chars(line.as_slice()));
            proof {
                let raw = cs@.subrange(pos_old, j as int);
                if j > pos_old && cs@[j - 1] == '\r' {
                    assert(raw.len() > 0 && raw.last() == '\r');
                    assert(line@ =~= strip_cr(raw));
                } else {
                    assert(line@ =~= strip_cr(raw));
                }
                assert(spec_lines_at(cs@, pos_old) =~= seq![strip_cr(raw)] + spec_lines_at(
                    cs@,
                    j + 1,
                ));
                assert(strings_view(lines@) =~= strings_view(lines_old).push(strip_cr(raw)));
                assert(strings_view(lines@) + spec_lines_at(cs@, j + 1) =~= strings_view(
                    lines_old,
                ) + spec_lines_at(cs@, pos_old));
            }
            pos = j + 1;
        }
    }
    proof {
        assert(spec_lines_at(cs@, pos as int) =~= Seq::<Seq<char>>::empty());
        assert(strings_view(lines@) + Seq::<Seq<char>>::empty() =~= strings_view(lines@));
    }
    lines
}

// ---- the section state machine

/// The cash-row retention rule: a decoded cash-event row is kept only when
/// its instrument reference is the sentinel "None" and its kind is not the
/// trade-settlement pseudo-kind, so cash rows that merely mirror a trade's
/// settlement are not double-counted as fiscal events.
pub open spec fn spec_keep_transaction(t: super::model::TransactionV) -> bool {
    t.isin == "None"@ && !(t.operation_type is Trade)
}

/// Whether the decoded cash-event row is kept.
pub fn keep_transaction(t: &super::model::Transaction) -> (r: bool)
    ensures
        r == spec_keep_transaction(t@),
{
    let is_trade = match &t.operation_type {
        super::model::TransactionOperationType::Trade => true,
        _ => false,
    };
    str_eq(t.isin.as_str(), "None") && !is_trade
}

/// The decoder state threaded through the lines: no active shape yet, or an
/// active shape with the recorded header order.
pub open spec fn spec_parse_lines(
    lines: Seq<Seq<char>>,
    i: int,
    state: Option<(ReportRecordType, Seq<Seq<char>>)>,
    trades: Seq<super::model::TradeOperationV>,
    txs: Seq<super::model::TransactionV>,
) -> Result<super::model::ReportV, super::model::ExanteReportParsingErrorV>
    decreases lines.len() - i,
{
    if i < 0 || i >= lines.len() {
        Ok(super::model::ReportV { trade_operations: trades, transactions: txs })
    } else {
        let fields = spec_tokenize(lines[i]);
        match spec_classify(fields) {
            Some(rt) => spec_parse_lines(lines, i + 1, Some((rt, fields)), trades, txs),
            None => {
                if state is None {
                    Err(super::model::ExanteReportParsingErrorV::UnknownHeader)
                } else {
                    let rt = state->Some_0.0;
                    let header = state->Some_0.1;
                    match rt {
                        ReportRecordType::TradeOperation => {
                            match spec_decode_trade_row(header, fields) {
                                Err(name) => Err(super::model::ExanteReportParsingErrorV::Row(
                                    name,
                                )),
                                Ok(t) => spec_parse_lines(lines, i + 1, state, trades.push(t), txs),
                            }
                        },
                        ReportRecordType::Transaction => {
                            match spec_decode_transaction_row(header, fields) {
                                Err(name) => Err(super::model::ExanteReportParsingErrorV::Row(
                                    name,
                                )),
                                Ok(t) => spec_parse_lines(
                                    lines,
                                    i + 1,
                                    state,
                                    trades,
                                    if spec_keep_transaction(t) {
                                        txs.push(t)
                                    } else {
                                        txs
                                    },
                                ),
                            }
                        },
                    }
                }
            },
        }
    }
}

/// The whole export decoded from its text: every line tokenized, headers
/// switching the active shape, data rows decoded against it, the cash
/// retention rule applied; empty input is an empty report, not an error.
pub open spec fn spec_parse_report(text: Seq<char>) -> Result<
    super::model::ReportV,
    super::model::ExanteReportParsingErrorV,
> {
    spec_parse_lines(spec_lines(text), 0, None, Seq::empty(), Seq::empty())
}

/// The value of the exec decoder state.
pub open spec fn state_view(s: Option<(ReportRecordType, Vec<String>)>) -> Option<(
    ReportRecordType,
    Seq<Seq<char>>,
)> {
    match s {
        None => None,
        Some(p) => Some((p.0, strings_view(p.1@))),
    }
}

/// Decodes a whole export.
#[verifier::rlimit(60)]
pub fn parse_report(input: &str) -> (r: Result<
    super::model::Report,
    super::model::ExanteReportParsingError,
>)
    ensures
        r is Ok <==> spec_parse_report(input@) is Ok,
        r is Ok ==> Ok::<super::model::ReportV, super::model::ExanteReportParsingErrorV>(
            r->Ok_0@,
        ) == spec_parse_report(input@),
        r is Err ==> Err::<super::model::ReportV, super::model::ExanteReportParsingErrorV>(
            r->Err_0@,
        ) == spec_parse_report(input@),
        input@.len() == 0 ==> r is Ok && r->Ok_0@.trade_operations.len() == 0
            && r->Ok_0@.transactions.len() == 0,
        r is Ok ==> r->Ok_0@.valid(),
{
    let cs = str_chars(input);
    let lines = split_lines(&cs);
    let ghost lv = strings_view(lines@);
    let mut state: Option<(ReportRecordType, Vec<String>)> = None;
    let mut trades: Vec<super::model::TradeOperation> = Vec::new();
    let mut txs: Vec<super::model::Transaction> = Vec::new();
    let mut i: usize = 0;
    proof {
        assert(trades@.map_values(|t: super::model::TradeOperation| t@) =~= Seq::<
            super::model::TradeOperationV,
        >::empty());
        assert(txs@.map_values(|t: super::model::Transaction| t@) =~= Seq::<
            super::model::TransactionV,
        >::empty());
    }
    while i < lines.len()
        invariant
            0 <= i <= lines@.len(),
            lv == strings_view(lines@),
            spec_parse_lines(
                lv,
                i as int,
                state_view(state),
                trades@.map_values(|t: super::model::TradeOperation| t@),
                txs@.map_values(|t: super::model::Transaction| t@),
            ) == spec_parse_report(input@),
            forall|k: int| 0 <= k < trades@.len() ==> (#[trigger] trades@[k])@.valid(),
            forall|k: int| 0 <= k < txs@.len() ==> (#[trigger] txs@[k])@.valid(),
        decreases lines@.len() - i,
    {
        let fields = split_csv_line_to_fields(lines[i].as_str());
        let ghost fields_v = strings_view(fields@);
        proof {
            assert(lv[i as int] == lines@[i as int]@);
            assert(fields_v == spec_tokenize(lv[i as int]));
        }
        match ReportRecordType::get_suitable_type_for_header(fields.as_slice()) {
            Some(rt) => {
                state = Some((rt, fields));
            },
            None => {
                match &state {
                    None => {
                        return Err(super::model::ExanteReportParsingError::UnknownHeader);
                    },
                    Some(p) => {
                        match p.0 {
                            ReportRecordType::TradeOperation => {
                                match decode_trade_row(&p.1, &fields) {
                                    Ok(t) => {
                                        let ghost trades_old = trades@;
                                        trades.push(t);
                                        proof {
                                            assert(trades@.map_values(
                                                |t: super::model::TradeOperation| t@,
                                            ) =~= trades_old.map_values(
                                                |t: super::model::TradeOperation| t@,
                                            ).push(trades@.last()@));
                                        }
                                    },
                                    Err(e) => {
                                        return Err(super::model::ExanteReportParsingError::Row(e));
                                    },
                                }
                            },
                            ReportRecordType::Transaction => {
                                match decode_transaction_row(&p.1, &fields) {
                                    Ok(t) => {
                                        if keep_transaction(&t) {
                                            let ghost txs_old = txs@;
                                            txs.push(t);
                                            proof {
                                                assert(txs@.map_values(
                                                    |t: super::model::Transaction| t@,
                                                ) =~= txs_old.map_values(
                                                    |t: super::model::Transaction| t@,
                                                ).push(txs@.last()@));
                                            }
                                        }
                                    },
                                    Err(e) => {
                                        return Err(super::model::ExanteReportParsingError::Row(e));
                                    },
                                }
                            },
                        }
                    },
                }
            },
        }
        i = i + 1;
    }
    let r = super::model::Report { trade_operations: trades, transactions: txs };
    proof {
        assert(spec_parse_lines(
            lv,
            i as int,
            state_view(state),
            r.trade_operations@.map_values(|t: super::model::TradeOperation| t@),
            r.transactions@.map_values(|t: super::model::Transaction| t@),
        ) == spec_parse_report(input@));
        if input@.len() == 0 {
            assert(spec_lines(input@) =~= Seq::<Seq<char>>::empty());
        }
    }
    Ok(r)
}

/// A run of decodable trade data rows advances the state machine by
/// appending exactly their decoded records, in row order.
#[verifier::rlimit(60)]
proof fn lemma_trade_run(
    lines: Seq<Seq<char>>,
    i: int,
    j: int,
    header: Seq<Seq<char>>,
    trades: Seq<super::model::TradeOperationV>,
    txs: Seq<super::model::TransactionV>,
)
    requires
        0 <= i <= j <= lines.len(),
        forall|k: int| i <= k < j ==> spec_classify(spec_tokenize(#[trigger] lines[k])) is None,
        forall|k: int|
            i <= k < j ==> spec_decode_trade_row(header, spec_tokenize(#[trigger] lines[k])) is Ok,
    ensures
        spec_parse_lines(
            lines,
            i,
            Some((ReportRecordType::TradeOperation, header)),
            trades,
            txs,
        ) == spec_parse_lines(
            lines,
            j,
            Some((ReportRecordType::TradeOperation, header)),
            trades + Seq::new(
                (j - i) as nat,
                |t: int| spec_decode_trade_row(header, spec_tokenize(lines[i + t]))->Ok_0,
            ),
            txs,
        ),
    decreases j - i,
{
    let mk = |a: int, b: int| Seq::new(
        (b - a) as nat,
        |t: int| spec_decode_trade_row(header, spec_tokenize(lines[a + t]))->Ok_0,
    );
    if i == j {
        assert(trades + mk(i, j) =~= trades);
    } else {
        let d = spec_decode_trade_row(header, spec_tokenize(lines[i]))->Ok_0;
        lemma_trade_run(lines, i + 1, j, header, trades.push(d), txs);
        assert(trades.push(d) + mk(i + 1, j) =~= trades + mk(i, j));
    }
}

/// A run of decodable, filter-passing cash data rows advances the state
/// machine by appending exactly their decoded records, in row order.
#[verifier::rlimit(60)]
proof fn lemma_cash_run(
    lines: Seq<Seq<char>>,
    i: int,
    j: int,
    header: Seq<Seq<char>>,
    trades: Seq<super::model::TradeOperationV>,
    txs: Seq<super::model::TransactionV>,
)
    requires
        0 <= i <= j <= lines.len(),
        forall|k: int| i <= k < j ==> spec_classify(spec_tokenize(#[trigger] lines[k])) is None,
        forall|k: int|
            i <= k < j ==> spec_decode_transaction_row(
                header,
                spec_tokenize(#[trigger] lines[k]),
            ) is Ok,
        forall|k: int|
            i <= k < j ==> spec_keep_transaction(
                spec_decode_transaction_row(header, spec_tokenize(#[trigger] lines[k]))->Ok_0,
            ),
    ensures
        spec_parse_lines(lines, i, Some((ReportRecordType::Transaction, header)), trades, txs)
            == spec_parse_lines(
            lines,
            j,
            Some((ReportRecordType::Transaction, header)),
            trades,
            txs + Seq::new(
                (j - i) as nat,
                |t: int| spec_decode_transaction_row(header, spec_tokenize(lines[i + t]))->Ok_0,
            ),
        ),
    decreases j - i,
{
    let mk = |a: int, b: int| Seq::new(
        (b - a) as nat,
        |t: int| spec_decode_transaction_row(header, spec_tokenize(lines[a + t]))->Ok_0,
    );
    if i == j {
        assert(txs + mk(i, j) =~= txs);
    } else {
        let d = spec_decode_transaction_row(header, spec_tokenize(lines[i]))->Ok_0;
        lemma_cash_run(lines, i + 1, j, header, trades, txs.push(d));
        assert(txs.push(d) + mk(i + 1, j) =~= txs + mk(i, j));
    }
}

/// Section-switch correctness: on a synthetic two-section input — a trade
/// header, trade data rows, a cash-event header, cash data rows that pass
/// the retention rule — the decoder yields exactly the trade records and
/// exactly the cash records, each section in its original row order.
pub proof fn lemma_section_switch(lines: Seq<Seq<char>>, n: int, m: int)
    requires
        n >= 0,
        m >= 0,
        lines.len() == 2 + n + m,
        spec_classify(spec_tokenize(lines[0])) == Some(ReportRecordType::TradeOperation),
        spec_classify(spec_tokenize(lines[n + 1])) == Some(ReportRecordType::Transaction),
        forall|i: int| 1 <= i <= n ==> spec_classify(spec_tokenize(#[trigger] lines[i])) is None,
        forall|i: int|
            n + 2 <= i < lines.len() ==> spec_classify(spec_tokenize(#[trigger] lines[i])) is None,
        forall|i: int|
            1 <= i <= n ==> spec_decode_trade_row(
                spec_tokenize(lines[0]),
                spec_tokenize(#[trigger] lines[i]),
            ) is Ok,
        forall|i: int|
            n + 2 <= i < lines.len() ==> spec_decode_transaction_row(
                spec_tokenize(lines[n + 1]),
                spec_tokenize(#[trigger] lines[i]),
            ) is Ok,
        forall|i: int|
            n + 2 <= i < lines.len() ==> spec_keep_transaction(
                spec_decode_transaction_row(
                    spec_tokenize(lines[n + 1]),
                    spec_tokenize(#[trigger] lines[i]),
                )->Ok_0,
            ),
    ensures
        ({
            let r = spec_parse_lines(lines, 0, None, Seq::empty(), Seq::empty());
            &&& r is Ok
            &&& r->Ok_0.trade_operations == Seq::new(
                n as nat,
                |t: int| spec_decode_trade_row(
                    spec_tokenize(lines[0]),
                    spec_tokenize(lines[1 + t]),
                )->Ok_0,
            )
            &&& r->Ok_0.transactions == Seq::new(
                m as nat,
                |t: int| spec_decode_transaction_row(
                    spec_tokenize(lines[n + 1]),
                    spec_tokenize(lines[n + 2 + t]),
                )->Ok_0,
            )
        }),
{
    let h0 = spec_tokenize(lines[0]);
    let h1 = spec_tokenize(lines[n + 1]);
    let e_tr = Seq::<super::model::TradeOperationV>::empty();
    let e_tx = Seq::<super::model::TransactionV>::empty();
    let trades = Seq::new(
        n as nat,
        |t: int| spec_decode_trade_row(h0, spec_tokenize(lines[1 + t]))->Ok_0,
    );
    let txs = Seq::new(
        m as nat,
        |t: int| spec_decode_transaction_row(h1, spec_tokenize(lines[n + 2 + t]))->Ok_0,
    );
    // line 0: the trade header arms the trade shape
    assert(spec_parse_lines(lines, 0, None, e_tr, e_tx) == spec_parse_lines(
        lines,
        1,
        Some((ReportRecordType::TradeOperation, h0)),
        e_tr,
        e_tx,
    ));
    // the trade data rows
    lemma_trade_run(lines, 1, n + 1, h0, e_tr, e_tx);
    assert(e_tr + Seq::new(
        n as nat,
        |t: int| spec_decode_trade_row(h0, spec_tokenize(lines[1 + t]))->Ok_0,
    ) =~= trades);
    // the cash header switches the active shape
    assert(spec_parse_lines(
        lines,
        n + 1,
        Some((ReportRecordType::TradeOperation, h0)),
        trades,
        e_tx,
    ) == spec_parse_lines(lines, n + 2, Some((ReportRecordType::Transaction, h1)), trades, e_tx));
    // the cash data rows
    lemma_cash_run(lines, n + 2, lines.len() as int, h1, trades, e_tx);
    assert(e_tx + Seq::new(
        m as nat,
        |t: int| spec_decode_transaction_row(h1, spec_tokenize(lines[n + 2 + t]))->Ok_0,
    ) =~= txs);
    assert(spec_parse_lines(
        lines,
        lines.len() as int,
        Some((ReportRecordType::Transaction, h1)),
        trades,
        txs,
    ) == Ok::<super::model::ReportV, super::model::ExanteReportParsingErrorV>(
        super::model::ReportV { trade_operations: trades, transactions: txs },
    ));
}

} // verus!
