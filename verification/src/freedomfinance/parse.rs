//! The whole-document decoder: serde_json parses the bytes (behind the
//! crate's JSON boundary), and the structure is read out of the resulting
//! tree here, field by field, against the expected shape.

use vstd::prelude::*;
use super::model;
use crate::datetime::{Date, DateTime};
use crate::decimal::Dec;
use crate::jsonval::{
    Jn, json_as_array, json_as_str, json_error_text, json_get, json_is_null, json_model,
    json_num_text, json_doc_of, parse_json,
};
use crate::text::{parse_i32, parse_u64_digits, str_chars, spec_parse_digits_capped};

verus! {

// ---- typed member reads on an object node

/// A member of an object node, if present.
pub open spec fn jfield(m: Map<Seq<char>, Jn>, name: Seq<char>) -> Option<Jn> {
    if m.dom().contains(name) {
        Some(m[name])
    } else {
        None
    }
}

pub open spec fn spec_j_str(m: Map<Seq<char>, Jn>, name: Seq<char>) -> Result<Seq<char>, Seq<char>> {
    match jfield(m, name) {
        Some(Jn::Str(s)) => Ok(s),
        _ => Err(name),
    }
}

pub open spec fn spec_j_u64(m: Map<Seq<char>, Jn>, name: Seq<char>) -> Result<u64, Seq<char>> {
    match jfield(m, name) {
        Some(Jn::Num(t)) => match spec_parse_digits_capped(t, u64::MAX as int) {
            Some(v) => Ok(v as u64),
            None => Err(name),
        },
        _ => Err(name),
    }
}

pub open spec fn spec_j_i32(m: Map<Seq<char>, Jn>, name: Seq<char>) -> Result<i32, Seq<char>> {
    match jfield(m, name) {
        Some(Jn::Num(t)) => match crate::text::spec_parse_i32(t) {
            Some(v) => Ok(v),
            None => Err(name),
        },
        _ => Err(name),
    }
}

/// An exact decimal member: a number token, or a string holding a decimal
/// numeral.
pub open spec fn spec_j_dec(m: Map<Seq<char>, Jn>, name: Seq<char>) -> Result<Dec, Seq<char>> {
    match jfield(m, name) {
        Some(Jn::Num(t)) => match crate::decimal::spec_parse_dec(t) {
            Some(v) => Ok(v),
            None => Err(name),
        },
        Some(Jn::Str(t)) => match crate::decimal::spec_parse_dec(t) {
            Some(v) => Ok(v),
            None => Err(name),
        },
        _ => Err(name),
    }
}

pub open spec fn spec_j_datetime(m: Map<Seq<char>, Jn>, name: Seq<char>) -> Result<
    DateTime,
    Seq<char>,
> {
    match jfield(m, name) {
        Some(Jn::Str(t)) => match crate::datetime::spec_parse_datetime(t) {
            Some(v) => Ok(v),
            None => Err(name),
        },
        _ => Err(name),
    }
}

pub open spec fn spec_j_date(m: Map<Seq<char>, Jn>, name: Seq<char>) -> Result<Date, Seq<char>> {
    match jfield(m, name) {
        Some(Jn::Str(t)) => match crate::datetime::spec_parse_date(t) {
            Some(v) => Ok(v),
            None => Err(name),
        },
        _ => Err(name),
    }
}

/// An optional string member: absent or null is `None`, a string is `Some`,
/// any other kind is a fault.
pub open spec fn spec_j_opt_str(m: Map<Seq<char>, Jn>, name: Seq<char>) -> Result<
    Option<Seq<char>>,
    Seq<char>,
> {
    match jfield(m, name) {
        None => Ok(None),
        Some(Jn::Null) => Ok(None),
        Some(Jn::Str(s)) => Ok(Some(s)),
        _ => Err(name),
    }
}

pub open spec fn spec_j_side(m: Map<Seq<char>, Jn>, name: Seq<char>) -> Result<
    model::TradeOperationSide,
    Seq<char>,
> {
    match jfield(m, name) {
        Some(Jn::Str(t)) => match model::spec_side_of_string(t) {
            Some(v) => Ok(v),
            None => Err(name),
        },
        _ => Err(name),
    }
}

pub open spec fn spec_j_ciotype(m: Map<Seq<char>, Jn>, name: Seq<char>) -> Result<
    model::CashInOutTypeV,
    Seq<char>,
> {
    match jfield(m, name) {
        Some(Jn::Str(t)) => Ok(model::spec_cio_type_of_string(t)),
        _ => Err(name),
    }
}

fn j_str(v: &serde_json::Value, name: &str) -> (r: Result<String, String>)
    requires
        json_model(*v) is Obj,
    ensures
        r is Ok <==> spec_j_str(json_model(*v)->Obj_0, name@) is Ok,
        r is Ok ==> Ok::<Seq<char>, Seq<char>>(r->Ok_0@) == spec_j_str(
            json_model(*v)->Obj_0,
            name@,
        ),
        r is Err ==> r->Err_0@ == name@,
{
    match json_get(v, name) {
        Some(f) => match json_as_str(f) {
            Some(s) => Ok(s.to_owned()),
            None => Err(name.to_owned()),
        },
        None => Err(name.to_owned()),
    }
}

fn j_u64(v: &serde_json::Value, name: &str) -> (r: Result<u64, String>)
    requires
        json_model(*v) is Obj,
    ensures
        r is Ok <==> spec_j_u64(json_model(*v)->Obj_0, name@) is Ok,
        r is Ok ==> Ok::<u64, Seq<char>>(r->Ok_0) == spec_j_u64(json_model(*v)->Obj_0, name@),
        r is Err ==> r->Err_0@ == name@,
{
    match json_get(v, name) {
        Some(f) => match json_num_text(f) {
            Some(t) => {
                let cs = str_chars(t.as_str());
                match parse_u64_digits(cs.as_slice()) {
                    Some(n) => Ok(n),
                    None => Err(name.to_owned()),
                }
            },
            None => Err(name.to_owned()),
        },
        None => Err(name.to_owned()),
    }
}

fn j_i32(v: &serde_json::Value, name: &str) -> (r: Result<i32, String>)
    requires
        json_model(*v) is Obj,
    ensures
        r is Ok <==> spec_j_i32(json_model(*v)->Obj_0, name@) is Ok,
        r is Ok ==> Ok::<i32, Seq<char>>(r->Ok_0) == spec_j_i32(json_model(*v)->Obj_0, name@),
        r is Err ==> r->Err_0@ == name@,
{
    match json_get(v, name) {
        Some(f) => match json_num_text(f) {
            Some(t) => {
                let cs = str_chars(t.as_str());
                match parse_i32(&cs) {
                    Some(n) => Ok(n),
                    None => Err(name.to_owned()),
                }
            },
            None => Err(name.to_owned()),
        },
        None => Err(name.to_owned()),
    }
}

fn j_dec(v: &serde_json::Value, name: &str) -> (r: Result<Dec, String>)
    requires
        json_model(*v) is Obj,
    ensures
        r is Ok <==> spec_j_dec(json_model(*v)->Obj_0, name@) is Ok,
        r is Ok ==> Ok::<Dec, Seq<char>>(r->Ok_0) == spec_j_dec(json_model(*v)->Obj_0, name@),
        r is Ok ==> r->Ok_0.valid(),
        r is Err ==> r->Err_0@ == name@,
{
    match json_get(v, name) {
        Some(f) => match json_num_text(f) {
            Some(t) => match crate::decimal::parse_dec(t.as_str()) {
                Some(d) => Ok(d),
                None => Err(name.to_owned()),
            },
            None => match json_as_str(f) {
                Some(t) => match crate::decimal::parse_dec(t) {
                    Some(d) => Ok(d),
                    None => Err(name.to_owned()),
                },
                None => Err(name.to_owned()),
            },
        },
        None => Err(name.to_owned()),
    }
}

fn j_datetime(v: &serde_json::Value, name: &str) -> (r: Result<DateTime, String>)
    requires
        json_model(*v) is Obj,
    ensures
        r is Ok <==> spec_j_datetime(json_model(*v)->Obj_0, name@) is Ok,
        r is Ok ==> Ok::<DateTime, Seq<char>>(r->Ok_0) == spec_j_datetime(
            json_model(*v)->Obj_0,
            name@,
        ),
        r is Ok ==> r->Ok_0.valid(),
        r is Err ==> r->Err_0@ == name@,
{
    match json_get(v, name) {
        Some(f) => match json_as_str(f) {
            Some(t) => match crate::datetime::parse_datetime(t) {
                Some(d) => Ok(d),
                None => Err(name.to_owned()),
            },
            None => Err(name.to_owned()),
        },
        None => Err(name.to_owned()),
    }
}

fn j_date(v: &serde_json::Value, name: &str) -> (r: Result<Date, String>)
    requires
        json_model(*v) is Obj,
    ensures
        r is Ok <==> spec_j_date(json_model(*v)->Obj_0, name@) is Ok,
        r is Ok ==> Ok::<Date, Seq<char>>(r->Ok_0) == spec_j_date(json_model(*v)->Obj_0, name@),
        r is Ok ==> r->Ok_0.valid(),
        r is Err ==> r->Err_0@ == name@,
{
    match json_get(v, name) {
        Some(f) => match json_as_str(f) {
            Some(t) => match crate::datetime::parse_date(t) {
                Some(d) => Ok(d),
                None => Err(name.to_owned()),
            },
            None => Err(name.to_owned()),
        },
        None => Err(name.to_owned()),
    }
}

fn j_opt_str(v: &serde_json::Value, name: &str) -> (r: Result<Option<String>, String>)
    requires
        json_model(*v) is Obj,
    ensures
        r is Ok <==> spec_j_opt_str(json_model(*v)->Obj_0, name@) is Ok,
        r is Ok ==> Ok::<Option<Seq<char>>, Seq<char>>(crate::model::opt_str_view(r->Ok_0))
            == spec_j_opt_str(json_model(*v)->Obj_0, name@),
        r is Err ==> r->Err_0@ == name@,
{
    match json_get(v, name) {
        None => Ok(None),
        Some(f) => {
            if json_is_null(f) {
                Ok(None)
            } else {
                match json_as_str(f) {
                    Some(s) => Ok(Some(s.to_owned())),
                    None => Err(name.to_owned()),
                }
            }
        },
    }
}

fn j_side(v: &serde_json::Value, name: &str) -> (r: Result<model::TradeOperationSide, String>)
    requires
        json_model(*v) is Obj,
    ensures
        r is Ok <==> spec_j_side(json_model(*v)->Obj_0, name@) is Ok,
        r is Ok ==> Ok::<model::TradeOperationSide, Seq<char>>(r->Ok_0) == spec_j_side(
            json_model(*v)->Obj_0,
            name@,
        ),
        r is Err ==> r->Err_0@ == name@,
{
    match json_get(v, name) {
        Some(f) => match json_as_str(f) {
            Some(t) => match model::side_of_string(t) {
                Some(s) => Ok(s),
                None => Err(name.to_owned()),
            },
            None => Err(name.to_owned()),
        },
        None => Err(name.to_owned()),
    }
}

fn j_ciotype(v: &serde_json::Value, name: &str) -> (r: Result<model::CashInOutType, String>)
    requires
        json_model(*v) is Obj,
    ensures
        r is Ok <==> spec_j_ciotype(json_model(*v)->Obj_0, name@) is Ok,
        r is Ok ==> Ok::<model::CashInOutTypeV, Seq<char>>(r->Ok_0@) == spec_j_ciotype(
            json_model(*v)->Obj_0,
            name@,
        ),
        r is Err ==> r->Err_0@ == name@,
{
    match json_get(v, name) {
        Some(f) => match json_as_str(f) {
            Some(t) => Ok(model::cio_type_of_string(t)),
            None => Err(name.to_owned()),
        },
        None => Err(name.to_owned()),
    }
}

// ---- record extraction

/// One trade of the trades section, read out of its JSON node.
pub open spec fn spec_extract_trade(j: Jn) -> Result<model::DetailedTradeV, Seq<char>> {
    if !(j is Obj) {
        Err("trades.detailed entry"@)
    } else {
        let m = j->Obj_0;
        if spec_j_u64(m, "trade_id"@) is Err {
            Err("trade_id"@)
        } else if spec_j_datetime(m, "date"@) is Err {
            Err("date"@)
        } else if spec_j_str(m, "instr_nm"@) is Err {
            Err("instr_nm"@)
        } else if spec_j_str(m, "instr_kind"@) is Err {
            Err("instr_kind"@)
        } else if spec_j_side(m, "operation"@) is Err {
            Err("operation"@)
        } else if spec_j_dec(m, "p"@) is Err {
            Err("p"@)
        } else if spec_j_str(m, "curr_c"@) is Err {
            Err("curr_c"@)
        } else if spec_j_i32(m, "q"@) is Err {
            Err("q"@)
        } else if spec_j_dec(m, "summ"@) is Err {
            Err("summ"@)
        } else if spec_j_str(m, "order_id"@) is Err {
            Err("order_id"@)
        } else if spec_j_dec(m, "commission"@) is Err {
            Err("commission"@)
        } else if spec_j_str(m, "commission_currency"@) is Err {
            Err("commission_currency"@)
        } else if spec_j_str(m, "comment"@) is Err {
            Err("comment"@)
        } else if spec_j_u64(m, "transaction_id"@) is Err {
            Err("transaction_id"@)
        } else if spec_j_str(m, "isin"@) is Err {
            Err("isin"@)
        } else if spec_j_str(m, "trade_nb"@) is Err {
            Err("trade_nb"@)
        } else if spec_j_str(m, "mkt_name"@) is Err {
            Err("mkt_name"@)
        } else if spec_j_str(m, "id"@) is Err {
            Err("id"@)
        } else {
            Ok(model::DetailedTradeV {
                trade_id: spec_j_u64(m, "trade_id"@)->Ok_0,
                date: spec_j_datetime(m, "date"@)->Ok_0,
                instr_nm: spec_j_str(m, "instr_nm"@)->Ok_0,
                instr_kind: spec_j_str(m, "instr_kind"@)->Ok_0,
                operation: spec_j_side(m, "operation"@)->Ok_0,
                price: spec_j_dec(m, "p"@)->Ok_0,
                curr_c: spec_j_str(m, "curr_c"@)->Ok_0,
                quantity: spec_j_i32(m, "q"@)->Ok_0,
                summ: spec_j_dec(m, "summ"@)->Ok_0,
                order_id: spec_j_str(m, "order_id"@)->Ok_0,
                commission: spec_j_dec(m, "commission"@)->Ok_0,
                commission_currency: spec_j_str(m, "commission_currency"@)->Ok_0,
                comment: spec_j_str(m, "comment"@)->Ok_0,
                transaction_id: spec_j_u64(m, "transaction_id"@)->Ok_0,
                isin: spec_j_str(m, "isin"@)->Ok_0,
                trade_nb: spec_j_str(m, "trade_nb"@)->Ok_0,
                mkt_name: spec_j_str(m, "mkt_name"@)->Ok_0,
                id: spec_j_str(m, "id"@)->Ok_0,
            })
        }
    }
}

/// Reads one trade node.
#[verifier::rlimit(60)]
fn extract_trade(v: &serde_json::Value) -> (r: Result<model::DetailedTrade, String>)
    ensures
        r is Ok <==> spec_extract_trade(json_model(*v)) is Ok,
        r is Ok ==> Ok::<model::DetailedTradeV, Seq<char>>(r->Ok_0@) == spec_extract_trade(
            json_model(*v),
        ),
        r is Err ==> Err::<model::DetailedTradeV, Seq<char>>(r->Err_0@) == spec_extract_trade(
            json_model(*v),
        ),
        r is Ok ==> r->Ok_0@.valid(),
{
    if !crate::jsonval::json_is_object(v) {
        return Err("trades.detailed entry".to_owned());
    }
    let trade_id = match j_u64(v, "trade_id") {
        Ok(x) => x,
        Err(e) => {
            return Err(e);
        },
    };
    let date = match j_datetime(v, "date") {
        Ok(x) => x,
        Err(e) => {
            return Err(e);
        },
    };
    let instr_nm = match j_str(v, "instr_nm") {
        Ok(x) => x,
        Err(e) => {
            return Err(e);
        },
    };
    let instr_kind = match j_str(v, "instr_kind") {
        Ok(x) => x,
        Err(e) => {
            return Err(e);
        },
    };
    let operation = match j_side(v, "operation") {
        Ok(x) => x,
        Err(e) => {
            return Err(e);
        },
    };
    let price = match j_dec(v, "p") {
        Ok(x) => x,
        Err(e) => {
            return Err(e);
        },
    };
    let curr_c = match j_str(v, "curr_c") {
        Ok(x) => x,
        Err(e) => {
            return Err(e);
        },
    };
    let quantity = match j_i32(v, "q") {
        Ok(x) => x,
        Err(e) => {
            return Err(e);
        },
    };
    let summ = match j_dec(v, "summ") {
        Ok(x) => x,
        Err(e) => {
            return Err(e);
        },
    };
    let order_id = match j_str(v, "order_id") {
        Ok(x) => x,
        Err(e) => {
            return Err(e);
        },
    };
    let commission = match j_dec(v, "commission") {
        Ok(x) => x,
        Err(e) => {
            return Err(e);
        },
    };
    let commission_currency = match j_str(v, "commission_currency") {
        Ok(x) => x,
        Err(e) => {
            return Err(e);
        },
    };
    let comment = match j_str(v, "comment") {
        Ok(x) => x,
        Err(e) => {
            return Err(e);
        },
    };
    let transaction_id = match j_u64(v, "transaction_id") {
        Ok(x) => x,
        Err(e) => {
            return Err(e);
        },
    };
    let isin = match j_str(v, "isin") {
        Ok(x) => x,
        Err(e) => {
            return Err(e);
        },
    };
    let trade_nb = match j_str(v, "trade_nb") {
        Ok(x) => x,
        Err(e) => {
            return Err(e);
        },
    };
    let mkt_name = match j_str(v, "mkt_name") {
        Ok(x) => x,
        Err(e) => {
            return Err(e);
        },
    };
    let id = match j_str(v, "id") {
        Ok(x) => x,
        Err(e) => {
            return Err(e);
        },
    };
    Ok(model::DetailedTrade {
        trade_id,
        date,
        instr_nm,
        instr_kind,
        operation,
        price,
        curr_c,
        quantity,
        summ,
        order_id,
        commission,
        commission_currency,
        comment,
        transaction_id,
        isin,
        trade_nb,
        mkt_name,
        id,
    })
}

/// One row of the cash-flow section, read out of its JSON node.
pub open spec fn spec_extract_cashflow(j: Jn) -> Result<model::CashFlowV, Seq<char>> {
    if !(j is Obj) {
        Err("cash_flows.detailed entry"@)
    } else {
        let m = j->Obj_0;
        if spec_j_date(m, "date"@) is Err {
            Err("date"@)
        } else if spec_j_str(m, "account"@) is Err {
            Err("account"@)
        } else if spec_j_str(m, "sum"@) is Err {
            Err("sum"@)
        } else if spec_j_dec(m, "amount"@) is Err {
            Err("amount"@)
        } else if spec_j_str(m, "currency"@) is Err {
            Err("currency"@)
        } else if spec_j_str(m, "type_id"@) is Err {
            Err("type_id"@)
        } else if spec_j_str(m, "comment"@) is Err {
            Err("comment"@)
        } else {
            Ok(model::CashFlowV {
                date: spec_j_date(m, "date"@)->Ok_0,
                account: spec_j_str(m, "account"@)->Ok_0,
                sum: spec_j_str(m, "sum"@)->Ok_0,
                amount: spec_j_dec(m, "amount"@)->Ok_0,
                currency: spec_j_str(m, "currency"@)->Ok_0,
                type_id: spec_j_str(m, "type_id"@)->Ok_0,
                comment: spec_j_str(m, "comment"@)->Ok_0,
            })
        }
    }
}

/// Reads one cash-flow node.
fn extract_cashflow(v: &serde_json::Value) -> (r: Result<model::CashFlow, String>)
    ensures
        r is Ok <==> spec_extract_cashflow(json_model(*v)) is Ok,
        r is Ok ==> Ok::<model::CashFlowV, Seq<char>>(r->Ok_0@) == spec_extract_cashflow(
            json_model(*v),
        ),
        r is Err ==> Err::<model::CashFlowV, Seq<char>>(r->Err_0@) == spec_extract_cashflow(
            json_model(*v),
        ),
        r is Ok ==> r->Ok_0@.valid(),
{
    if !crate::jsonval::json_is_object(v) {
        return Err("cash_flows.detailed entry".to_owned());
    }
    let date = match j_date(v, "date") {
        Ok(x) => x,
        Err(e) => {
            return Err(e);
        },
    };
    let account = match j_str(v, "account") {
        Ok(x) => x,
        Err(e) => {
            return Err(e);
        },
    };
    let sum = match j_str(v, "sum") {
        Ok(x) => x,
        Err(e) => {
            return Err(e);
        },
    };
    let amount = match j_dec(v, "amount") {
        Ok(x) => x,
        Err(e) => {
            return Err(e);
        },
    };
    let currency = match j_str(v, "currency") {
        Ok(x) => x,
        Err(e) => {
            return Err(e);
        },
    };
    let type_id = match j_str(v, "type_id") {
        Ok(x) => x,
        Err(e) => {
            return Err(e);
        },
    };
    let comment = match j_str(v, "comment") {
        Ok(x) => x,
        Err(e) => {
            return Err(e);
        },
    };
    Ok(model::CashFlow { date, account, sum, amount, currency, type_id, comment })
}

/// One entry of the cash-in/out list, read out of its JSON node.
pub open spec fn spec_extract_cio(j: Jn) -> Result<model::CashInOutV, Seq<char>> {
    if !(j is Obj) {
        Err("cash_in_outs entry"@)
    } else {
        let m = j->Obj_0;
        if spec_j_u64(m, "id"@) is Err {
            Err("id"@)
        } else if spec_j_datetime(m, "datetime"@) is Err {
            Err("datetime"@)
        } else if spec_j_opt_str(m, "ticker"@) is Err {
            Err("ticker"@)
        } else if spec_j_dec(m, "amount"@) is Err {
            Err("amount"@)
        } else if spec_j_str(m, "currency"@) is Err {
            Err("currency"@)
        } else if spec_j_dec(m, "commission"@) is Err {
            Err("commission"@)
        } else if spec_j_opt_str(m, "commission_currency"@) is Err {
            Err("commission_currency"@)
        } else if spec_j_ciotype(m, "type"@) is Err {
            Err("type"@)
        } else if spec_j_u64(m, "transaction_id"@) is Err {
            Err("transaction_id"@)
        } else if spec_j_str(m, "details"@) is Err {
            Err("details"@)
        } else if spec_j_str(m, "value_usd_details"@) is Err {
            Err("value_usd_details"@)
        } else if spec_j_u64(m, "reverted"@) is Err {
            Err("reverted"@)
        } else {
            Ok(model::CashInOutV {
                id: spec_j_u64(m, "id"@)->Ok_0,
                datetime: spec_j_datetime(m, "datetime"@)->Ok_0,
                ticker: spec_j_opt_str(m, "ticker"@)->Ok_0,
                amount: spec_j_dec(m, "amount"@)->Ok_0,
                currency: spec_j_str(m, "currency"@)->Ok_0,
                commission: spec_j_dec(m, "commission"@)->Ok_0,
                commission_currency: spec_j_opt_str(m, "commission_currency"@)->Ok_0,
                operation_type: spec_j_ciotype(m, "type"@)->Ok_0,
                transaction_id: spec_j_u64(m, "transaction_id"@)->Ok_0,
                details: spec_j_str(m, "details"@)->Ok_0,
                value_usd_details: spec_j_str(m, "value_usd_details"@)->Ok_0,
                reverted: spec_j_u64(m, "reverted"@)->Ok_0,
            })
        }
    }
}

/// Reads one cash-in/out node.
#[verifier::rlimit(60)]
fn extract_cio(v: &serde_json::Value) -> (r: Result<model::CashInOut, String>)
    ensures
        r is Ok <==> spec_extract_cio(json_model(*v)) is Ok,
        r is Ok ==> Ok::<model::CashInOutV, Seq<char>>(r->Ok_0@) == spec_extract_cio(
            json_model(*v),
        ),
        r is Err ==> Err::<model::CashInOutV, Seq<char>>(r->Err_0@) == spec_extract_cio(
            json_model(*v),
        ),
        r is Ok ==> r->Ok_0@.valid(),
{
    if !crate::jsonval::json_is_object(v) {
        return Err("cash_in_outs entry".to_owned());
    }
    let id = match j_u64(v, "id") {
        Ok(x) => x,
        Err(e) => {
            return Err(e);
        },
    };
    let datetime = match j_datetime(v, "datetime") {
        Ok(x) => x,
        Err(e) => {
            return Err(e);
        },
    };
    let ticker = match j_opt_str(v, "ticker") {
        Ok(x) => x,
        Err(e) => {
            return Err(e);
        },
    };
    let amount = match j_dec(v, "amount") {
        Ok(x) => x,
        Err(e) => {
            return Err(e);
        },
    };
    let currency = match j_str(v, "currency") {
        Ok(x) => x,
        Err(e) => {
            return Err(e);
        },
    };
    let commission = match j_dec(v, "commission") {
        Ok(x) => x,
        Err(e) => {
            return Err(e);
        },
    };
    let commission_currency = match j_opt_str(v, "commission_currency") {
        Ok(x) => x,
        Err(e) => {
            return Err(e);
        },
    };
    let operation_type = match j_ciotype(v, "type") {
        Ok(x) => x,
        Err(e) => {
            return Err(e);
        },
    };
    let transaction_id = match j_u64(v, "transaction_id") {
        Ok(x) => x,
        Err(e) => {
            return Err(e);
        },
    };
    let details = match j_str(v, "details") {
        Ok(x) => x,
        Err(e) => {
            return Err(e);
        },
    };
    let value_usd_details = match j_str(v, "value_usd_details") {
        Ok(x) => x,
        Err(e) => {
            return Err(e);
        },
    };
    let reverted = match j_u64(v, "reverted") {
        Ok(x) => x,
        Err(e) => {
            return Err(e);
        },
    };
    Ok(model::CashInOut {
        id,
        datetime,
        ticker,
        amount,
        currency,
        commission,
        commission_currency,
        operation_type,
        transaction_id,
        details,
        value_usd_details,
        reverted,
    })
}

// ---- sections

/// A whole section of trade nodes, first fault wins.
pub open spec fn spec_extract_trades(arr: Seq<Jn>) -> Result<Seq<model::DetailedTradeV>, Seq<char>>
    decreases arr.len(),
{
    if arr.len() == 0 {
        Ok(Seq::empty())
    } else {
        match spec_extract_trades(arr.drop_last()) {
            Err(e) => Err(e),
            Ok(s) => match spec_extract_trade(arr.last()) {
                Err(e) => Err(e),
                Ok(t) => Ok(s.push(t)),
            },
        }
    }
}

pub open spec fn spec_extract_cashflows(arr: Seq<Jn>) -> Result<Seq<model::CashFlowV>, Seq<char>>
    decreases arr.len(),
{
    if arr.len() == 0 {
        Ok(Seq::empty())
    } else {
        match spec_extract_cashflows(arr.drop_last()) {
            Err(e) => Err(e),
            Ok(s) => match spec_extract_cashflow(arr.last()) {
                Err(e) => Err(e),
                Ok(t) => Ok(s.push(t)),
            },
        }
    }
}

pub open spec fn spec_extract_cios(arr: Seq<Jn>) -> Result<Seq<model::CashInOutV>, Seq<char>>
    decreases arr.len(),
{
    if arr.len() == 0 {
        Ok(Seq::empty())
    } else {
        match spec_extract_cios(arr.drop_last()) {
            Err(e) => Err(e),
            Ok(s) => match spec_extract_cio(arr.last()) {
                Err(e) => Err(e),
                Ok(t) => Ok(s.push(t)),
            },
        }
    }
}

fn extract_trade_list(items: &Vec<serde_json::Value>, Ghost(arr): Ghost<Seq<Jn>>) -> (r: Result<
    Vec<model::DetailedTrade>,
    String,
>)
    requires
        arr.len() == items@.len(),
        forall|i: int| 0 <= i < items@.len() ==> json_model(#[trigger] items@[i]) == arr[i],
    ensures
        r is Ok <==> spec_extract_trades(arr) is Ok,
        r is Ok ==> Ok::<Seq<model::DetailedTradeV>, Seq<char>>(r->Ok_0@.map_values(
            |t: model::DetailedTrade| t@,
        )) == spec_extract_trades(arr),
        r is Err ==> Err::<Seq<model::DetailedTradeV>, Seq<char>>(r->Err_0@)
            == spec_extract_trades(arr),
        r is Ok ==> forall|k: int| 0 <= k < r->Ok_0@.len() ==> (#[trigger] r->Ok_0@[k])@.valid(),
{
    let mut out: Vec<model::DetailedTrade> = Vec::new();
    let mut i: usize = 0;
    proof {
        assert(out@.map_values(|t: model::DetailedTrade| t@) =~= Seq::<
            model::DetailedTradeV,
        >::empty());
    }
    while i < items.len()
        invariant
            0 <= i <= items@.len(),
            arr.len() == items@.len(),
            forall|k: int| 0 <= k < items@.len() ==> json_model(#[trigger] items@[k]) == arr[k],
            Ok::<Seq<model::DetailedTradeV>, Seq<char>>(out@.map_values(
                |t: model::DetailedTrade| t@,
            )) == spec_extract_trades(arr.take(i as int)),
            forall|k: int| 0 <= k < out@.len() ==> (#[trigger] out@[k])@.valid(),
        decreases items@.len() - i,
    {
        let t = match extract_trade(&items[i]) {
            Ok(t) => t,
            Err(e) => {
                proof {
                    lemma_trades_prefix_err(arr, i as int);
                }
                return Err(e);
            },
        };
        let ghost out_old = out@;
        out.push(t);
        proof {
            assert(arr.take(i + 1).drop_last() =~= arr.take(i as int));
            assert(arr.take(i + 1).last() == arr[i as int]);
            assert(out@.map_values(|t: model::DetailedTrade| t@) =~= out_old.map_values(
                |t: model::DetailedTrade| t@,
            ).push(out@.last()@));
        }
        i = i + 1;
    }
    proof {
        assert(arr.take(arr.len() as int) == arr);
    }
    Ok(out)
}

/// A fault at one element makes the whole section's extraction that fault.
proof fn lemma_trades_prefix_err(arr: Seq<Jn>, i: int)
    requires
        0 <= i < arr.len(),
        spec_extract_trades(arr.take(i)) is Ok,
        spec_extract_trade(arr[i]) is Err,
    ensures
        spec_extract_trades(arr) == Err::<Seq<model::DetailedTradeV>, Seq<char>>(
            spec_extract_trade(arr[i])->Err_0,
        ),
    decreases arr.len(),
{
    if arr.len() == i + 1 {
        assert(arr.drop_last() =~= arr.take(i));
        assert(arr.last() == arr[i]);
    } else {
        assert(arr.drop_last().take(i) =~= arr.take(i));
        assert(arr.drop_last()[i] == arr[i]);
        lemma_trades_prefix_err(arr.drop_last(), i);
    }
}

fn extract_cashflow_list(items: &Vec<serde_json::Value>, Ghost(arr): Ghost<Seq<Jn>>) -> (r: Result<
    Vec<model::CashFlow>,
    String,
>)
    requires
        arr.len() == items@.len(),
        forall|i: int| 0 <= i < items@.len() ==> json_model(#[trigger] items@[i]) == arr[i],
    ensures
        r is Ok <==> spec_extract_cashflows(arr) is Ok,
        r is Ok ==> Ok::<Seq<model::CashFlowV>, Seq<char>>(r->Ok_0@.map_values(
            |t: model::CashFlow| t@,
        )) == spec_extract_cashflows(arr),
        r is Err ==> Err::<Seq<model::CashFlowV>, Seq<char>>(r->Err_0@) == spec_extract_cashflows(
            arr,
        ),
        r is Ok ==> forall|k: int| 0 <= k < r->Ok_0@.len() ==> (#[trigger] r->Ok_0@[k])@.valid(),
{
    let mut out: Vec<model::CashFlow> = Vec::new();
    let mut i: usize = 0;
    proof {
        assert(out@.map_values(|t: model::CashFlow| t@) =~= Seq::<model::CashFlowV>::empty());
    }
    while i < items.len()
        invariant
            0 <= i <= items@.len(),
            arr.len() == items@.len(),
            forall|k: int| 0 <= k < items@.len() ==> json_model(#[trigger] items@[k]) == arr[k],
            Ok::<Seq<model::CashFlowV>, Seq<char>>(out@.map_values(|t: model::CashFlow| t@))
                == spec_extract_cashflows(arr.take(i as int)),
            forall|k: int| 0 <= k < out@.len() ==> (#[trigger] out@[k])@.valid(),
        decreases items@.len() - i,
    {
        let t = match extract_cashflow(&items[i]) {
            Ok(t) => t,
            Err(e) => {
                proof {
                    lemma_cashflows_prefix_err(arr, i as int);
                }
                return Err(e);
            },
        };
        let ghost out_old = out@;
        out.push(t);
        proof {
            assert(arr.take(i + 1).drop_last() =~= arr.take(i as int));
            assert(arr.take(i + 1).last() == arr[i as int]);
            assert(out@.map_values(|t: model::CashFlow| t@) =~= out_old.map_values(
                |t: model::CashFlow| t@,
            ).push(out@.last()@));
        }
        i = i + 1;
    }
    proof {
        assert(arr.take(arr.len() as int) == arr);
    }
    Ok(out)
}

proof fn lemma_cashflows_prefix_err(arr: Seq<Jn>, i: int)
    requires
        0 <= i < arr.len(),
        spec_extract_cashflows(arr.take(i)) is Ok,
        spec_extract_cashflow(arr[i]) is Err,
    ensures
        spec_extract_cashflows(arr) == Err::<Seq<model::CashFlowV>, Seq<char>>(
            spec_extract_cashflow(arr[i])->Err_0,
        ),
    decreases arr.len(),
{
    if arr.len() == i + 1 {
        assert(arr.drop_last() =~= arr.take(i));
        assert(arr.last() == arr[i]);
    } else {
        assert(arr.drop_last().take(i) =~= arr.take(i));
        assert(arr.drop_last()[i] == arr[i]);
        lemma_cashflows_prefix_err(arr.drop_last(), i);
    }
}

fn extract_cio_list(items: &Vec<serde_json::Value>, Ghost(arr): Ghost<Seq<Jn>>) -> (r: Result<
    Vec<model::CashInOut>,
    String,
>)
    requires
        arr.len() == items@.len(),
        forall|i: int| 0 <= i < items@.len() ==> json_model(#[trigger] items@[i]) == arr[i],
    ensures
        r is Ok <==> spec_extract_cios(arr) is Ok,
        r is Ok ==> Ok::<Seq<model::CashInOutV>, Seq<char>>(r->Ok_0@.map_values(
            |t: model::CashInOut| t@,
        )) == spec_extract_cios(arr),
        r is Err ==> Err::<Seq<model::CashInOutV>, Seq<char>>(r->Err_0@) == spec_extract_cios(arr),
        r is Ok ==> forall|k: int| 0 <= k < r->Ok_0@.len() ==> (#[trigger] r->Ok_0@[k])@.valid(),
{
    let mut out: Vec<model::CashInOut> = Vec::new();
    let mut i: usize = 0;
    proof {
        assert(out@.map_values(|t: model::CashInOut| t@) =~= Seq::<model::CashInOutV>::empty());
    }
    while i < items.len()
        invariant
            0 <= i <= items@.len(),
            arr.len() == items@.len(),
            forall|k: int| 0 <= k < items@.len() ==> json_model(#[trigger] items@[k]) == arr[k],
            Ok::<Seq<model::CashInOutV>, Seq<char>>(out@.map_values(|t: model::CashInOut| t@))
                == spec_extract_cios(arr.take(i as int)),
            forall|k: int| 0 <= k < out@.len() ==> (#[trigger] out@[k])@.valid(),
        decreases items@.len() - i,
    {
        let t = match extract_cio(&items[i]) {
            Ok(t) => t,
            Err(e) => {
                proof {
                    lemma_cios_prefix_err(arr, i as int);
                }
                return Err(e);
            },
        };
        let ghost out_old = out@;
        out.push(t);
        proof {
            assert(arr.take(i + 1).drop_last() =~= arr.take(i as int));
            assert(arr.take(i + 1).last() == arr[i as int]);
            assert(out@.map_values(|t: model::CashInOut| t@) =~= out_old.map_values(
                |t: model::CashInOut| t@,
            ).push(out@.last()@));
        }
        i = i + 1;
    }
    proof {
        assert(arr.take(arr.len() as int) == arr);
    }
    Ok(out)
}

proof fn lemma_cios_prefix_err(arr: Seq<Jn>, i: int)
    requires
        0 <= i < arr.len(),
        spec_extract_cios(arr.take(i)) is Ok,
        spec_extract_cio(arr[i]) is Err,
    ensures
        spec_extract_cios(arr) == Err::<Seq<model::CashInOutV>, Seq<char>>(
            spec_extract_cio(arr[i])->Err_0,
        ),
    decreases arr.len(),
{
    if arr.len() == i + 1 {
        assert(arr.drop_last() =~= arr.take(i));
        assert(arr.last() == arr[i]);
    } else {
        assert(arr.drop_last().take(i) =~= arr.take(i));
        assert(arr.drop_last()[i] == arr[i]);
        lemma_cios_prefix_err(arr.drop_last(), i);
    }
}

// ---- the document

/// The elements of an array member of the document, or the member's name
/// as the fault.
pub open spec fn spec_array_member(m: Map<Seq<char>, Jn>, name: Seq<char>) -> Result<
    Seq<Jn>,
    Seq<char>,
> {
    match jfield(m, name) {
        Some(Jn::Arr(a)) => Ok(a),
        _ => Err(name),
    }
}

/// A whole report read out of the document's tree: a `trades` object with a
/// `detailed` array, a `cash_flows` object with a `detailed` array, and a
/// `cash_in_outs` array.
pub open spec fn spec_extract_report(j: Jn) -> Result<model::ReportV, Seq<char>> {
    if !(j is Obj) {
        Err("document"@)
    } else {
        let m = j->Obj_0;
        if !(jfield(m, "trades"@) is Some && jfield(m, "trades"@)->Some_0 is Obj) {
            Err("trades"@)
        } else if spec_array_member(jfield(m, "trades"@)->Some_0->Obj_0, "detailed"@) is Err {
            Err("trades.detailed"@)
        } else if !(jfield(m, "cash_flows"@) is Some && jfield(m, "cash_flows"@)->Some_0 is Obj) {
            Err("cash_flows"@)
        } else if spec_array_member(
            jfield(m, "cash_flows"@)->Some_0->Obj_0,
            "detailed"@,
        ) is Err {
            Err("cash_flows.detailed"@)
        } else if spec_array_member(m, "cash_in_outs"@) is Err {
            Err("cash_in_outs"@)
        } else {
            let ta = spec_array_member(jfield(m, "trades"@)->Some_0->Obj_0, "detailed"@)->Ok_0;
            let fa = spec_array_member(
                jfield(m, "cash_flows"@)->Some_0->Obj_0,
                "detailed"@,
            )->Ok_0;
            let ca = spec_array_member(m, "cash_in_outs"@)->Ok_0;
            match spec_extract_trades(ta) {
                Err(e) => Err(e),
                Ok(trades) => match spec_extract_cashflows(fa) {
                    Err(e) => Err(e),
                    Ok(flows) => match spec_extract_cios(ca) {
                        Err(e) => Err(e),
                        Ok(cios) => Ok(model::ReportV {
                            trades: trades,
                            cash_flows: flows,
                            cash_in_outs: cios,
                        }),
                    },
                },
            }
        }
    }
}

/// Reads the array member under a name out of an object node.
fn array_member<'a>(v: &'a serde_json::Value, name: &str) -> (r: Result<
    &'a Vec<serde_json::Value>,
    String,
>)
    requires
        json_model(*v) is Obj,
    ensures
        r is Ok <==> spec_array_member(json_model(*v)->Obj_0, name@) is Ok,
        r is Ok ==> ({
            let arr = spec_array_member(json_model(*v)->Obj_0, name@)->Ok_0;
            &&& r->Ok_0@.len() == arr.len()
            &&& forall|i: int|
                0 <= i < arr.len() ==> json_model(#[trigger] r->Ok_0@[i]) == arr[i]
        }),
        r is Err ==> r->Err_0@ == name@,
{
    match json_get(v, name) {
        Some(f) => match json_as_array(f) {
            Some(a) => Ok(a),
            None => Err(name.to_owned()),
        },
        None => Err(name.to_owned()),
    }
}

/// Decodes a whole export from its document bytes. An empty byte stream is
/// an empty report, not an error.
#[verifier::rlimit(60)]
pub fn parse_report(bytes: &[u8]) -> (r: Result<
    model::Report,
    model::FreedomfinanceReportParsingError,
>)
    ensures
        bytes@.len() == 0 ==> r is Ok && r->Ok_0@.trades.len() == 0 && r->Ok_0@.cash_flows.len()
            == 0 && r->Ok_0@.cash_in_outs.len() == 0,
        bytes@.len() > 0 && json_doc_of(bytes@) is None ==> r is Err,
        bytes@.len() > 0 && json_doc_of(bytes@) is Some ==> ({
            let doc = json_doc_of(bytes@)->Some_0;
            match spec_extract_report(doc) {
                Err(name) => r is Err && r->Err_0@
                    == model::FreedomfinanceReportParsingErrorV::Malformed(name),
                Ok(rep) => r is Ok && r->Ok_0@ == rep,
            }
        }),
        r is Ok ==> r->Ok_0@.valid(),
{
    if bytes.len() == 0 {
        let r = model::Report {
            trades: model::Trades { detailed: Vec::new() },
            cash_flows: model::CashFlows { detailed: Vec::new() },
            cash_in_outs: Vec::new(),
        };
        proof {
            assert(r@.trades =~= Seq::<model::DetailedTradeV>::empty());
            assert(r@.cash_flows =~= Seq::<model::CashFlowV>::empty());
            assert(r@.cash_in_outs =~= Seq::<model::CashInOutV>::empty());
        }
        return Ok(r);
    }
    let doc = match parse_json(bytes) {
        Ok(v) => v,
        Err(e) => {
            let text = json_error_text(&e);
            return Err(model::FreedomfinanceReportParsingError::Malformed(text));
        },
    };
    if !crate::jsonval::json_is_object(&doc) {
        return Err(model::FreedomfinanceReportParsingError::Malformed("document".to_owned()));
    }
    let trades_node = match json_get(&doc, "trades") {
        Some(f) => f,
        None => {
            return Err(model::FreedomfinanceReportParsingError::Malformed("trades".to_owned()));
        },
    };
    if !crate::jsonval::json_is_object(trades_node) {
        return Err(model::FreedomfinanceReportParsingError::Malformed("trades".to_owned()));
    }
    let trades_arr = match array_member(trades_node, "detailed") {
        Ok(a) => a,
        Err(_) => {
            return Err(model::FreedomfinanceReportParsingError::Malformed(
                "trades.detailed".to_owned(),
            ));
        },
    };
    let flows_node = match json_get(&doc, "cash_flows") {
        Some(f) => f,
        None => {
            return Err(model::FreedomfinanceReportParsingError::Malformed(
                "cash_flows".to_owned(),
            ));
        },
    };
    if !crate::jsonval::json_is_object(flows_node) {
        return Err(model::FreedomfinanceReportParsingError::Malformed("cash_flows".to_owned()));
    }
    let flows_arr = match array_member(flows_node, "detailed") {
        Ok(a) => a,
        Err(_) => {
            return Err(model::FreedomfinanceReportParsingError::Malformed(
                "cash_flows.detailed".to_owned(),
            ));
        },
    };
    let cio_arr = match array_member(&doc, "cash_in_outs") {
        Ok(a) => a,
        Err(_) => {
            return Err(model::FreedomfinanceReportParsingError::Malformed(
                "cash_in_outs".to_owned(),
            ));
        },
    };
    let ghost dm = json_model(doc)->Obj_0;
    let ghost ta = spec_array_member(jfield(dm, "trades"@)->Some_0->Obj_0, "detailed"@)->Ok_0;
    let ghost fa = spec_array_member(jfield(dm, "cash_flows"@)->Some_0->Obj_0, "detailed"@)->Ok_0;
    let ghost ca = spec_array_member(dm, "cash_in_outs"@)->Ok_0;
    let trades = match extract_trade_list(trades_arr, Ghost(ta)) {
        Ok(t) => t,
        Err(e) => {
            return Err(model::FreedomfinanceReportParsingError::Malformed(e));
        },
    };
    let flows = match extract_cashflow_list(flows_arr, Ghost(fa)) {
        Ok(t) => t,
        Err(e) => {
            return Err(model::FreedomfinanceReportParsingError::Malformed(e));
        },
    };
    let cios = match extract_cio_list(cio_arr, Ghost(ca)) {
        Ok(t) => t,
        Err(e) => {
            return Err(model::FreedomfinanceReportParsingError::Malformed(e));
        },
    };
    let r = model::Report {
        trades: model::Trades { detailed: trades },
        cash_flows: model::CashFlows { detailed: flows },
        cash_in_outs: cios,
    };
    proof {
        assert(r@ =~= spec_extract_report(json_model(doc))->Ok_0);
    }
    Ok(r)
}

} // verus!
