//! The canonical fiscal (cash) event record, its open event-kind vocabulary
//! with a forward-compatible fallback, and the user-authored entry shape.

use vstd::prelude::*;
use crate::datetime::DateTime;
use crate::model::{
    BrokerType, MetadataEntry, Money, MoneyV, OperationSource, metadata_view, opt_money_view,
    opt_str_view,
};
use crate::text::str_eq;

verus! {

/// The kind of a fiscal event. Values outside the closed set survive as
/// `Unrecognized` with the original text, so nothing is lost on unknown
/// broker vocabulary.
#[derive(Clone, PartialEq, Debug)]
pub enum FiscalTransactionType {
    Tax,
    Dividend,
    Commission,
    FundingWithdrawal,
    RevertedDividend,
    Unrecognized(String),
}

/// The value of a `FiscalTransactionType`.
#[verifier::ext_equal]
pub enum FiscalTransactionTypeV {
    Tax,
    Dividend,
    Commission,
    FundingWithdrawal,
    RevertedDividend,
    Unrecognized(Seq<char>),
}

impl View for FiscalTransactionType {
    type V = FiscalTransactionTypeV;

    open spec fn view(&self) -> FiscalTransactionTypeV {
        match self {
            FiscalTransactionType::Tax => FiscalTransactionTypeV::Tax,
            FiscalTransactionType::Dividend => FiscalTransactionTypeV::Dividend,
            FiscalTransactionType::Commission => FiscalTransactionTypeV::Commission,
            FiscalTransactionType::FundingWithdrawal => FiscalTransactionTypeV::FundingWithdrawal,
            FiscalTransactionType::RevertedDividend => FiscalTransactionTypeV::RevertedDividend,
            FiscalTransactionType::Unrecognized(s) => FiscalTransactionTypeV::Unrecognized(s@),
        }
    }
}

/// The text of a fiscal event kind; the fallback serializes back to its
/// original text, not to a generic label.
pub open spec fn spec_fiscal_type_string(t: FiscalTransactionTypeV) -> Seq<char> {
    match t {
        FiscalTransactionTypeV::Tax => "Tax"@,
        FiscalTransactionTypeV::Dividend => "Dividend"@,
        FiscalTransactionTypeV::Commission => "Commission"@,
        FiscalTransactionTypeV::FundingWithdrawal => "FundingWithdrawal"@,
        FiscalTransactionTypeV::RevertedDividend => "RevertedDividend"@,
        FiscalTransactionTypeV::Unrecognized(s) => s,
    }
}

/// The fiscal event kind named by a text; unknown names survive as
/// `Unrecognized`.
pub open spec fn spec_fiscal_type_of_string(s: Seq<char>) -> FiscalTransactionTypeV {
    if s == "Tax"@ {
        FiscalTransactionTypeV::Tax
    } else if s == "Dividend"@ {
        FiscalTransactionTypeV::Dividend
    } else if s == "Commission"@ {
        FiscalTransactionTypeV::Commission
    } else if s == "FundingWithdrawal"@ {
        FiscalTransactionTypeV::FundingWithdrawal
    } else if s == "RevertedDividend"@ {
        FiscalTransactionTypeV::RevertedDividend
    } else {
        FiscalTransactionTypeV::Unrecognized(s)
    }
}

/// Every text survives a round trip through the vocabulary: reading a kind
/// and writing it back yields the original text, for unknown values too.
pub proof fn lemma_fiscal_type_string_roundtrip(s: Seq<char>)
    ensures
        spec_fiscal_type_string(spec_fiscal_type_of_string(s)) == s,
{
}

impl FiscalTransactionType {
    /// Serializes the kind to its text.
    pub fn to_text(&self) -> (r: String)
        ensures
            r@ == spec_fiscal_type_string(self@),
    {
        match self {
            FiscalTransactionType::Tax => "Tax".to_owned(),
            FiscalTransactionType::Dividend => "Dividend".to_owned(),
            FiscalTransactionType::Commission => "Commission".to_owned(),
            FiscalTransactionType::FundingWithdrawal => "FundingWithdrawal".to_owned(),
            FiscalTransactionType::RevertedDividend => "RevertedDividend".to_owned(),
            FiscalTransactionType::Unrecognized(s) => s.clone(),
        }
    }

    /// Reads a kind from its text, keeping unknown values verbatim.
    pub fn from_text(s: &str) -> (r: FiscalTransactionType)
        ensures
            r@ == spec_fiscal_type_of_string(s@),
    {
        if str_eq(s, "Tax") {
            FiscalTransactionType::Tax
        } else if str_eq(s, "Dividend") {
            FiscalTransactionType::Dividend
        } else if str_eq(s, "Commission") {
            FiscalTransactionType::Commission
        } else if str_eq(s, "FundingWithdrawal") {
            FiscalTransactionType::FundingWithdrawal
        } else if str_eq(s, "RevertedDividend") {
            FiscalTransactionType::RevertedDividend
        } else {
            FiscalTransactionType::Unrecognized(s.to_owned())
        }
    }
}

/// One non-trade cash or fiscal event in the canonical model. The amount's
/// sign carries direction: negative is an outflow.
#[derive(Clone, PartialEq, Debug)]
pub struct FiscalTransaction {
    pub operation_source: OperationSource,
    pub broker: Option<BrokerType>,
    pub external_id: Option<String>,
    pub date_time: DateTime,
    /// Absent for pure cash movements.
    pub symbol_id: Option<String>,
    pub amount: Money,
    pub operation_type: FiscalTransactionType,
    /// Omitted when the source reports a zero commission.
    pub commission: Option<Money>,
    pub metadata: Vec<MetadataEntry>,
}

/// The mathematical value of a `FiscalTransaction`.
#[verifier::ext_equal]
pub struct FiscalTransactionV {
    pub operation_source: OperationSource,
    pub broker: Option<BrokerType>,
    pub external_id: Option<Seq<char>>,
    pub date_time: DateTime,
    pub symbol_id: Option<Seq<char>>,
    pub amount: MoneyV,
    pub operation_type: FiscalTransactionTypeV,
    pub commission: Option<MoneyV>,
    pub metadata: Seq<(Seq<char>, Seq<char>)>,
}

impl View for FiscalTransaction {
    type V = FiscalTransactionV;

    open spec fn view(&self) -> FiscalTransactionV {
        FiscalTransactionV {
            operation_source: self.operation_source,
            broker: self.broker,
            external_id: opt_str_view(self.external_id),
            date_time: self.date_time,
            symbol_id: opt_str_view(self.symbol_id),
            amount: self.amount@,
            operation_type: self.operation_type@,
            commission: opt_money_view(self.commission),
            metadata: metadata_view(self.metadata@),
        }
    }
}

/// A fiscal record tagged for persistence under a portfolio and an upload.
#[derive(Clone, PartialEq, Debug)]
pub struct InsertFiscalTransaction {
    pub portfolio_id: String,
    pub report_upload_id: Option<String>,
    pub fiscal_transaction: FiscalTransaction,
}

#[verifier::ext_equal]
pub struct InsertFiscalTransactionV {
    pub portfolio_id: Seq<char>,
    pub report_upload_id: Option<Seq<char>>,
    pub fiscal_transaction: FiscalTransactionV,
}

impl View for InsertFiscalTransaction {
    type V = InsertFiscalTransactionV;

    open spec fn view(&self) -> InsertFiscalTransactionV {
        InsertFiscalTransactionV {
            portfolio_id: self.portfolio_id@,
            report_upload_id: opt_str_view(self.report_upload_id),
            fiscal_transaction: self.fiscal_transaction@,
        }
    }
}

/// A stored fiscal row: its row id and the record.
#[derive(Clone, PartialEq, Debug)]
pub struct SelectFiscalTransaction {
    pub id: String,
    pub i: FiscalTransaction,
}

/// The kinds a user may author by hand.
#[derive(Clone, Copy, PartialEq, Eq, Structural, Debug)]
pub enum CreateableFiscalTransactionType {
    Tax,
    Dividend,
    FundingWithdrawal,
    Comission,
}

impl CreateableFiscalTransactionType {
    /// The canonical kind of a user-authored kind.
    pub fn to_fiscal_type(self) -> (r: FiscalTransactionType)
        ensures
            r@ == match self {
                CreateableFiscalTransactionType::Tax => FiscalTransactionTypeV::Tax,
                CreateableFiscalTransactionType::Dividend => FiscalTransactionTypeV::Dividend,
                CreateableFiscalTransactionType::FundingWithdrawal
                    => FiscalTransactionTypeV::FundingWithdrawal,
                CreateableFiscalTransactionType::Comission => FiscalTransactionTypeV::Commission,
            },
    {
        match self {
            CreateableFiscalTransactionType::Tax => FiscalTransactionType::Tax,
            CreateableFiscalTransactionType::Dividend => FiscalTransactionType::Dividend,
            CreateableFiscalTransactionType::FundingWithdrawal
                => FiscalTransactionType::FundingWithdrawal,
            CreateableFiscalTransactionType::Comission => FiscalTransactionType::Commission,
        }
    }
}

/// A user-authored fiscal entry, before validation.
#[derive(Clone, PartialEq, Debug)]
pub struct CreateFiscalTransaction {
    pub portfolio_id: String,
    pub brokerage: Option<BrokerType>,
    pub date_time: DateTime,
    /// Must be present for a dividend and absent for a funding/withdrawal.
    pub ticker: Option<String>,
    /// Negative when money leaves the account; a dividend must be
    /// non-negative, a tax or commission non-positive.
    pub amount: Money,
    pub transaction_type: CreateableFiscalTransactionType,
}

/// The complaint, if any, against a user-authored fiscal entry, enforcing
/// the sign invariants of the canonical model at the user-authored-entry
/// boundary: a dividend needs an instrument and a non-negative amount, a
/// funding/withdrawal has no instrument, a tax or commission has a
/// non-positive amount.
pub open spec fn spec_check_create_fiscal(v: &CreateFiscalTransaction) -> Option<Seq<char>> {
    match v.transaction_type {
        CreateableFiscalTransactionType::Dividend => {
            if v.ticker is None {
                Some("DIVIDEND transaction must be associated with an instrument"@)
            } else if v.amount.amount.negative {
                Some("DIVIDEND transaction must contain positive amount"@)
            } else {
                None
            }
        },
        CreateableFiscalTransactionType::FundingWithdrawal => {
            if v.ticker is Some {
                Some("FUNDING_WITHDRAWAL transaction can't be associated with an instrument"@)
            } else {
                None
            }
        },
        CreateableFiscalTransactionType::Tax => {
            if !v.amount.amount.negative && v.amount.amount.mantissa != 0 {
                Some("TAX transaction must contain negative amount"@)
            } else {
                None
            }
        },
        CreateableFiscalTransactionType::Comission => {
            if !v.amount.amount.negative && v.amount.amount.mantissa != 0 {
                Some("COMISSION transaction must contain negative amount"@)
            } else {
                None
            }
        },
    }
}

/// Validation of user-authored fiscal entries.
pub struct CreateFiscalTransactionValidator {}

impl CreateFiscalTransactionValidator {
    /// Accepts an entry exactly when it meets the sign and instrument rules
    /// of its kind.
    pub fn check(&self, value: &CreateFiscalTransaction) -> (r: Result<(), String>)
        ensures
            r is Ok <==> spec_check_create_fiscal(value) is None,
            r is Err ==> Some(r->Err_0@) == spec_check_create_fiscal(value),
    {
        match value.transaction_type {
            CreateableFiscalTransactionType::Dividend => {
                if value.ticker.is_none() {
                    Err("DIVIDEND transaction must be associated with an instrument".to_owned())
                } else if value.amount.amount.is_sign_negative() {
                    Err("DIVIDEND transaction must contain positive amount".to_owned())
                } else {
                    Ok(())
                }
            },
            CreateableFiscalTransactionType::FundingWithdrawal => {
                if value.ticker.is_some() {
                    Err(
                        "FUNDING_WITHDRAWAL transaction can't be associated with an instrument".to_owned(),
                    )
                } else {
                    Ok(())
                }
            },
            CreateableFiscalTransactionType::Tax => {
                if !value.amount.amount.is_sign_negative() && !value.amount.amount.is_zero() {
                    Err("TAX transaction must contain negative amount".to_owned())
                } else {
                    Ok(())
                }
            },
            CreateableFiscalTransactionType::Comission => {
                if !value.amount.amount.is_sign_negative() && !value.amount.amount.is_zero() {
                    Err("COMISSION transaction must contain negative amount".to_owned())
                } else {
                    Ok(())
                }
            },
        }
    }
}

impl CreateFiscalTransaction {
    /// The canonical manual-entry record: no external id (manual entries
    /// are never deduplicated), no commission, an empty metadata bag.
    pub fn into_insert(self) -> (r: InsertFiscalTransaction)
        ensures
            r@ == (InsertFiscalTransactionV {
                portfolio_id: self.portfolio_id@,
                report_upload_id: None,
                fiscal_transaction: FiscalTransactionV {
                    operation_source: OperationSource::Manual,
                    broker: self.brokerage,
                    external_id: None,
                    date_time: self.date_time,
                    symbol_id: opt_str_view(self.ticker),
                    amount: self.amount@,
                    operation_type: match self.transaction_type {
                        CreateableFiscalTransactionType::Tax => FiscalTransactionTypeV::Tax,
                        CreateableFiscalTransactionType::Dividend
                            => FiscalTransactionTypeV::Dividend,
                        CreateableFiscalTransactionType::FundingWithdrawal
                            => FiscalTransactionTypeV::FundingWithdrawal,
                        CreateableFiscalTransactionType::Comission
                            => FiscalTransactionTypeV::Commission,
                    },
                    commission: None,
                    metadata: Seq::empty(),
                },
            }),
    {
        let tt = self.transaction_type;
        let r = InsertFiscalTransaction {
            portfolio_id: self.portfolio_id,
            report_upload_id: None,
            fiscal_transaction: FiscalTransaction {
                operation_source: OperationSource::Manual,
                broker: self.brokerage,
                external_id: None,
                date_time: self.date_time,
                symbol_id: self.ticker,
                amount: self.amount,
                operation_type: tt.to_fiscal_type(),
                commission: None,
                metadata: Vec::new(),
            },
        };
        proof {
            assert(metadata_view(r.fiscal_transaction.metadata@) =~= Seq::<(
                Seq<char>,
                Seq<char>,
            )>::empty());
        }
        r
    }
}

/// The fiscal-transaction mutation surface marker.
pub struct FiscalTransactionMutation {}

} // verus!
