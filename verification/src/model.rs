//! The shared pieces of the canonical model: broker identity, provenance,
//! exact money, and the order-preserving metadata bag.

use vstd::prelude::*;
use crate::decimal::Dec;

verus! {

/// A supported report provider.
#[derive(Clone, Copy, PartialEq, Eq, Structural, Debug)]
pub enum BrokerType {
    Exante,
    Freedomfinance,
}

/// Where a canonical record came from; fixes the namespace of its
/// external id.
#[derive(Clone, Copy, PartialEq, Eq, Structural, Debug)]
pub enum OperationSource {
    ExanteReport,
    FreedomfinanceReport,
    Manual,
}

/// The display name of a broker.
pub open spec fn spec_broker_name(b: BrokerType) -> Seq<char> {
    match b {
        BrokerType::Exante => "Exante"@,
        BrokerType::Freedomfinance => "Freedomfinance"@,
    }
}

impl BrokerType {
    /// The broker's display name.
    pub fn name(&self) -> (r: &'static str)
        ensures
            r@ == spec_broker_name(*self),
    {
        match self {
            BrokerType::Exante => "Exante",
            BrokerType::Freedomfinance => "Freedomfinance",
        }
    }
}

/// An exact decimal amount in a currency.
#[derive(Clone, PartialEq, Debug)]
pub struct Money {
    pub amount: Dec,
    pub currency: String,
}

/// The mathematical value of a `Money`.
#[verifier::ext_equal]
pub struct MoneyV {
    pub amount: Dec,
    pub currency: Seq<char>,
}

impl View for Money {
    type V = MoneyV;

    open spec fn view(&self) -> MoneyV {
        MoneyV { amount: self.amount, currency: self.currency@ }
    }
}

impl Money {
    pub open spec fn valid(self) -> bool {
        self.amount.valid()
    }

    pub fn new(amount: Dec, currency: String) -> (r: Money)
        ensures
            r@ == (MoneyV { amount, currency: currency@ }),
    {
        Money { amount, currency }
    }
}

impl MoneyV {
    pub open spec fn valid(self) -> bool {
        self.amount.valid()
    }
}

/// One key/value pair of a record's metadata bag.
#[derive(Clone, PartialEq, Debug)]
pub struct MetadataEntry {
    pub key: String,
    pub value: String,
}

impl View for MetadataEntry {
    type V = (Seq<char>, Seq<char>);

    open spec fn view(&self) -> (Seq<char>, Seq<char>) {
        (self.key@, self.value@)
    }
}

impl MetadataEntry {
    pub fn new(key: &str, value: String) -> (r: MetadataEntry)
        ensures
            r@ == (key@, value@),
    {
        MetadataEntry { key: key.to_owned(), value }
    }
}

/// The value of a metadata bag: its pairs in order.
pub open spec fn metadata_view(m: Seq<MetadataEntry>) -> Seq<(Seq<char>, Seq<char>)> {
    m.map_values(|e: MetadataEntry| e@)
}

/// The value of an optional string.
pub open spec fn opt_str_view(o: Option<String>) -> Option<Seq<char>> {
    match o {
        Some(s) => Some(s@),
        None => None,
    }
}

/// The value of an optional money amount.
pub open spec fn opt_money_view(o: Option<Money>) -> Option<MoneyV> {
    match o {
        Some(m) => Some(m@),
        None => None,
    }
}

} // verus!
