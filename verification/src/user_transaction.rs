//! The user-facing view over stored records: one abstraction above trade
//! operations and fiscal transactions, merged and ordered chronologically.

use vstd::prelude::*;
use vstd::seq_lib::group_to_multiset_ensures;
use crate::datetime::DateTime;
use crate::decimal::Dec;
use crate::fiscal_transaction::{
    FiscalTransactionType, FiscalTransactionTypeV, SelectFiscalTransaction,
};
use crate::model::{BrokerType, Money, MoneyV, opt_str_view};
use crate::trade_operation::{SelectTradeOperation, TradeOperationSide};

verus! {

/// The kind of a user-visible transaction.
#[derive(Clone, Copy, PartialEq, Eq, Structural, Debug)]
pub enum UserTransactionType {
    Trade,
    /// An unknown kind was received from a brokerage report.
    Unrecognized,
    Tax,
    Divident,
    Comission,
    FundingWithdrawal,
    RevertedDivident,
}

/// The trade direction, as the user sees it.
#[derive(Clone, Copy, PartialEq, Eq, Structural, Debug)]
pub enum UserTransactionTradeSide {
    Buy,
    Sell,
}

/// Any operation recorded in a portfolio — a trade or a fiscal event —
/// seen from the user's perspective as one entity.
#[derive(Clone, PartialEq, Debug)]
pub struct UserTransaction {
    pub user_transaction_type: UserTransactionType,
    pub brokerage: Option<BrokerType>,
    /// Total change of balance: negative when money left the account.
    pub summ: Money,
    pub symbol: Option<String>,
    pub price: Option<Money>,
    pub quantity: Option<i32>,
    pub trade_side: Option<UserTransactionTradeSide>,
    pub trade_operation_id: Option<String>,
    pub fiscal_transaction_id: Option<String>,
    /// The original kind text when the kind is unrecognized.
    pub unrecognized_type: Option<String>,
    pub date_time: DateTime,
}

#[verifier::ext_equal]
pub struct UserTransactionV {
    pub user_transaction_type: UserTransactionType,
    pub brokerage: Option<BrokerType>,
    pub summ: MoneyV,
    pub symbol: Option<Seq<char>>,
    pub price: Option<MoneyV>,
    pub quantity: Option<i32>,
    pub trade_side: Option<UserTransactionTradeSide>,
    pub trade_operation_id: Option<Seq<char>>,
    pub fiscal_transaction_id: Option<Seq<char>>,
    pub unrecognized_type: Option<Seq<char>>,
    pub date_time: DateTime,
}

impl View for UserTransaction {
    type V = UserTransactionV;

    open spec fn view(&self) -> UserTransactionV {
        UserTransactionV {
            user_transaction_type: self.user_transaction_type,
            brokerage: self.brokerage,
            summ: self.summ@,
            symbol: opt_str_view(self.symbol),
            price: crate::model::opt_money_view(self.price),
            quantity: self.quantity,
            trade_side: self.trade_side,
            trade_operation_id: opt_str_view(self.trade_operation_id),
            fiscal_transaction_id: opt_str_view(self.fiscal_transaction_id),
            unrecognized_type: opt_str_view(self.unrecognized_type),
            date_time: self.date_time,
        }
    }
}

/// The user-visible kind of a canonical fiscal kind.
pub open spec fn spec_user_type_of_fiscal(t: FiscalTransactionTypeV) -> UserTransactionType {
    match t {
        FiscalTransactionTypeV::Tax => UserTransactionType::Tax,
        FiscalTransactionTypeV::Dividend => UserTransactionType::Divident,
        FiscalTransactionTypeV::Commission => UserTransactionType::Comission,
        FiscalTransactionTypeV::FundingWithdrawal => UserTransactionType::FundingWithdrawal,
        FiscalTransactionTypeV::RevertedDividend => UserTransactionType::RevertedDivident,
        FiscalTransactionTypeV::Unrecognized(_) => UserTransactionType::Unrecognized,
    }
}

impl UserTransactionType {
    /// Maps a canonical fiscal kind to the user-visible kind.
    pub fn from_fiscal_type(t: &FiscalTransactionType) -> (r: UserTransactionType)
        ensures
            r == spec_user_type_of_fiscal(t@),
    {
        match t {
            FiscalTransactionType::Tax => UserTransactionType::Tax,
            FiscalTransactionType::Dividend => UserTransactionType::Divident,
            FiscalTransactionType::Commission => UserTransactionType::Comission,
            FiscalTransactionType::FundingWithdrawal => UserTransactionType::FundingWithdrawal,
            FiscalTransactionType::RevertedDividend => UserTransactionType::RevertedDivident,
            FiscalTransactionType::Unrecognized(_) => UserTransactionType::Unrecognized,
        }
    }
}

impl UserTransactionTradeSide {
    /// Maps the canonical trade side to the user-visible side.
    pub fn from_trade_side(s: TradeOperationSide) -> (r: UserTransactionTradeSide)
        ensures
            r == match s {
                TradeOperationSide::Buy => UserTransactionTradeSide::Buy,
                TradeOperationSide::Sell => UserTransactionTradeSide::Sell,
            },
    {
        match s {
            TradeOperationSide::Buy => UserTransactionTradeSide::Buy,
            TradeOperationSide::Sell => UserTransactionTradeSide::Sell,
        }
    }
}

/// The user transaction a stored fiscal row presents: the row's amount,
/// kind (with the original text kept when unrecognized) and symbol, tied
/// back to the row by its id.
pub open spec fn spec_user_from_fiscal(
    id: Seq<char>,
    v: crate::fiscal_transaction::FiscalTransactionV,
) -> UserTransactionV {
    UserTransactionV {
        user_transaction_type: spec_user_type_of_fiscal(v.operation_type),
        brokerage: v.broker,
        summ: v.amount,
        symbol: v.symbol_id,
        price: None,
        quantity: None,
        trade_side: None,
        trade_operation_id: None,
        fiscal_transaction_id: Some(id),
        unrecognized_type: match v.operation_type {
            FiscalTransactionTypeV::Unrecognized(t) => Some(t),
            _ => None,
        },
        date_time: v.date_time,
    }
}

/// The user transaction a stored trade row presents: the settled amount,
/// negated for a buy (money left the account) and kept for a sell, the
/// trade's price, quantity and side, tied back to the row by its id.
pub open spec fn spec_user_from_trade(
    id: Seq<char>,
    v: crate::trade_operation::TradeOperationV,
) -> UserTransactionV {
    UserTransactionV {
        user_transaction_type: UserTransactionType::Trade,
        brokerage: v.broker,
        summ: MoneyV {
            amount: match v.side {
                TradeOperationSide::Buy => Dec {
                    negative: v.summ.amount.mantissa != 0 && !v.summ.amount.negative,
                    mantissa: v.summ.amount.mantissa,
                    scale: v.summ.amount.scale,
                },
                TradeOperationSide::Sell => v.summ.amount,
            },
            currency: v.summ.currency,
        },
        symbol: Some(v.instrument_symbol),
        price: Some(v.price),
        quantity: Some(v.quantity),
        trade_side: Some(
            match v.side {
                TradeOperationSide::Buy => UserTransactionTradeSide::Buy,
                TradeOperationSide::Sell => UserTransactionTradeSide::Sell,
            },
        ),
        trade_operation_id: Some(id),
        fiscal_transaction_id: None,
        unrecognized_type: None,
        date_time: v.date_time,
    }
}

impl SelectFiscalTransaction {
    /// Presents a stored fiscal row as a user transaction.
    pub fn into_user_transaction(self) -> (r: UserTransaction)
        ensures
            r@ == spec_user_from_fiscal(self.id@, self.i@),
    {
        let unrecognized_type = match &self.i.operation_type {
            FiscalTransactionType::Unrecognized(t) => Some(t.clone()),
            _ => None,
        };
        let user_transaction_type = UserTransactionType::from_fiscal_type(&self.i.operation_type);
        UserTransaction {
            user_transaction_type,
            brokerage: self.i.broker,
            summ: self.i.amount,
            symbol: self.i.symbol_id,
            price: None,
            quantity: None,
            trade_side: None,
            trade_operation_id: None,
            fiscal_transaction_id: Some(self.id),
            unrecognized_type,
            date_time: self.i.date_time,
        }
    }
}

impl SelectTradeOperation {
    /// Presents a stored trade row as a user transaction; a buy's settled
    /// amount is negated, a sell's kept.
    pub fn into_user_transaction(self) -> (r: UserTransaction)
        requires
            self.i.summ.amount.valid(),
        ensures
            r@ == spec_user_from_trade(self.id@, self.i@),
    {
        let amount = match self.i.side {
            TradeOperationSide::Buy => self.i.summ.amount.negate(),
            TradeOperationSide::Sell => self.i.summ.amount,
        };
        UserTransaction {
            user_transaction_type: UserTransactionType::Trade,
            brokerage: self.i.broker,
            summ: Money { amount, currency: self.i.summ.currency },
            symbol: Some(self.i.instrument_symbol),
            price: Some(self.i.price),
            quantity: Some(self.i.quantity),
            trade_side: Some(UserTransactionTradeSide::from_trade_side(self.i.side)),
            trade_operation_id: Some(self.id),
            fiscal_transaction_id: None,
            unrecognized_type: None,
            date_time: self.i.date_time,
        }
    }
}

/// Chronological order over the sort key.
pub open spec fn spec_sorted_by_time(s: Seq<UserTransactionV>) -> bool {
    forall|i: int, j: int|
        0 <= i < j < s.len() ==> s[i].date_time.spec_key() <= s[j].date_time.spec_key()
}

/// The user transactions of a portfolio: every stored trade and fiscal row
/// presented as one entity, ordered chronologically. The result holds
/// exactly the presented rows (as a multiset — the order within equal
/// timestamps is not promised), sorted by time.
pub fn generate_user_transaction_list(
    trade_operations: Vec<SelectTradeOperation>,
    fiscal_transactions: Vec<SelectFiscalTransaction>,
) -> (r: Vec<UserTransaction>)
    requires
        forall|k: int|
            0 <= k < trade_operations@.len() ==> (#[trigger] trade_operations@[k]).i.summ.amount.valid()
                && trade_operations@[k].i.date_time.valid(),
        forall|k: int|
            0 <= k < fiscal_transactions@.len()
                ==> (#[trigger] fiscal_transactions@[k]).i.date_time.valid(),
    ensures
        spec_sorted_by_time(r@.map_values(|u: UserTransaction| u@)),
        r@.map_values(|u: UserTransaction| u@).to_multiset() == (trade_operations@.map_values(
            |t: SelectTradeOperation| spec_user_from_trade(t.id@, t.i@),
        ) + fiscal_transactions@.map_values(
            |t: SelectFiscalTransaction| spec_user_from_fiscal(t.id@, t.i@),
        )).to_multiset(),
{
    broadcast use group_to_multiset_ensures;

    let ghost target = trade_operations@.map_values(
        |t: SelectTradeOperation| spec_user_from_trade(t.id@, t.i@),
    ) + fiscal_transactions@.map_values(
        |t: SelectFiscalTransaction| spec_user_from_fiscal(t.id@, t.i@),
    );
    let mut all: Vec<UserTransaction> = Vec::new();
    let mut src_t = trade_operations;
    let ghost src_t_g = src_t@;
    let ghost conv_t = src_t_g.map_values(
        |t: SelectTradeOperation| spec_user_from_trade(t.id@, t.i@),
    );
    while src_t.len() > 0
        invariant
            src_t@.len() <= src_t_g.len(),
            src_t@ == src_t_g.skip(src_t_g.len() - src_t@.len()),
            conv_t == src_t_g.map_values(
                |t: SelectTradeOperation| spec_user_from_trade(t.id@, t.i@),
            ),
            forall|k: int|
                0 <= k < src_t_g.len() ==> (#[trigger] src_t_g[k]).i.summ.amount.valid()
                    && src_t_g[k].i.date_time.valid(),
            all@.map_values(|u: UserTransaction| u@) == conv_t.take(
                src_t_g.len() - src_t@.len(),
            ),
        decreases src_t@.len(),
    {
        let ghost done = src_t_g.len() - src_t@.len();
        let ghost before = src_t@;
        let t = src_t.remove(0);
        proof {
            assert(t == before[0]);
            let start = src_t_g.len() - before.len();
            assert(src_t_g.skip(start)[0] == src_t_g[start]);
            assert(t == src_t_g[done]);
            assert(src_t@ =~= src_t_g.skip(src_t_g.len() - src_t@.len()));
        }
        let u = t.into_user_transaction();
        let ghost all_old = all@;
        all.push(u);
        proof {
            assert(all@.map_values(|u: UserTransaction| u@) =~= all_old.map_values(
                |u: UserTransaction| u@,
            ).push(u@));
            assert(conv_t[done] == spec_user_from_trade(src_t_g[done].id@, src_t_g[done].i@));
            assert(conv_t.take(done + 1) =~= conv_t.take(done).push(conv_t[done]));
        }
    }
    proof {
        assert(conv_t.take(conv_t.len() as int) == conv_t);
    }
    let mut src_f = fiscal_transactions;
    let ghost src_f_g = src_f@;
    let ghost conv_f = src_f_g.map_values(
        |t: SelectFiscalTransaction| spec_user_from_fiscal(t.id@, t.i@),
    );
    while src_f.len() > 0
        invariant
            src_f@.len() <= src_f_g.len(),
            src_f@ == src_f_g.skip(src_f_g.len() - src_f@.len()),
            conv_f == src_f_g.map_values(
                |t: SelectFiscalTransaction| spec_user_from_fiscal(t.id@, t.i@),
            ),
            conv_t == src_t_g.map_values(
                |t: SelectTradeOperation| spec_user_from_trade(t.id@, t.i@),
            ),
            all@.map_values(|u: UserTransaction| u@) == conv_t + conv_f.take(
                src_f_g.len() - src_f@.len(),
            ),
        decreases src_f@.len(),
    {
        let ghost done = src_f_g.len() - src_f@.len();
        let ghost before = src_f@;
        let t = src_f.remove(0);
        proof {
            assert(t == before[0]);
            let start = src_f_g.len() - before.len();
            assert(src_f_g.skip(start)[0] == src_f_g[start]);
            assert(t == src_f_g[done]);
            assert(src_f@ =~= src_f_g.skip(src_f_g.len() - src_f@.len()));
        }
        let u = t.into_user_transaction();
        let ghost all_old = all@;
        all.push(u);
        proof {
            assert(all@.map_values(|u: UserTransaction| u@) =~= all_old.map_values(
                |u: UserTransaction| u@,
            ).push(u@));
            assert(conv_f[done] == spec_user_from_fiscal(src_f_g[done].id@, src_f_g[done].i@));
            assert(conv_f.take(done + 1) =~= conv_f.take(done).push(conv_f[done]));
            assert(conv_t + conv_f.take(done + 1) =~= (conv_t + conv_f.take(done)).push(
                conv_f[done],
            ));
        }
    }
    proof {
        assert(conv_f.take(conv_f.len() as int) == conv_f);
        assert(all@.map_values(|u: UserTransaction| u@) == target);
        assert(forall|k: int|
            0 <= k < target.len() ==> (#[trigger] target[k]).date_time.valid()) by {
            assert forall|k: int|
                0 <= k < target.len() implies (#[trigger] target[k]).date_time.valid() by {
                if k < conv_t.len() {
                    assert(target[k] == conv_t[k]);
                    assert(conv_t[k] == spec_user_from_trade(src_t_g[k].id@, src_t_g[k].i@));
                } else {
                    assert(target[k] == conv_f[k - conv_t.len()]);
                    assert(conv_f[k - conv_t.len()] == spec_user_from_fiscal(
                        src_f_g[k - conv_t.len()].id@,
                        src_f_g[k - conv_t.len()].i@,
                    ));
                }
            }
        }
    }
    // sort chronologically (insertion sort)
    let mut sorted: Vec<UserTransaction> = Vec::new();
    proof {
        assert(forall|k: int|
            0 <= k < all@.len() ==> (#[trigger] all@[k])@ == target[k]);
        assert(sorted@.map_values(|u: UserTransaction| u@) =~= Seq::<UserTransactionV>::empty());
        assert(Seq::<UserTransactionV>::empty().to_multiset().add(
            all@.map_values(|u: UserTransaction| u@).to_multiset(),
        ) =~= target.to_multiset());
    }
    while all.len() > 0
        invariant
            sorted@.map_values(|u: UserTransaction| u@).to_multiset().add(
                all@.map_values(|u: UserTransaction| u@).to_multiset(),
            ) == target.to_multiset(),
            spec_sorted_by_time(sorted@.map_values(|u: UserTransaction| u@)),
            forall|k: int|
                0 <= k < all@.len() ==> (#[trigger] all@[k])@.date_time.valid(),
            forall|k: int|
                0 <= k < sorted@.len() ==> (#[trigger] sorted@[k])@.date_time.valid(),
        decreases all@.len(),
    {
        let ghost all_old_v = all@.map_values(|u: UserTransaction| u@);
        let x = all.remove(0);
        proof {
            all_old_v.to_multiset_ensures();
            assert(all_old_v.remove(0).to_multiset() =~= all_old_v.to_multiset().remove(
                all_old_v[0],
            ));
            assert(all@.map_values(|u: UserTransaction| u@) =~= all_old_v.remove(0));
            assert(x@ == all_old_v[0]);
        }
        let ghost sorted_old_v = sorted@.map_values(|u: UserTransaction| u@);
        insert_sorted(&mut sorted, x);
        proof {
            let nv = sorted@.map_values(|u: UserTransaction| u@);
            assert(nv.to_multiset().add(all@.map_values(|u: UserTransaction| u@).to_multiset())
                =~= target.to_multiset());
        }
    }
    proof {
        assert(all@.map_values(|u: UserTransaction| u@) =~= Seq::<UserTransactionV>::empty());
        assert(sorted@.map_values(|u: UserTransaction| u@).to_multiset().add(
            Seq::<UserTransactionV>::empty().to_multiset(),
        ) =~= sorted@.map_values(|u: UserTransaction| u@).to_multiset());
    }
    sorted
}

/// Inserts one element into a chronologically sorted list, keeping it
/// sorted; the contents change by exactly that element.
proof fn lemma_insert_multiset(sv: Seq<UserTransactionV>, p: int, x: UserTransactionV)
    requires
        0 <= p <= sv.len(),
    ensures
        sv.insert(p, x).to_multiset() == sv.to_multiset().insert(x),
{
    let nv = sv.insert(p, x);
    nv.to_multiset_ensures();
    sv.to_multiset_ensures();
    assert(nv.remove(p) =~= sv);
    assert(nv.remove(p).to_multiset() =~= nv.to_multiset().remove(nv[p]));
    assert(nv[p] == x);
    assert(nv.to_multiset().contains(x)) by {
        assert(nv.contains(x)) by {
            assert(nv[p] == x);
        }
    }
    assert forall|y: UserTransactionV|
        nv.to_multiset().count(y) == sv.to_multiset().insert(x).count(y) by {
        assert(sv.to_multiset() =~= nv.to_multiset().remove(x));
    }
    assert(nv.to_multiset() =~= sv.to_multiset().insert(x));
}

proof fn lemma_insert_keeps_order(sv: Seq<UserTransactionV>, p: int, x: UserTransactionV)
    requires
        0 <= p <= sv.len(),
        spec_sorted_by_time(sv),
        forall|m: int| 0 <= m < p ==> (#[trigger] sv[m]).date_time.spec_key()
            <= x.date_time.spec_key(),
        p < sv.len() ==> sv[p].date_time.spec_key() > x.date_time.spec_key(),
    ensures
        spec_sorted_by_time(sv.insert(p, x)),
{
    let nv = sv.insert(p, x);
    assert forall|i: int, j: int|
        0 <= i < j < nv.len() implies nv[i].date_time.spec_key()
        <= nv[j].date_time.spec_key() by {
        if j < p {
            assert(nv[i] == sv[i] && nv[j] == sv[j]);
        } else if i > p {
            assert(nv[i] == sv[i - 1] && nv[j] == sv[j - 1]);
        } else if i < p && j == p {
            assert(nv[i] == sv[i]);
            assert(nv[j] == x);
        } else if i == p {
            assert(nv[i] == x);
            assert(nv[j] == sv[j - 1]);
            assert(sv[p].date_time.spec_key() > x.date_time.spec_key());
            if p < j - 1 {
                assert(sv[p].date_time.spec_key() <= sv[j - 1].date_time.spec_key());
            }
        } else {
            // i < p < j
            assert(nv[i] == sv[i]);
            assert(nv[j] == sv[j - 1]);
            if i < j - 1 {
                assert(sv[i].date_time.spec_key() <= sv[j - 1].date_time.spec_key());
            }
        }
    }
}

/// Inserts one element into a chronologically sorted list, keeping it
/// sorted; the contents change by exactly that element.
fn insert_sorted(sorted: &mut Vec<UserTransaction>, x: UserTransaction)
    requires
        spec_sorted_by_time(old(sorted)@.map_values(|u: UserTransaction| u@)),
        x@.date_time.valid(),
        forall|k: int|
            0 <= k < old(sorted)@.len() ==> (#[trigger] old(sorted)@[k])@.date_time.valid(),
    ensures
        spec_sorted_by_time(final(sorted)@.map_values(|u: UserTransaction| u@)),
        final(sorted)@.map_values(|u: UserTransaction| u@).to_multiset() == old(
            sorted,
        )@.map_values(|u: UserTransaction| u@).to_multiset().insert(x@),
        forall|k: int|
            0 <= k < final(sorted)@.len() ==> (#[trigger] final(sorted)@[k])@.date_time.valid(),
{
    let xk = x.date_time.key();
    let mut p: usize = 0;
    let ghost sv = sorted@.map_values(|u: UserTransaction| u@);
    while p < sorted.len() && sorted[p].date_time.key() <= xk
        invariant
            0 <= p <= sorted@.len(),
            sorted@ == old(sorted)@,
            sv == sorted@.map_values(|u: UserTransaction| u@),
            xk as int == x@.date_time.spec_key(),
            x@.date_time.valid(),
            forall|k: int|
                0 <= k < sorted@.len() ==> (#[trigger] sorted@[k])@.date_time.valid(),
            forall|m: int|
                0 <= m < p ==> (#[trigger] sv[m]).date_time.spec_key()
                    <= x@.date_time.spec_key(),
        decreases sorted@.len() - p,
    {
        proof {
            assert(sv[p as int] == sorted@[p as int]@);
        }
        p = p + 1;
    }
    proof {
        assert(p < sv.len() ==> sv[p as int] == sorted@[p as int]@);
        assert(p < sv.len() ==> sv[p as int].date_time.spec_key() > x@.date_time.spec_key());
    }
    sorted.insert(p, x);
    proof {
        let nv = sorted@.map_values(|u: UserTransaction| u@);
        assert(nv =~= sv.insert(p as int, x@));
        lemma_insert_multiset(sv, p as int, x@);
        lemma_insert_keeps_order(sv, p as int, x@);
        assert(forall|k: int|
            0 <= k < nv.len() ==> (#[trigger] nv[k]).date_time.valid()) by {
            assert forall|k: int|
                0 <= k < nv.len() implies (#[trigger] nv[k]).date_time.valid() by {
                if k < p {
                    assert(nv[k] == sv[k]);
                } else if k == p {
                    assert(nv[k] == x@);
                } else {
                    assert(nv[k] == sv[k - 1]);
                }
            }
        }
        assert(forall|k: int|
            0 <= k < sorted@.len() ==> (#[trigger] sorted@[k])@.date_time.valid()) by {
            assert(forall|k: int|
                0 <= k < sorted@.len() ==> (#[trigger] sorted@[k])@ == nv[k]);
        }
    }
}

/// The user-transaction query surface marker.
pub struct UserTransactionQuery {}

/// The user-transaction mutation surface marker.
pub struct UserTransactionMutation {}

} // verus!
