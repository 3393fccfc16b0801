//! Amounts of money and the units that prices are quoted in.

use vstd::prelude::*;

use crate::decimal::{
    checked_add, checked_mul, checked_sub, decimal_difference, decimal_product, decimal_sum,
    Decimal,
};

verus! {

/// The currency of an amount; estimates are made in US dollars.
#[derive(Clone, Copy, Debug, PartialEq, Eq, Structural)]
pub enum Currency {
    USD,
}

impl Currency {
    /// The symbol printed before an amount.
    pub fn symbol(&self) -> (s: &'static str)
        ensures
            s@ == "$"@,
    {
        "$"
    }
}

/// An amount of money in a currency.
#[derive(Clone, Copy, Debug)]
pub struct Money {
    pub currency: Currency,
    pub amount: Decimal,
}

/// The amounts of a sequence of money, left to right.
pub open spec fn amounts(ms: Seq<Money>) -> Seq<Decimal> {
    ms.map_values(|m: Money| m.amount)
}

/// The running total of a sequence of amounts from zero, added left to right as
/// `Iterator::sum` over `Money` does; `None` once an addition overflows.
pub open spec fn fold_sum(ds: Seq<Decimal>) -> Option<Decimal>
    decreases ds.len(),
{
    if ds.len() == 0 {
        Some(Decimal { mantissa: 0, scale: 0, negative: false })
    } else {
        match fold_sum(ds.drop_last()) {
            Some(acc) => decimal_sum(acc, ds.last()),
            None => None,
        }
    }
}

/// Whether every amount in a sequence is well formed.
pub open spec fn all_wf(ds: Seq<Decimal>) -> bool {
    forall|i: int| 0 <= i < ds.len() ==> (#[trigger] ds[i]).wf()
}

/// The text of an amount of money: the currency symbol, then the amount with
/// two decimal places.
pub open spec fn money_text(m: Money) -> Seq<char> {
    "$"@ + crate::decimal::decimal_display_2dp(m.amount)
}

impl Money {
    /// The printed amount (its `Display`), such as `$12.50`.
    pub fn to_string(&self) -> (s: String)
        requires
            self.amount.wf(),
        ensures
            s@ == money_text(*self),
    {
        let mut s = crate::text::owned(self.currency.symbol());
        let t = crate::decimal::display_2dp(&self.amount);
        s.append(t.as_str());
        s
    }

    /// Whether the amount is well formed.
    pub open spec fn wf(self) -> bool {
        self.amount.wf()
    }

    /// An amount in US dollars.
    pub fn usd(amount: Decimal) -> (m: Money)
        ensures
            m.currency == Currency::USD,
            m.amount == amount,
    {
        Money { currency: Currency::USD, amount }
    }

    /// Zero US dollars.
    pub fn zero() -> (m: Money)
        ensures
            m.currency == Currency::USD,
            m.amount == (Decimal { mantissa: 0, scale: 0, negative: false }),
            m.wf(),
    {
        Money { currency: Currency::USD, amount: Decimal::zero() }
    }

    /// `self + rhs`; the currency is that of `self`.
    pub fn add(self, rhs: Money) -> (m: Money)
        requires
            self.wf(),
            rhs.wf(),
            decimal_sum(self.amount, rhs.amount) is Some,
        ensures
            m.currency == self.currency,
            Some(m.amount) == decimal_sum(self.amount, rhs.amount),
            m.wf(),
    {
        let s = checked_add(self.amount, rhs.amount);
        Money { currency: self.currency, amount: s.unwrap() }
    }

    /// `self + rhs`, or `None` where the amount overflows (where `+` panics).
    pub fn checked_add(self, rhs: Money) -> (m: Option<Money>)
        requires
            self.wf(),
            rhs.wf(),
        ensures
            m is Some <==> decimal_sum(self.amount, rhs.amount) is Some,
            m matches Some(x) ==> x.currency == self.currency && Some(x.amount) == decimal_sum(
                self.amount,
                rhs.amount,
            ) && x.wf(),
    {
        match checked_add(self.amount, rhs.amount) {
            Some(a) => Some(Money { currency: self.currency, amount: a }),
            None => None,
        }
    }

    /// `self - rhs`; the currency is that of `self`.
    pub fn sub(self, rhs: Money) -> (m: Money)
        requires
            self.wf(),
            rhs.wf(),
            decimal_difference(self.amount, rhs.amount) is Some,
        ensures
            m.currency == self.currency,
            Some(m.amount) == decimal_difference(self.amount, rhs.amount),
            m.wf(),
    {
        let s = checked_sub(self.amount, rhs.amount);
        Money { currency: self.currency, amount: s.unwrap() }
    }

    /// `self - rhs`, or `None` where the amount overflows (where `-` panics).
    pub fn checked_sub(self, rhs: Money) -> (m: Option<Money>)
        requires
            self.wf(),
            rhs.wf(),
        ensures
            m is Some <==> decimal_difference(self.amount, rhs.amount) is Some,
            m matches Some(x) ==> x.currency == self.currency && Some(x.amount)
                == decimal_difference(self.amount, rhs.amount) && x.wf(),
    {
        match checked_sub(self.amount, rhs.amount) {
            Some(a) => Some(Money { currency: self.currency, amount: a }),
            None => None,
        }
    }

    /// `self * rhs`; the currency is that of `self`.
    pub fn mul(self, rhs: Decimal) -> (m: Money)
        requires
            self.wf(),
            rhs.wf(),
            decimal_product(self.amount, rhs) is Some,
        ensures
            m.currency == self.currency,
            Some(m.amount) == decimal_product(self.amount, rhs),
            m.wf(),
    {
        let p = checked_mul(self.amount, rhs);
        Money { currency: self.currency, amount: p.unwrap() }
    }

    /// `self * rhs`, or `None` where the amount overflows (where `*` panics).
    pub fn checked_mul(self, rhs: Decimal) -> (m: Option<Money>)
        requires
            self.wf(),
            rhs.wf(),
        ensures
            m is Some <==> decimal_product(self.amount, rhs) is Some,
            m matches Some(x) ==> x.currency == self.currency && Some(x.amount) == decimal_product(
                self.amount,
                rhs,
            ) && x.wf(),
    {
        match checked_mul(self.amount, rhs) {
            Some(a) => Some(Money { currency: self.currency, amount: a }),
            None => None,
        }
    }

    /// Whether two amounts are equal: same currency, same value.
    pub fn equals(&self, other: &Money) -> (b: bool)
        requires
            self.wf(),
            other.wf(),
        ensures
            b == (self.currency == other.currency && self.amount.num() == other.amount.num()),
    {
        self.currency == other.currency && crate::decimal::eq(&self.amount, &other.amount)
    }

    /// The sum of a sequence of amounts, from zero; `None` where an addition
    /// overflows (where `Iterator::sum` panics).
    pub fn checked_sum(items: &Vec<Money>) -> (r: Option<Money>)
        requires
            all_wf(amounts(items@)),
        ensures
            r is Some <==> fold_sum(amounts(items@)) is Some,
            r matches Some(m) ==> m.currency == Currency::USD && Some(m.amount) == fold_sum(
                amounts(items@),
            ) && m.wf(),
    {
        let mut acc = Money::zero();
        let mut i: usize = 0;
        while i < items.len()
            invariant
                i <= items.len(),
                all_wf(amounts(items@)),
                acc.currency == Currency::USD,
                acc.wf(),
                Some(acc.amount) == fold_sum(amounts(items@).subrange(0, i as int)),
            decreases items.len() - i,
        {
            let ghost before = amounts(items@).subrange(0, i as int);
            let ghost after = amounts(items@).subrange(0, i + 1);
            assert(after.drop_last() =~= before);
            assert(after.last() == items@[i as int].amount);
            assert(amounts(items@)[i as int] == items@[i as int].amount);
            match acc.checked_add(items[i]) {
                Some(m) => {
                    acc = m;
                },
                None => {
                    proof {
                        lemma_fold_sum_none_extends(amounts(items@), (i + 1) as int);
                    }
                    return None;
                },
            }
            i = i + 1;
        }
        assert(amounts(items@).subrange(0, items.len() as int) =~= amounts(items@));
        Some(acc)
    }

    /// The sum of a sequence of amounts, from zero.
    pub fn sum(items: &Vec<Money>) -> (m: Money)
        requires
            all_wf(amounts(items@)),
            fold_sum(amounts(items@)) is Some,
        ensures
            m.currency == Currency::USD,
            Some(m.amount) == fold_sum(amounts(items@)),
            m.wf(),
    {
        Money::checked_sum(items).unwrap()
    }
}

/// Once a running total overflows, every longer prefix overflows too.
pub proof fn lemma_fold_sum_none_extends(ds: Seq<Decimal>, k: int)
    requires
        0 <= k <= ds.len(),
        fold_sum(ds.subrange(0, k)) is None,
    ensures
        fold_sum(ds) is None,
    decreases ds.len() - k,
{
    if k < ds.len() {
        assert(ds.subrange(0, k + 1).drop_last() =~= ds.subrange(0, k));
        lemma_fold_sum_none_extends(ds, k + 1);
    } else {
        assert(ds.subrange(0, k) =~= ds);
    }
}

/// The unit a quantity of a cost component is counted in.
#[derive(Clone, Copy, Debug, PartialEq, Eq, Structural)]
pub enum BillingPeriod {
    Second,
    Hour,
    Month,
    Year,
    GBMonth,
    Request,
    GBSecond,
    GiBSecond,
    IOPS,
}

/// The name printed for a unit.
pub open spec fn period_label(p: BillingPeriod) -> Seq<char> {
    match p {
        BillingPeriod::Second => "seconds"@,
        BillingPeriod::Hour => "hours"@,
        BillingPeriod::Month => "months"@,
        BillingPeriod::Year => "years"@,
        BillingPeriod::GBMonth => "GB/month"@,
        BillingPeriod::Request => "requests"@,
        BillingPeriod::GBSecond => "GB-seconds"@,
        BillingPeriod::GiBSecond => "GiB-seconds"@,
        BillingPeriod::IOPS => "IOPS"@,
    }
}

impl BillingPeriod {
    /// The hours in a billing month, 730.
    pub fn hours_per_month() -> (d: Decimal)
        ensures
            d.wf(),
            d.mantissa == 730,
            d.scale == 0,
    {
        Decimal::from_u32(730)
    }

    /// The name printed for this unit (its `Display`).
    pub fn label(&self) -> (s: &'static str)
        ensures
            s@ == period_label(*self),
    {
        match self {
            BillingPeriod::Second => "seconds",
            BillingPeriod::Hour => "hours",
            BillingPeriod::Month => "months",
            BillingPeriod::Year => "years",
            BillingPeriod::GBMonth => "GB/month",
            BillingPeriod::Request => "requests",
            BillingPeriod::GBSecond => "GB-seconds",
            BillingPeriod::GiBSecond => "GiB-seconds",
            BillingPeriod::IOPS => "IOPS",
        }
    }
}

} // verus!
