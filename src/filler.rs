use vstd::prelude::*;
use crate::decimal::{decimal_string, decimal_text};

verus! {

/// Millionths in one whole unit: every amount, rate and bound is a count of
/// millionths, so `UNIT` stands for `1.0`.
pub const UNIT: i64 = 1_000_000;

/// `x` can be held by an `i64`.
pub open spec fn fits(x: int) -> bool {
    i64::MIN <= x <= i64::MAX
}

/// A bounded accumulator: a current `amount`, a signed per-tick `rate` and a
/// nominal upper `bound`.
///
/// Advancing keeps the amount inside `[0, bound]` when it starts there, but
/// nothing stops `bound` from being set below the amount: that transient
/// overflow is how overcrowding shows.
#[derive(Clone, Copy, Debug, PartialEq, Eq, Structural)]
pub struct Filler {
    pub amount: i64,
    pub rate: i64,
    pub bound: i64,
}

impl Filler {
    /// The amount lies in `[0, bound]`.
    pub open spec fn in_bounds(self) -> bool {
        0 <= self.amount <= self.bound
    }

    /// Already at the bound and still rising, or already at zero and still
    /// falling: a tick leaves the value as it is.
    pub open spec fn saturated(self) -> bool {
        (self.amount >= self.bound && self.rate > 0) || (self.amount <= 0 && self.rate < 0)
    }

    /// The value after one tick: the rate is added, and the result is held
    /// at the bound when rising past it, or at zero when falling below it.
    pub open spec fn advanced(self) -> Filler {
        if self.saturated() {
            self
        } else {
            let t = self.amount + self.rate;
            let a = if t > self.bound && self.rate > 0 {
                self.bound as int
            } else if t < 0 && self.rate < 0 {
                0
            } else {
                t
            };
            Filler { amount: a as i64, rate: self.rate, bound: self.bound }
        }
    }

    /// How far the amount stands above the bound, or zero.
    pub open spec fn over_bound(self) -> int {
        if self.amount > self.bound {
            self.amount - self.bound
        } else {
            0
        }
    }

    /// Depositing `v`: it succeeds when `v` fits under the bound, and fails
    /// with the room that is left otherwise.
    pub open spec fn deposited(self, v: i64) -> Result<Filler, i64> {
        if v <= self.bound - self.amount {
            Ok(Filler { amount: (self.amount + v) as i64, rate: self.rate, bound: self.bound })
        } else {
            Err((self.bound - self.amount) as i64)
        }
    }

    /// Withdrawing `v`: it succeeds when the amount covers `v`, and fails with
    /// the amount otherwise.
    pub open spec fn withdrawn(self, v: i64) -> Result<Filler, i64> {
        if self.amount >= v {
            Ok(Filler { amount: (self.amount - v) as i64, rate: self.rate, bound: self.bound })
        } else {
            Err(self.amount)
        }
    }

    /// The amount over the bound, each with two decimals: `"3.25/10.00"`.
    pub open spec fn view_text(self) -> Seq<char> {
        decimal_text(self.amount as int) + "/"@ + decimal_text(self.bound as int)
    }

    pub fn new(amount: i64, rate: i64, bound: i64) -> (r: Filler)
        ensures
            r.amount == amount,
            r.rate == rate,
            r.bound == bound,
    {
        Filler { amount, rate, bound }
    }

    pub fn is_empty(&self) -> (r: bool)
        ensures
            r == (self.amount == 0),
    {
        self.amount == 0
    }

    pub fn amount(&self) -> (r: i64)
        ensures
            r == self.amount,
    {
        self.amount
    }

    pub fn max(&self) -> (r: i64)
        ensures
            r == self.bound,
    {
        self.bound
    }

    pub fn rate(&self) -> (r: i64)
        ensures
            r == self.rate,
    {
        self.rate
    }

    /// The amount over the bound, each with two decimals.
    pub fn text(&self) -> (r: String)
        ensures
            r@ == self.view_text(),
    {
        let mut out = decimal_string(self.amount);
        out.append("/");
        let bound = decimal_string(self.bound);
        out.append(bound.as_str());
        out
    }

    /// The amount above the bound, or zero when there is none.
    pub fn over_max(&self) -> (r: i64)
        requires
            self.amount - self.bound <= i64::MAX,
        ensures
            r == self.over_bound(),
            r == 0 <==> self.amount <= self.bound,
            self.amount > self.bound ==> r == self.amount - self.bound,
    {
        if self.amount > self.bound {
            self.amount - self.bound
        } else {
            0
        }
    }

    /// One tick of motion: see [`Filler::advanced`].
    pub fn fill(&self) -> (r: Filler)
        ensures
            r == self.advanced(),
            r.rate == self.rate,
            r.bound == self.bound,
            self.in_bounds() ==> r.in_bounds(),
    {
        if (self.amount >= self.bound && self.rate > 0) || (self.amount <= 0 && self.rate < 0) {
            *self
        } else {
            // widened: the sum may leave i64, but the amount kept never does
            let t: i128 = self.amount as i128 + self.rate as i128;
            let a: i64 = if t > self.bound as i128 && self.rate > 0 {
                self.bound
            } else if t < 0 && self.rate < 0 {
                0
            } else {
                t as i64
            };
            Filler { amount: a, ..*self }
        }
    }

    pub fn set(&self, v: i64) -> (r: Filler)
        ensures
            r == (Filler { amount: v, rate: self.rate, bound: self.bound }),
    {
        Filler { amount: v, ..*self }
    }

    pub fn set_rate(&self, v: i64) -> (r: Filler)
        ensures
            r == (Filler { amount: self.amount, rate: v, bound: self.bound }),
    {
        Filler { rate: v, ..*self }
    }

    pub fn set_max(&self, v: i64) -> (r: Filler)
        ensures
            r == (Filler { amount: self.amount, rate: self.rate, bound: v }),
    {
        Filler { bound: v, ..*self }
    }

    /// Adds `v` to the amount whatever the bound.
    pub fn force_add(&self, v: i64) -> (r: Filler)
        requires
            fits(self.amount + v),
        ensures
            r == (Filler { amount: (self.amount + v) as i64, rate: self.rate, bound: self.bound }),
    {
        Filler { amount: self.amount + v, ..*self }
    }

    /// Adds `v` when it fits under the bound; otherwise reports the room left.
    pub fn add(&self, v: i64) -> (r: Result<Filler, i64>)
        requires
            fits(self.bound - self.amount),
            self.amount + v >= i64::MIN,
        ensures
            r == self.deposited(v),
            r is Ok <==> v <= self.bound - self.amount,
            r is Ok ==> r->Ok_0.amount == self.amount + v,
            r is Err ==> r->Err_0 == self.bound - self.amount,
    {
        let room = self.bound - self.amount;
        if v <= room {
            Ok(Filler { amount: self.amount + v, ..*self })
        } else {
            Err(room)
        }
    }

    /// Raises the bound by `v`.
    pub fn add_max(&self, v: i64) -> (r: Filler)
        requires
            fits(self.bound + v),
        ensures
            r == (Filler { amount: self.amount, rate: self.rate, bound: (self.bound + v) as i64 }),
    {
        Filler { bound: self.bound + v, ..*self }
    }

    /// Subtracts `v` from the amount, even below zero.
    pub fn force_take(&self, v: i64) -> (r: Filler)
        requires
            fits(self.amount - v),
        ensures
            r == (Filler { amount: (self.amount - v) as i64, rate: self.rate, bound: self.bound }),
    {
        Filler { amount: self.amount - v, ..*self }
    }

    /// Subtracts `v` when the amount covers it; otherwise reports the amount.
    pub fn take(&self, v: i64) -> (r: Result<Filler, i64>)
        requires
            self.amount - v <= i64::MAX,
        ensures
            r == self.withdrawn(v),
            r is Ok <==> self.amount >= v,
            r is Ok ==> r->Ok_0.amount == self.amount - v,
            r is Err ==> r->Err_0 == self.amount,
    {
        if self.amount >= v {
            Ok(Filler { amount: self.amount - v, ..*self })
        } else {
            Err(self.amount)
        }
    }
}

/// A tick never moves an amount that lies in `[0, bound]` out of it.
pub proof fn lemma_advance_stays_in_bounds(s: Filler)
    requires
        s.in_bounds(),
    ensures
        s.advanced().in_bounds(),
        s.advanced().bound == s.bound,
{
}

/// The amount over the bound is zero exactly when the amount does not pass
/// the bound, and is otherwise the excess.
pub proof fn lemma_over_bound(s: Filler)
    ensures
        s.over_bound() == 0 <==> s.amount <= s.bound,
        s.amount > s.bound ==> s.over_bound() == s.amount - s.bound && s.over_bound() > 0,
{
}

/// A successful deposit of `v` is undone by a withdrawal of `v`, and a
/// successful withdrawal of `v` is undone by a deposit of `v`, for any
/// accumulator whose amount lies in `[0, bound]`.
pub proof fn lemma_deposit_withdraw_inverse(s: Filler, v: i64)
    requires
        s.in_bounds(),
    ensures
        s.deposited(v) is Ok ==> s.deposited(v)->Ok_0.withdrawn(v) == Ok::<Filler, i64>(s),
        s.withdrawn(v) is Ok && fits(s.amount - v) ==> s.withdrawn(v)->Ok_0.deposited(v) == Ok::<Filler, i64>(s),
{
}

} // verus!
