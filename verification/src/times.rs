//! The call-count constraint of an expectation: a closed interval
//! `[lower, upper]` of allowed call counts together with the number of calls
//! dispatched so far.  `upper == usize::MAX` stands for "unbounded".

use vstd::prelude::*;

verus! {

/// How often an expectation may and must be called.
///
/// The counter is created as `[0, unbounded]`, reshaped by [`Times::exact`],
/// [`Times::any`], [`Times::range`] and [`Times::never`], and incremented by
/// [`Times::call`] on every dispatched call.  `count` only ever increases.
#[derive(Clone, Copy, Debug, PartialEq, Eq, Structural)]
pub struct Times {
    /// Least number of calls that satisfies the expectation.
    pub lower: usize,
    /// Greatest allowed number of calls, inclusive; `usize::MAX` is unbounded.
    pub upper: usize,
    /// Calls dispatched to the owning expectation so far.
    pub count: usize,
}

impl Times {
    /// The interval is well-formed.
    pub open spec fn wf(self) -> bool {
        self.lower <= self.upper
    }

    /// No further call is allowed.
    pub open spec fn spec_is_done(self) -> bool {
        self.count >= self.upper
    }

    /// The least required number of calls has been reached.
    pub open spec fn spec_is_satisfied(self) -> bool {
        self.count >= self.lower
    }

    /// The constraint admits exactly one call count.
    pub open spec fn spec_is_exact(self) -> bool {
        self.lower == self.upper
    }

    /// The counter after one successful call.
    pub open spec fn spec_inc(self) -> Times {
        Times { count: (self.count + 1) as usize, ..self }
    }

    /// A fresh, unconstrained counter: `[0, unbounded]`, no calls yet.
    pub fn new() -> (t: Times)
        ensures
            t == (Times { lower: 0, upper: usize::MAX, count: 0 }),
    {
        Times { lower: 0, upper: usize::MAX, count: 0 }
    }

    /// Require exactly `n` calls.
    pub fn exact(&mut self, n: usize)
        ensures
            *final(self) == (Times { lower: n, upper: n, count: old(self).count }),
    {
        self.lower = n;
        self.upper = n;
    }

    /// Allow any number of calls.
    pub fn any(&mut self)
        ensures
            *final(self) == (Times { lower: 0, upper: usize::MAX, count: old(self).count }),
    {
        self.lower = 0;
        self.upper = usize::MAX;
    }

    /// Allow a number of calls in the half-open interval `[start, end)`.
    pub fn range(&mut self, start: usize, end: usize)
        requires
            start < end,
        ensures
            *final(self) == (Times { lower: start, upper: (end - 1) as usize, count: old(self).count }),
    {
        self.lower = start;
        self.upper = end - 1;
    }

    /// Forbid every call.
    pub fn never(&mut self)
        ensures
            *final(self) == (Times { lower: 0, upper: 0, count: old(self).count }),
    {
        self.lower = 0;
        self.upper = 0;
    }

    /// Record one call: refused exactly when the upper bound is already
    /// reached, in which case the count is unchanged.
    pub fn call(&mut self) -> (ok: bool)
        ensures
            ok == !old(self).spec_is_done(),
            ok ==> *final(self) == old(self).spec_inc(),
            !ok ==> *final(self) == *old(self),
    {
        if self.count >= self.upper {
            false
        } else {
            self.count = self.count + 1;
            true
        }
    }

    /// No further call is allowed.
    pub fn is_done(&self) -> (r: bool)
        ensures
            r == self.spec_is_done(),
    {
        self.count >= self.upper
    }

    /// The least required number of calls has been reached.
    pub fn is_satisfied(&self) -> (r: bool)
        ensures
            r == self.spec_is_satisfied(),
    {
        self.count >= self.lower
    }

    /// The constraint admits exactly one call count.
    pub fn is_exact(&self) -> (r: bool)
        ensures
            r == self.spec_is_exact(),
    {
        self.lower == self.upper
    }
}

} // verus!
