//! Scoped configuration of the most recently registered expectation.  A
//! mocked static or free function has no per-instance field to hold its
//! expectation set; registration there hands out a guard that keeps
//! exclusive access to the set and proxies the configuration methods to the
//! expectation it just created.

use vstd::prelude::*;
use crate::expectation::Expectation;
use crate::matcher::FnMatcher;
use crate::matcher::Matches;
use crate::rfunc::Rfunc;
use crate::sequence::SeqHandle;
use crate::sequence::Sequence;
use crate::set::Expectations;
use crate::times::Times;

verus! {

/// Exclusive access to an expectation set, positioned on one expectation —
/// the one [`ExpectationGuard::new`] registered.
#[verifier::reject_recursive_types(A)]
#[verifier::reject_recursive_types(R)]
pub struct ExpectationGuard<'a, A, R, M: Matches<A>> {
    /// The borrowed set.
    pub set: &'a mut Expectations<A, R, M>,
    /// Position of the expectation under configuration.
    pub i: usize,
}

impl<'a, A, R, M: Matches<A>> ExpectationGuard<'a, A, R, M> {
    /// The guarded position lies within the guarded set.
    pub open spec fn in_range(self) -> bool {
        self.i < self.set.v@.len()
    }

    /// The expectation under configuration.
    pub open spec fn entry(self) -> Expectation<A, R, M> {
        self.set.v@[self.i as int]
    }

    /// Everything but the expectation under configuration is as it was.
    pub open spec fn frame(self, o: Self) -> bool {
        &&& self.i == o.i
        &&& self.set.v@.len() == o.set.v@.len()
        &&& forall|j: int| 0 <= j < o.set.v@.len() && j != o.i ==> self.set.v@[j] == o.set.v@[j]
    }

    /// Register a fresh expectation with the borrowed set and position the
    /// guard on it.
    pub fn new(set: &'a mut Expectations<A, R, M>) -> (g: Self)
        requires
            old(set).v@.len() < usize::MAX,
        ensures
            g.in_range(),
            g.i == old(set).v@.len(),
            g.set.v@.len() == old(set).v@.len() + 1,
            forall|j: int| 0 <= j < old(set).v@.len() ==> g.set.v@[j] == old(set).v@[j],
            forall|a: A| g.entry().accepts(a),
            g.entry().times == (Times { lower: 0, upper: usize::MAX, count: 0 }),
            g.entry().seq_handle is None,
            g.entry().rfunc is Default,
            *final(set) == *final(g.set),
    {
        let i = set.expect(Expectation::new());
        ExpectationGuard { set, i }
    }

    /// Require the guarded expectation to be called exactly `n` times.
    pub fn times(&mut self, n: usize)
        requires
            old(self).in_range(),
        ensures
            final(self).in_range(),
            final(self).frame(*old(self)),
            final(self).entry() == (Expectation {
                times: Times { lower: n, upper: n, count: old(self).entry().times.count },
                ..old(self).entry()
            }),
    {
        let e = self.set.v.remove(self.i);
        self.set.v.insert(self.i, e.times(n));
    }

    /// Allow the guarded expectation to be called any number of times.
    pub fn times_any(&mut self)
        requires
            old(self).in_range(),
        ensures
            final(self).in_range(),
            final(self).frame(*old(self)),
            final(self).entry() == (Expectation {
                times: Times { lower: 0, upper: usize::MAX, count: old(self).entry().times.count },
                ..old(self).entry()
            }),
    {
        let e = self.set.v.remove(self.i);
        self.set.v.insert(self.i, e.times_any());
    }

    /// Allow a number of calls in the half-open interval `[start, end)`.
    pub fn times_range(&mut self, start: usize, end: usize)
        requires
            old(self).in_range(),
            start < end,
        ensures
            final(self).in_range(),
            final(self).frame(*old(self)),
            final(self).entry() == (Expectation {
                times: Times {
                    lower: start,
                    upper: (end - 1) as usize,
                    count: old(self).entry().times.count,
                },
                ..old(self).entry()
            }),
    {
        let e = self.set.v.remove(self.i);
        self.set.v.insert(self.i, e.times_range(start, end));
    }

    /// Require the guarded expectation to be called exactly once.
    pub fn once(&mut self)
        requires
            old(self).in_range(),
        ensures
            final(self).in_range(),
            final(self).frame(*old(self)),
            final(self).entry() == (Expectation {
                times: Times { lower: 1, upper: 1, count: old(self).entry().times.count },
                ..old(self).entry()
            }),
    {
        self.times(1);
    }

    /// Forbid the guarded expectation from ever being called.
    pub fn never(&mut self)
        requires
            old(self).in_range(),
        ensures
            final(self).in_range(),
            final(self).frame(*old(self)),
            final(self).entry() == (Expectation {
                times: Times { lower: 0, upper: 0, count: old(self).entry().times.count },
                ..old(self).entry()
            }),
    {
        let e = self.set.v.remove(self.i);
        self.set.v.insert(self.i, e.never());
    }

    /// Replace the guarded expectation's argument matcher.
    pub fn with(&mut self, m: M)
        requires
            old(self).in_range(),
        ensures
            final(self).in_range(),
            final(self).frame(*old(self)),
            final(self).entry() == (Expectation { matcher: m, ..old(self).entry() }),
    {
        let e = self.set.v.remove(self.i);
        self.set.v.insert(self.i, e.with(m));
    }

    /// Put the guarded expectation into the sequence `seq`.
    pub fn in_sequence(&mut self, seq: &mut Sequence)
        requires
            old(self).in_range(),
            old(self).entry().times.spec_is_exact(),
            old(seq).next_index < usize::MAX,
        ensures
            final(self).in_range(),
            final(self).frame(*old(self)),
            final(self).entry() == (Expectation {
                seq_handle: Some(SeqHandle { index: old(seq).next_index }),
                ..old(self).entry()
            }),
            *final(seq) == (Sequence {
                next_index: (old(seq).next_index + 1) as usize,
                ..*old(seq)
            }),
    {
        let e = self.set.v.remove(self.i);
        self.set.v.insert(self.i, e.in_sequence(seq));
    }

    /// Produce the guarded expectation's return value by calling `f` on
    /// every matched call.
    pub fn returning<F: Fn(A) -> R + Send + 'static>(&mut self, f: F)
        requires
            old(self).in_range(),
            forall|a: A| call_requires(f, (a,)),
        ensures
            final(self).in_range(),
            final(self).frame(*old(self)),
            final(self).entry().matcher == old(self).entry().matcher,
            final(self).entry().times == old(self).entry().times,
            final(self).entry().seq_handle == old(self).entry().seq_handle,
            match final(self).entry().rfunc {
                Rfunc::Mut(h) => h.spec_post() == (|a: A, r: R| call_ensures(f, (a,), r)),
                _ => false,
            },
    {
        let e = self.set.v.remove(self.i);
        self.set.v.insert(self.i, e.returning(f));
    }

    /// Thread-confined form of [`ExpectationGuard::returning`].
    pub fn returning_st<F: Fn(A) -> R + 'static>(&mut self, f: F)
        requires
            old(self).in_range(),
            forall|a: A| call_requires(f, (a,)),
        ensures
            final(self).in_range(),
            final(self).frame(*old(self)),
            final(self).entry().matcher == old(self).entry().matcher,
            final(self).entry().times == old(self).entry().times,
            final(self).entry().seq_handle == old(self).entry().seq_handle,
            match final(self).entry().rfunc {
                Rfunc::MutSt(h) => h.spec_post() == (|a: A, r: R| call_ensures(f, (a,), r)),
                _ => false,
            },
    {
        let e = self.set.v.remove(self.i);
        self.set.v.insert(self.i, e.returning_st(f));
    }

    /// Produce the guarded expectation's return value by calling `f` at most
    /// once.
    pub fn return_once<F: FnOnce(A) -> R + Send + 'static>(&mut self, f: F)
        requires
            old(self).in_range(),
            forall|a: A| call_requires(f, (a,)),
        ensures
            final(self).in_range(),
            final(self).frame(*old(self)),
            final(self).entry().matcher == old(self).entry().matcher,
            final(self).entry().times == old(self).entry().times,
            final(self).entry().seq_handle == old(self).entry().seq_handle,
            match final(self).entry().rfunc {
                Rfunc::Once(h) => h.spec_post() == (|a: A, r: R| call_ensures(f, (a,), r)),
                _ => false,
            },
    {
        let e = self.set.v.remove(self.i);
        self.set.v.insert(self.i, e.return_once(f));
    }
}

impl<'a, A, R> ExpectationGuard<'a, A, R, FnMatcher<A>> {
    /// Replace the guarded expectation's matcher with a whole-tuple
    /// predicate function; see [`Expectation::withf`] for the closure's
    /// obligations.
    pub fn withf<F: Fn(&A) -> bool + Send + 'static>(&mut self, f: F)
        requires
            old(self).in_range(),
            forall|a: A| call_requires(f, (&a,)),
            forall|a: A, b1: bool, b2: bool|
                call_ensures(f, (&a,), b1) && call_ensures(f, (&a,), b2) ==> b1 == b2,
        ensures
            final(self).in_range(),
            final(self).frame(*old(self)),
            final(self).entry().times == old(self).entry().times,
            final(self).entry().seq_handle == old(self).entry().seq_handle,
            final(self).entry().rfunc == old(self).entry().rfunc,
            forall|a: A, b: bool|
                call_ensures(f, (&a,), b) ==> b == (final(self).entry().matcher.spec_pred())(a),
    {
        let e = self.set.v.remove(self.i);
        self.set.v.insert(self.i, e.withf(f));
    }
}

} // verus!
