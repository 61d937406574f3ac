//! One configured call rule: an argument matcher, a call counter, an
//! optional sequence handle and a return strategy.  A call against an
//! expectation runs, in order: matcher verification, call counting, sequence
//! verification and satisfaction, return production — each step fatal (an
//! error value) on violation.

use vstd::prelude::*;
use crate::error::MockError;
use crate::matcher::FnMatcher;
use crate::matcher::Matches;
use crate::rfunc::OnceFn;
use crate::rfunc::OnceFnSt;
use crate::rfunc::RetFn;
use crate::rfunc::RetFnSt;
use crate::rfunc::Rfunc;
use crate::sequence::SeqHandle;
use crate::sequence::Sequence;
use crate::times::Times;

verus! {

/// One configured rule for a mocked method with argument value `A`, return
/// value `R` and matcher `M`.
///
/// An expectation is configured by value — `Expectation::new()` followed by
/// the builder methods — and then registered with its set.
#[verifier::reject_recursive_types(A)]
#[verifier::reject_recursive_types(R)]
pub struct Expectation<A, R, M: Matches<A>> {
    /// Which argument values this rule accepts.
    pub matcher: M,
    /// How often this rule may and must be called.
    pub times: Times,
    /// Position in a [`Sequence`], when cross-method ordering is required.
    pub seq_handle: Option<SeqHandle>,
    /// How the return value is produced.
    pub rfunc: Rfunc<A, R>,
}

impl<A, R, M: Matches<A>> Expectation<A, R, M> {
    /// This rule accepts the argument value `a`.
    pub open spec fn accepts(self, a: A) -> bool {
        self.matcher.accepts(a)
    }

    /// No further call is allowed by the counter.
    pub open spec fn spec_is_done(self) -> bool {
        self.times.spec_is_done()
    }

    /// The expectation and sequence after one call attempt with arguments
    /// `a` and outcome `r`: matcher mismatch and counter overflow change
    /// nothing; otherwise the counter is incremented, then an ordering
    /// violation stops the call before the sequence is satisfied or the
    /// return strategy is stepped.  Only the return strategy's step looks at
    /// the outcome (a thread-confined single-use closure refused on a
    /// foreign thread is kept).
    pub open spec fn spec_next(self, seq: Sequence, a: A, r: Result<R, MockError>) -> (
        Expectation<A, R, M>,
        Sequence,
    ) {
        if !self.matcher.accepts(a) {
            (self, seq)
        } else if self.times.spec_is_done() {
            (self, seq)
        } else {
            let counted = Expectation { times: self.times.spec_inc(), ..self };
            let stepped = Expectation { rfunc: self.rfunc.spec_after(r), ..counted };
            match self.seq_handle {
                Option::None => (stepped, seq),
                Option::Some(h) => if !seq.spec_ready(h) {
                    (counted, seq)
                } else {
                    let s2 = if counted.times.spec_is_satisfied() {
                        seq.spec_satisfy(h)
                    } else {
                        seq
                    };
                    (stepped, s2)
                },
            }
        }
    }

    /// The sequence after one call attempt; it does not depend on the
    /// call's outcome.
    pub open spec fn spec_next_seq(self, seq: Sequence, a: A) -> Sequence {
        self.spec_next(seq, a, Err::<R, MockError>(MockError::NoReturnValue)).1
    }

    /// Which outcomes one call attempt with arguments `a` may have, given
    /// the sequence state `seq` at the moment of the call.
    pub open spec fn spec_result(self, seq: Sequence, a: A, r: Result<R, MockError>) -> bool {
        if !self.matcher.accepts(a) {
            match r {
                Err(MockError::ArgumentMismatch(k)) => self.matcher.fails_at(a, k),
                _ => false,
            }
        } else if self.times.spec_is_done() {
            r == Err::<R, MockError>(MockError::TooManyCalls)
        } else {
            match self.seq_handle {
                Option::Some(h) => if !seq.spec_ready(h) {
                    r == Err::<R, MockError>(MockError::SequenceViolation)
                } else {
                    self.rfunc.spec_outcome(a, r)
                },
                Option::None => self.rfunc.spec_outcome(a, r),
            }
        }
    }

    /// Which outcomes one call attempt with arguments `a` may have when the
    /// return type supports a default value: an expectation with no
    /// configured return production produces that default.
    pub open spec fn spec_result_with_default(
        self,
        seq: Sequence,
        a: A,
        r: Result<R, MockError>,
    ) -> bool where R: Default {
        if !self.matcher.accepts(a) {
            match r {
                Err(MockError::ArgumentMismatch(k)) => self.matcher.fails_at(a, k),
                _ => false,
            }
        } else if self.times.spec_is_done() {
            r == Err::<R, MockError>(MockError::TooManyCalls)
        } else {
            match self.seq_handle {
                Option::Some(h) => if !seq.spec_ready(h) {
                    r == Err::<R, MockError>(MockError::SequenceViolation)
                } else {
                    self.rfunc.spec_outcome_with_default(a, r)
                },
                Option::None => self.rfunc.spec_outcome_with_default(a, r),
            }
        }
    }

    /// A fresh rule: accepts every argument, allows any number of calls, is
    /// in no sequence and has no return production configured.
    pub fn new() -> (e: Self)
        ensures
            forall|a: A| e.accepts(a),
            e.times == (Times { lower: 0, upper: usize::MAX, count: 0 }),
            e.seq_handle is None,
            e.rfunc is Default,
    {
        Expectation {
            matcher: M::accept_all(),
            times: Times::new(),
            seq_handle: None,
            rfunc: Rfunc::Default,
        }
    }

    /// This rule accepts the argument value `a`.
    pub fn matches(&self, a: &A) -> (r: bool)
        ensures
            r == self.accepts(*a),
    {
        self.matcher.matches(a)
    }

    /// No further call is allowed by the counter.
    pub fn is_done(&self) -> (r: bool)
        ensures
            r == self.spec_is_done(),
    {
        self.times.is_done()
    }

    /// Replace the argument matcher.
    pub fn with(self, m: M) -> (e: Self)
        ensures
            e == (Expectation { matcher: m, ..self }),
    {
        Expectation { matcher: m, ..self }
    }

    /// Require this rule to be called exactly `n` times.
    pub fn times(self, n: usize) -> (e: Self)
        ensures
            e == (Expectation { times: Times { lower: n, upper: n, count: self.times.count }, ..self }),
    {
        let mut t = self.times;
        t.exact(n);
        Expectation { times: t, ..self }
    }

    /// Allow this rule to be called any number of times.
    pub fn times_any(self) -> (e: Self)
        ensures
            e == (Expectation {
                times: Times { lower: 0, upper: usize::MAX, count: self.times.count },
                ..self
            }),
    {
        let mut t = self.times;
        t.any();
        Expectation { times: t, ..self }
    }

    /// Allow a number of calls in the half-open interval `[start, end)`.
    pub fn times_range(self, start: usize, end: usize) -> (e: Self)
        requires
            start < end,
        ensures
            e == (Expectation {
                times: Times { lower: start, upper: (end - 1) as usize, count: self.times.count },
                ..self
            }),
    {
        let mut t = self.times;
        t.range(start, end);
        Expectation { times: t, ..self }
    }

    /// Require this rule to be called exactly once.
    pub fn once(self) -> (e: Self)
        ensures
            e == (Expectation { times: Times { lower: 1, upper: 1, count: self.times.count }, ..self }),
    {
        self.times(1)
    }

    /// Forbid this rule from ever being called.
    pub fn never(self) -> (e: Self)
        ensures
            e == (Expectation { times: Times { lower: 0, upper: 0, count: self.times.count }, ..self }),
    {
        let mut t = self.times;
        t.never();
        Expectation { times: t, ..self }
    }

    /// Join the sequence `seq`: take the next handle.  Only rules with an
    /// exact call count can join a sequence, since ordering is meaningful
    /// only for a call that happens at a known position.
    pub fn in_sequence(self, seq: &mut Sequence) -> (e: Self)
        requires
            self.times.spec_is_exact(),
            old(seq).next_index < usize::MAX,
        ensures
            e == (Expectation {
                seq_handle: Some(SeqHandle { index: old(seq).next_index }),
                ..self
            }),
            *final(seq) == (Sequence {
                next_index: (old(seq).next_index + 1) as usize,
                ..*old(seq)
            }),
    {
        let h = seq.next();
        Expectation { seq_handle: Some(h), ..self }
    }

    /// Produce the return value by calling `f` on every matched call.  `f`
    /// must be callable on every argument value, since dispatch may invoke
    /// it on any matched call.
    pub fn returning<F: Fn(A) -> R + Send + 'static>(self, f: F) -> (e: Self)
        requires
            forall|a: A| call_requires(f, (a,)),
        ensures
            e.matcher == self.matcher,
            e.times == self.times,
            e.seq_handle == self.seq_handle,
            match e.rfunc {
                Rfunc::Mut(h) => h.spec_post() == (|a: A, r: R| call_ensures(f, (a,), r)),
                _ => false,
            },
    {
        Expectation { rfunc: Rfunc::Mut(RetFn::new(f)), ..self }
    }

    /// Thread-confined form of [`Expectation::returning`]: calling the rule
    /// from a thread other than the one that stored `f` is an error.
    pub fn returning_st<F: Fn(A) -> R + 'static>(self, f: F) -> (e: Self)
        requires
            forall|a: A| call_requires(f, (a,)),
        ensures
            e.matcher == self.matcher,
            e.times == self.times,
            e.seq_handle == self.seq_handle,
            match e.rfunc {
                Rfunc::MutSt(h) => h.spec_post() == (|a: A, r: R| call_ensures(f, (a,), r)),
                _ => false,
            },
    {
        Expectation { rfunc: Rfunc::MutSt(RetFnSt::new(f)), ..self }
    }

    /// Produce the return value by calling `f` at most once; a second
    /// matched call is an error.  `f` must be callable on every argument
    /// value.
    pub fn return_once<F: FnOnce(A) -> R + Send + 'static>(self, f: F) -> (e: Self)
        requires
            forall|a: A| call_requires(f, (a,)),
        ensures
            e.matcher == self.matcher,
            e.times == self.times,
            e.seq_handle == self.seq_handle,
            match e.rfunc {
                Rfunc::Once(h) => h.spec_post() == (|a: A, r: R| call_ensures(f, (a,), r)),
                _ => false,
            },
    {
        Expectation { rfunc: Rfunc::Once(OnceFn::new(f)), ..self }
    }

    /// Thread-confined form of [`Expectation::return_once`].
    pub fn return_once_st<F: FnOnce(A) -> R + 'static>(self, f: F) -> (e: Self)
        requires
            forall|a: A| call_requires(f, (a,)),
        ensures
            e.matcher == self.matcher,
            e.times == self.times,
            e.seq_handle == self.seq_handle,
            match e.rfunc {
                Rfunc::OnceSt(h) => h.spec_post() == (|a: A, r: R| call_ensures(f, (a,), r)),
                _ => false,
            },
    {
        Expectation { rfunc: Rfunc::OnceSt(OnceFnSt::new(f)), ..self }
    }

    /// Return a clone of `c` on every matched call.  (What a clone of `c`
    /// is, is only as specified as `R::clone` itself.)
    pub fn return_const(self, c: R) -> (e: Self) where A: 'static, R: Clone + Send + 'static
        ensures
            e.matcher == self.matcher,
            e.times == self.times,
            e.seq_handle == self.seq_handle,
            match e.rfunc {
                Rfunc::Mut(h) => h.spec_post() == (
                |a: A, r: R| vstd::pervasive::cloned::<R>(c, r)
                ),
                _ => false,
            },
    {
        Expectation { rfunc: Rfunc::Mut(RetFn::new_const(c)), ..self }
    }

    /// One call attempt against this rule, checking ordering against `seq`,
    /// which must be the sequence this rule's handle came from.
    pub fn call_in_seq(&mut self, seq: &mut Sequence, args: A) -> (r: Result<R, MockError>)
        ensures
            ({
                let (e2, s2) = old(self).spec_next(*old(seq), args, r);
                *final(self) == e2 && *final(seq) == s2
            }),
            old(self).spec_result(*old(seq), args, r),
    {
        match self.matcher.verify(&args) {
            Err(k) => {
                return Err(MockError::ArgumentMismatch(k));
            },
            Ok(()) => {},
        }
        if !self.times.call() {
            return Err(MockError::TooManyCalls);
        }
        match self.seq_handle {
            Some(h) => {
                if !seq.ready(&h) {
                    return Err(MockError::SequenceViolation);
                }
                if self.times.is_satisfied() {
                    seq.satisfy(&h);
                }
            },
            None => {},
        }
        self.rfunc.produce(args)
    }

    /// One call attempt against this rule, for mocked methods whose return
    /// type has a default value: with no return production configured, the
    /// call produces that default.
    pub fn call_in_seq_with_default(&mut self, seq: &mut Sequence, args: A) -> (r: Result<
        R,
        MockError,
    >) where R: Default
        ensures
            ({
                let (e2, s2) = old(self).spec_next(*old(seq), args, r);
                *final(self) == e2 && *final(seq) == s2
            }),
            old(self).spec_result_with_default(*old(seq), args, r),
    {
        match self.matcher.verify(&args) {
            Err(k) => {
                return Err(MockError::ArgumentMismatch(k));
            },
            Ok(()) => {},
        }
        if !self.times.call() {
            return Err(MockError::TooManyCalls);
        }
        match self.seq_handle {
            Some(h) => {
                if !seq.ready(&h) {
                    return Err(MockError::SequenceViolation);
                }
                if self.times.is_satisfied() {
                    seq.satisfy(&h);
                }
            },
            None => {},
        }
        self.rfunc.produce_with_default(args)
    }

    /// One call attempt, producing the return type's default when no return
    /// production is configured, for rules outside any sequence.
    pub fn call_with_default(&mut self, args: A) -> (r: Result<R, MockError>) where R: Default
        requires
            old(self).seq_handle is None,
        ensures
            *final(self) == old(self).spec_next(Sequence::origin(), args, r).0,
            old(self).spec_result_with_default(Sequence::origin(), args, r),
    {
        let mut scratch = Sequence::new();
        self.call_in_seq_with_default(&mut scratch, args)
    }

    /// One call attempt against this rule, for rules outside any sequence.
    pub fn call(&mut self, args: A) -> (r: Result<R, MockError>)
        requires
            old(self).seq_handle is None,
        ensures
            *final(self) == old(self).spec_next(Sequence::origin(), args, r).0,
            old(self).spec_result(Sequence::origin(), args, r),
    {
        let mut scratch = Sequence::new();
        self.call_in_seq(&mut scratch, args)
    }
}

impl<A, R> Expectation<A, R, FnMatcher<A>> {
    /// Replace the matcher with a whole-tuple predicate function over the
    /// call's argument value.  The closure must be callable on every
    /// argument value and decide one fixed boolean per argument value,
    /// since dispatch evaluates it on any call, repeatedly.
    pub fn withf<F: Fn(&A) -> bool + Send + 'static>(self, f: F) -> (e: Self)
        requires
            forall|a: A| call_requires(f, (&a,)),
            forall|a: A, b1: bool, b2: bool|
                call_ensures(f, (&a,), b1) && call_ensures(f, (&a,), b2) ==> b1 == b2,
        ensures
            e.times == self.times,
            e.seq_handle == self.seq_handle,
            e.rfunc == self.rfunc,
            forall|a: A, b: bool| call_ensures(f, (&a,), b) ==> b == (e.matcher.spec_pred())(a),
    {
        Expectation { matcher: FnMatcher::new(f), ..self }
    }
}

/// A single-use return permits exactly one successful call: the first
/// matched call produces a value and expires the strategy, and a second
/// call on the same expectation fails as a twice-called single-use return —
/// even though the call counter would still allow it.
pub proof fn law_return_once_single_use<A, R, M: Matches<A>>(
    e: Expectation<A, R, M>,
    a1: A,
    a2: A,
    r1: Result<R, MockError>,
)
    requires
        e.rfunc is Once,
        e.seq_handle is None,
        e.accepts(a1),
        e.accepts(a2),
        !e.times.spec_is_done(),
        !e.times.spec_inc().spec_is_done(),
        e.spec_result(Sequence::origin(), a1, r1),
    ensures
        r1 is Ok,
        ({
            let e2 = e.spec_next(Sequence::origin(), a1, r1).0;
            &&& e2.rfunc is Expired
            &&& forall|r2: Result<R, MockError>|
                e2.spec_result(Sequence::origin(), a2, r2) ==> r2 == Err::<R, MockError>(
                    MockError::OnceExhausted,
                )
        }),
{
}

/// Strict sequence ordering: of two expectations holding consecutive
/// handles of one sequence, invoking the later-registered one first is an
/// ordering violation, while invoking them in registration order lets both
/// calls through.
pub proof fn law_sequence_order<A, R, M: Matches<A>>(
    e1: Expectation<A, R, M>,
    e2: Expectation<A, R, M>,
    s: Sequence,
    a1: A,
    a2: A,
    i: usize,
)
    requires
        i < usize::MAX,
        e1.seq_handle == Some(SeqHandle { index: i }),
        e2.seq_handle == Some(SeqHandle { index: (i + 1) as usize }),
        s.level == i,
        e1.times == (Times { lower: 1, upper: 1, count: 0 }),
        e2.times == (Times { lower: 1, upper: 1, count: 0 }),
        e1.accepts(a1),
        e2.accepts(a2),
        e1.rfunc is Mut,
        e2.rfunc is Mut,
    ensures
        forall|r: Result<R, MockError>|
            e2.spec_result(s, a2, r) ==> r == Err::<R, MockError>(MockError::SequenceViolation),
        ({
            let s1 = e1.spec_next_seq(s, a1);
            &&& s1.level == i + 1
            &&& forall|r: Result<R, MockError>| e1.spec_result(s, a1, r) ==> r is Ok
            &&& forall|r: Result<R, MockError>| e2.spec_result(s1, a2, r) ==> r is Ok
        }),
{
}

} // verus!
