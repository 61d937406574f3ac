//! Expectations for methods that return a reference.  The returned value
//! must outlive the call, so it is owned by the expectation itself: the
//! return strategy is restricted to a stored fixed value, set with
//! [`RefExpectation::return_const`], and callers receive a borrow anchored
//! to the expectation's own storage.

use vstd::prelude::*;
use crate::error::MockError;
use crate::matcher::Matches;
use crate::sequence::SeqHandle;
use crate::sequence::Sequence;
use crate::times::Times;

verus! {

/// One configured rule for a mocked method returning `&R`: an argument
/// matcher, a call counter, an optional sequence handle, and the owned
/// value that calls borrow.
#[verifier::reject_recursive_types(A)]
pub struct RefExpectation<A, R, M: Matches<A>> {
    /// Which argument values this rule accepts.
    pub matcher: M,
    /// How often this rule may and must be called.
    pub times: Times,
    /// Position in a [`Sequence`], when cross-method ordering is required.
    pub seq_handle: Option<SeqHandle>,
    /// The value handed out by reference, owned here so the borrow stays
    /// valid past the call.
    pub result: Option<R>,
    /// The argument value type.
    pub marker: core::marker::PhantomData<A>,
}

impl<A, R, M: Matches<A>> RefExpectation<A, R, M> {
    /// This rule accepts the argument value `a`.
    pub open spec fn accepts(self, a: A) -> bool {
        self.matcher.accepts(a)
    }

    /// No further call is allowed by the counter.
    pub open spec fn spec_is_done(self) -> bool {
        self.times.spec_is_done()
    }

    /// The expectation and sequence after one call attempt: exactly as for
    /// a value-returning expectation, except that the stored value is never
    /// consumed.
    pub open spec fn spec_next(self, seq: Sequence, a: A) -> (RefExpectation<A, R, M>, Sequence) {
        if !self.matcher.accepts(a) {
            (self, seq)
        } else if self.times.spec_is_done() {
            (self, seq)
        } else {
            let counted = RefExpectation { times: self.times.spec_inc(), ..self };
            match self.seq_handle {
                Option::None => (counted, seq),
                Option::Some(h) => if !seq.spec_ready(h) {
                    (counted, seq)
                } else {
                    let s2 = if counted.times.spec_is_satisfied() {
                        seq.spec_satisfy(h)
                    } else {
                        seq
                    };
                    (counted, s2)
                },
            }
        }
    }

    /// Which outcomes one call attempt may have, with the borrowed result
    /// written as the value it points at.
    pub open spec fn spec_outcome(self, seq: Sequence, a: A, out: Result<R, MockError>) -> bool {
        if !self.matcher.accepts(a) {
            match out {
                Err(MockError::ArgumentMismatch(k)) => self.matcher.fails_at(a, k),
                _ => false,
            }
        } else if self.times.spec_is_done() {
            out == Err::<R, MockError>(MockError::TooManyCalls)
        } else {
            let in_order = match self.seq_handle {
                Option::Some(h) => seq.spec_ready(h),
                Option::None => true,
            };
            if !in_order {
                out == Err::<R, MockError>(MockError::SequenceViolation)
            } else {
                match self.result {
                    Option::Some(v) => out == Ok::<R, MockError>(v),
                    Option::None => out == Err::<R, MockError>(MockError::NoReturnValue),
                }
            }
        }
    }

    /// A fresh rule: accepts every argument, allows any number of calls, is
    /// in no sequence and owns no value yet.
    pub fn new() -> (e: Self)
        ensures
            forall|a: A| e.accepts(a),
            e.times == (Times { lower: 0, upper: usize::MAX, count: 0 }),
            e.seq_handle is None,
            e.result is None,
    {
        RefExpectation {
            matcher: M::accept_all(),
            times: Times::new(),
            seq_handle: None,
            result: None,
            marker: core::marker::PhantomData,
        }
    }

    /// This rule accepts the argument value `a`.
    pub fn matches(&self, a: &A) -> (r: bool)
        ensures
            r == self.accepts(*a),
    {
        self.matcher.matches(a)
    }

    /// No further call is allowed by the counter.
    pub fn is_done(&self) -> (r: bool)
        ensures
            r == self.spec_is_done(),
    {
        self.times.is_done()
    }

    /// Replace the argument matcher.
    pub fn with(self, m: M) -> (e: Self)
        ensures
            e == (RefExpectation { matcher: m, ..self }),
    {
        RefExpectation { matcher: m, ..self }
    }

    /// Require this rule to be called exactly `n` times.
    pub fn times(self, n: usize) -> (e: Self)
        ensures
            e == (RefExpectation {
                times: Times { lower: n, upper: n, count: self.times.count },
                ..self
            }),
    {
        let mut t = self.times;
        t.exact(n);
        RefExpectation { times: t, ..self }
    }

    /// Allow this rule to be called any number of times.
    pub fn times_any(self) -> (e: Self)
        ensures
            e == (RefExpectation {
                times: Times { lower: 0, upper: usize::MAX, count: self.times.count },
                ..self
            }),
    {
        let mut t = self.times;
        t.any();
        RefExpectation { times: t, ..self }
    }

    /// Allow a number of calls in the half-open interval `[start, end)`.
    pub fn times_range(self, start: usize, end: usize) -> (e: Self)
        requires
            start < end,
        ensures
            e == (RefExpectation {
                times: Times { lower: start, upper: (end - 1) as usize, count: self.times.count },
                ..self
            }),
    {
        let mut t = self.times;
        t.range(start, end);
        RefExpectation { times: t, ..self }
    }

    /// Require this rule to be called exactly once.
    pub fn once(self) -> (e: Self)
        ensures
            e == (RefExpectation {
                times: Times { lower: 1, upper: 1, count: self.times.count },
                ..self
            }),
    {
        self.times(1)
    }

    /// Forbid this rule from ever being called.
    pub fn never(self) -> (e: Self)
        ensures
            e == (RefExpectation {
                times: Times { lower: 0, upper: 0, count: self.times.count },
                ..self
            }),
    {
        let mut t = self.times;
        t.never();
        RefExpectation { times: t, ..self }
    }

    /// Join the sequence `seq`: take the next handle.
    pub fn in_sequence(self, seq: &mut Sequence) -> (e: Self)
        requires
            self.times.spec_is_exact(),
            old(seq).next_index < usize::MAX,
        ensures
            e == (RefExpectation {
                seq_handle: Some(SeqHandle { index: old(seq).next_index }),
                ..self
            }),
            *final(seq) == (Sequence {
                next_index: (old(seq).next_index + 1) as usize,
                ..*old(seq)
            }),
    {
        let h = seq.next();
        RefExpectation { seq_handle: Some(h), ..self }
    }

    /// Store the value that every matched call will borrow.
    pub fn return_const(self, v: R) -> (e: Self)
        ensures
            e == (RefExpectation { result: Some(v), ..self }),
    {
        RefExpectation { result: Some(v), ..self }
    }

    /// Run the checking half of one call attempt: verify the matcher, count
    /// the call, and check and satisfy the ordering constraint.  `None`
    /// means the borrow may be handed out.
    pub fn apply_call(&mut self, seq: &mut Sequence, args: &A) -> (err: Option<MockError>)
        ensures
            ({
                let (e2, s2) = old(self).spec_next(*old(seq), *args);
                *final(self) == e2 && *final(seq) == s2
            }),
            match err {
                Option::Some(e) => old(self).spec_outcome(*old(seq), *args, Err::<R, MockError>(e)),
                Option::None => old(self).result is Some && old(self).spec_outcome(
                    *old(seq),
                    *args,
                    Ok::<R, MockError>(old(self).result->0),
                ),
            },
    {
        match self.matcher.verify(args) {
            Err(k) => {
                return Some(MockError::ArgumentMismatch(k));
            },
            Ok(()) => {},
        }
        if !self.times.call() {
            return Some(MockError::TooManyCalls);
        }
        match self.seq_handle {
            Some(h) => {
                if !seq.ready(&h) {
                    return Some(MockError::SequenceViolation);
                }
                if self.times.is_satisfied() {
                    seq.satisfy(&h);
                }
            },
            None => {},
        }
        if self.result.is_some() {
            None
        } else {
            Some(MockError::NoReturnValue)
        }
    }

    /// One call attempt against this rule: on success, borrow the stored
    /// value.
    pub fn call_in_seq(&mut self, seq: &mut Sequence, args: &A) -> (r: Result<&R, MockError>)
        ensures
            ({
                let (e2, s2) = old(self).spec_next(*old(seq), *args);
                *final(self) == e2 && *final(seq) == s2
            }),
            match r {
                Ok(v) => old(self).spec_outcome(*old(seq), *args, Ok::<R, MockError>(*v)),
                Err(e) => old(self).spec_outcome(*old(seq), *args, Err::<R, MockError>(e)),
            },
    {
        let ghost pre = *self;
        let err = self.apply_call(seq, args);
        match err {
            Some(e) => Err(e),
            None => {
                proof {
                    assert(pre.accepts(*args) && !pre.spec_is_done());
                    assert(*self == pre.spec_next(*old(seq), *args).0);
                    assert(self.result == pre.result);
                }
                match &self.result {
                    Some(v) => Ok(v),
                    None => {
                        proof {
                            assert(false);
                        }
                        Err(MockError::NoReturnValue)
                    },
                }
            },
        }
    }

    /// One call attempt against this rule, for rules outside any sequence.
    pub fn call(&mut self, args: &A) -> (r: Result<&R, MockError>)
        requires
            old(self).seq_handle is None,
        ensures
            *final(self) == old(self).spec_next(Sequence::origin(), *args).0,
            match r {
                Ok(v) => old(self).spec_outcome(
                    Sequence::origin(),
                    *args,
                    Ok::<R, MockError>(*v),
                ),
                Err(e) => old(self).spec_outcome(
                    Sequence::origin(),
                    *args,
                    Err::<R, MockError>(e),
                ),
            },
    {
        let mut scratch = Sequence::new();
        self.call_in_seq(&mut scratch, args)
    }
}

/// Index `i` may receive the dispatched call, among reference-returning
/// expectations.
pub open spec fn spec_ref_is_candidate<A, R, M: Matches<A>>(
    es: Seq<RefExpectation<A, R, M>>,
    a: A,
    i: int,
) -> bool {
    &&& 0 <= i < es.len()
    &&& es[i].accepts(a)
    &&& (!es[i].spec_is_done() || es.len() == 1)
}

/// The first candidate index at or after `i`, or `es.len()` when there is
/// none.
pub open spec fn spec_ref_sel_from<A, R, M: Matches<A>>(
    es: Seq<RefExpectation<A, R, M>>,
    a: A,
    i: int,
) -> int
    decreases es.len() - i when 0 <= i <= es.len()
{
    if i >= es.len() {
        es.len() as int
    } else if spec_ref_is_candidate(es, a, i) {
        i
    } else {
        spec_ref_sel_from(es, a, i + 1)
    }
}

/// The index dispatch selects for arguments `a`.
pub open spec fn spec_ref_sel<A, R, M: Matches<A>>(
    es: Seq<RefExpectation<A, R, M>>,
    a: A,
) -> int {
    spec_ref_sel_from(es, a, 0)
}

/// The selected index is the first candidate.
pub proof fn lemma_ref_sel_first<A, R, M: Matches<A>>(
    es: Seq<RefExpectation<A, R, M>>,
    a: A,
    i: int,
)
    requires
        0 <= i <= es.len(),
    ensures
        i <= spec_ref_sel_from(es, a, i) <= es.len(),
        spec_ref_sel_from(es, a, i) < es.len() ==> spec_ref_is_candidate(
            es,
            a,
            spec_ref_sel_from(es, a, i),
        ),
        forall|j: int| i <= j < spec_ref_sel_from(es, a, i) ==> !spec_ref_is_candidate(es, a, j),
    decreases es.len() - i,
{
    if i < es.len() && !spec_ref_is_candidate(es, a, i) {
        lemma_ref_sel_first(es, a, i + 1);
    }
}

/// The ordered reference-returning expectations of one mocked method
/// signature, with the same FIFO dispatch policy as value-returning sets.
#[verifier::reject_recursive_types(A)]
pub struct RefExpectations<A, R, M: Matches<A>> {
    /// The expectations, in registration order.
    pub v: Vec<RefExpectation<A, R, M>>,
}

impl<A, R, M: Matches<A>> RefExpectations<A, R, M> {
    /// No registered expectation is tied to a sequence.
    pub open spec fn spec_no_sequences(self) -> bool {
        forall|i: int| 0 <= i < self.v@.len() ==> (#[trigger] self.v@[i]).seq_handle is None
    }

    /// An empty set.
    pub fn new() -> (s: Self)
        ensures
            s.v@ == Seq::<RefExpectation<A, R, M>>::empty(),
    {
        RefExpectations { v: Vec::new() }
    }

    /// Number of registered expectations.
    pub fn len(&self) -> (n: usize)
        ensures
            n == self.v@.len(),
    {
        self.v.len()
    }

    /// Every registered expectation has reached its lower call-count bound.
    /// [`RefExpectations::checkpoint`] only clears; a caller asserting "everything
    /// configured so far was actually used" between test phases checks this
    /// first and treats `false` as a fatal violation.
    pub open spec fn spec_all_satisfied(self) -> bool {
        forall|i: int|
            0 <= i < self.v@.len() ==> (#[trigger] self.v@[i]).times.spec_is_satisfied()
    }

    /// Every registered expectation has reached its lower call-count bound.
    pub fn all_satisfied(&self) -> (r: bool)
        ensures
            r == self.spec_all_satisfied(),
    {
        let n = self.v.len();
        let mut i: usize = 0;
        while i < n
            invariant
                i <= n,
                n == self.v@.len(),
                forall|j: int| 0 <= j < i ==> (#[trigger] self.v@[j]).times.spec_is_satisfied(),
            decreases n - i,
        {
            if !self.v[i].times.is_satisfied() {
                return false;
            }
            i = i + 1;
        }
        true
    }

    /// Register a configured expectation; returns its position.
    pub fn expect(&mut self, e: RefExpectation<A, R, M>) -> (i: usize)
        ensures
            final(self).v@ == old(self).v@.push(e),
            i == old(self).v@.len(),
    {
        let i = self.v.len();
        self.v.push(e);
        i
    }

    /// Drop every registered expectation, ending the current test phase;
    /// check [`RefExpectations::all_satisfied`] first to assert that everything
    /// configured so far was actually used.
    pub fn checkpoint(&mut self)
        ensures
            final(self).v@ == Seq::<RefExpectation<A, R, M>>::empty(),
    {
        self.v.clear();
    }

    /// Dispatch one call: route the arguments to the first candidate
    /// expectation, and on success borrow its stored value.
    pub fn call_in_seq(&mut self, seq: &mut Sequence, args: &A) -> (res: Result<&R, MockError>)
        ensures
            ({
                let es = old(self).v@;
                let i = spec_ref_sel(es, *args);
                if i == es.len() {
                    &&& res == Err::<&R, MockError>(MockError::NoMatchingExpectation)
                    &&& final(self).v@ == es
                    &&& *final(seq) == *old(seq)
                } else {
                    let (e2, s2) = es[i].spec_next(*old(seq), *args);
                    &&& final(self).v@ == es.update(i, e2)
                    &&& *final(seq) == s2
                    &&& match res {
                        Ok(v) => es[i].spec_outcome(*old(seq), *args, Ok::<R, MockError>(*v)),
                        Err(e) => es[i].spec_outcome(*old(seq), *args, Err::<R, MockError>(e)),
                    }
                }
            }),
    {
        let ghost es = self.v@;
        let n = self.v.len();
        let mut i: usize = 0;
        while i < n
            invariant
                i <= n,
                n == self.v@.len(),
                self.v@ == es,
                *seq == *old(seq),
                old(self).v@ == es,
                forall|j: int| 0 <= j < i ==> !spec_ref_is_candidate(es, *args, j),
            decreases n - i,
        {
            let accepted = self.v[i].matches(args);
            let full = self.v[i].is_done();
            if accepted && (!full || n == 1) {
                proof {
                    lemma_ref_sel_first(es, *args, 0);
                    assert(spec_ref_is_candidate(es, *args, i as int));
                    assert(spec_ref_sel(es, *args) == i as int);
                }
                let mut e = self.v.remove(i);
                let err = e.apply_call(seq, args);
                self.v.insert(i, e);
                proof {
                    assert(self.v@ =~= es.update(i as int, e));
                    assert(e == es[i as int].spec_next(*old(seq), *args).0);
                }
                match err {
                    Some(e) => {
                        return Err(e);
                    },
                    None => {
                        proof {
                            assert(es[i as int].accepts(*args) && !es[i as int].spec_is_done());
                            assert(e.result == es[i as int].result);
                            assert(self.v@[i as int].result is Some);
                        }
                        return match &self.v[i].result {
                            Some(v) => Ok(v),
                            None => {
                                proof {
                                    assert(false);
                                }
                                Err(MockError::NoReturnValue)
                            },
                        };
                    },
                }
            }
            i = i + 1;
        }
        proof {
            lemma_ref_sel_first(es, *args, 0);
        }
        Err(MockError::NoMatchingExpectation)
    }

    /// Dispatch one call on a set none of whose expectations is tied to a
    /// sequence.
    pub fn call(&mut self, args: &A) -> (res: Result<&R, MockError>)
        requires
            old(self).spec_no_sequences(),
        ensures
            ({
                let es = old(self).v@;
                let i = spec_ref_sel(es, *args);
                if i == es.len() {
                    &&& res == Err::<&R, MockError>(MockError::NoMatchingExpectation)
                    &&& final(self).v@ == es
                } else {
                    &&& final(self).v@ == es.update(
                        i,
                        es[i].spec_next(Sequence::origin(), *args).0,
                    )
                    &&& match res {
                        Ok(v) => es[i].spec_outcome(
                            Sequence::origin(),
                            *args,
                            Ok::<R, MockError>(*v),
                        ),
                        Err(e) => es[i].spec_outcome(
                            Sequence::origin(),
                            *args,
                            Err::<R, MockError>(e),
                        ),
                    }
                }
            }),
    {
        let mut scratch = Sequence::new();
        self.call_in_seq(&mut scratch, args)
    }
}

} // verus!
