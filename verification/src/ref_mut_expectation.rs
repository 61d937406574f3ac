//! Expectations for methods that return a mutable reference.  The returned
//! value is owned by the expectation: it is either a stored variable, set
//! with [`RefMutExpectation::return_var`], or recomputed on every matched
//! call by a closure set with [`RefMutExpectation::returning`]; the caller
//! receives a mutable borrow anchored to the expectation's own storage, and
//! what the caller writes through the borrow stays in the expectation.

use vstd::prelude::*;
use crate::error::MockError;
use crate::matcher::Matches;
use crate::rfunc::RetFn;
use crate::rfunc::RetFnSt;
use crate::sequence::SeqHandle;
use crate::sequence::Sequence;
use crate::times::Times;

verus! {

/// How a mutable-reference expectation recomputes its stored value from
/// the call's arguments.
#[verifier::reject_recursive_types(A)]
#[verifier::reject_recursive_types(R)]
pub enum RefProducer<A, R> {
    /// A cross-thread closure, run on every matched call.
    Plain(RetFn<A, R>),
    /// A thread-confined closure: running it from a foreign thread is an
    /// error.
    Confined(RetFnSt<A, R>),
}

impl<A, R> RefProducer<A, R> {
    /// The postcondition recorded for the stored closure.
    pub open spec fn spec_post(self) -> spec_fn(A, R) -> bool {
        match self {
            RefProducer::Plain(h) => h.spec_post(),
            RefProducer::Confined(h) => h.spec_post(),
        }
    }
}

/// One configured rule for a mocked method returning `&mut R`.
#[verifier::reject_recursive_types(A)]
#[verifier::reject_recursive_types(R)]
pub struct RefMutExpectation<A, R, M: Matches<A>> {
    /// Which argument values this rule accepts.
    pub matcher: M,
    /// How often this rule may and must be called.
    pub times: Times,
    /// Position in a [`Sequence`], when cross-method ordering is required.
    pub seq_handle: Option<SeqHandle>,
    /// The value handed out by mutable reference, owned here so the borrow
    /// stays valid past the call.
    pub result: Option<R>,
    /// When set, recomputes the stored value from the arguments on every
    /// matched call before the borrow is handed out.
    pub rfunc: Option<RefProducer<A, R>>,
}

impl<A, R, M: Matches<A>> RefMutExpectation<A, R, M> {
    /// This rule accepts the argument value `a`.
    pub open spec fn accepts(self, a: A) -> bool {
        self.matcher.accepts(a)
    }

    /// No further call is allowed by the counter.
    pub open spec fn spec_is_done(self) -> bool {
        self.times.spec_is_done()
    }

    /// Every check of one call attempt passes: the matcher accepts, the
    /// counter allows the call, and every earlier expectation of the
    /// sequence is satisfied.
    pub open spec fn spec_pass(self, seq: Sequence, a: A) -> bool {
        &&& self.matcher.accepts(a)
        &&& !self.times.spec_is_done()
        &&& match self.seq_handle {
            Option::Some(h) => seq.spec_ready(h),
            Option::None => true,
        }
    }

    /// The sequence state after a successful call attempt.
    pub open spec fn spec_seq_after(self, seq: Sequence) -> Sequence {
        match self.seq_handle {
            Option::Some(h) => if self.times.spec_inc().spec_is_satisfied() {
                seq.spec_satisfy(h)
            } else {
                seq
            },
            Option::None => seq,
        }
    }

    /// One call attempt, as a relation between the state before
    /// (`self`, `seq`), the state after (`e2`, `s2`), and the outcome
    /// (`out`, with a borrowed result written as the value it points at
    /// when handed out).
    pub open spec fn spec_step(
        self,
        seq: Sequence,
        a: A,
        e2: RefMutExpectation<A, R, M>,
        s2: Sequence,
        out: Result<R, MockError>,
    ) -> bool {
        if !self.matcher.accepts(a) {
            &&& e2 == self
            &&& s2 == seq
            &&& match out {
                Err(MockError::ArgumentMismatch(k)) => self.matcher.fails_at(a, k),
                _ => false,
            }
        } else if self.times.spec_is_done() {
            &&& e2 == self
            &&& s2 == seq
            &&& out == Err::<R, MockError>(MockError::TooManyCalls)
        } else {
            let counted = RefMutExpectation { times: self.times.spec_inc(), ..self };
            let in_order = match self.seq_handle {
                Option::Some(h) => seq.spec_ready(h),
                Option::None => true,
            };
            if !in_order {
                &&& e2 == counted
                &&& s2 == seq
                &&& out == Err::<R, MockError>(MockError::SequenceViolation)
            } else {
                &&& s2 == self.spec_seq_after(seq)
                &&& match self.rfunc {
                    Option::Some(p) => match out {
                        Ok(v) => (p.spec_post())(a, v) && e2 == (RefMutExpectation {
                            result: Some(v),
                            ..counted
                        }),
                        Err(e) => p is Confined && e == MockError::WrongThread && e2 == counted,
                    },
                    Option::None => match self.result {
                        Option::Some(v) => out == Ok::<R, MockError>(v) && e2 == counted,
                        Option::None => out == Err::<R, MockError>(MockError::NoReturnValue) && e2
                            == counted,
                    },
                }
            }
        }
    }

    /// A fresh rule: accepts every argument, allows any number of calls, is
    /// in no sequence, and has neither a stored variable nor a closure.
    pub fn new() -> (e: Self)
        ensures
            forall|a: A| e.accepts(a),
            e.times == (Times { lower: 0, upper: usize::MAX, count: 0 }),
            e.seq_handle is None,
            e.result is None,
            e.rfunc is None,
    {
        RefMutExpectation {
            matcher: M::accept_all(),
            times: Times::new(),
            seq_handle: None,
            result: None,
            rfunc: None,
        }
    }

    /// This rule accepts the argument value `a`.
    pub fn matches(&self, a: &A) -> (r: bool)
        ensures
            r == self.accepts(*a),
    {
        self.matcher.matches(a)
    }

    /// No further call is allowed by the counter.
    pub fn is_done(&self) -> (r: bool)
        ensures
            r == self.spec_is_done(),
    {
        self.times.is_done()
    }

    /// Replace the argument matcher.
    pub fn with(self, m: M) -> (e: Self)
        ensures
            e == (RefMutExpectation { matcher: m, ..self }),
    {
        RefMutExpectation { matcher: m, ..self }
    }

    /// Require this rule to be called exactly `n` times.
    pub fn times(self, n: usize) -> (e: Self)
        ensures
            e == (RefMutExpectation {
                times: Times { lower: n, upper: n, count: self.times.count },
                ..self
            }),
    {
        let mut t = self.times;
        t.exact(n);
        RefMutExpectation { times: t, ..self }
    }

    /// Allow this rule to be called any number of times.
    pub fn times_any(self) -> (e: Self)
        ensures
            e == (RefMutExpectation {
                times: Times { lower: 0, upper: usize::MAX, count: self.times.count },
                ..self
            }),
    {
        let mut t = self.times;
        t.any();
        RefMutExpectation { times: t, ..self }
    }

    /// Allow a number of calls in the half-open interval `[start, end)`.
    pub fn times_range(self, start: usize, end: usize) -> (e: Self)
        requires
            start < end,
        ensures
            e == (RefMutExpectation {
                times: Times { lower: start, upper: (end - 1) as usize, count: self.times.count },
                ..self
            }),
    {
        let mut t = self.times;
        t.range(start, end);
        RefMutExpectation { times: t, ..self }
    }

    /// Require this rule to be called exactly once.
    pub fn once(self) -> (e: Self)
        ensures
            e == (RefMutExpectation {
                times: Times { lower: 1, upper: 1, count: self.times.count },
                ..self
            }),
    {
        self.times(1)
    }

    /// Forbid this rule from ever being called.
    pub fn never(self) -> (e: Self)
        ensures
            e == (RefMutExpectation {
                times: Times { lower: 0, upper: 0, count: self.times.count },
                ..self
            }),
    {
        let mut t = self.times;
        t.never();
        RefMutExpectation { times: t, ..self }
    }

    /// Join the sequence `seq`: take the next handle.
    pub fn in_sequence(self, seq: &mut Sequence) -> (e: Self)
        requires
            self.times.spec_is_exact(),
            old(seq).next_index < usize::MAX,
        ensures
            e == (RefMutExpectation {
                seq_handle: Some(SeqHandle { index: old(seq).next_index }),
                ..self
            }),
            *final(seq) == (Sequence {
                next_index: (old(seq).next_index + 1) as usize,
                ..*old(seq)
            }),
    {
        let h = seq.next();
        RefMutExpectation { seq_handle: Some(h), ..self }
    }

    /// Store the variable that matched calls will borrow mutably.
    pub fn return_var(self, v: R) -> (e: Self)
        ensures
            e == (RefMutExpectation { result: Some(v), ..self }),
    {
        RefMutExpectation { result: Some(v), ..self }
    }

    /// Recompute the stored value from the arguments, by calling `f` on
    /// every matched call, before the borrow is handed out.  `f` must be
    /// callable on every argument value.
    pub fn returning<F: Fn(A) -> R + Send + 'static>(self, f: F) -> (e: Self)
        requires
            forall|a: A| call_requires(f, (a,)),
        ensures
            e.matcher == self.matcher,
            e.times == self.times,
            e.seq_handle == self.seq_handle,
            e.result == self.result,
            match e.rfunc {
                Option::Some(p) => p is Plain && p.spec_post() == (
                |a: A, r: R| call_ensures(f, (a,), r)
                ),
                Option::None => false,
            },
    {
        RefMutExpectation { rfunc: Some(RefProducer::Plain(RetFn::new(f))), ..self }
    }

    /// Thread-confined form of [`RefMutExpectation::returning`]: running
    /// the closure from a thread other than the one that stored it is an
    /// error.
    pub fn returning_st<F: Fn(A) -> R + 'static>(self, f: F) -> (e: Self)
        requires
            forall|a: A| call_requires(f, (a,)),
        ensures
            e.matcher == self.matcher,
            e.times == self.times,
            e.seq_handle == self.seq_handle,
            e.result == self.result,
            match e.rfunc {
                Option::Some(p) => p is Confined && p.spec_post() == (
                |a: A, r: R| call_ensures(f, (a,), r)
                ),
                Option::None => false,
            },
    {
        RefMutExpectation { rfunc: Some(RefProducer::Confined(RetFnSt::new(f))), ..self }
    }

    /// Run the checking and production half of one call attempt: verify the
    /// matcher, count the call, check and satisfy the ordering constraint,
    /// and recompute the stored value when a closure is set.  `None` means
    /// the mutable borrow may be handed out.
    pub fn apply_call_mut(&mut self, seq: &mut Sequence, args: A) -> (err: Option<MockError>)
        ensures
            match err {
                Option::Some(e) => old(self).spec_step(
                    *old(seq),
                    args,
                    *final(self),
                    *final(seq),
                    Err::<R, MockError>(e),
                ),
                Option::None => final(self).result is Some && old(self).spec_step(
                    *old(seq),
                    args,
                    *final(self),
                    *final(seq),
                    Ok::<R, MockError>(final(self).result->0),
                ),
            },
    {
        match self.matcher.verify(&args) {
            Err(k) => {
                return Some(MockError::ArgumentMismatch(k));
            },
            Ok(()) => {},
        }
        if !self.times.call() {
            return Some(MockError::TooManyCalls);
        }
        match self.seq_handle {
            Some(h) => {
                if !seq.ready(&h) {
                    return Some(MockError::SequenceViolation);
                }
                if self.times.is_satisfied() {
                    seq.satisfy(&h);
                }
            },
            None => {},
        }
        match &self.rfunc {
            Some(RefProducer::Plain(h)) => {
                let v = h.invoke(args);
                self.result = Some(v);
                None
            },
            Some(RefProducer::Confined(h)) => match h.invoke(args) {
                Some(v) => {
                    self.result = Some(v);
                    None
                },
                None => Some(MockError::WrongThread),
            },
            None => {
                if self.result.is_some() {
                    None
                } else {
                    Some(MockError::NoReturnValue)
                }
            },
        }
    }

    /// One call attempt against this rule: on success, borrow the stored
    /// value mutably.  What the caller writes through the borrow is kept in
    /// the expectation.
    pub fn call_mut(&mut self, seq: &mut Sequence, args: A) -> (r: Result<&mut R, MockError>)
        ensures
            match r {
                Ok(v) => {
                    &&& old(self).spec_step(
                        *old(seq),
                        args,
                        (RefMutExpectation {
                            times: old(self).times.spec_inc(),
                            result: Some(*v),
                            ..*old(self)
                        }),
                        *final(seq),
                        Ok::<R, MockError>(*v),
                    )
                    &&& *final(self) == (RefMutExpectation {
                        times: old(self).times.spec_inc(),
                        result: Some(*final(v)),
                        ..*old(self)
                    })
                },
                Err(e) => old(self).spec_step(
                    *old(seq),
                    args,
                    *final(self),
                    *final(seq),
                    Err::<R, MockError>(e),
                ),
            },
    {
        let ghost pre = *self;
        let err = self.apply_call_mut(seq, args);
        match err {
            Some(e) => Err(e),
            None => {
                proof {
                    assert(pre.accepts(args) && !pre.spec_is_done());
                }
                match &mut self.result {
                    Some(v) => Ok(v),
                    None => {
                        proof {
                            assert(false);
                        }
                        Err(MockError::NoReturnValue)
                    },
                }
            },
        }
    }
}

/// Index `i` may receive the dispatched call, among mutable-reference
/// expectations.
pub open spec fn spec_ref_mut_is_candidate<A, R, M: Matches<A>>(
    es: Seq<RefMutExpectation<A, R, M>>,
    a: A,
    i: int,
) -> bool {
    &&& 0 <= i < es.len()
    &&& es[i].accepts(a)
    &&& (!es[i].spec_is_done() || es.len() == 1)
}

/// The first candidate index at or after `i`, or `es.len()` when there is
/// none.
pub open spec fn spec_ref_mut_sel_from<A, R, M: Matches<A>>(
    es: Seq<RefMutExpectation<A, R, M>>,
    a: A,
    i: int,
) -> int
    decreases es.len() - i when 0 <= i <= es.len()
{
    if i >= es.len() {
        es.len() as int
    } else if spec_ref_mut_is_candidate(es, a, i) {
        i
    } else {
        spec_ref_mut_sel_from(es, a, i + 1)
    }
}

/// The index dispatch selects for arguments `a`.
pub open spec fn spec_ref_mut_sel<A, R, M: Matches<A>>(
    es: Seq<RefMutExpectation<A, R, M>>,
    a: A,
) -> int {
    spec_ref_mut_sel_from(es, a, 0)
}

/// The selected index is the first candidate.
pub proof fn lemma_ref_mut_sel_first<A, R, M: Matches<A>>(
    es: Seq<RefMutExpectation<A, R, M>>,
    a: A,
    i: int,
)
    requires
        0 <= i <= es.len(),
    ensures
        i <= spec_ref_mut_sel_from(es, a, i) <= es.len(),
        spec_ref_mut_sel_from(es, a, i) < es.len() ==> spec_ref_mut_is_candidate(
            es,
            a,
            spec_ref_mut_sel_from(es, a, i),
        ),
        forall|j: int|
            i <= j < spec_ref_mut_sel_from(es, a, i) ==> !spec_ref_mut_is_candidate(es, a, j),
    decreases es.len() - i,
{
    if i < es.len() && !spec_ref_mut_is_candidate(es, a, i) {
        lemma_ref_mut_sel_first(es, a, i + 1);
    }
}

/// The ordered mutable-reference expectations of one mocked method
/// signature, with the same FIFO dispatch policy as value-returning sets.
#[verifier::reject_recursive_types(A)]
#[verifier::reject_recursive_types(R)]
pub struct RefMutExpectations<A, R, M: Matches<A>> {
    /// The expectations, in registration order.
    pub v: Vec<RefMutExpectation<A, R, M>>,
}

impl<A, R, M: Matches<A>> RefMutExpectations<A, R, M> {
    /// An empty set.
    pub fn new() -> (s: Self)
        ensures
            s.v@ == Seq::<RefMutExpectation<A, R, M>>::empty(),
    {
        RefMutExpectations { v: Vec::new() }
    }

    /// Number of registered expectations.
    pub fn len(&self) -> (n: usize)
        ensures
            n == self.v@.len(),
    {
        self.v.len()
    }

    /// Every registered expectation has reached its lower call-count bound.
    /// [`RefMutExpectations::checkpoint`] only clears; a caller asserting "everything
    /// configured so far was actually used" between test phases checks this
    /// first and treats `false` as a fatal violation.
    pub open spec fn spec_all_satisfied(self) -> bool {
        forall|i: int|
            0 <= i < self.v@.len() ==> (#[trigger] self.v@[i]).times.spec_is_satisfied()
    }

    /// Every registered expectation has reached its lower call-count bound.
    pub fn all_satisfied(&self) -> (r: bool)
        ensures
            r == self.spec_all_satisfied(),
    {
        let n = self.v.len();
        let mut i: usize = 0;
        while i < n
            invariant
                i <= n,
                n == self.v@.len(),
                forall|j: int| 0 <= j < i ==> (#[trigger] self.v@[j]).times.spec_is_satisfied(),
            decreases n - i,
        {
            if !self.v[i].times.is_satisfied() {
                return false;
            }
            i = i + 1;
        }
        true
    }

    /// Register a configured expectation; returns its position.
    pub fn expect(&mut self, e: RefMutExpectation<A, R, M>) -> (i: usize)
        ensures
            final(self).v@ == old(self).v@.push(e),
            i == old(self).v@.len(),
    {
        let i = self.v.len();
        self.v.push(e);
        i
    }

    /// Drop every registered expectation, ending the current test phase;
    /// check [`RefMutExpectations::all_satisfied`] first to assert that everything
    /// configured so far was actually used.
    pub fn checkpoint(&mut self)
        ensures
            final(self).v@ == Seq::<RefMutExpectation<A, R, M>>::empty(),
    {
        self.v.clear();
    }

    /// Dispatch one call: route the arguments to the first candidate
    /// expectation, and on success borrow its stored value mutably.  What
    /// the caller writes through the borrow is kept in that expectation.
    pub fn call_mut(&mut self, seq: &mut Sequence, args: A) -> (res: Result<&mut R, MockError>)
        ensures
            ({
                let es = old(self).v@;
                let i = spec_ref_mut_sel(es, args);
                if i == es.len() {
                    &&& res == Err::<&mut R, MockError>(MockError::NoMatchingExpectation)
                    &&& final(self).v@ == es
                    &&& *final(seq) == *old(seq)
                } else {
                    match res {
                        Ok(v) => {
                            &&& es[i].spec_step(
                                *old(seq),
                                args,
                                (RefMutExpectation {
                                    times: es[i].times.spec_inc(),
                                    result: Some(*v),
                                    ..es[i]
                                }),
                                *final(seq),
                                Ok::<R, MockError>(*v),
                            )
                            &&& final(self).v@ == es.update(
                                i,
                                (RefMutExpectation {
                                    times: es[i].times.spec_inc(),
                                    result: Some(*final(v)),
                                    ..es[i]
                                }),
                            )
                        },
                        Err(e) => {
                            &&& exists|e2: RefMutExpectation<A, R, M>|
                                final(self).v@ == es.update(i, e2) && es[i].spec_step(
                                    *old(seq),
                                    args,
                                    e2,
                                    *final(seq),
                                    Err::<R, MockError>(e),
                                )
                        },
                    }
                }
            }),
    {
        let ghost es = self.v@;
        let n = self.v.len();
        let mut i: usize = 0;
        while i < n
            invariant
                i <= n,
                n == self.v@.len(),
                self.v@ == es,
                *seq == *old(seq),
                old(self).v@ == es,
                forall|j: int| 0 <= j < i ==> !spec_ref_mut_is_candidate(es, args, j),
            decreases n - i,
        {
            let accepted = self.v[i].matches(&args);
            let full = self.v[i].is_done();
            if accepted && (!full || n == 1) {
                proof {
                    lemma_ref_mut_sel_first(es, args, 0);
                    assert(spec_ref_mut_is_candidate(es, args, i as int));
                    assert(spec_ref_mut_sel(es, args) == i as int);
                }
                let mut e = self.v.remove(i);
                let err = e.apply_call_mut(seq, args);
                self.v.insert(i, e);
                proof {
                    assert(self.v@ =~= es.update(i as int, e));
                }
                match err {
                    Some(e) => {
                        return Err(e);
                    },
                    None => {
                        proof {
                            assert(self.v@[i as int].result is Some);
                        }
                        return match &mut self.v[i].result {
                            Some(v) => Ok(v),
                            None => {
                                proof {
                                    assert(false);
                                }
                                Err(MockError::NoReturnValue)
                            },
                        };
                    },
                }
            }
            i = i + 1;
        }
        proof {
            lemma_ref_mut_sel_first(es, args, 0);
        }
        Err(MockError::NoMatchingExpectation)
    }
}

} // verus!
