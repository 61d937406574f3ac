//! The ordered collection of expectations for one concrete method signature,
//! and its dispatch policy: expectations are scanned in registration (FIFO)
//! order, and the call goes to the first one whose matcher accepts the
//! arguments and whose counter is not exhausted — except that a sole
//! expectation is selected even when exhausted, so that an over-limit call
//! fails with the expectation's own counter diagnostic rather than the less
//! useful dispatch miss.

use vstd::prelude::*;
use crate::error::MockError;
use crate::expectation::Expectation;
use crate::matcher::Matches;
use crate::sequence::Sequence;
use crate::times::Times;

verus! {

/// Index `i` may receive the dispatched call: its matcher accepts the
/// arguments, and it is not exhausted — or it is the set's only expectation.
pub open spec fn spec_is_candidate<A, R, M: Matches<A>>(
    es: Seq<Expectation<A, R, M>>,
    a: A,
    i: int,
) -> bool {
    &&& 0 <= i < es.len()
    &&& es[i].accepts(a)
    &&& (!es[i].spec_is_done() || es.len() == 1)
}

/// The first candidate index at or after `i`, or `es.len()` when there is
/// none.
pub open spec fn spec_sel_from<A, R, M: Matches<A>>(
    es: Seq<Expectation<A, R, M>>,
    a: A,
    i: int,
) -> int
    decreases es.len() - i when 0 <= i <= es.len()
{
    if i >= es.len() {
        es.len() as int
    } else if spec_is_candidate(es, a, i) {
        i
    } else {
        spec_sel_from(es, a, i + 1)
    }
}

/// The index dispatch selects for arguments `a`, or `es.len()` when no
/// expectation is a candidate.
pub open spec fn spec_sel<A, R, M: Matches<A>>(es: Seq<Expectation<A, R, M>>, a: A) -> int {
    spec_sel_from(es, a, 0)
}

/// The selected index is the first candidate: every earlier index is no
/// candidate, and a result of `es.len()` means there is none at all.
pub proof fn lemma_sel_first<A, R, M: Matches<A>>(es: Seq<Expectation<A, R, M>>, a: A, i: int)
    requires
        0 <= i <= es.len(),
    ensures
        i <= spec_sel_from(es, a, i) <= es.len(),
        spec_sel_from(es, a, i) < es.len() ==> spec_is_candidate(es, a, spec_sel_from(es, a, i)),
        forall|j: int| i <= j < spec_sel_from(es, a, i) ==> !spec_is_candidate(es, a, j),
    decreases es.len() - i,
{
    if i < es.len() && !spec_is_candidate(es, a, i) {
        lemma_sel_first(es, a, i + 1);
    }
}

/// The ordered expectations of one mocked method signature.  Insertion order
/// is registration order is dispatch priority; the set is append-only except
/// for [`Expectations::checkpoint`], which clears it.
#[verifier::reject_recursive_types(A)]
#[verifier::reject_recursive_types(R)]
pub struct Expectations<A, R, M: Matches<A>> {
    /// The expectations, in registration order.
    pub v: Vec<Expectation<A, R, M>>,
}

impl<A, R, M: Matches<A>> Expectations<A, R, M> {
    /// No registered expectation is tied to a sequence.
    pub open spec fn spec_no_sequences(self) -> bool {
        forall|i: int| 0 <= i < self.v@.len() ==> (#[trigger] self.v@[i]).seq_handle is None
    }

    /// An empty set.
    pub fn new() -> (s: Self)
        ensures
            s.v@ == Seq::<Expectation<A, R, M>>::empty(),
    {
        Expectations { v: Vec::new() }
    }

    /// Number of registered expectations.
    pub fn len(&self) -> (n: usize)
        ensures
            n == self.v@.len(),
    {
        self.v.len()
    }

    /// No registered expectation is tied to a sequence, so
    /// [`Expectations::call`] may dispatch this set.
    pub fn has_no_sequences(&self) -> (r: bool)
        ensures
            r == self.spec_no_sequences(),
    {
        let n = self.v.len();
        let mut i: usize = 0;
        while i < n
            invariant
                i <= n,
                n == self.v@.len(),
                forall|j: int| 0 <= j < i ==> (#[trigger] self.v@[j]).seq_handle is None,
            decreases n - i,
        {
            if self.v[i].seq_handle.is_some() {
                return false;
            }
            i = i + 1;
        }
        true
    }

    /// Every registered expectation has reached its lower call-count bound.
    /// [`Expectations::checkpoint`] only clears; a caller asserting "everything
    /// configured so far was actually used" between test phases checks this
    /// first and treats `false` as a fatal violation.
    pub open spec fn spec_all_satisfied(self) -> bool {
        forall|i: int|
            0 <= i < self.v@.len() ==> (#[trigger] self.v@[i]).times.spec_is_satisfied()
    }

    /// Every registered expectation has reached its lower call-count bound.
    pub fn all_satisfied(&self) -> (r: bool)
        ensures
            r == self.spec_all_satisfied(),
    {
        let n = self.v.len();
        let mut i: usize = 0;
        while i < n
            invariant
                i <= n,
                n == self.v@.len(),
                forall|j: int| 0 <= j < i ==> (#[trigger] self.v@[j]).times.spec_is_satisfied(),
            decreases n - i,
        {
            if !self.v[i].times.is_satisfied() {
                return false;
            }
            i = i + 1;
        }
        true
    }

    /// Register a configured expectation; returns its position, which is its
    /// dispatch priority.
    pub fn expect(&mut self, e: Expectation<A, R, M>) -> (i: usize)
        ensures
            final(self).v@ == old(self).v@.push(e),
            i == old(self).v@.len(),
    {
        let i = self.v.len();
        self.v.push(e);
        i
    }

    /// Drop every registered expectation, ending the current test phase;
    /// check [`Expectations::all_satisfied`] first to assert that everything
    /// configured so far was actually used.
    pub fn checkpoint(&mut self)
        ensures
            final(self).v@ == Seq::<Expectation<A, R, M>>::empty(),
    {
        self.v.clear();
    }

    /// Dispatch one call: route the arguments to the first candidate
    /// expectation and run it against the sequence state `seq`.
    pub fn call_in_seq(&mut self, seq: &mut Sequence, args: A) -> (res: Result<R, MockError>)
        ensures
            ({
                let es = old(self).v@;
                let i = spec_sel(es, args);
                if i == es.len() {
                    &&& res == Err::<R, MockError>(MockError::NoMatchingExpectation)
                    &&& final(self).v@ == es
                    &&& *final(seq) == *old(seq)
                } else {
                    let (e2, s2) = es[i].spec_next(*old(seq), args, res);
                    &&& final(self).v@ == es.update(i, e2)
                    &&& *final(seq) == s2
                    &&& es[i].spec_result(*old(seq), args, res)
                }
            }),
    {
        let ghost es = self.v@;
        let n = self.v.len();
        let mut i: usize = 0;
        while i < n
            invariant
                i <= n,
                n == self.v@.len(),
                self.v@ == es,
                *seq == *old(seq),
                old(self).v@ == es,
                forall|j: int| 0 <= j < i ==> !spec_is_candidate(es, args, j),
            decreases n - i,
        {
            let accepted = self.v[i].matches(&args);
            let full = self.v[i].is_done();
            if accepted && (!full || n == 1) {
                proof {
                    lemma_sel_first(es, args, 0);
                    assert(spec_is_candidate(es, args, i as int));
                    assert(spec_sel(es, args) == i as int);
                }
                let mut e = self.v.remove(i);
                let res = e.call_in_seq(seq, args);
                self.v.insert(i, e);
                proof {
                    assert(self.v@ =~= es.update(i as int, e));
                }
                return res;
            }
            i = i + 1;
        }
        proof {
            lemma_sel_first(es, args, 0);
        }
        Err(MockError::NoMatchingExpectation)
    }

    /// Dispatch one call, for mocked methods whose return type has a
    /// default value: an expectation selected without a configured return
    /// production yields that default.
    pub fn call_in_seq_with_default(&mut self, seq: &mut Sequence, args: A) -> (res: Result<
        R,
        MockError,
    >) where R: Default
        ensures
            ({
                let es = old(self).v@;
                let i = spec_sel(es, args);
                if i == es.len() {
                    &&& res == Err::<R, MockError>(MockError::NoMatchingExpectation)
                    &&& final(self).v@ == es
                    &&& *final(seq) == *old(seq)
                } else {
                    let (e2, s2) = es[i].spec_next(*old(seq), args, res);
                    &&& final(self).v@ == es.update(i, e2)
                    &&& *final(seq) == s2
                    &&& es[i].spec_result_with_default(*old(seq), args, res)
                }
            }),
    {
        let ghost es = self.v@;
        let n = self.v.len();
        let mut i: usize = 0;
        while i < n
            invariant
                i <= n,
                n == self.v@.len(),
                self.v@ == es,
                *seq == *old(seq),
                old(self).v@ == es,
                forall|j: int| 0 <= j < i ==> !spec_is_candidate(es, args, j),
            decreases n - i,
        {
            let accepted = self.v[i].matches(&args);
            let full = self.v[i].is_done();
            if accepted && (!full || n == 1) {
                proof {
                    lemma_sel_first(es, args, 0);
                    assert(spec_is_candidate(es, args, i as int));
                    assert(spec_sel(es, args) == i as int);
                }
                let mut e = self.v.remove(i);
                let res = e.call_in_seq_with_default(seq, args);
                self.v.insert(i, e);
                proof {
                    assert(self.v@ =~= es.update(i as int, e));
                }
                return res;
            }
            i = i + 1;
        }
        proof {
            lemma_sel_first(es, args, 0);
        }
        Err(MockError::NoMatchingExpectation)
    }

    /// Dispatch one call producing type defaults for unconfigured
    /// expectations, on a set none of whose expectations is tied to a
    /// sequence.
    pub fn call_with_default(&mut self, args: A) -> (res: Result<R, MockError>) where R: Default
        requires
            old(self).spec_no_sequences(),
        ensures
            ({
                let es = old(self).v@;
                let i = spec_sel(es, args);
                if i == es.len() {
                    &&& res == Err::<R, MockError>(MockError::NoMatchingExpectation)
                    &&& final(self).v@ == es
                } else {
                    &&& final(self).v@ == es.update(
                        i,
                        es[i].spec_next(Sequence::origin(), args, res).0,
                    )
                    &&& es[i].spec_result_with_default(Sequence::origin(), args, res)
                }
            }),
    {
        let mut scratch = Sequence::new();
        self.call_in_seq_with_default(&mut scratch, args)
    }

    /// Dispatch one call on a set none of whose expectations is tied to a
    /// sequence.
    pub fn call(&mut self, args: A) -> (res: Result<R, MockError>)
        requires
            old(self).spec_no_sequences(),
        ensures
            ({
                let es = old(self).v@;
                let i = spec_sel(es, args);
                if i == es.len() {
                    &&& res == Err::<R, MockError>(MockError::NoMatchingExpectation)
                    &&& final(self).v@ == es
                } else {
                    &&& final(self).v@ == es.update(
                        i,
                        es[i].spec_next(Sequence::origin(), args, res).0,
                    )
                    &&& es[i].spec_result(Sequence::origin(), args, res)
                }
            }),
    {
        let mut scratch = Sequence::new();
        self.call_in_seq(&mut scratch, args)
    }
}

/// With a sole registered expectation whose counter is exhausted, a further
/// matching call is still routed to it and fails with the counter's own
/// "called more times than expected" diagnostic.
pub proof fn law_exhausted_sole_expectation<A, R, M: Matches<A>>(
    es: Seq<Expectation<A, R, M>>,
    seq: Sequence,
    a: A,
    r: Result<R, MockError>,
)
    requires
        es.len() == 1,
        es[0].accepts(a),
        es[0].spec_is_done(),
        es[0].spec_result(seq, a, r),
    ensures
        spec_sel(es, a) == 0,
        r == Err::<R, MockError>(MockError::TooManyCalls),
{
    lemma_sel_first(es, a, 0);
}

/// With several registered expectations, an exhausted one is skipped in
/// favour of a later candidate.
pub proof fn law_exhausted_is_skipped<A, R, M: Matches<A>>(
    es: Seq<Expectation<A, R, M>>,
    a: A,
    i: int,
)
    requires
        es.len() > 1,
        0 <= i < es.len(),
        es[i].spec_is_done(),
    ensures
        spec_sel(es, a) != i,
{
    lemma_sel_first(es, a, 0);
}

/// FIFO dispatch: of two expectations both matching the arguments, the one
/// registered first and limited to one call receives the first call; once
/// its counter is exhausted, the next call is routed to the one registered
/// second.
pub proof fn law_fifo<A, R, M: Matches<A>>(
    es: Seq<Expectation<A, R, M>>,
    a: A,
    r1: Result<R, MockError>,
)
    requires
        es.len() == 2,
        es[0].accepts(a),
        es[1].accepts(a),
        es[0].times == (Times { lower: 1, upper: 1, count: 0 }),
        !es[1].spec_is_done(),
    ensures
        spec_sel(es, a) == 0,
        spec_sel(es.update(0, es[0].spec_next(Sequence::origin(), a, r1).0), a) == 1,
{
    lemma_sel_first(es, a, 0);
    let es2 = es.update(0, es[0].spec_next(Sequence::origin(), a, r1).0);
    lemma_sel_first(es2, a, 0);
    assert(es2[0].times.count == 1);
    assert(!spec_is_candidate(es2, a, 0));
    assert(spec_is_candidate(es2, a, 1));
}

} // verus!
