//! Argument matching.  A matcher is a predicate over a call's whole argument
//! value, written as plain data so that dispatch can be specified exactly:
//! [`Pred`] matches a single argument, [`Pred2`] matches a pair of arguments
//! with one predicate per position, and [`AnyArgs`] accepts everything.
//!
//! `matches` is the non-destructive membership test dispatch uses to pick a
//! candidate; `verify` re-checks the selected candidate and on failure names
//! the position of the first predicate that failed.

use vstd::prelude::*;
use vstd::std_specs::cmp::PartialEqSpec;

verus! {

/// An argument type whose `==` provably agrees with its specification-land
/// equality spec, so that predicates over it can be given exact contracts.
pub trait EqSpecObeyed: PartialEq + PartialEqSpec + Sized {
    /// The type's executable `==` obeys `eq_spec`.
    proof fn obeys()
        ensures
            Self::obeys_eq_spec(),
    ;
}

impl EqSpecObeyed for bool {
    proof fn obeys() {
    }
}

impl EqSpecObeyed for u8 {
    proof fn obeys() {
    }
}

impl EqSpecObeyed for u16 {
    proof fn obeys() {
    }
}

impl EqSpecObeyed for u32 {
    proof fn obeys() {
    }
}

impl EqSpecObeyed for u64 {
    proof fn obeys() {
    }
}

impl EqSpecObeyed for usize {
    proof fn obeys() {
    }
}

impl EqSpecObeyed for i8 {
    proof fn obeys() {
    }
}

impl EqSpecObeyed for i16 {
    proof fn obeys() {
    }
}

impl EqSpecObeyed for i32 {
    proof fn obeys() {
    }
}

impl EqSpecObeyed for i64 {
    proof fn obeys() {
    }
}

impl EqSpecObeyed for isize {
    proof fn obeys() {
    }
}

impl EqSpecObeyed for u128 {
    proof fn obeys() {
    }
}

impl EqSpecObeyed for i128 {
    proof fn obeys() {
    }
}

impl<T0: EqSpecObeyed, T1: EqSpecObeyed> EqSpecObeyed for (T0, T1) {
    proof fn obeys() {
        T0::obeys();
        T1::obeys();
    }
}

/// A predicate over argument values of type `A`.
pub trait Matches<A>: Sized {
    /// Which argument values the matcher accepts.
    spec fn accepts(&self, a: A) -> bool;

    /// `k` names a predicate position that rejects `a`.
    spec fn fails_at(&self, a: A, k: usize) -> bool;

    /// Non-destructive membership test.
    fn matches(&self, a: &A) -> (r: bool)
        ensures
            r == self.accepts(*a),
    ;

    /// Diagnostic re-check of a selected candidate: `Err(k)` names the first
    /// predicate position that rejected the arguments.
    fn verify(&self, a: &A) -> (r: Result<(), usize>)
        ensures
            r is Ok <==> self.accepts(*a),
            r matches Err(k) ==> self.fails_at(*a, k),
    ;

    /// The default matcher of a fresh expectation: accepts every argument.
    fn accept_all() -> (m: Self)
        ensures
            forall|a: A| m.accepts(a),
    ;
}

/// A predicate over one argument.
#[derive(Debug)]
pub enum Pred<T> {
    /// Accept any value.
    Any,
    /// Accept exactly the stored value.
    EqTo(T),
    /// Accept everything but the stored value.
    NeTo(T),
}

impl<T: EqSpecObeyed> Pred<T> {
    /// Which values this single-argument predicate accepts.
    pub open spec fn spec_eval(self, a: T) -> bool {
        match self {
            Pred::Any => true,
            Pred::EqTo(v) => v.eq_spec(&a),
            Pred::NeTo(v) => !v.eq_spec(&a),
        }
    }

    /// Evaluate the predicate on one argument value.
    pub fn eval(&self, a: &T) -> (r: bool)
        ensures
            r == self.spec_eval(*a),
    {
        proof {
            T::obeys();
        }
        match self {
            Pred::Any => true,
            Pred::EqTo(v) => v == a,
            Pred::NeTo(v) => !(v == a),
        }
    }
}

impl<T: EqSpecObeyed> Matches<T> for Pred<T> {
    open spec fn accepts(&self, a: T) -> bool {
        self.spec_eval(a)
    }

    open spec fn fails_at(&self, a: T, k: usize) -> bool {
        !self.spec_eval(a) && k == 0
    }

    fn matches(&self, a: &T) -> (r: bool) {
        self.eval(a)
    }

    fn verify(&self, a: &T) -> (r: Result<(), usize>) {
        if self.eval(a) {
            Ok(())
        } else {
            Err(0)
        }
    }

    fn accept_all() -> (m: Self) {
        Pred::Any
    }
}

/// One predicate per argument of a two-argument call.
#[derive(Debug)]
pub struct Pred2<T0, T1> {
    /// Predicate on the first argument.
    pub p0: Pred<T0>,
    /// Predicate on the second argument.
    pub p1: Pred<T1>,
}

impl<T0, T1> Pred2<T0, T1> {
    /// Pair both per-argument predicates.
    pub fn both(p0: Pred<T0>, p1: Pred<T1>) -> (m: Pred2<T0, T1>)
        ensures
            m == (Pred2 { p0, p1 }),
    {
        Pred2 { p0, p1 }
    }
}

impl<T0: EqSpecObeyed, T1: EqSpecObeyed> Matches<(T0, T1)> for Pred2<T0, T1> {
    open spec fn accepts(&self, a: (T0, T1)) -> bool {
        self.p0.spec_eval(a.0) && self.p1.spec_eval(a.1)
    }

    open spec fn fails_at(&self, a: (T0, T1), k: usize) -> bool {
        ||| k == 0 && !self.p0.spec_eval(a.0)
        ||| k == 1 && self.p0.spec_eval(a.0) && !self.p1.spec_eval(a.1)
    }

    fn matches(&self, a: &(T0, T1)) -> (r: bool) {
        self.p0.eval(&a.0) && self.p1.eval(&a.1)
    }

    fn verify(&self, a: &(T0, T1)) -> (r: Result<(), usize>) {
        if !self.p0.eval(&a.0) {
            Err(0)
        } else if !self.p1.eval(&a.1) {
            Err(1)
        } else {
            Ok(())
        }
    }

    fn accept_all() -> (m: Self) {
        Pred2 { p0: Pred::Any, p1: Pred::Any }
    }
}

/// The matcher that accepts every argument value, for argument types whose
/// `==` carries no specification.
#[derive(Debug)]
pub struct AnyArgs<A> {
    /// The argument type the matcher is for.
    pub marker: core::marker::PhantomData<A>,
}

impl<A> AnyArgs<A> {
    /// The matcher accepting every argument value.
    pub fn new() -> (m: Self)
        ensures
            forall|a: A| m.accepts(a),
    {
        AnyArgs { marker: core::marker::PhantomData }
    }
}

impl<A> Matches<A> for AnyArgs<A> {
    open spec fn accepts(&self, a: A) -> bool {
        true
    }

    open spec fn fails_at(&self, a: A, k: usize) -> bool {
        false
    }

    fn matches(&self, a: &A) -> (r: bool) {
        true
    }

    fn verify(&self, a: &A) -> (r: Result<(), usize>) {
        Ok(())
    }

    fn accept_all() -> (m: Self) {
        AnyArgs { marker: core::marker::PhantomData }
    }
}

/// Type-erased storage of a user-supplied whole-value predicate closure.
/// Opaque to the verifier; see [`FnMatcher`].
#[verifier::external_body]
#[verifier::reject_recursive_types(A)]
pub struct RawPredFn<A> {
    f: Box<dyn Fn(&A) -> bool + Send>,
}

/// A whole-value predicate closure together with the predicate it decides,
/// recorded when it was stored.  `None` in `raw` is the accept-all matcher.
/// The raw closure and the ghost predicate are only ever paired by
/// [`FnMatcher::new`], whose requires admits only closures that are callable
/// on every argument and return one fixed boolean per argument value; that
/// pairing is what the trusted invocation below relies on.
#[verifier::reject_recursive_types(A)]
pub struct FnMatcher<A> {
    raw: Option<RawPredFn<A>>,
    pred: Ghost<spec_fn(A) -> bool>,
}

/// Relies on `Box<dyn Fn>`: the body only boxes and erases the closure.
#[verifier::external_body]
fn raw_pred_fn<A, F: Fn(&A) -> bool + Send + 'static>(f: F) -> RawPredFn<A> {
    RawPredFn { f: Box::new(f) }
}

/// Relies on `Box<dyn Fn>`: calls the boxed predicate closure.  `m` pairs
/// that closure with the predicate it decides, recorded by
/// [`FnMatcher::new`]; under that constructor's requires the call returns
/// exactly the recorded predicate of the argument.
#[verifier::external_body]
fn raw_pred_invoke<A>(m: &FnMatcher<A>, a: &A) -> (r: bool)
    requires
        m.raw is Some,
    ensures
        r == (m.pred@)(*a),
{
    match &m.raw {
        Some(rp) => (rp.f)(a),
        None => true,
    }
}

impl<A> FnMatcher<A> {
    /// The predicate this matcher decides.
    pub closed spec fn spec_pred(self) -> spec_fn(A) -> bool {
        if self.raw is None {
            |a: A| true
        } else {
            self.pred@
        }
    }

    /// Store a whole-value predicate closure.  The closure must be callable
    /// on every argument value and must decide one fixed boolean per
    /// argument value; dispatch may evaluate it on any call, repeatedly.
    /// (Which boolean that is cannot be named abstractly: the recorded
    /// predicate is pinned only through the closure's own postcondition.)
    pub fn new<F: Fn(&A) -> bool + Send + 'static>(f: F) -> (m: Self)
        requires
            forall|a: A| call_requires(f, (&a,)),
            forall|a: A, b1: bool, b2: bool|
                call_ensures(f, (&a,), b1) && call_ensures(f, (&a,), b2) ==> b1 == b2,
        ensures
            forall|a: A, b: bool| call_ensures(f, (&a,), b) ==> b == (m.spec_pred())(a),
    {
        let ghost pred = |a: A| choose|b: bool| call_ensures(f, (&a,), b);
        let m = FnMatcher { raw: Some(raw_pred_fn(f)), pred: Ghost(pred) };
        proof {
            assert forall|a: A, b: bool| call_ensures(f, (&a,), b) implies b == (m.spec_pred())(
                a,
            ) by {
                assert(call_ensures(f, (&a,), pred(a)));
            };
        }
        m
    }

    /// Evaluate the recorded predicate on one argument value.
    pub fn eval(&self, a: &A) -> (r: bool)
        ensures
            r == (self.spec_pred())(*a),
    {
        match &self.raw {
            Some(_) => raw_pred_invoke(self, a),
            None => true,
        }
    }
}

impl<A> Matches<A> for FnMatcher<A> {
    open spec fn accepts(&self, a: A) -> bool {
        (self.spec_pred())(a)
    }

    open spec fn fails_at(&self, a: A, k: usize) -> bool {
        !(self.spec_pred())(a) && k == 0
    }

    fn matches(&self, a: &A) -> (r: bool) {
        self.eval(a)
    }

    fn verify(&self, a: &A) -> (r: Result<(), usize>) {
        if self.eval(a) {
            Ok(())
        } else {
            Err(0)
        }
    }

    fn accept_all() -> (m: Self) {
        FnMatcher { raw: None, pred: Ghost(|a: A| true) }
    }
}

/// A two-argument matcher built from per-argument predicates accepts an
/// argument pair exactly when each predicate accepts its own argument.
pub proof fn law_matcher_round_trip<T0: EqSpecObeyed, T1: EqSpecObeyed>(
    m: Pred2<T0, T1>,
    a0: T0,
    a1: T1,
)
    ensures
        m.accepts((a0, a1)) == (m.p0.spec_eval(a0) && m.p1.spec_eval(a1)),
{
}

} // verus!
