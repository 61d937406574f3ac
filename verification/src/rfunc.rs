//! Return-value production.  An expectation produces its return value from a
//! user-supplied closure, stored type-erased; beside each stored closure the
//! engine keeps the closure's postcondition as a ghost predicate, recorded at
//! the moment the closure was stored, so that dispatch contracts can relate
//! the produced value to the registered closure.
//!
//! The strategy is an explicit state machine: a single-use closure is
//! replaced by [`Rfunc::Expired`] when it produces its value, and a further
//! use is an error.  Thread-confined forms hold the closure in a
//! `fragile::Fragile` and report an error instead of a value when used from
//! a foreign thread.

use vstd::prelude::*;
use crate::error::MockError;

verus! {

/// Type-erased storage of a repeatable, cross-thread return closure.
/// Opaque to the verifier; see [`RetFn`].
#[verifier::external_body]
#[verifier::reject_recursive_types(A)]
#[verifier::reject_recursive_types(R)]
pub struct RawRetFn<A, R> {
    f: Box<dyn Fn(A) -> R + Send>,
}

/// Type-erased storage of a single-use, cross-thread return closure.
#[verifier::external_body]
#[verifier::reject_recursive_types(A)]
#[verifier::reject_recursive_types(R)]
pub struct RawOnceFn<A, R> {
    f: Box<dyn FnOnce(A) -> R + Send>,
}

/// Type-erased storage of a repeatable, thread-confined return closure.
#[verifier::external_body]
#[verifier::reject_recursive_types(A)]
#[verifier::reject_recursive_types(R)]
pub struct RawRetFnSt<A, R> {
    f: fragile::Fragile<Box<dyn Fn(A) -> R>>,
}

/// Type-erased storage of a single-use, thread-confined return closure.
#[verifier::external_body]
#[verifier::reject_recursive_types(A)]
#[verifier::reject_recursive_types(R)]
pub struct RawOnceFnSt<A, R> {
    f: fragile::Fragile<Box<dyn FnOnce(A) -> R>>,
}

/// A repeatable return closure together with the postcondition recorded when
/// it was stored.  The raw closure and the ghost postcondition are only ever
/// paired by [`RetFn::new`], which records exactly the stored closure's
/// postcondition, and by [`RetFn::new_const`], which records that every
/// produced value is a clone of the stored constant; that pairing is what
/// the trusted invocation below relies on.
#[verifier::reject_recursive_types(A)]
#[verifier::reject_recursive_types(R)]
pub struct RetFn<A, R> {
    raw: RawRetFn<A, R>,
    post: Ghost<spec_fn(A, R) -> bool>,
}

/// A single-use return closure with its recorded postcondition.
#[verifier::reject_recursive_types(A)]
#[verifier::reject_recursive_types(R)]
pub struct OnceFn<A, R> {
    raw: RawOnceFn<A, R>,
    post: Ghost<spec_fn(A, R) -> bool>,
}

/// A repeatable, thread-confined return closure with its recorded
/// postcondition.
#[verifier::reject_recursive_types(A)]
#[verifier::reject_recursive_types(R)]
pub struct RetFnSt<A, R> {
    raw: RawRetFnSt<A, R>,
    post: Ghost<spec_fn(A, R) -> bool>,
}

/// A single-use, thread-confined return closure with its recorded
/// postcondition.
#[verifier::reject_recursive_types(A)]
#[verifier::reject_recursive_types(R)]
pub struct OnceFnSt<A, R> {
    raw: RawOnceFnSt<A, R>,
    post: Ghost<spec_fn(A, R) -> bool>,
}

/// Relies on `Box<dyn Fn>`: the body only boxes and erases the closure.
#[verifier::external_body]
fn raw_ret_fn<A, R, F: Fn(A) -> R + Send + 'static>(f: F) -> RawRetFn<A, R> {
    RawRetFn { f: Box::new(f) }
}

/// Relies on `Box<dyn Fn>` and `R::clone`: the boxed closure ignores its
/// argument and returns a clone of the stored value, so every value it ever
/// produces is a clone of `c`.
#[verifier::external_body]
fn raw_const_fn<A: 'static, R: Clone + Send + 'static>(c: R) -> RawRetFn<A, R> {
    RawRetFn { f: Box::new(move |_a: A| c.clone()) }
}

/// Relies on `Box<dyn FnOnce>`: the body only boxes and erases the closure.
#[verifier::external_body]
fn raw_once_fn<A, R, F: FnOnce(A) -> R + Send + 'static>(f: F) -> RawOnceFn<A, R> {
    RawOnceFn { f: Box::new(f) }
}

/// Relies on `fragile::Fragile::new`: anchors the boxed closure to the
/// calling thread.
#[verifier::external_body]
fn raw_ret_fn_st<A, R, F: Fn(A) -> R + 'static>(f: F) -> RawRetFnSt<A, R> {
    RawRetFnSt { f: fragile::Fragile::new(Box::new(f)) }
}

/// Relies on `fragile::Fragile::new`: anchors the boxed closure to the
/// calling thread.
#[verifier::external_body]
fn raw_once_fn_st<A, R, F: FnOnce(A) -> R + 'static>(f: F) -> RawOnceFnSt<A, R> {
    RawOnceFnSt { f: fragile::Fragile::new(Box::new(f)) }
}

/// Relies on `Box<dyn Fn>`: calls the boxed closure.  `h` pairs that closure
/// with its own postcondition, recorded by [`RetFn::new`], whose requires
/// admits only closures callable on every argument; so this call is within
/// the closure's precondition and returns a value its postcondition allows
/// for `a`.  ([`RetFn::new_const`] records the postcondition of the total
/// clone closure it stores itself.)
#[verifier::external_body]
fn raw_ret_invoke<A, R>(h: &RetFn<A, R>, a: A) -> (r: R)
    ensures
        (h.post@)(a, r),
{
    (h.raw.f)(a)
}

/// Relies on `Box<dyn FnOnce>`: consumes the holder and calls the boxed
/// closure once.  As in [`raw_ret_invoke`], `h.post` is the postcondition of
/// the stored closure, which [`OnceFn::new`] admits only when it is callable
/// on every argument.
#[verifier::external_body]
fn raw_once_invoke<A, R>(h: OnceFn<A, R>, a: A) -> (r: R)
    ensures
        (h.post@)(a, r),
{
    (h.raw.f)(a)
}

/// Relies on `fragile::Fragile::try_get`: on the thread that stored the
/// closure it yields the closure — total by [`RetFnSt::new`]'s requires —
/// which is then called; on any other thread it reports the invalid access
/// and nothing is called or dropped.
#[verifier::external_body]
fn raw_ret_st_invoke<A, R>(h: &RetFnSt<A, R>, a: A) -> (r: Option<R>)
    ensures
        r matches Some(v) ==> (h.post@)(a, v),
{
    match h.raw.f.try_get() {
        Ok(f) => Some(f(a)),
        Err(_) => None,
    }
}

/// Relies on `fragile::Fragile::try_into_inner`: on the owning thread the
/// closure — total by [`OnceFnSt::new`]'s requires — is recovered and
/// called once; on any other thread `Err(self)` hands the fragile wrapper
/// back untouched, and this wrapper returns it inside the holder rather
/// than dropping it here (dropping a fragile value with drop glue on a
/// foreign thread would abort).
#[verifier::external_body]
fn raw_once_st_invoke<A, R>(h: OnceFnSt<A, R>, a: A) -> (r: Result<R, RawOnceFnSt<A, R>>)
    ensures
        r matches Ok(v) ==> (h.post@)(a, v),
        r matches Err(raw2) ==> raw2 == h.raw,
{
    match h.raw.f.try_into_inner() {
        Ok(f) => Ok(f(a)),
        Err(frag) => Err(RawOnceFnSt { f: frag }),
    }
}

impl<A, R> RetFn<A, R> {
    /// The postcondition recorded for the stored closure.
    pub closed spec fn spec_post(self) -> spec_fn(A, R) -> bool {
        self.post@
    }

    /// Store a repeatable return closure.  The closure must be callable on
    /// every argument value: dispatch may invoke it on any matched call, so
    /// its recorded postcondition is only sound when its precondition never
    /// restricts the arguments.
    pub fn new<F: Fn(A) -> R + Send + 'static>(f: F) -> (h: Self)
        requires
            forall|a: A| call_requires(f, (a,)),
        ensures
            h.spec_post() == (|a: A, r: R| call_ensures(f, (a,), r)),
    {
        let post = Ghost(|a: A, r: R| call_ensures(f, (a,), r));
        RetFn { raw: raw_ret_fn(f), post }
    }

    /// Store a closure returning a clone of `c` on every call.
    pub fn new_const(c: R) -> (h: Self) where A: 'static, R: Clone + Send + 'static
        ensures
            h.spec_post() == (|a: A, r: R| vstd::pervasive::cloned::<R>(c, r)),
    {
        let post = Ghost(|a: A, r: R| vstd::pervasive::cloned::<R>(c, r));
        RetFn { raw: raw_const_fn(c), post }
    }

    /// Produce a value for the arguments `a`.
    pub fn invoke(&self, a: A) -> (r: R)
        ensures
            (self.spec_post())(a, r),
    {
        raw_ret_invoke(self, a)
    }
}

impl<A, R> OnceFn<A, R> {
    /// The postcondition recorded for the stored closure.
    pub closed spec fn spec_post(self) -> spec_fn(A, R) -> bool {
        self.post@
    }

    /// Store a single-use return closure, callable on every argument value
    /// (see [`RetFn::new`]).
    pub fn new<F: FnOnce(A) -> R + Send + 'static>(f: F) -> (h: Self)
        requires
            forall|a: A| call_requires(f, (a,)),
        ensures
            h.spec_post() == (|a: A, r: R| call_ensures(f, (a,), r)),
    {
        let post = Ghost(|a: A, r: R| call_ensures(f, (a,), r));
        OnceFn { raw: raw_once_fn(f), post }
    }

    /// Produce the value for the arguments `a`, consuming the closure.
    pub fn invoke(self, a: A) -> (r: R)
        ensures
            (self.spec_post())(a, r),
    {
        raw_once_invoke(self, a)
    }
}

impl<A, R> RetFnSt<A, R> {
    /// The postcondition recorded for the stored closure.
    pub closed spec fn spec_post(self) -> spec_fn(A, R) -> bool {
        self.post@
    }

    /// Store a repeatable return closure confined to the current thread,
    /// callable on every argument value (see [`RetFn::new`]).
    pub fn new<F: Fn(A) -> R + 'static>(f: F) -> (h: Self)
        requires
            forall|a: A| call_requires(f, (a,)),
        ensures
            h.spec_post() == (|a: A, r: R| call_ensures(f, (a,), r)),
    {
        let post = Ghost(|a: A, r: R| call_ensures(f, (a,), r));
        RetFnSt { raw: raw_ret_fn_st(f), post }
    }

    /// Produce a value for the arguments `a`; `None` when called from a
    /// thread other than the one that stored the closure.
    pub fn invoke(&self, a: A) -> (r: Option<R>)
        ensures
            r matches Some(v) ==> (self.spec_post())(a, v),
    {
        raw_ret_st_invoke(self, a)
    }
}

impl<A, R> OnceFnSt<A, R> {
    /// The postcondition recorded for the stored closure.
    pub closed spec fn spec_post(self) -> spec_fn(A, R) -> bool {
        self.post@
    }

    /// Store a single-use return closure confined to the current thread,
    /// callable on every argument value (see [`RetFn::new`]).
    pub fn new<F: FnOnce(A) -> R + 'static>(f: F) -> (h: Self)
        requires
            forall|a: A| call_requires(f, (a,)),
        ensures
            h.spec_post() == (|a: A, r: R| call_ensures(f, (a,), r)),
    {
        let post = Ghost(|a: A, r: R| call_ensures(f, (a,), r));
        OnceFnSt { raw: raw_once_fn_st(f), post }
    }

    /// Produce the value for the arguments `a`, consuming the closure; when
    /// called from a foreign thread the untouched holder is handed back.
    pub fn invoke(self, a: A) -> (r: Result<R, Self>)
        ensures
            r matches Ok(v) ==> (self.spec_post())(a, v),
            r matches Err(h2) ==> h2 == self,
    {
        let ghost p = self.post@;
        match raw_once_st_invoke(self, a) {
            Ok(v) => Ok(v),
            Err(raw2) => Err(OnceFnSt { raw: raw2, post: Ghost(p) }),
        }
    }
}

/// The return strategy of one expectation.
#[verifier::reject_recursive_types(A)]
#[verifier::reject_recursive_types(R)]
pub enum Rfunc<A, R> {
    /// No return production configured: the `_with_default` entry points
    /// produce the return type's default value, the plain ones an error
    /// (owed to return types without a default).
    Default,
    /// A single-use closure already produced its value.
    Expired,
    /// A repeatable closure, invoked on every matched call.
    Mut(RetFn<A, R>),
    /// A repeatable, thread-confined closure.
    MutSt(RetFnSt<A, R>),
    /// A single-use closure; producing its value expires the strategy.
    Once(OnceFn<A, R>),
    /// A single-use, thread-confined closure.
    OnceSt(OnceFnSt<A, R>),
}

impl<A, R> Rfunc<A, R> {
    /// The strategy after one production attempt with outcome `r`:
    /// single-use forms expire when they produced their value; a
    /// thread-confined single-use closure refused on a foreign thread is
    /// kept for the owning thread; every other form is unchanged.
    pub open spec fn spec_after(self, r: Result<R, MockError>) -> Rfunc<A, R> {
        match self {
            Rfunc::Once(_) => Rfunc::Expired,
            Rfunc::OnceSt(_) => if r is Ok {
                Rfunc::Expired
            } else {
                self
            },
            _ => self,
        }
    }

    /// Which outcomes one production attempt on arguments `a` may have.
    pub open spec fn spec_outcome(self, a: A, r: Result<R, MockError>) -> bool {
        match self {
            Rfunc::Default => r == Err::<R, MockError>(MockError::NoReturnValue),
            Rfunc::Expired => r == Err::<R, MockError>(MockError::OnceExhausted),
            Rfunc::Mut(h) => match r {
                Ok(v) => (h.spec_post())(a, v),
                Err(_) => false,
            },
            Rfunc::MutSt(h) => match r {
                Ok(v) => (h.spec_post())(a, v),
                Err(e) => e == MockError::WrongThread,
            },
            Rfunc::Once(h) => match r {
                Ok(v) => (h.spec_post())(a, v),
                Err(_) => false,
            },
            Rfunc::OnceSt(h) => match r {
                Ok(v) => (h.spec_post())(a, v),
                Err(e) => e == MockError::WrongThread,
            },
        }
    }

    /// Which outcomes one production attempt on arguments `a` may have when
    /// the return type supports a default value: an unconfigured strategy
    /// produces the type's default instead of an error.
    pub open spec fn spec_outcome_with_default(self, a: A, r: Result<R, MockError>) -> bool where
        R: Default,
     {
        match self {
            Rfunc::Default => match r {
                Ok(v) => call_ensures(R::default, (), v),
                Err(_) => false,
            },
            _ => self.spec_outcome(a, r),
        }
    }

    /// Produce a return value for the arguments `a`, stepping the strategy's
    /// state machine.
    pub fn produce(&mut self, a: A) -> (r: Result<R, MockError>)
        ensures
            *final(self) == old(self).spec_after(r),
            old(self).spec_outcome(a, r),
    {
        let mut taken = Rfunc::Expired;
        std::mem::swap(self, &mut taken);
        match taken {
            Rfunc::Default => {
                *self = Rfunc::Default;
                Err(MockError::NoReturnValue)
            },
            Rfunc::Expired => Err(MockError::OnceExhausted),
            Rfunc::Mut(h) => {
                let v = h.invoke(a);
                *self = Rfunc::Mut(h);
                Ok(v)
            },
            Rfunc::MutSt(h) => {
                let out = h.invoke(a);
                *self = Rfunc::MutSt(h);
                match out {
                    Some(v) => Ok(v),
                    None => Err(MockError::WrongThread),
                }
            },
            Rfunc::Once(h) => Ok(h.invoke(a)),
            Rfunc::OnceSt(h) => match h.invoke(a) {
                Ok(v) => Ok(v),
                Err(h2) => {
                    *self = Rfunc::OnceSt(h2);
                    Err(MockError::WrongThread)
                },
            },
        }
    }

    /// Produce a return value for the arguments `a`, for mocked methods
    /// whose return type has a default value: an unconfigured strategy
    /// produces that default.
    pub fn produce_with_default(&mut self, a: A) -> (r: Result<R, MockError>) where R: Default
        ensures
            *final(self) == old(self).spec_after(r),
            old(self).spec_outcome_with_default(a, r),
    {
        match self {
            Rfunc::Default => Ok(R::default()),
            _ => self.produce(a),
        }
    }
}

} // verus!
