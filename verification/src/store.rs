//! Generic and static method mocking: a map from a runtime type key to a
//! type-erased expectation set, so that one declared generic method can have
//! an independent set of expectations per instantiation.  Entries are
//! created lazily on first registration for an unseen instantiation;
//! [`GenericExpectations::checkpoint`] clears every instantiation at once.
//!
//! The verified layer reasons about the map itself — which keys exist, and
//! that work under one key leaves every other key untouched; the erasure and
//! recovery of a concrete set goes through the `downcast` crate behind the
//! trusted items below.  What an erased entry holds cannot be spoken of in
//! a contract (a bodyless spec name cannot be generic in the set's
//! parameters), so the contracts here stop at the map level: the recovered
//! set is handed to the fully specified typed dispatch one call down, and
//! nothing ties this level's result to the entry's content.

use vstd::prelude::*;
use std::collections::HashMap;
use crate::error::MockError;
use crate::expectation::Expectation;
use crate::matcher::FnMatcher;
use crate::matcher::Matches;
use crate::sequence::Sequence;
use crate::set::Expectations;

verus! {

broadcast use vstd::std_specs::hash::group_hash_axioms;

/// A value identifying one instantiation of a generic method's argument and
/// return types.  It has no ordering semantics; it is only a map key.
///
/// The identification is probabilistic, not absolute: [`TypeKey::of`] and
/// [`TypeKey::of_named`] derive the value by hashing, so two different
/// instantiations may in principle share a key, and no contract states
/// uniqueness (nothing stronger can be said of a hash).  A collision is
/// always answered with [`MockError::WrongInstantiation`] — expectations of
/// one instantiation are never dispatched to another.
#[derive(Clone, Copy, Debug, PartialEq, Eq, Structural)]
pub struct TypeKey {
    /// The identifying value.
    pub k: u64,
}

impl TypeKey {
    /// Relies on `std::any::TypeId::of` and the default hasher: the key is a
    /// function of the type alone, stable within one process, which is all a
    /// map key for a per-process store needs.  (The type id can only be
    /// turned into a plain value by hashing, so this one wrapper holds the
    /// id-and-hash pair.  Two different types may in principle collide; a
    /// colliding registration is answered with
    /// [`MockError::WrongInstantiation`] rather than misdispatched.)
    #[verifier::external_body]
    pub fn of<T: 'static>() -> TypeKey {
        let mut h = std::collections::hash_map::DefaultHasher::new();
        std::hash::Hash::hash(&std::any::TypeId::of::<T>(), &mut h);
        TypeKey { k: std::hash::Hasher::finish(&h) }
    }

    /// As [`TypeKey::of`], additionally keyed by a method name, so that two
    /// mocked methods of the same signature keep separate expectation sets.
    /// Relies on the same `std::any::TypeId::of` and default hasher.
    #[verifier::external_body]
    pub fn of_named<T: 'static>(name: &str) -> TypeKey {
        let mut h = std::collections::hash_map::DefaultHasher::new();
        std::hash::Hash::hash(&std::any::TypeId::of::<T>(), &mut h);
        std::hash::Hash::hash(name, &mut h);
        TypeKey { k: std::hash::Hasher::finish(&h) }
    }
}

/// A type-erased expectation set, as stored under one key of a
/// [`GenericExpectations`] map.  Opaque to the verifier.
#[verifier::external_body]
pub struct ErasedSet {
    b: Box<dyn downcast::Any + Send>,
}

/// Relies on the `downcast` crate's `Any` erasure: the set is boxed as a
/// `dyn Any` trait object and nothing else is done to it.
#[verifier::external_body]
fn erase_set<A: Send + 'static, R: Send + 'static, M: Matches<A> + Send + 'static>(
    s: Expectations<A, R, M>,
) -> ErasedSet {
    ErasedSet { b: Box::new(s) }
}

/// Relies on `downcast::Downcast::downcast`: the boxed set is returned again
/// exactly when the erased entry holds this instantiation; otherwise
/// `DowncastError::into_object` hands the untouched box back, which is the
/// `Err` clause below.
#[verifier::external_body]
fn recover_set<A: Send + 'static, R: Send + 'static, M: Matches<A> + Send + 'static>(
    b: ErasedSet,
) -> (r: Result<Expectations<A, R, M>, ErasedSet>)
    ensures
        r matches Err(b2) ==> b2 == b,
{
    match downcast::Downcast::<Expectations<A, R, M>>::downcast(b.b) {
        Ok(s) => Ok(*s),
        Err(e) => Err(ErasedSet { b: e.into_object() }),
    }
}

/// The type-keyed store behind a mocked generic or static method: one
/// expectation set per instantiation seen so far.
pub struct GenericExpectations {
    /// The erased sets, keyed by instantiation.
    pub store: HashMap<u64, ErasedSet>,
}

impl GenericExpectations {
    /// An expectation set is stored for this instantiation key.
    pub open spec fn spec_has(self, key: TypeKey) -> bool {
        self.store@.contains_key(key.k)
    }

    /// An empty store.
    pub fn new() -> (g: Self)
        ensures
            g.store@ == Map::<u64, ErasedSet>::empty(),
    {
        GenericExpectations { store: HashMap::new() }
    }

    /// Register a configured expectation under the instantiation `key`,
    /// creating the instantiation's set if this is its first expectation.
    /// `Ok` carries the expectation's position within its set;
    /// `Err(WrongInstantiation)` reports that the entry under `key` belongs
    /// to another instantiation, and leaves the store unchanged.
    pub fn expect<A: Send + 'static, R: Send + 'static, M: Matches<A> + Send + 'static>(
        &mut self,
        key: TypeKey,
        e: Expectation<A, R, M>,
    ) -> (res: Result<usize, MockError>)
        ensures
            res is Ok ==> final(self).store@.dom() == old(self).store@.dom().insert(key.k),
            res is Err ==> final(self).store@ == old(self).store@ && res == Err::<
                usize,
                MockError,
            >(MockError::WrongInstantiation),
            forall|k2: u64|
                k2 != key.k && old(self).store@.contains_key(k2) ==> final(self).store@.contains_key(
                    k2,
                ) && final(self).store@[k2] == old(self).store@[k2],
            !old(self).spec_has(key) ==> res == Ok::<usize, MockError>(0),
    {
        match self.store.remove(&key.k) {
            None => {
                let mut s = Expectations::<A, R, M>::new();
                let i = s.expect(e);
                self.store.insert(key.k, erase_set(s));
                Ok(i)
            },
            Some(b) => match recover_set::<A, R, M>(b) {
                Ok(mut s) => {
                    let i = s.expect(e);
                    self.store.insert(key.k, erase_set(s));
                    Ok(i)
                },
                Err(b) => {
                    self.store.insert(key.k, b);
                    proof {
                        assert(self.store@ =~= old(self).store@);
                    }
                    Err(MockError::WrongInstantiation)
                },
            },
        }
    }

    /// Dispatch one call for the instantiation `key`, checking any sequence
    /// constraints against `seq`: a missing entry is the common dispatch
    /// miss; an entry of another instantiation is a key collision.  Keys
    /// other than `key` are untouched.
    pub fn call_in_seq<A: Send + 'static, R: Send + 'static, M: Matches<A> + Send + 'static>(
        &mut self,
        key: TypeKey,
        seq: &mut Sequence,
        args: A,
    ) -> (res: Result<R, MockError>)
        ensures
            !old(self).spec_has(key) ==> res == Err::<R, MockError>(
                MockError::NoMatchingExpectation,
            ) && final(self).store@ == old(self).store@ && *final(seq) == *old(seq),
            final(self).store@.dom() == old(self).store@.dom(),
            forall|k2: u64|
                k2 != key.k && old(self).store@.contains_key(k2) ==> final(self).store@.contains_key(
                    k2,
                ) && final(self).store@[k2] == old(self).store@[k2],
    {
        match self.store.remove(&key.k) {
            None => Err(MockError::NoMatchingExpectation),
            Some(b) => match recover_set::<A, R, M>(b) {
                Ok(mut s) => {
                    let res = s.call_in_seq(seq, args);
                    self.store.insert(key.k, erase_set(s));
                    res
                },
                Err(b) => {
                    self.store.insert(key.k, b);
                    proof {
                        assert(self.store@ =~= old(self).store@);
                    }
                    Err(MockError::WrongInstantiation)
                },
            },
        }
    }

    /// Dispatch one call for the instantiation `key`, for expectations that
    /// are in no sequence.
    pub fn call<A: Send + 'static, R: Send + 'static, M: Matches<A> + Send + 'static>(
        &mut self,
        key: TypeKey,
        args: A,
    ) -> (res: Result<R, MockError>)
        ensures
            !old(self).spec_has(key) ==> res == Err::<R, MockError>(
                MockError::NoMatchingExpectation,
            ) && final(self).store@ == old(self).store@,
            final(self).store@.dom() == old(self).store@.dom(),
            forall|k2: u64|
                k2 != key.k && old(self).store@.contains_key(k2) ==> final(self).store@.contains_key(
                    k2,
                ) && final(self).store@[k2] == old(self).store@[k2],
    {
        let mut scratch = Sequence::new();
        self.call_in_seq::<A, R, M>(key, &mut scratch, args)
    }

    /// Dispatch one call for the instantiation `key`, for mocked methods
    /// whose return type has a default value: an expectation selected
    /// without a configured return production yields that default.
    pub fn call_in_seq_with_default<
        A: Send + 'static,
        R: Send + Default + 'static,
        M: Matches<A> + Send + 'static,
    >(
        &mut self,
        key: TypeKey,
        seq: &mut Sequence,
        args: A,
    ) -> (res: Result<R, MockError>)
        ensures
            !old(self).spec_has(key) ==> res == Err::<R, MockError>(
                MockError::NoMatchingExpectation,
            ) && final(self).store@ == old(self).store@ && *final(seq) == *old(seq),
            final(self).store@.dom() == old(self).store@.dom(),
            forall|k2: u64|
                k2 != key.k && old(self).store@.contains_key(k2) ==> final(self).store@.contains_key(
                    k2,
                ) && final(self).store@[k2] == old(self).store@[k2],
    {
        match self.store.remove(&key.k) {
            None => Err(MockError::NoMatchingExpectation),
            Some(b) => match recover_set::<A, R, M>(b) {
                Ok(mut s) => {
                    let res = s.call_in_seq_with_default(seq, args);
                    self.store.insert(key.k, erase_set(s));
                    res
                },
                Err(b) => {
                    self.store.insert(key.k, b);
                    proof {
                        assert(self.store@ =~= old(self).store@);
                    }
                    Err(MockError::WrongInstantiation)
                },
            },
        }
    }

    /// Dispatch one call for the instantiation `key`, producing type
    /// defaults for unconfigured expectations, outside any sequence.
    pub fn call_with_default<
        A: Send + 'static,
        R: Send + Default + 'static,
        M: Matches<A> + Send + 'static,
    >(
        &mut self,
        key: TypeKey,
        args: A,
    ) -> (res: Result<R, MockError>)
        ensures
            !old(self).spec_has(key) ==> res == Err::<R, MockError>(
                MockError::NoMatchingExpectation,
            ) && final(self).store@ == old(self).store@,
            final(self).store@.dom() == old(self).store@.dom(),
            forall|k2: u64|
                k2 != key.k && old(self).store@.contains_key(k2) ==> final(self).store@.contains_key(
                    k2,
                ) && final(self).store@[k2] == old(self).store@[k2],
    {
        let mut scratch = Sequence::new();
        self.call_in_seq_with_default::<A, R, M>(key, &mut scratch, args)
    }

    /// Every expectation of the instantiation `key` has reached its lower
    /// call-count bound; check before [`GenericExpectations::checkpoint`]
    /// to assert that everything configured for that instantiation was
    /// actually used.  A missing entry counts as satisfied (nothing was
    /// configured).
    pub fn all_satisfied<A: Send + 'static, R: Send + 'static, M: Matches<A> + Send + 'static>(
        &mut self,
        key: TypeKey,
    ) -> (res: Result<bool, MockError>)
        ensures
            !old(self).spec_has(key) ==> res == Ok::<bool, MockError>(true)
                && final(self).store@ == old(self).store@,
            final(self).store@.dom() == old(self).store@.dom(),
            forall|k2: u64|
                k2 != key.k && old(self).store@.contains_key(k2) ==> final(self).store@.contains_key(
                    k2,
                ) && final(self).store@[k2] == old(self).store@[k2],
    {
        match self.store.remove(&key.k) {
            None => Ok(true),
            Some(b) => match recover_set::<A, R, M>(b) {
                Ok(s) => {
                    let r = s.all_satisfied();
                    self.store.insert(key.k, erase_set(s));
                    Ok(r)
                },
                Err(b) => {
                    self.store.insert(key.k, b);
                    proof {
                        assert(self.store@ =~= old(self).store@);
                    }
                    Err(MockError::WrongInstantiation)
                },
            },
        }
    }

    /// Drop the expectations of every instantiation at once, ending the
    /// current test phase; the per-instantiation sets are erased here, so
    /// satisfaction is asserted per instantiation first, with
    /// [`GenericExpectations::all_satisfied`].
    pub fn checkpoint(&mut self)
        ensures
            final(self).store@ == Map::<u64, ErasedSet>::empty(),
    {
        self.store.clear();
    }
}

/// Scoped configuration of a freshly registered expectation of one generic
/// instantiation.  While the guard lives, the instantiation's set is held
/// out of the store, so configuration has exclusive access to it and full
/// contracts; [`GenericExpectationGuard::finish`] puts the set back under
/// its key.  (A guard that is dropped without `finish` drops the whole
/// instantiation's set with it.)
#[verifier::reject_recursive_types(A)]
#[verifier::reject_recursive_types(R)]
pub struct GenericExpectationGuard<
    'a,
    A: Send + 'static,
    R: Send + 'static,
    M: Matches<A> + Send + 'static,
> {
    /// The borrowed store.
    pub store: &'a mut GenericExpectations,
    /// The instantiation under configuration.
    pub key: TypeKey,
    /// The instantiation's set, held here while the guard lives.
    pub set: Expectations<A, R, M>,
    /// Position of the expectation under configuration.
    pub i: usize,
}

impl<'a, A: Send + 'static, R: Send + 'static, M: Matches<A> + Send + 'static>
    GenericExpectationGuard<'a, A, R, M> {
    /// The guarded position lies within the held set.
    pub open spec fn in_range(self) -> bool {
        self.i < self.set.v@.len()
    }

    /// The expectation under configuration.
    pub open spec fn entry(self) -> Expectation<A, R, M> {
        self.set.v@[self.i as int]
    }

    /// Take the instantiation's set out of the store — creating it if this
    /// is the instantiation's first expectation — and register a fresh
    /// expectation with it.  `Err(WrongInstantiation)` reports that the
    /// entry under `key` belongs to another instantiation, and leaves the
    /// store unchanged.
    pub fn new(store: &'a mut GenericExpectations, key: TypeKey) -> (r: Result<
        Self,
        MockError,
    >)
        ensures
            !old(store).spec_has(key) ==> r is Ok,
            match r {
                Ok(g) => {
                    &&& g.key == key
                    &&& g.in_range()
                    &&& g.i + 1 == g.set.v@.len()
                    &&& forall|a: A| g.entry().accepts(a)
                    &&& g.entry().times == (crate::times::Times {
                        lower: 0,
                        upper: usize::MAX,
                        count: 0,
                    })
                    &&& g.entry().seq_handle is None
                    &&& g.entry().rfunc is Default
                    &&& (!old(store).spec_has(key) ==> g.set.v@.len() == 1)
                    &&& g.store.store@ == old(store).store@.remove(key.k)
                    &&& *final(store) == *final(g.store)
                },
                Err(e) => {
                    &&& e == MockError::WrongInstantiation
                    &&& final(store).store@ == old(store).store@
                },
            },
    {
        let mut set: Expectations<A, R, M> = match store.store.remove(&key.k) {
            None => Expectations::new(),
            Some(b) => match recover_set::<A, R, M>(b) {
                Ok(s) => s,
                Err(b) => {
                    store.store.insert(key.k, b);
                    proof {
                        assert(store.store@ =~= old(store).store@);
                    }
                    return Err(MockError::WrongInstantiation);
                },
            },
        };
        let i = set.expect(Expectation::new());
        Ok(GenericExpectationGuard { store, key, set, i })
    }

    /// Require the guarded expectation to be called exactly `n` times.
    pub fn times(&mut self, n: usize)
        requires
            old(self).in_range(),
        ensures
            final(self).in_range(),
            final(self).store == old(self).store,
            final(self).key == old(self).key,
            final(self).i == old(self).i,
            final(self).set.v@ == old(self).set.v@.update(
                old(self).i as int,
                (Expectation {
                    times: crate::times::Times {
                        lower: n,
                        upper: n,
                        count: old(self).entry().times.count,
                    },
                    ..old(self).entry()
                }),
            ),
    {
        let e = self.set.v.remove(self.i);
        self.set.v.insert(self.i, e.times(n));
    }

    /// Require the guarded expectation to be called exactly once.
    pub fn once(&mut self)
        requires
            old(self).in_range(),
        ensures
            final(self).in_range(),
            final(self).store == old(self).store,
            final(self).key == old(self).key,
            final(self).i == old(self).i,
            final(self).set.v@ == old(self).set.v@.update(
                old(self).i as int,
                (Expectation {
                    times: crate::times::Times {
                        lower: 1,
                        upper: 1,
                        count: old(self).entry().times.count,
                    },
                    ..old(self).entry()
                }),
            ),
    {
        self.times(1);
    }

    /// Allow the guarded expectation to be called any number of times.
    pub fn times_any(&mut self)
        requires
            old(self).in_range(),
        ensures
            final(self).in_range(),
            final(self).store == old(self).store,
            final(self).key == old(self).key,
            final(self).i == old(self).i,
            final(self).set.v@ == old(self).set.v@.update(
                old(self).i as int,
                (Expectation {
                    times: crate::times::Times {
                        lower: 0,
                        upper: usize::MAX,
                        count: old(self).entry().times.count,
                    },
                    ..old(self).entry()
                }),
            ),
    {
        let e = self.set.v.remove(self.i);
        self.set.v.insert(self.i, e.times_any());
    }

    /// Allow a number of calls in the half-open interval `[start, end)`.
    pub fn times_range(&mut self, start: usize, end: usize)
        requires
            old(self).in_range(),
            start < end,
        ensures
            final(self).in_range(),
            final(self).store == old(self).store,
            final(self).key == old(self).key,
            final(self).i == old(self).i,
            final(self).set.v@ == old(self).set.v@.update(
                old(self).i as int,
                (Expectation {
                    times: crate::times::Times {
                        lower: start,
                        upper: (end - 1) as usize,
                        count: old(self).entry().times.count,
                    },
                    ..old(self).entry()
                }),
            ),
    {
        let e = self.set.v.remove(self.i);
        self.set.v.insert(self.i, e.times_range(start, end));
    }

    /// Forbid the guarded expectation from ever being called.
    pub fn never(&mut self)
        requires
            old(self).in_range(),
        ensures
            final(self).in_range(),
            final(self).store == old(self).store,
            final(self).key == old(self).key,
            final(self).i == old(self).i,
            final(self).set.v@ == old(self).set.v@.update(
                old(self).i as int,
                (Expectation {
                    times: crate::times::Times {
                        lower: 0,
                        upper: 0,
                        count: old(self).entry().times.count,
                    },
                    ..old(self).entry()
                }),
            ),
    {
        let e = self.set.v.remove(self.i);
        self.set.v.insert(self.i, e.never());
    }

    /// Replace the guarded expectation's argument matcher.
    pub fn with(&mut self, m: M)
        requires
            old(self).in_range(),
        ensures
            final(self).in_range(),
            final(self).store == old(self).store,
            final(self).key == old(self).key,
            final(self).i == old(self).i,
            final(self).set.v@ == old(self).set.v@.update(
                old(self).i as int,
                (Expectation { matcher: m, ..old(self).entry() }),
            ),
    {
        let e = self.set.v.remove(self.i);
        self.set.v.insert(self.i, e.with(m));
    }

    /// Put the guarded expectation into the sequence `seq`.
    pub fn in_sequence(&mut self, seq: &mut Sequence)
        requires
            old(self).in_range(),
            old(self).entry().times.spec_is_exact(),
            old(seq).next_index < usize::MAX,
        ensures
            final(self).in_range(),
            final(self).store == old(self).store,
            final(self).key == old(self).key,
            final(self).i == old(self).i,
            final(self).set.v@ == old(self).set.v@.update(
                old(self).i as int,
                (Expectation {
                    seq_handle: Some(
                        crate::sequence::SeqHandle { index: old(seq).next_index },
                    ),
                    ..old(self).entry()
                }),
            ),
            *final(seq) == (Sequence {
                next_index: (old(seq).next_index + 1) as usize,
                ..*old(seq)
            }),
    {
        let e = self.set.v.remove(self.i);
        self.set.v.insert(self.i, e.in_sequence(seq));
    }

    /// Produce the guarded expectation's return value by calling `f` on
    /// every matched call.
    pub fn returning<F: Fn(A) -> R + Send + 'static>(&mut self, f: F)
        requires
            old(self).in_range(),
            forall|a: A| call_requires(f, (a,)),
        ensures
            final(self).in_range(),
            final(self).store == old(self).store,
            final(self).key == old(self).key,
            final(self).i == old(self).i,
            final(self).set.v@.len() == old(self).set.v@.len(),
            forall|j: int|
                0 <= j < old(self).set.v@.len() && j != old(self).i ==> final(self).set.v@[j]
                    == old(self).set.v@[j],
            final(self).entry().matcher == old(self).entry().matcher,
            final(self).entry().times == old(self).entry().times,
            final(self).entry().seq_handle == old(self).entry().seq_handle,
            match final(self).entry().rfunc {
                crate::rfunc::Rfunc::Mut(h) => h.spec_post() == (
                |a: A, r: R| call_ensures(f, (a,), r)
                ),
                _ => false,
            },
    {
        let e = self.set.v.remove(self.i);
        self.set.v.insert(self.i, e.returning(f));
    }

    /// Thread-confined form of [`GenericExpectationGuard::returning`].
    pub fn returning_st<F: Fn(A) -> R + 'static>(&mut self, f: F)
        requires
            old(self).in_range(),
            forall|a: A| call_requires(f, (a,)),
        ensures
            final(self).in_range(),
            final(self).store == old(self).store,
            final(self).key == old(self).key,
            final(self).i == old(self).i,
            final(self).set.v@.len() == old(self).set.v@.len(),
            forall|j: int|
                0 <= j < old(self).set.v@.len() && j != old(self).i ==> final(self).set.v@[j]
                    == old(self).set.v@[j],
            final(self).entry().matcher == old(self).entry().matcher,
            final(self).entry().times == old(self).entry().times,
            final(self).entry().seq_handle == old(self).entry().seq_handle,
            match final(self).entry().rfunc {
                crate::rfunc::Rfunc::MutSt(h) => h.spec_post() == (
                |a: A, r: R| call_ensures(f, (a,), r)
                ),
                _ => false,
            },
    {
        let e = self.set.v.remove(self.i);
        self.set.v.insert(self.i, e.returning_st(f));
    }

    /// Produce the guarded expectation's return value by calling `f` at
    /// most once.
    pub fn return_once<F: FnOnce(A) -> R + Send + 'static>(&mut self, f: F)
        requires
            old(self).in_range(),
            forall|a: A| call_requires(f, (a,)),
        ensures
            final(self).in_range(),
            final(self).store == old(self).store,
            final(self).key == old(self).key,
            final(self).i == old(self).i,
            final(self).set.v@.len() == old(self).set.v@.len(),
            forall|j: int|
                0 <= j < old(self).set.v@.len() && j != old(self).i ==> final(self).set.v@[j]
                    == old(self).set.v@[j],
            final(self).entry().matcher == old(self).entry().matcher,
            final(self).entry().times == old(self).entry().times,
            final(self).entry().seq_handle == old(self).entry().seq_handle,
            match final(self).entry().rfunc {
                crate::rfunc::Rfunc::Once(h) => h.spec_post() == (
                |a: A, r: R| call_ensures(f, (a,), r)
                ),
                _ => false,
            },
    {
        let e = self.set.v.remove(self.i);
        self.set.v.insert(self.i, e.return_once(f));
    }

    /// Put the configured set back into the store under its key.
    pub fn finish(self)
        ensures
            final(self.store).store@.dom() == old(self.store).store@.dom().insert(self.key.k),
            final(self.store).store@.contains_key(self.key.k),
            forall|k2: u64|
                k2 != self.key.k && old(self.store).store@.contains_key(k2)
                    ==> final(self.store).store@.contains_key(k2)
                    && final(self.store).store@[k2] == old(self.store).store@[k2],
    {
        let GenericExpectationGuard { store, key, set, i: _ } = self;
        store.store.insert(key.k, erase_set(set));
    }
}

impl<'a, A: Send + 'static, R: Send + 'static> GenericExpectationGuard<'a, A, R, FnMatcher<A>> {
    /// Replace the guarded expectation's matcher with a whole-tuple
    /// predicate function; see [`Expectation::withf`] for the closure's
    /// obligations.
    pub fn withf<F: Fn(&A) -> bool + Send + 'static>(&mut self, f: F)
        requires
            old(self).in_range(),
            forall|a: A| call_requires(f, (&a,)),
            forall|a: A, b1: bool, b2: bool|
                call_ensures(f, (&a,), b1) && call_ensures(f, (&a,), b2) ==> b1 == b2,
        ensures
            final(self).in_range(),
            final(self).store == old(self).store,
            final(self).key == old(self).key,
            final(self).i == old(self).i,
            final(self).set.v@.len() == old(self).set.v@.len(),
            forall|j: int|
                0 <= j < old(self).set.v@.len() && j != old(self).i ==> final(self).set.v@[j]
                    == old(self).set.v@[j],
            final(self).entry().times == old(self).entry().times,
            final(self).entry().seq_handle == old(self).entry().seq_handle,
            final(self).entry().rfunc == old(self).entry().rfunc,
            forall|a: A, b: bool|
                call_ensures(f, (&a,), b) ==> b == (final(self).entry().matcher.spec_pred())(a),
    {
        let e = self.set.v.remove(self.i);
        self.set.v.insert(self.i, e.withf(f));
    }
}

/// Generic isolation: registering an expectation under one instantiation key
/// neither creates nor changes the entry of any other key — so it cannot be
/// seen by, or satisfy, dispatch for another instantiation, whose calls are
/// answered exactly as before.
pub proof fn law_generic_isolation(
    st: GenericExpectations,
    st2: GenericExpectations,
    k1: TypeKey,
    k2: TypeKey,
)
    requires
        k1.k != k2.k,
        st2.store@.dom() == st.store@.dom().insert(k1.k),
        forall|k: u64|
            k != k1.k && st.store@.contains_key(k) ==> st2.store@.contains_key(k)
                && st2.store@[k] == st.store@[k],
    ensures
        st.spec_has(k2) <==> st2.spec_has(k2),
        st2.spec_has(k2) ==> st2.store@[k2.k] == st.store@[k2.k],
{
    assert(st.store@.dom().insert(k1.k).contains(k2.k) <==> st.store@.dom().contains(k2.k));
}

} // verus!
