//! Reference-returning expectations (the value is owned by the expectation
//! and borrowed by the caller) and guard-based configuration.

use omnimock::Expectation;
use omnimock::ExpectationGuard;
use omnimock::FnMatcher;
use omnimock::Expectations;
use omnimock::MockError;
use omnimock::Pred;
use omnimock::RefExpectation;
use omnimock::RefExpectations;
use omnimock::RefMutExpectation;
use omnimock::RefMutExpectations;
use omnimock::Sequence;

#[test]
fn reference_return_borrows_the_stored_value() {
    let mut set: RefExpectations<u32, String, Pred<u32>> = RefExpectations::new();
    set.expect(RefExpectation::new().return_const(String::from("anchored")));
    assert_eq!(set.call(&1), Ok(&String::from("anchored")));
    assert_eq!(set.call(&2), Ok(&String::from("anchored")));
}

#[test]
fn reference_return_without_value_is_an_error() {
    let mut set: RefExpectations<u32, String, Pred<u32>> = RefExpectations::new();
    set.expect(RefExpectation::new());
    assert_eq!(set.call(&1), Err(MockError::NoReturnValue));
}

#[test]
fn reference_return_respects_call_counts() {
    let mut set: RefExpectations<u32, u64, Pred<u32>> = RefExpectations::new();
    set.expect(RefExpectation::new().times(1).return_const(8));
    assert_eq!(set.call(&0), Ok(&8));
    assert_eq!(set.call(&0), Err(MockError::TooManyCalls));
}

#[test]
fn mutable_reference_return_keeps_writes() {
    // return_var hands out the same stored variable on every call, so a
    // write through the borrow is seen by the next call.
    let mut seq = Sequence::new();
    let mut set: RefMutExpectations<u32, u64, Pred<u32>> = RefMutExpectations::new();
    set.expect(RefMutExpectation::new().return_var(5));
    {
        let v = set.call_mut(&mut seq, 0).unwrap();
        assert_eq!(*v, 5);
        *v = 99;
    }
    let v = set.call_mut(&mut seq, 0).unwrap();
    assert_eq!(*v, 99);
}

#[test]
fn mutable_reference_closure_recomputes_each_call() {
    let mut seq = Sequence::new();
    let mut set: RefMutExpectations<u32, u32, Pred<u32>> = RefMutExpectations::new();
    set.expect(RefMutExpectation::new().returning(|x| x * 2));
    {
        let v = set.call_mut(&mut seq, 3).unwrap();
        assert_eq!(*v, 6);
        *v = 1000;
    }
    // the closure overwrites the earlier write
    let v = set.call_mut(&mut seq, 4).unwrap();
    assert_eq!(*v, 8);
}

#[test]
fn mutable_reference_without_configuration_is_an_error() {
    let mut seq = Sequence::new();
    let mut set: RefMutExpectations<u32, u32, Pred<u32>> = RefMutExpectations::new();
    set.expect(RefMutExpectation::new());
    assert_eq!(set.call_mut(&mut seq, 1), Err(MockError::NoReturnValue));
}

#[test]
fn guard_configures_the_registered_expectation_in_place() {
    let mut set: Expectations<u32, u32, Pred<u32>> = Expectations::new();
    {
        let mut g = ExpectationGuard::new(&mut set);
        g.with(Pred::EqTo(4));
        g.times(1);
        g.returning(|x| x + 10);
    }
    assert_eq!(set.call(4), Ok(14));
    assert_eq!(set.call(4), Err(MockError::TooManyCalls));
}

#[test]
fn guard_in_sequence_orders_static_expectations() {
    let mut seq = Sequence::new();
    let mut set_a: Expectations<u32, u32, Pred<u32>> = Expectations::new();
    let mut set_b: Expectations<u32, u32, Pred<u32>> = Expectations::new();
    {
        let mut g = ExpectationGuard::new(&mut set_a);
        g.once();
        g.in_sequence(&mut seq);
        g.returning(|x| x);
    }
    {
        let mut g = ExpectationGuard::new(&mut set_b);
        g.once();
        g.in_sequence(&mut seq);
        g.returning(|x| x);
    }
    assert_eq!(set_a.call_in_seq(&mut seq, 1), Ok(1));
    assert_eq!(set_b.call_in_seq(&mut seq, 1), Ok(1));
}

#[test]
fn guard_never_forbids_calls() {
    let mut set: Expectations<u32, u32, Pred<u32>> = Expectations::new();
    {
        let mut g = ExpectationGuard::new(&mut set);
        g.never();
        g.returning(|x| x);
    }
    assert_eq!(set.call(1), Err(MockError::TooManyCalls));
}

#[test]
fn guard_whole_tuple_predicate_routes_by_function() {
    let mut set: Expectations<u32, u32, FnMatcher<u32>> = Expectations::new();
    {
        let mut g = ExpectationGuard::new(&mut set);
        g.withf(|x: &u32| *x % 2 == 0);
        g.returning(|x| x / 2);
    }
    assert_eq!(set.call(8), Ok(4));
    assert_eq!(set.call(7), Err(MockError::NoMatchingExpectation));
}

#[test]
fn guard_return_once_is_single_use() {
    let mut set: Expectations<u32, u32, Pred<u32>> = Expectations::new();
    {
        let mut g = ExpectationGuard::new(&mut set);
        g.return_once(|x| x * 3);
    }
    assert_eq!(set.call(2), Ok(6));
    assert_eq!(set.call(2), Err(MockError::OnceExhausted));
}

#[test]
fn mutable_reference_thread_confined_closure_works_on_owning_thread() {
    let mut seq = Sequence::new();
    let mut set: RefMutExpectations<u32, u32, Pred<u32>> = RefMutExpectations::new();
    set.expect(RefMutExpectation::new().returning_st(|x| x + 100));
    let v = set.call_mut(&mut seq, 1).unwrap();
    assert_eq!(*v, 101);
}

#[test]
fn expectation_builder_matches_reports_acceptance() {
    let e: Expectation<u32, u32, Pred<u32>> = Expectation::new().with(Pred::NeTo(3));
    assert!(e.matches(&4));
    assert!(!e.matches(&3));
    let r: RefExpectation<u32, u32, Pred<u32>> = RefExpectation::new().with(Pred::EqTo(2));
    assert!(r.matches(&2));
    assert!(!r.matches(&5));
}
