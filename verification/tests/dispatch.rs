//! Dispatch behaviour of an expectation set: FIFO routing, call-count
//! bounds, and the error taxonomy of a missed or over-used expectation.

use omnimock::Expectation;
use omnimock::Expectations;
use omnimock::FnMatcher;
use omnimock::MockError;
use omnimock::Pred;
use omnimock::AnyArgs;

#[test]
fn two_matching_expectations_route_fifo() {
    // e1 (registered first, exactly one call) gets call 1; e2 gets call 2.
    let mut set: Expectations<u32, u32, Pred<u32>> = Expectations::new();
    set.expect(Expectation::new().times(1).returning(|_x| 1));
    set.expect(Expectation::new().returning(|_x| 2));
    assert_eq!(set.call(10), Ok(1));
    assert_eq!(set.call(10), Ok(2));
    assert_eq!(set.call(10), Ok(2));
}

#[test]
fn sole_exhausted_expectation_reports_too_many_calls() {
    let mut set: Expectations<u32, u32, Pred<u32>> = Expectations::new();
    set.expect(Expectation::new().times(2).returning(|x| x));
    assert_eq!(set.call(7), Ok(7));
    assert_eq!(set.call(7), Ok(7));
    assert_eq!(set.call(7), Err(MockError::TooManyCalls));
    assert_eq!(
        MockError::TooManyCalls.describe(),
        "called more times than expected"
    );
}

#[test]
fn exhausted_expectation_is_skipped_when_another_matches() {
    let mut set: Expectations<u32, u32, Pred<u32>> = Expectations::new();
    set.expect(Expectation::new().times(1).returning(|_x| 1));
    set.expect(Expectation::new().times(1).returning(|_x| 2));
    assert_eq!(set.call(0), Ok(1));
    assert_eq!(set.call(0), Ok(2));
    // both exhausted and the set has more than one expectation: dispatch miss
    assert_eq!(set.call(0), Err(MockError::NoMatchingExpectation));
}

#[test]
fn per_argument_predicates_route_by_value() {
    // with(eq(5)) -> x + 1 and with(eq(6)) -> x * 2; 7 matches nothing.
    let mut set: Expectations<u32, u32, Pred<u32>> = Expectations::new();
    set.expect(Expectation::new().with(Pred::EqTo(5)).returning(|x| x + 1));
    set.expect(Expectation::new().with(Pred::EqTo(6)).returning(|x| x * 2));
    assert_eq!(set.call(5), Ok(6));
    assert_eq!(set.call(6), Ok(12));
    let miss = set.call(7);
    assert_eq!(miss, Err(MockError::NoMatchingExpectation));
    assert_eq!(
        MockError::NoMatchingExpectation.describe(),
        "no matching expectation found"
    );
}

#[test]
fn exact_count_allows_each_call_then_overflows() {
    // times(2) with a zero-argument method: both calls return 1, call 3 fails.
    let mut set: Expectations<(), u64, AnyArgs<()>> = Expectations::new();
    set.expect(Expectation::new().times(2).returning(|_a| 1));
    assert_eq!(set.call(()), Ok(1));
    assert_eq!(set.call(()), Ok(1));
    assert_eq!(set.call(()), Err(MockError::TooManyCalls));
}

#[test]
fn never_forbids_every_call() {
    let mut set: Expectations<u32, u32, Pred<u32>> = Expectations::new();
    set.expect(Expectation::new().never().returning(|x| x));
    assert_eq!(set.call(1), Err(MockError::TooManyCalls));
}

#[test]
fn times_range_counts_within_half_open_interval() {
    let mut set: Expectations<u32, u32, Pred<u32>> = Expectations::new();
    set.expect(Expectation::new().times_range(1, 3).returning(|x| x));
    assert_eq!(set.call(9), Ok(9));
    assert_eq!(set.call(9), Ok(9));
    assert_eq!(set.call(9), Err(MockError::TooManyCalls));
}

#[test]
fn missing_return_configuration_is_an_error() {
    // The plain entry point serves return types without a default value:
    // there, an unconfigured expectation is owed an error.
    let mut set: Expectations<u32, u32, Pred<u32>> = Expectations::new();
    set.expect(Expectation::new());
    assert_eq!(set.call(3), Err(MockError::NoReturnValue));
    assert_eq!(
        MockError::NoReturnValue.describe(),
        "no return value configured for this expectation"
    );
}

#[test]
fn unconfigured_expectation_returns_the_type_default() {
    // Where the return type has a default value, a dispatched call on an
    // expectation with no configured return production yields it.
    let mut set: Expectations<u32, u32, Pred<u32>> = Expectations::new();
    set.expect(Expectation::new());
    assert_eq!(set.call_with_default(3), Ok(0));

    let mut texts: Expectations<u32, String, Pred<u32>> = Expectations::new();
    texts.expect(Expectation::new());
    assert_eq!(texts.call_with_default(3), Ok(String::new()));

    // A configured return wins over the default.
    let mut set2: Expectations<u32, u32, Pred<u32>> = Expectations::new();
    set2.expect(Expectation::new().returning(|x| x + 1));
    assert_eq!(set2.call_with_default(3), Ok(4));
}

#[test]
fn whole_tuple_predicate_routes_by_function() {
    let mut set: Expectations<(u32, u32), u32, FnMatcher<(u32, u32)>> = Expectations::new();
    set.expect(
        Expectation::new()
            .withf(|p: &(u32, u32)| p.0 < p.1)
            .returning(|p: (u32, u32)| p.1 - p.0),
    );
    assert_eq!(set.call((2, 5)), Ok(3));
    assert_eq!(set.call((5, 2)), Err(MockError::NoMatchingExpectation));
}

#[test]
fn checkpoint_satisfaction_is_observable() {
    let mut set: Expectations<u32, u32, Pred<u32>> = Expectations::new();
    set.expect(Expectation::new().times(2).returning(|x| x));
    assert!(!set.all_satisfied());
    set.call(1).unwrap();
    assert!(!set.all_satisfied());
    set.call(1).unwrap();
    assert!(set.all_satisfied());
    set.checkpoint();
    assert!(set.all_satisfied());
}

#[test]
fn mismatched_arguments_on_direct_call_name_the_predicate() {
    let mut e: Expectation<u32, u32, Pred<u32>> =
        Expectation::new().with(Pred::EqTo(5)).returning(|x| x);
    assert_eq!(e.call(7), Err(MockError::ArgumentMismatch(0)));
    assert_eq!(
        MockError::ArgumentMismatch(0).describe(),
        "expectation did not match arguments"
    );
    assert_eq!(MockError::ArgumentMismatch(0).failing_position(), Some(0));
    assert_eq!(MockError::TooManyCalls.failing_position(), None);
    assert_eq!(
        MockError::ArgumentMismatch(1).explain(),
        "expectation did not match arguments: argument predicate 1 failed"
    );
    assert_eq!(
        MockError::TooManyCalls.explain(),
        "called more times than expected"
    );
    assert_eq!(e.call(5), Ok(5));
}

#[test]
fn return_const_hands_out_the_stored_value() {
    let mut set: Expectations<u32, String, Pred<u32>> = Expectations::new();
    set.expect(Expectation::new().return_const(String::from("fixed")));
    assert_eq!(set.call(1), Ok(String::from("fixed")));
    assert_eq!(set.call(2), Ok(String::from("fixed")));
}

#[test]
fn checkpoint_clears_the_set() {
    let mut set: Expectations<u32, u32, Pred<u32>> = Expectations::new();
    set.expect(Expectation::new().returning(|x| x));
    assert_eq!(set.call(4), Ok(4));
    set.checkpoint();
    assert_eq!(set.len(), 0);
    assert_eq!(set.call(4), Err(MockError::NoMatchingExpectation));
}

#[test]
fn diagnostics_name_each_violation() {
    assert_eq!(
        MockError::WrongThread.describe(),
        "thread-confined return value used from another thread"
    );
    assert_eq!(
        MockError::WrongInstantiation.describe(),
        "expectations under this key belong to another instantiation"
    );
    assert_eq!(
        MockError::SequenceViolation.describe(),
        "sequence violation: an earlier expectation was not yet satisfied"
    );
}

#[test]
fn single_threaded_returning_works_on_owning_thread() {
    let mut set: Expectations<u32, u32, Pred<u32>> = Expectations::new();
    set.expect(Expectation::new().returning_st(|x| x + 3));
    assert_eq!(set.call(4), Ok(7));
    assert_eq!(set.call(10), Ok(13));
}
