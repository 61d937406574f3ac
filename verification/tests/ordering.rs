//! Sequence ordering across expectation sets, single-use returns, and the
//! plain behaviour of the counter and sequence building blocks.

use omnimock::Expectation;
use omnimock::Expectations;
use omnimock::MockError;
use omnimock::Pred;
use omnimock::Sequence;
use omnimock::Times;

#[test]
fn out_of_order_sequenced_call_is_a_violation() {
    // e1 joins the sequence first, e2 second, on two different methods;
    // invoking e2's method first fails, the registration order succeeds.
    let mut seq = Sequence::new();
    let mut method_a: Expectations<u32, u32, Pred<u32>> = Expectations::new();
    let mut method_b: Expectations<u32, u32, Pred<u32>> = Expectations::new();
    method_a.expect(
        Expectation::new().times(1).in_sequence(&mut seq).returning(|x| x),
    );
    method_b.expect(
        Expectation::new().times(1).in_sequence(&mut seq).returning(|x| x),
    );

    assert_eq!(
        method_b.call_in_seq(&mut seq, 2),
        Err(MockError::SequenceViolation)
    );
    assert_eq!(
        MockError::SequenceViolation.describe(),
        "sequence violation: an earlier expectation was not yet satisfied"
    );
}

#[test]
fn sequenced_calls_in_registration_order_succeed() {
    let mut seq = Sequence::new();
    let mut method_a: Expectations<u32, u32, Pred<u32>> = Expectations::new();
    let mut method_b: Expectations<u32, u32, Pred<u32>> = Expectations::new();
    method_a.expect(
        Expectation::new().times(1).in_sequence(&mut seq).returning(|x| x + 1),
    );
    method_b.expect(
        Expectation::new().times(1).in_sequence(&mut seq).returning(|x| x + 2),
    );

    assert_eq!(method_a.call_in_seq(&mut seq, 1), Ok(2));
    assert_eq!(method_b.call_in_seq(&mut seq, 1), Ok(3));
}

#[test]
fn violating_call_has_already_been_counted() {
    // The counter is consumed before the ordering check, so an exact-count
    // expectation hit out of order is spent: the engine's checks run in the
    // order matcher, counter, sequence.
    let mut seq = Sequence::new();
    let mut method_a: Expectations<u32, u32, Pred<u32>> = Expectations::new();
    let mut method_b: Expectations<u32, u32, Pred<u32>> = Expectations::new();
    method_a.expect(
        Expectation::new().times(1).in_sequence(&mut seq).returning(|x| x),
    );
    method_b.expect(
        Expectation::new().times(1).in_sequence(&mut seq).returning(|x| x),
    );
    assert_eq!(
        method_b.call_in_seq(&mut seq, 2),
        Err(MockError::SequenceViolation)
    );
    assert_eq!(method_a.call_in_seq(&mut seq, 2), Ok(2));
    assert_eq!(
        method_b.call_in_seq(&mut seq, 2),
        Err(MockError::TooManyCalls)
    );
}

#[test]
fn return_once_permits_exactly_one_call() {
    // The counter would allow any number of calls; the single-use return
    // still fails the second call.
    let mut set: Expectations<u32, String, Pred<u32>> = Expectations::new();
    set.expect(Expectation::new().return_once(|_x| String::from("only")));
    assert_eq!(set.call(1), Ok(String::from("only")));
    assert_eq!(set.call(1), Err(MockError::OnceExhausted));
    assert_eq!(
        MockError::OnceExhausted.describe(),
        "called a method twice that was expected only once"
    );
}

#[test]
fn return_once_st_permits_exactly_one_call_on_owning_thread() {
    let mut set: Expectations<u32, u32, Pred<u32>> = Expectations::new();
    set.expect(Expectation::new().return_once_st(|x| x * 10));
    assert_eq!(set.call(4), Ok(40));
    assert_eq!(set.call(4), Err(MockError::OnceExhausted));
}

#[test]
fn counter_tracks_bounds() {
    let mut t = Times::new();
    assert!(!t.is_done());
    assert!(t.is_satisfied());
    assert!(!t.is_exact());

    t.exact(2);
    assert!(t.is_exact());
    assert!(!t.is_satisfied());
    assert!(t.call());
    assert!(!t.is_satisfied());
    assert!(t.call());
    assert!(t.is_satisfied());
    assert!(t.is_done());
    assert!(!t.call());

    t.any();
    assert!(!t.is_done());

    t.range(3, 5);
    assert_eq!((t.lower, t.upper), (3, 4));

    t.never();
    assert!(t.is_done());
}

#[test]
fn sequence_issues_increasing_handles() {
    let mut seq = Sequence::new();
    let h0 = seq.next();
    let h1 = seq.next();
    assert_eq!(h0.index, 0);
    assert_eq!(h1.index, 1);
    assert!(seq.ready(&h0));
    assert!(!seq.ready(&h1));
    seq.satisfy(&h0);
    assert!(seq.ready(&h1));
    seq.satisfy(&h1);
    assert_eq!(seq.level, 2);
}
