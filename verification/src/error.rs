//! The failure taxonomy of the engine.  Every violation of a configured
//! expectation is fatal to the test that triggered it; the engine reports the
//! violation as a value and the caller aborts with its message.

use vstd::prelude::*;

verus! {

/// Relies on `format!`: renders the argument-mismatch diagnostic together
/// with the position of the per-argument predicate that failed.
#[verifier::external_body]
fn render_mismatch(k: usize) -> String {
    format!("expectation did not match arguments: argument predicate {} failed", k)
}

/// One kind of mock misuse, detected at dispatch time.
#[derive(Clone, Copy, Debug, PartialEq, Eq, Structural)]
pub enum MockError {
    /// No registered expectation accepted the call.
    NoMatchingExpectation,
    /// The selected expectation's matcher rejected the arguments; the payload
    /// is the position of the first per-argument predicate that failed.
    ArgumentMismatch(usize),
    /// The call would push the expectation's counter past its upper bound.
    TooManyCalls,
    /// A single-use return was invoked a second time.
    OnceExhausted,
    /// An earlier expectation of the same sequence is not yet satisfied.
    SequenceViolation,
    /// A thread-confined return was invoked from a foreign thread.
    WrongThread,
    /// The expectation was dispatched without any configured return value.
    NoReturnValue,
    /// The stored expectations under this key belong to another instantiation.
    WrongInstantiation,
}

impl MockError {
    /// The message a test harness prints when aborting on this violation.
    pub fn describe(&self) -> (r: &'static str)
        ensures
            self is NoMatchingExpectation ==> r@ == "no matching expectation found"@,
            self is ArgumentMismatch ==> r@ == "expectation did not match arguments"@,
            self is TooManyCalls ==> r@ == "called more times than expected"@,
            self is OnceExhausted ==> r@ == "called a method twice that was expected only once"@,
            self is SequenceViolation ==> r@ == "sequence violation: an earlier expectation was not yet satisfied"@,
            self is WrongThread ==> r@ == "thread-confined return value used from another thread"@,
            self is NoReturnValue ==> r@ == "no return value configured for this expectation"@,
            self is WrongInstantiation ==> r@ == "expectations under this key belong to another instantiation"@,
    {
        match self {
            MockError::NoMatchingExpectation => "no matching expectation found",
            MockError::ArgumentMismatch(_) => "expectation did not match arguments",
            MockError::TooManyCalls => "called more times than expected",
            MockError::OnceExhausted => "called a method twice that was expected only once",
            MockError::SequenceViolation => "sequence violation: an earlier expectation was not yet satisfied",
            MockError::WrongThread => "thread-confined return value used from another thread",
            MockError::NoReturnValue => "no return value configured for this expectation",
            MockError::WrongInstantiation => "expectations under this key belong to another instantiation",
        }
    }

    /// The message a test harness prints when aborting on this violation,
    /// with the failing predicate position named for an argument mismatch.
    /// (What the rendered position looks like is left to the formatter; the
    /// other messages equal [`MockError::describe`].)
    pub fn explain(&self) -> (r: String)
        ensures
            self is NoMatchingExpectation ==> r@ == "no matching expectation found"@,
            self is TooManyCalls ==> r@ == "called more times than expected"@,
            self is OnceExhausted ==> r@ == "called a method twice that was expected only once"@,
            self is SequenceViolation ==> r@ == "sequence violation: an earlier expectation was not yet satisfied"@,
            self is WrongThread ==> r@ == "thread-confined return value used from another thread"@,
            self is NoReturnValue ==> r@ == "no return value configured for this expectation"@,
            self is WrongInstantiation ==> r@ == "expectations under this key belong to another instantiation"@,
    {
        match self {
            MockError::ArgumentMismatch(k) => render_mismatch(*k),
            _ => self.describe().to_owned(),
        }
    }

    /// The position of the first failing per-argument predicate, for an
    /// argument mismatch.
    pub fn failing_position(&self) -> (r: Option<usize>)
        ensures
            match *self {
                MockError::ArgumentMismatch(k) => r == Some(k),
                _ => r is None,
            },
    {
        match self {
            MockError::ArgumentMismatch(k) => Some(*k),
            _ => None,
        }
    }
}

} // verus!
