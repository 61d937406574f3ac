//! Runtime engine of a test-double library: tests register *expectations*
//! describing which calls a mocked method may receive (argument shape, call
//! count, relative order, return production), and the engine dispatches each
//! live call to the first matching expectation, checks its constraints, and
//! produces the return value.

pub mod error;
pub mod times;
pub mod sequence;
pub mod matcher;
pub mod rfunc;
pub mod expectation;
pub mod set;
pub mod store;
pub mod guard;
pub mod ref_expectation;
pub mod ref_mut_expectation;

pub use error::MockError;
pub use times::Times;
pub use sequence::Sequence;
pub use sequence::SeqHandle;
pub use matcher::Matches;
pub use matcher::Pred;
pub use matcher::Pred2;
pub use matcher::AnyArgs;
pub use matcher::FnMatcher;
pub use expectation::Expectation;
pub use set::Expectations;
pub use guard::ExpectationGuard;
pub use ref_expectation::RefExpectation;
pub use ref_expectation::RefExpectations;
pub use ref_mut_expectation::RefMutExpectation;
pub use ref_mut_expectation::RefMutExpectations;
pub use ref_mut_expectation::RefProducer;
pub use store::TypeKey;
pub use store::GenericExpectations;
pub use store::GenericExpectationGuard;
