//! The type-keyed store behind mocked generic methods: per-instantiation
//! expectation sets, isolation between instantiations, and the matcher
//! evaluation itself.

use omnimock::AnyArgs;
use omnimock::Expectation;
use omnimock::FnMatcher;
use omnimock::GenericExpectationGuard;
use omnimock::GenericExpectations;
use omnimock::MockError;
use omnimock::Pred;
use omnimock::Pred2;
use omnimock::TypeKey;

#[test]
fn returning() {
    // A generic trait method `fn foo(&self, x: T) -> T` mocked at the
    // instantiation T = u32 (on a mock with a second, unused u64 parameter):
    // the registered closure echoes its argument.
    let mut mock = GenericExpectations::new();
    let key = TypeKey::of::<(u32, u32)>();
    mock.expect(key, Expectation::<u32, u32, Pred<u32>>::new().returning(|x| x))
        .unwrap();
    assert_eq!(5u32, mock.call::<u32, u32, Pred<u32>>(key, 5u32).unwrap());
}

#[test]
fn instantiations_are_isolated() {
    // An expectation registered for the u32 instantiation is not visible
    // to dispatch for the String instantiation of the same method.
    let mut mock = GenericExpectations::new();
    let key_u32 = TypeKey::of::<(u32, u32)>();
    let key_string = TypeKey::of::<(String, String)>();
    mock.expect(
        key_u32,
        Expectation::<u32, u32, Pred<u32>>::new().returning(|x| x + 1),
    )
    .unwrap();

    let miss = mock.call::<String, String, AnyArgs<String>>(key_string, String::from("s"));
    assert_eq!(miss, Err(MockError::NoMatchingExpectation));
    // ... and the u32 instantiation still answers as before.
    assert_eq!(mock.call::<u32, u32, Pred<u32>>(key_u32, 1), Ok(2));
}

#[test]
fn lazily_created_sets_grow_per_key() {
    let mut mock = GenericExpectations::new();
    let key_a = TypeKey { k: 1 };
    let key_b = TypeKey { k: 2 };
    assert_eq!(
        mock.expect(key_a, Expectation::<u32, u32, Pred<u32>>::new().returning(|x| x)),
        Ok(0)
    );
    assert_eq!(
        mock.expect(key_a, Expectation::<u32, u32, Pred<u32>>::new().returning(|x| x)),
        Ok(1)
    );
    assert_eq!(
        mock.expect(key_b, Expectation::<u64, u64, Pred<u64>>::new().returning(|x| x)),
        Ok(0)
    );
}

#[test]
fn colliding_key_of_another_instantiation_is_reported() {
    // Forcing two instantiations onto one key value: the second
    // registration cannot reach a set of its own type.
    let mut mock = GenericExpectations::new();
    let shared = TypeKey { k: 77 };
    mock.expect(shared, Expectation::<u32, u32, Pred<u32>>::new().returning(|x| x))
        .unwrap();
    assert_eq!(
        mock.expect(shared, Expectation::<u64, u64, Pred<u64>>::new().returning(|x| x)),
        Err(MockError::WrongInstantiation)
    );
    assert_eq!(
        mock.call::<u64, u64, Pred<u64>>(shared, 3u64),
        Err(MockError::WrongInstantiation)
    );
}

#[test]
fn checkpoint_clears_every_instantiation() {
    let mut mock = GenericExpectations::new();
    let key_a = TypeKey::of::<(u32, u32)>();
    let key_b = TypeKey::of::<(u64, u64)>();
    mock.expect(key_a, Expectation::<u32, u32, Pred<u32>>::new().times(1).returning(|x| x))
        .unwrap();
    mock.expect(key_b, Expectation::<u64, u64, Pred<u64>>::new().returning(|x| x))
        .unwrap();
    // the u32 instantiation still owes a call
    assert_eq!(mock.all_satisfied::<u32, u32, Pred<u32>>(key_a), Ok(false));
    assert_eq!(mock.call::<u32, u32, Pred<u32>>(key_a, 3), Ok(3));
    assert_eq!(mock.all_satisfied::<u32, u32, Pred<u32>>(key_a), Ok(true));
    mock.checkpoint();
    assert_eq!(
        mock.call::<u32, u32, Pred<u32>>(key_a, 1),
        Err(MockError::NoMatchingExpectation)
    );
    assert_eq!(
        mock.call::<u64, u64, Pred<u64>>(key_b, 1),
        Err(MockError::NoMatchingExpectation)
    );
}

#[test]
fn generic_guard_configures_one_instantiation() {
    let mut mock = GenericExpectations::new();
    let key = TypeKey::of::<(u32, u32)>();
    {
        let mut g: GenericExpectationGuard<u32, u32, Pred<u32>> =
            GenericExpectationGuard::new(&mut mock, key).unwrap();
        g.with(Pred::EqTo(6));
        g.times(2);
        g.returning(|x| x - 1);
        g.finish();
    }
    assert_eq!(mock.call::<u32, u32, Pred<u32>>(key, 6), Ok(5));
    assert_eq!(mock.call::<u32, u32, Pred<u32>>(key, 6), Ok(5));
    assert_eq!(
        mock.call::<u32, u32, Pred<u32>>(key, 6),
        Err(MockError::TooManyCalls)
    );
}

#[test]
fn generic_guard_whole_tuple_predicate() {
    let mut mock = GenericExpectations::new();
    let key = TypeKey::of_named::<(u32, u32)>("halve");
    {
        let mut g: GenericExpectationGuard<u32, u32, FnMatcher<u32>> =
            GenericExpectationGuard::new(&mut mock, key).unwrap();
        g.withf(|x: &u32| *x > 10);
        g.returning(|x| x - 10);
        g.finish();
    }
    assert_eq!(mock.call::<u32, u32, FnMatcher<u32>>(key, 25), Ok(15));
    assert_eq!(
        mock.call::<u32, u32, FnMatcher<u32>>(key, 5),
        Err(MockError::NoMatchingExpectation)
    );
}

#[test]
fn pair_matcher_evaluates_each_predicate() {
    // matches(a0, a1) == p0.eval(a0) && p1.eval(a1), on concrete values.
    let m = Pred2::both(Pred::EqTo(5u32), Pred::NeTo(0u64));
    let mut e: Expectation<(u32, u64), u32, Pred2<u32, u64>> =
        Expectation::new().with(m).returning(|_p| 1);
    assert!(e.matches(&(5, 9)));
    assert!(!e.matches(&(5, 0)));
    assert!(!e.matches(&(4, 9)));
    assert_eq!(e.call((5, 0)), Err(MockError::ArgumentMismatch(1)));
    assert_eq!(e.call((4, 9)), Err(MockError::ArgumentMismatch(0)));
    assert_eq!(e.call((5, 9)), Ok(1));
}
