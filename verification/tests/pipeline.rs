//! Scenario checks for the pipeline builder and its combinators.

use chain_reaction::steps;
use chain_reaction::Act;
use chain_reaction::ChainableAct;
use chain_reaction::Either;
use chain_reaction::Failure;
use chain_reaction::Reactor;

fn invalid_square() -> Failure {
    Failure::InvalidInput(String::from("Negative input for square function"))
}

#[test]
fn end_to_end_success() {
    let result = Reactor::<i32, Failure>::input(5)
        .chain(steps::add(2))
        .chain(steps::square())
        .chain(steps::double())
        .chain(steps::to_string())
        .run();
    assert_eq!(result, Ok(String::from("98")));
}

#[test]
fn end_to_end_failure() {
    let result = Reactor::<i32, Failure>::input(-3)
        .chain(steps::square())
        .chain(steps::double())
        .chain(steps::to_string())
        .run();
    assert_eq!(result, Err(invalid_square()));
}

#[test]
fn failure_passes_through_every_combinator() {
    // A pipeline that has already failed: each combinator must carry the
    // failure forward untouched and invoke none of its arguments; the
    // closures below panic if they are ever called.
    let failed = Reactor::<i32, Failure>::input(-3).chain(steps::square());
    let result = failed
        .chain(steps::double())
        .map(|_x: i32| -> i32 { panic!("map closure invoked on a failed pipeline") })
        .and_then(|_x: i32| -> Result<i32, Failure> {
            panic!("and_then closure invoked on a failed pipeline")
        })
        .if_else(
            |_x: &i32| -> bool { panic!("predicate invoked on a failed pipeline") },
            steps::double(),
            steps::to_string(),
        )
        .run();
    assert_eq!(result, Err(invalid_square()));
}

#[test]
fn failure_passes_through_collection_combinators() {
    let failed = Reactor::<Vec<i32>, Failure>::input(vec![-1])
        .for_each(steps::require_non_negative());
    let result = failed
        .for_each(steps::double())
        .merge(|_a: i32, _b: i32| -> i32 {
            panic!("combine function invoked on a failed pipeline")
        })
        .run();
    assert_eq!(result, Err(Failure::InvalidInput(String::from("-1"))));
}

#[test]
fn if_else_tags_the_taken_side() {
    let even = Reactor::<i32, Failure>::input(4)
        .if_else(|x: &i32| x % 2 == 0, steps::double(), steps::to_string())
        .run();
    assert_eq!(even, Ok(Either::Left(8)));

    let odd = Reactor::<i32, Failure>::input(5)
        .if_else(|x: &i32| x % 2 == 0, steps::double(), steps::to_string())
        .run();
    assert_eq!(odd, Ok(Either::Right(String::from("5"))));
}

#[test]
fn for_each_short_circuits_on_first_failing_element() {
    let result = Reactor::<Vec<i32>, Failure>::input(vec![1, 2, -1, 3])
        .for_each(steps::require_non_negative())
        .run();
    // The reported failure names -1: the first failing element, not the
    // trailing 3.
    assert_eq!(result, Err(Failure::InvalidInput(String::from("-1"))));
}

#[test]
fn for_each_collects_in_order_on_success() {
    let result = Reactor::<Vec<i32>, Failure>::input(vec![1, 2, 3])
        .for_each(steps::double())
        .run();
    assert_eq!(result, Ok(vec![2, 4, 6]));
}

#[test]
fn merge_combines_only_the_first_two_elements() {
    let result = Reactor::<Vec<i32>, Failure>::input(vec![100, 200, 300, 400])
        .merge(|a: i32, b: i32| a + b)
        .run();
    assert_eq!(result, Ok(300));
}

#[test]
fn for_each_over_an_empty_collection_succeeds() {
    let result = Reactor::<Vec<i32>, Failure>::input(vec![])
        .for_each(steps::double())
        .run();
    assert_eq!(result, Ok(vec![]));
}

#[test]
fn merge_on_exactly_two_elements() {
    let result = Reactor::<Vec<i32>, Failure>::input(vec![-4, 9])
        .merge(|a: i32, b: i32| a * b)
        .run();
    assert_eq!(result, Ok(-36));
}

#[test]
fn if_else_reports_the_taken_arm_failure() {
    let result = Reactor::<i32, Failure>::input(-3)
        .if_else(|x: &i32| *x >= 0, steps::double(), steps::square())
        .run();
    assert_eq!(result, Err(invalid_square()));
}

#[test]
fn a_joined_step_runs_inside_a_pipeline() {
    let result = Reactor::<i32, Failure>::input(3)
        .chain(steps::add(1).chain(steps::square()))
        .run();
    assert_eq!(result, Ok(16));
}

#[test]
fn map_applies_a_total_transformation() {
    let result = Reactor::<i32, Failure>::input(10).map(|x: i32| x * 3).run();
    assert_eq!(result, Ok(30));
}

#[test]
fn and_then_applies_a_fallible_function() {
    let ok = Reactor::<i32, Failure>::input(10)
        .and_then(|x: i32| if x > 0 { Ok(x + 1) } else { Err(Failure::Custom(String::from("not positive"))) })
        .run();
    assert_eq!(ok, Ok(11));

    let err = Reactor::<i32, Failure>::input(-10)
        .and_then(|x: i32| if x > 0 { Ok(x + 1) } else { Err(Failure::Custom(String::from("not positive"))) })
        .run();
    assert_eq!(err, Err(Failure::Custom(String::from("not positive"))));
}

#[test]
fn append_and_abs_mirror_collection_processing() {
    let result = Reactor::<Vec<i32>, Failure>::input(vec![1, 2, 3, 4, 5])
        .chain(steps::append(vec![55, 68]))
        .for_each(steps::abs_value())
        .run();
    assert_eq!(result, Ok(vec![1, 2, 3, 4, 5, 55, 68]));
}

#[test]
fn abs_value_negates_negative_inputs() {
    let result = Reactor::<Vec<i32>, Failure>::input(vec![-7, 7, 0])
        .for_each(steps::abs_value())
        .run();
    assert_eq!(result, Ok(vec![7, 7, 0]));
}

#[test]
fn divide_truncates_toward_zero() {
    assert_eq!(steps::divide(2).act(7), Ok(3));
    assert_eq!(steps::divide(2).act(-7), Ok(-3));
    assert_eq!(steps::divide(-2).act(7), Ok(-3));
    assert_eq!(steps::divide(-2).act(-7), Ok(3));
    assert_eq!(
        steps::divide(0).act(7),
        Err(Failure::ArithmeticError(String::from("Division by zero")))
    );
}

#[test]
fn to_string_renders_decimal_exactly() {
    assert_eq!(steps::to_string().act(0), Ok(String::from("0")));
    assert_eq!(steps::to_string().act(-123), Ok(String::from("-123")));
    assert_eq!(
        steps::to_string().act(i32::MIN),
        Ok(String::from("-2147483648"))
    );
    assert_eq!(
        steps::to_string().act(i32::MAX),
        Ok(String::from("2147483647"))
    );
}

#[test]
fn failure_messages_name_their_kind() {
    assert_eq!(
        Failure::InvalidInput(String::from("bad")).message(),
        String::from("Invalid input: bad")
    );
    assert_eq!(
        Failure::ArithmeticError(String::from("overflow")).message(),
        String::from("Arithmetic error: overflow")
    );
    assert_eq!(
        Failure::Custom(String::from("other")).message(),
        String::from("Custom error: other")
    );
}
