//! Scenario checks for the timing-instrumented pipeline.

use chain_reaction::steps;
use chain_reaction::timed::OpName;
use chain_reaction::Failure;
use chain_reaction::TimedReactor;

#[test]
fn timing_table_holds_exactly_the_operations_called() {
    let (result, table) = TimedReactor::<Vec<i32>, Failure>::input(vec![1, 2])
        .for_each(steps::double())
        .chain(steps::append(vec![9]))
        .if_else(
            |v: &Vec<i32>| v.len() % 2 == 0,
            steps::append(vec![1]),
            steps::append(vec![2]),
        )
        .run();
    assert!(result.is_ok());
    assert!(table.get(OpName::ForEach).is_some());
    assert!(table.get(OpName::Chain).is_some());
    assert!(table.get(OpName::IfElse).is_some());
    assert!(table.get(OpName::MapValue).is_none());
    assert!(table.get(OpName::AndThen).is_none());
    assert!(table.get(OpName::Merge).is_none());
}

#[test]
fn repeated_operation_keeps_a_single_entry() {
    let (result, table) = TimedReactor::<i32, Failure>::input(1)
        .chain(steps::add(1))
        .chain(steps::add(2))
        .chain(steps::add(3))
        .run();
    assert_eq!(result, Ok(7));
    assert!(table.get(OpName::Chain).is_some());
    assert!(table.get(OpName::IfElse).is_none());
}

#[test]
fn timing_is_recorded_even_on_the_failure_path() {
    let (result, table) = TimedReactor::<i32, Failure>::input(-2)
        .chain(steps::square())
        .chain(steps::double())
        .map(|_x: i32| -> i32 { panic!("map closure invoked on a failed pipeline") })
        .run();
    assert_eq!(
        result,
        Err(Failure::InvalidInput(String::from(
            "Negative input for square function"
        )))
    );
    assert!(table.get(OpName::Chain).is_some());
    assert!(table.get(OpName::MapValue).is_some());
}

#[test]
fn timed_run_returns_result_and_table() {
    let (result, table) = TimedReactor::<i32, Failure>::input(5)
        .chain(steps::add(2))
        .run();
    assert_eq!(result, Ok(7));
    assert!(table.get(OpName::Chain).is_some());
}

#[test]
fn fresh_pipeline_has_an_empty_table() {
    let (result, table) = TimedReactor::<i32, Failure>::input(5).run();
    assert_eq!(result, Ok(5));
    assert!(table.get(OpName::Chain).is_none());
    assert!(table.get(OpName::ForEach).is_none());
    assert!(table.get(OpName::IfElse).is_none());
    assert!(table.get(OpName::MapValue).is_none());
    assert!(table.get(OpName::AndThen).is_none());
    assert!(table.get(OpName::Merge).is_none());
}

#[test]
fn and_then_and_merge_record_their_keys() {
    let (result, table) = TimedReactor::<Vec<i32>, Failure>::input(vec![100, 200, 300])
        .merge(|a: i32, b: i32| a + b)
        .and_then(|x: i32| -> Result<i32, Failure> { Ok(x + 1) })
        .run();
    assert_eq!(result, Ok(301));
    assert!(table.get(OpName::Merge).is_some());
    assert!(table.get(OpName::AndThen).is_some());
}
