//! Scenario checks for the step abstraction and the joining combinator.

use chain_reaction::steps;
use chain_reaction::Act;
use chain_reaction::ChainableAct;
use chain_reaction::Failure;

#[test]
fn short_circuit_yields_first_failure() {
    let direct = steps::square().act(-4);
    let joined = steps::square().chain(steps::double());
    let chained = joined.act(-4);
    let expected = Err(Failure::InvalidInput(String::from(
        "Negative input for square function",
    )));
    assert_eq!(direct, expected);
    assert_eq!(chained, expected);
}

#[test]
fn joining_is_associative() {
    for x in [-5, -1, 0, 3, 7] {
        let left = steps::add(1).chain(steps::square()).chain(steps::double());
        let right = steps::add(1).chain(steps::square().chain(steps::double()));
        assert_eq!(left.act(x), right.act(x));
    }
}

#[test]
fn join_runs_both_stages_in_order() {
    let joined = steps::add(3).chain(steps::double());
    assert_eq!(joined.act(4), Ok(14));
}

#[test]
fn run_returns_the_success_value() {
    assert_eq!(steps::square().run(6), 36);
}

#[test]
fn second_stage_failure_is_reported() {
    let joined = steps::add(-10).chain(steps::square());
    assert_eq!(
        joined.act(3),
        Err(Failure::InvalidInput(String::from(
            "Negative input for square function",
        )))
    );
}
