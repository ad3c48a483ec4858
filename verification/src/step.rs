//! The unit of work in a pipeline: a fallible transformation step, and the
//! combinator that joins two steps into one.

use core::marker::PhantomData;
use vstd::prelude::*;

use crate::failure::Failure;
use crate::Out;

verus! {

/// A single fallible transformation from `I` to `O` that may fail with `E`.
///
/// Each implementation describes itself with four specification functions:
/// `act_req` says on which inputs it may be invoked, `act_ok` on which of
/// those it succeeds, `act_out` what value (as a deep view) it returns on success,
/// and `act_err` which error values it may return when it does not succeed.
/// The executable `act` is bound to all four.
pub trait Act<I: DeepView, O: DeepView, E = Failure>: Sized {
    /// Inputs on which this step may be invoked at all.
    spec fn act_req(&self, input: I::V) -> bool;

    /// Inputs (among those allowed) on which this step succeeds.
    spec fn act_ok(&self, input: I::V) -> bool;

    /// The value produced on success, as a deep view of the output type.
    spec fn act_out(&self, input: I::V) -> O::V;

    /// The error values this step may produce when it fails on `input`.
    spec fn act_err(&self, input: I::V, err: E) -> bool;

    /// Transforms `input`, or fails.
    fn act(&self, input: I) -> (r: Out<O, E>)
        requires
            self.act_req(input.deep_view()),
        ensures
            (match r {
                Ok(o) => self.act_ok(input.deep_view()) && o.deep_view() == self.act_out(
                    input.deep_view(),
                ),
                Err(e) => !self.act_ok(input.deep_view()) && self.act_err(input.deep_view(), e),
            }),
    ;

    /// Transforms `input`, for top-level call sites where failure is ruled
    /// out beforehand: the precondition demands that the step succeeds, so
    /// no failure can escape.
    fn run(&self, input: I) -> (r: O)
        requires
            self.act_req(input.deep_view()),
            self.act_ok(input.deep_view()),
        ensures
            r.deep_view() == self.act_out(input.deep_view()),
    {
        match self.act(input) {
            Ok(o) => o,
            Err(_) => vstd::pervasive::unreached(),
        }
    }
}

/// Joins a step with a second step consuming its output, giving one step
/// that runs them in order and short-circuits on the first failure.
pub trait ChainableAct<I: DeepView, O: DeepView, E = Failure>: Act<I, O, E> {
    /// Composes `self` with `transform` into a single step.
    fn chain<O2: DeepView, T: Act<O, O2, E>>(self, transform: T) -> (r: Chain<
        Self,
        T,
        I,
        O,
        O2,
        E,
    >)
        ensures
            r.first == self,
            r.second == transform,
    {
        Chain { first: self, second: transform, marker: PhantomData }
    }
}

impl<I: DeepView, O: DeepView, E, F: Act<I, O, E>> ChainableAct<I, O, E> for F {
}

/// Two steps composed at construction time: acting on an input runs `first`,
/// and only if that succeeded, `second` on the intermediate value; a failure
/// of either stage is returned unchanged.
pub struct Chain<A, B, I, O1, O2, E> where
    I: DeepView,
    O1: DeepView,
    O2: DeepView,
    A: Act<I, O1, E>,
    B: Act<O1, O2, E>,
 {
    pub first: A,
    pub second: B,
    pub marker: PhantomData<(I, O1, O2, E)>,
}

impl<A, B, I, O1, O2, E> Act<I, O2, E> for Chain<A, B, I, O1, O2, E> where
    I: DeepView,
    O1: DeepView,
    O2: DeepView,
    A: Act<I, O1, E>,
    B: Act<O1, O2, E>,
 {
    open spec fn act_req(&self, input: I::V) -> bool {
        &&& self.first.act_req(input)
        &&& self.first.act_ok(input) ==> self.second.act_req(self.first.act_out(input))
    }

    open spec fn act_ok(&self, input: I::V) -> bool {
        self.first.act_ok(input) && self.second.act_ok(self.first.act_out(input))
    }

    open spec fn act_out(&self, input: I::V) -> O2::V {
        self.second.act_out(self.first.act_out(input))
    }

    open spec fn act_err(&self, input: I::V, err: E) -> bool {
        if self.first.act_ok(input) {
            self.second.act_err(self.first.act_out(input), err)
        } else {
            self.first.act_err(input, err)
        }
    }

    fn act(&self, input: I) -> (r: Out<O2, E>) {
        let ghost iv = input.deep_view();
        match self.first.act(input) {
            Ok(mid) => {
                let r = self.second.act(mid);
                proof {
                    assert(mid.deep_view() == self.first.act_out(iv));
                    if let Err(e) = &r {
                        assert(self.act_err(iv, *e));
                    }
                }
                r
            },
            Err(e) => Err(e),
        }
    }
}

/// Short-circuit law: when the first stage of a joined step fails on an
/// input, the joined step fails on that input, and exactly the errors the
/// first stage allows are the errors the joined step allows — the second
/// stage contributes nothing.
pub proof fn lemma_chain_short_circuit<A, B, I, O1, O2, E>(
    c: Chain<A, B, I, O1, O2, E>,
    input: I::V,
    err: E,
) where
    I: DeepView,
    O1: DeepView,
    O2: DeepView,
    A: Act<I, O1, E>,
    B: Act<O1, O2, E>,

    requires
        !c.first.act_ok(input),
    ensures
        !c.act_ok(input),
        c.act_err(input, err) == c.first.act_err(input, err),
        c.act_req(input) == c.first.act_req(input),
{
}

/// Associativity law: joining three steps as `(f chain g) chain h` or as
/// `f chain (g chain h)` gives steps with the same precondition, the same
/// success condition, the same success value, and the same allowed errors,
/// on every input.
pub proof fn lemma_chain_associative<A, B, C, I, O1, O2, O3, E>(
    left: Chain<Chain<A, B, I, O1, O2, E>, C, I, O2, O3, E>,
    right: Chain<A, Chain<B, C, O1, O2, O3, E>, I, O1, O3, E>,
    input: I::V,
    err: E,
) where
    I: DeepView,
    O1: DeepView,
    O2: DeepView,
    O3: DeepView,
    A: Act<I, O1, E>,
    B: Act<O1, O2, E>,
    C: Act<O2, O3, E>,

    requires
        left.first.first == right.first,
        left.first.second == right.second.first,
        left.second == right.second.second,
    ensures
        left.act_req(input) == right.act_req(input),
        left.act_ok(input) == right.act_ok(input),
        left.act_out(input) == right.act_out(input),
        left.act_err(input, err) == right.act_err(input, err),
{
}

} // verus!
