//! The pipeline builder: a single in-flight slot holding either the current
//! success value or the first failure, consumed and renewed by each
//! combinator. Once the slot holds a failure, every combinator carries that
//! failure forward untouched and invokes no user-supplied step or function.

use vstd::prelude::*;

use crate::failure::Failure;
use crate::step::Act;
use crate::Out;

verus! {

/// The output of a conditional combinator: exactly one of the two arms,
/// tagged with the side that was taken.
#[derive(Debug, PartialEq, Eq)]
pub enum Either<L, R> {
    Left(L),
    Right(R),
}

/// A pipeline in flight: holds the current value, or the first failure.
///
/// Every combinator consumes the pipeline and returns a new one typed to the
/// new value; the terminal `run` extracts the final result. The view of a
/// `Reactor` is its slot, a `Result`.
pub struct Reactor<I, E = Failure> {
    input: Out<I, E>,
}

impl<I, E> View for Reactor<I, E> {
    type V = Out<I, E>;

    closed spec fn view(&self) -> Out<I, E> {
        self.input
    }
}

impl<I, E> Reactor<I, E> {
    /// Starts a pipeline holding `input` as its current success value.
    pub fn input(input: I) -> (r: Self)
        ensures
            r@ == Out::<I, E>::Ok(input),
    {
        Self { input: Ok(input) }
    }

    /// Applies one step to the current value. A held failure passes through
    /// untouched and the step is not invoked.
    pub fn chain<O, T>(self, transform: T) -> (r: Reactor<O, E>) where
        I: DeepView,
        O: DeepView,
        T: Act<I, O, E>,

        requires
            (self@ matches Ok(v) ==> transform.act_req(v.deep_view())),
        ensures
            (self@ matches Err(e) ==> r@ == Out::<O, E>::Err(e)),
            (self@ matches Ok(v) ==> (match r@ {
                Ok(o) => transform.act_ok(v.deep_view()) && o.deep_view() == transform.act_out(
                    v.deep_view(),
                ),
                Err(e) => !transform.act_ok(v.deep_view()) && transform.act_err(v.deep_view(), e),
            })),
    {
        Reactor {
            input: match self.input {
                Ok(v) => transform.act(v),
                Err(e) => Err(e),
            },
        }
    }

    /// Chooses between two steps by testing the current value: the taken
    /// arm's output is tagged `Left` or `Right`. A held failure passes
    /// through untouched and neither the predicate nor a step is invoked.
    pub fn if_else<O1, O2, C, T1, T2>(
        self,
        condition: C,
        true_transform: T1,
        false_transform: T2,
    ) -> (r: Reactor<Either<O1, O2>, E>) where
        I: DeepView,
        O1: DeepView,
        O2: DeepView,
        C: Fn(&I) -> bool,
        T1: Act<I, O1, E>,
        T2: Act<I, O2, E>,

        requires
            (self@ matches Ok(v) ==> call_requires(condition, (&v,))),
            (self@ matches Ok(v) ==> forall|b: bool|
                call_ensures(condition, (&v,), b) ==> if b {
                    true_transform.act_req(v.deep_view())
                } else {
                    false_transform.act_req(v.deep_view())
                }),
        ensures
            (self@ matches Err(e) ==> r@ == Out::<Either<O1, O2>, E>::Err(e)),
            (self@ matches Ok(v) ==> exists|b: bool|
                {
                    &&& #[trigger] call_ensures(condition, (&v,), b)
                    &&& b ==> (match r@ {
                        Ok(branch) => branch matches Either::Left(o) && true_transform.act_ok(
                            v.deep_view(),
                        ) && o.deep_view() == true_transform.act_out(v.deep_view()),
                        Err(e) => !true_transform.act_ok(v.deep_view())
                            && true_transform.act_err(v.deep_view(), e),
                    })
                    &&& !b ==> (match r@ {
                        Ok(branch) => branch matches Either::Right(o) && false_transform.act_ok(
                            v.deep_view(),
                        ) && o.deep_view() == false_transform.act_out(v.deep_view()),
                        Err(e) => !false_transform.act_ok(v.deep_view())
                            && false_transform.act_err(v.deep_view(), e),
                    })
                }),
    {
        Reactor {
            input: match self.input {
                Ok(v) => {
                    if condition(&v) {
                        match true_transform.act(v) {
                            Ok(o) => Ok(Either::Left(o)),
                            Err(e) => Err(e),
                        }
                    } else {
                        match false_transform.act(v) {
                            Ok(o) => Ok(Either::Right(o)),
                            Err(e) => Err(e),
                        }
                    }
                },
                Err(e) => Err(e),
            },
        }
    }

    /// Applies a total transformation to the current value. A held failure
    /// passes through untouched and the function is not invoked.
    pub fn map<O, F>(self, f: F) -> (r: Reactor<O, E>) where F: FnOnce(I) -> O
        requires
            (self@ matches Ok(v) ==> call_requires(f, (v,))),
        ensures
            (self@ matches Err(e) ==> r@ == Out::<O, E>::Err(e)),
            (self@ matches Ok(v) ==> (r@ matches Ok(o) && call_ensures(f, (v,), o))),
    {
        Reactor {
            input: match self.input {
                Ok(v) => Ok(f(v)),
                Err(e) => Err(e),
            },
        }
    }

    /// Applies a fallible transformation, given as a bare function rather
    /// than a step, to the current value. A held failure passes through
    /// untouched and the function is not invoked.
    pub fn and_then<O, F>(self, f: F) -> (r: Reactor<O, E>) where F: FnOnce(I) -> Out<O, E>
        requires
            (self@ matches Ok(v) ==> call_requires(f, (v,))),
        ensures
            (self@ matches Err(e) ==> r@ == Out::<O, E>::Err(e)),
            (self@ matches Ok(v) ==> call_ensures(f, (v,), r@)),
    {
        Reactor {
            input: match self.input {
                Ok(v) => f(v),
                Err(e) => Err(e),
            },
        }
    }

    /// Extracts the final result, consuming the pipeline.
    pub fn run(self) -> (r: Out<I, E>)
        ensures
            r == self@,
    {
        self.input
    }
}

/// Whether a step may be invoked along the run of `for_each` over `items`:
/// the head must be allowed, and, only if the head succeeds, the rest in
/// turn — elements past the first failure are never reached.
pub open spec fn for_each_req<A: DeepView, O: DeepView, E, T: Act<A, O, E>>(
    t: T,
    items: Seq<A::V>,
) -> bool
    decreases items.len(),
{
    items.len() > 0 ==> {
        &&& t.act_req(items[0])
        &&& t.act_ok(items[0]) ==> for_each_req(t, items.drop_first())
    }
}

/// Whether the step succeeds on every element of `items`.
pub open spec fn for_each_ok<A: DeepView, O: DeepView, E, T: Act<A, O, E>>(
    t: T,
    items: Seq<A::V>,
) -> bool
    decreases items.len(),
{
    items.len() == 0 || (t.act_ok(items[0]) && for_each_ok(t, items.drop_first()))
}

/// The outputs of the step over `items`, in the original order.
pub open spec fn for_each_out<A: DeepView, O: DeepView, E, T: Act<A, O, E>>(
    t: T,
    items: Seq<A::V>,
) -> Seq<O::V>
    decreases items.len(),
{
    if items.len() == 0 {
        Seq::empty()
    } else {
        seq![t.act_out(items[0])] + for_each_out(t, items.drop_first())
    }
}

/// The errors that `for_each` may report over `items`: those the step
/// allows on the first element it fails on.
pub open spec fn for_each_err<A: DeepView, O: DeepView, E, T: Act<A, O, E>>(
    t: T,
    items: Seq<A::V>,
    err: E,
) -> bool
    decreases items.len(),
{
    if items.len() == 0 {
        false
    } else if !t.act_ok(items[0]) {
        t.act_err(items[0], err)
    } else {
        for_each_err(t, items.drop_first(), err)
    }
}

/// Extending a processed prefix by one succeeding element extends its
/// outputs by that element's output.
proof fn lemma_for_each_extend<A: DeepView, O: DeepView, E, T: Act<A, O, E>>(
    t: T,
    items: Seq<A::V>,
    k: int,
)
    requires
        0 <= k < items.len(),
    ensures
        for_each_ok(t, items.take(k + 1)) == (for_each_ok(t, items.take(k)) && t.act_ok(
            items[k],
        )),
        for_each_out(t, items.take(k + 1)) =~= for_each_out(t, items.take(k)).push(
            t.act_out(items[k]),
        ),
    decreases k,
{
    if k == 0 {
        assert(items.take(1).drop_first() =~= items.take(0));
        assert(items.take(1)[0] == items[0]);
    } else {
        lemma_for_each_extend(t, items.drop_first(), k - 1);
        assert(items.take(k + 1).drop_first() =~= items.drop_first().take(k));
        assert(items.take(k).drop_first() =~= items.drop_first().take(k - 1));
        assert(items.take(k + 1)[0] == items[0]);
        assert(items.take(k)[0] == items[0]);
        assert(items.drop_first()[k - 1] == items[k]);
    }
}

/// A failure on element `k`, after a succeeding prefix, is a failure of the
/// whole run, reporting exactly what the step allows on that element.
proof fn lemma_for_each_fail<A: DeepView, O: DeepView, E, T: Act<A, O, E>>(
    t: T,
    items: Seq<A::V>,
    k: int,
    err: E,
)
    requires
        0 <= k < items.len(),
        for_each_ok(t, items.take(k)),
        !t.act_ok(items[k]),
        t.act_err(items[k], err),
    ensures
        !for_each_ok(t, items),
        for_each_err(t, items, err),
    decreases k,
{
    if k == 0 {
    } else {
        assert(items.take(k)[0] == items[0]);
        assert(items.take(k).drop_first() =~= items.drop_first().take(k - 1));
        assert(items.drop_first()[k - 1] == items[k]);
        lemma_for_each_fail(t, items.drop_first(), k - 1, err);
    }
}

impl<A, E> Reactor<Vec<A>, E> {
    /// Applies one step to every element of the current collection, in
    /// order, short-circuiting on the first element that fails: later
    /// elements are not processed. On overall success the outputs are
    /// collected in the original order. A held failure passes through
    /// untouched and the step is not invoked.
    pub fn for_each<O, T>(self, transform: T) -> (r: Reactor<Vec<O>, E>) where
        A: DeepView,
        O: DeepView,
        T: Act<A, O, E>,

        requires
            (self@ matches Ok(v) ==> for_each_req(transform, v.deep_view())),
        ensures
            (self@ matches Err(e) ==> r@ == Out::<Vec<O>, E>::Err(e)),
            (self@ matches Ok(v) ==> (match r@ {
                Ok(outs) => for_each_ok(transform, v.deep_view()) && outs.deep_view()
                    == for_each_out(transform, v.deep_view()),
                Err(e) => !for_each_ok(transform, v.deep_view()) && for_each_err(
                    transform,
                    v.deep_view(),
                    e,
                ),
            })),
    {
        match self.input {
            Ok(v) => {
                let ghost all = v.deep_view();
                let mut rest = v;
                let mut outs: Vec<O> = Vec::new();
                proof {
                    assert(all.skip(0) =~= all);
                    assert(all.take(0) =~= Seq::<A::V>::empty());
                }
                loop
                    invariant
                        self@ matches Ok(v0) && v0.deep_view() == all,
                        for_each_req(transform, all),
                        outs.len() + rest.len() == all.len(),
                        rest.deep_view() =~= all.skip(outs.len() as int),
                        outs.deep_view() =~= for_each_out(transform, all.take(outs.len() as int)),
                        for_each_ok(transform, all.take(outs.len() as int)),
                        for_each_req(transform, all.skip(outs.len() as int)),
                    ensures
                        for_each_ok(transform, all),
                        outs.deep_view() =~= for_each_out(transform, all),
                    decreases rest.len(),
                {
                    if rest.len() == 0 {
                        proof {
                            assert(all.take(outs.len() as int) =~= all);
                        }
                        break ;
                    }
                    let ghost k = outs.len() as int;
                    let ghost pre = rest@;
                    let ghost pre_dv = rest.deep_view();
                    let item = rest.remove(0);
                    proof {
                        assert(pre_dv[0] == pre[0].deep_view());
                        assert(item.deep_view() == all[k]);
                        assert forall|i: int| 0 <= i < rest.deep_view().len() implies
                            rest.deep_view()[i] == all.skip(k + 1)[i] by {
                            assert(rest@[i] == pre[i + 1]);
                            assert(rest.deep_view()[i] == rest@[i].deep_view());
                            assert(pre_dv[i + 1] == pre[i + 1].deep_view());
                            assert(pre_dv[i + 1] == all.skip(k)[i + 1]);
                        }
                        assert(rest.deep_view() =~= all.skip(k + 1));
                    }
                    match transform.act(item) {
                        Ok(o) => {
                            let ghost outs_pre = outs@;
                            let ghost outs_pre_dv = outs.deep_view();
                            outs.push(o);
                            proof {
                                lemma_for_each_extend(transform, all, k);
                                assert forall|i: int| 0 <= i < outs.deep_view().len() implies
                                    outs.deep_view()[i] == for_each_out(
                                    transform,
                                    all.take(k + 1),
                                )[i] by {
                                    assert(outs@ == outs_pre.push(o));
                                    assert(outs.deep_view()[i] == outs@[i].deep_view());
                                    if i < k {
                                        assert(outs@[i] == outs_pre[i]);
                                        assert(outs_pre_dv[i] == outs_pre[i].deep_view());
                                    } else {
                                        assert(outs@[i] == o);
                                    }
                                }
                                assert(outs.deep_view() =~= for_each_out(
                                    transform,
                                    all.take(k + 1),
                                ));
                                assert(all.skip(k).drop_first() =~= all.skip(k + 1));
                            }
                        },
                        Err(e) => {
                            proof {
                                lemma_for_each_fail(transform, all, k, e);
                            }
                            return Reactor { input: Err(e) };
                        },
                    }
                }
                Reactor { input: Ok(outs) }
            },
            Err(e) => Reactor { input: Err(e) },
        }
    }

    /// Combines the first two elements of the current collection with
    /// `combine`, ignoring any later elements. The collection must hold at
    /// least two elements. A held failure passes through untouched and the
    /// function is not invoked.
    pub fn merge<O, F>(self, combine: F) -> (r: Reactor<O, E>) where F: Fn(A, A) -> O
        requires
            (self@ matches Ok(v) ==> v@.len() >= 2 && call_requires(combine, (v@[0], v@[1]))),
        ensures
            (self@ matches Err(e) ==> r@ == Out::<O, E>::Err(e)),
            (self@ matches Ok(v) ==> (r@ matches Ok(o) && call_ensures(
                combine,
                (v@[0], v@[1]),
                o,
            ))),
    {
        Reactor {
            input: match self.input {
                Ok(v) => {
                    let mut v = v;
                    let first = v.remove(0);
                    let second = v.remove(0);
                    Ok(combine(first, second))
                },
                Err(e) => Err(e),
            },
        }
    }
}

} // verus!
