//! The timing-instrumented pipeline: wraps every combinator of a pipeline
//! with a wall-clock measurement recorded under the operation's name.

use std::time::Duration;
use std::time::Instant;
use vstd::prelude::*;

use crate::failure::Failure;
use crate::reactor::for_each_err;
use crate::reactor::for_each_ok;
use crate::reactor::for_each_out;
use crate::reactor::for_each_req;
use crate::reactor::Either;
use crate::reactor::Reactor;
use crate::step::Act;
use crate::Out;

verus! {

/// The name of one pipeline operation, the key of the timing table.
#[derive(Debug, Clone, Copy, PartialEq, Eq, Structural)]
pub enum OpName {
    Chain,
    IfElse,
    ForEach,
    MapValue,
    AndThen,
    Merge,
}

/// A mapping from operation name to the elapsed wall-clock time, in
/// nanoseconds, of the last call of that operation in one pipeline lineage:
/// a later entry for the same name overwrites the earlier one.
pub struct TimingTable {
    chain_nanos: Option<u128>,
    if_else_nanos: Option<u128>,
    for_each_nanos: Option<u128>,
    map_nanos: Option<u128>,
    and_then_nanos: Option<u128>,
    merge_nanos: Option<u128>,
}

impl TimingTable {
    /// The entry recorded for one operation, if any.
    pub closed spec fn slot(&self, op: OpName) -> Option<u128> {
        match op {
            OpName::Chain => self.chain_nanos,
            OpName::IfElse => self.if_else_nanos,
            OpName::ForEach => self.for_each_nanos,
            OpName::MapValue => self.map_nanos,
            OpName::AndThen => self.and_then_nanos,
            OpName::Merge => self.merge_nanos,
        }
    }

    /// An empty table.
    pub fn new() -> (r: Self)
        ensures
            r@ == Map::<OpName, u128>::empty(),
    {
        let r = TimingTable {
            chain_nanos: None,
            if_else_nanos: None,
            for_each_nanos: None,
            map_nanos: None,
            and_then_nanos: None,
            merge_nanos: None,
        };
        proof {
            assert(r@ =~= Map::<OpName, u128>::empty());
        }
        r
    }

    /// Stores the elapsed time of one operation, overwriting an earlier
    /// entry under the same name.
    pub fn record(&mut self, op: OpName, nanos: u128)
        ensures
            final(self)@ == old(self)@.insert(op, nanos),
    {
        match op {
            OpName::Chain => self.chain_nanos = Some(nanos),
            OpName::IfElse => self.if_else_nanos = Some(nanos),
            OpName::ForEach => self.for_each_nanos = Some(nanos),
            OpName::MapValue => self.map_nanos = Some(nanos),
            OpName::AndThen => self.and_then_nanos = Some(nanos),
            OpName::Merge => self.merge_nanos = Some(nanos),
        }
        proof {
            assert(self@ =~= old(self)@.insert(op, nanos));
        }
    }

    /// Reads the entry recorded for one operation.
    pub fn get(&self, op: OpName) -> (r: Option<u128>)
        ensures
            r == self.slot(op),
            r matches Some(n) ==> self@.dom().contains(op) && self@[op] == n,
            r is None ==> !self@.dom().contains(op),
    {
        match op {
            OpName::Chain => self.chain_nanos,
            OpName::IfElse => self.if_else_nanos,
            OpName::ForEach => self.for_each_nanos,
            OpName::MapValue => self.map_nanos,
            OpName::AndThen => self.and_then_nanos,
            OpName::Merge => self.merge_nanos,
        }
    }
}

impl View for TimingTable {
    type V = Map<OpName, u128>;

    closed spec fn view(&self) -> Map<OpName, u128> {
        Map::new(|op: OpName| self.slot(op) is Some, |op: OpName| self.slot(op)->0)
    }
}

/// Relies on std::time::Instant::now: an opaque reading of the monotonic
/// clock at the moment of the call.
#[verifier::external_body]
fn instant_now() -> Instant {
    Instant::now()
}

/// Relies on std::time::Instant::elapsed: the wall-clock time since `start`
/// was taken.
#[verifier::external_body]
fn elapsed_since(start: &Instant) -> Duration {
    start.elapsed()
}

/// Relies on std::time::Duration::as_nanos: the duration as a whole number
/// of nanoseconds.
#[verifier::external_body]
fn duration_as_nanos(d: &Duration) -> u128 {
    d.as_nanos()
}

#[verifier::external_type_specification]
#[verifier::external_body]
pub struct ExInstant(Instant);

/// Measures the wall-clock nanoseconds since `start`.
fn elapsed_nanos(start: &Instant) -> u128 {
    let d = elapsed_since(start);
    duration_as_nanos(&d)
}

/// A pipeline whose combinators each record their own elapsed wall-clock
/// time into a timing table carried along the lineage. Timing is recorded
/// even when a combinator is a pass-through of an earlier failure: the
/// entry reflects only the cost of the pass-through itself.
pub struct TimedReactor<I, E = Failure> {
    inner: Reactor<I, E>,
    table: TimingTable,
}

impl<I, E> TimedReactor<I, E> {
    /// The current slot of the wrapped pipeline.
    pub closed spec fn state(&self) -> Out<I, E> {
        self.inner@
    }

    /// The timing entries recorded so far along this lineage.
    pub closed spec fn timings(&self) -> Map<OpName, u128> {
        self.table@
    }

    /// Starts a timed pipeline holding `input`, with an empty timing table.
    pub fn input(input: I) -> (r: Self)
        ensures
            r.state() == Out::<I, E>::Ok(input),
            r.timings() == Map::<OpName, u128>::empty(),
    {
        TimedReactor { inner: Reactor::input(input), table: TimingTable::new() }
    }

    /// As `Reactor::chain`, and records the call's elapsed time under
    /// `OpName::Chain`.
    pub fn chain<O, T>(self, transform: T) -> (r: TimedReactor<O, E>) where
        I: DeepView,
        O: DeepView,
        T: Act<I, O, E>,

        requires
            (self.state() matches Ok(v) ==> transform.act_req(v.deep_view())),
        ensures
            (self.state() matches Err(e) ==> r.state() == Out::<O, E>::Err(e)),
            (self.state() matches Ok(v) ==> (match r.state() {
                Ok(o) => transform.act_ok(v.deep_view()) && o.deep_view() == transform.act_out(
                    v.deep_view(),
                ),
                Err(e) => !transform.act_ok(v.deep_view()) && transform.act_err(v.deep_view(), e),
            })),
            exists|d: u128| r.timings() == #[trigger] self.timings().insert(OpName::Chain, d),
    {
        let start = instant_now();
        let inner = self.inner.chain(transform);
        let nanos = elapsed_nanos(&start);
        let mut table = self.table;
        table.record(OpName::Chain, nanos);
        let r = TimedReactor { inner, table };
        proof {
            assert(r.timings() == self.timings().insert(OpName::Chain, nanos));
        }
        r
    }

    /// As `Reactor::if_else`, and records the call's elapsed time under
    /// `OpName::IfElse`.
    pub fn if_else<O1, O2, C, T1, T2>(
        self,
        condition: C,
        true_transform: T1,
        false_transform: T2,
    ) -> (r: TimedReactor<Either<O1, O2>, E>) where
        I: DeepView,
        O1: DeepView,
        O2: DeepView,
        C: Fn(&I) -> bool,
        T1: Act<I, O1, E>,
        T2: Act<I, O2, E>,

        requires
            (self.state() matches Ok(v) ==> call_requires(condition, (&v,))),
            (self.state() matches Ok(v) ==> forall|b: bool|
                call_ensures(condition, (&v,), b) ==> if b {
                    true_transform.act_req(v.deep_view())
                } else {
                    false_transform.act_req(v.deep_view())
                }),
        ensures
            (self.state() matches Err(e) ==> r.state() == Out::<Either<O1, O2>, E>::Err(e)),
            (self.state() matches Ok(v) ==> exists|b: bool|
                {
                    &&& #[trigger] call_ensures(condition, (&v,), b)
                    &&& b ==> (match r.state() {
                        Ok(branch) => branch matches Either::Left(o) && true_transform.act_ok(
                            v.deep_view(),
                        ) && o.deep_view() == true_transform.act_out(v.deep_view()),
                        Err(e) => !true_transform.act_ok(v.deep_view())
                            && true_transform.act_err(v.deep_view(), e),
                    })
                    &&& !b ==> (match r.state() {
                        Ok(branch) => branch matches Either::Right(o) && false_transform.act_ok(
                            v.deep_view(),
                        ) && o.deep_view() == false_transform.act_out(v.deep_view()),
                        Err(e) => !false_transform.act_ok(v.deep_view())
                            && false_transform.act_err(v.deep_view(), e),
                    })
                }),
            exists|d: u128| r.timings() == #[trigger] self.timings().insert(OpName::IfElse, d),
    {
        let start = instant_now();
        let inner = self.inner.if_else(condition, true_transform, false_transform);
        let nanos = elapsed_nanos(&start);
        let mut table = self.table;
        table.record(OpName::IfElse, nanos);
        let r = TimedReactor { inner, table };
        proof {
            assert(r.timings() == self.timings().insert(OpName::IfElse, nanos));
        }
        r
    }

    /// As `Reactor::map`, and records the call's elapsed time under
    /// `OpName::MapValue`.
    pub fn map<O, F>(self, f: F) -> (r: TimedReactor<O, E>) where F: FnOnce(I) -> O
        requires
            (self.state() matches Ok(v) ==> call_requires(f, (v,))),
        ensures
            (self.state() matches Err(e) ==> r.state() == Out::<O, E>::Err(e)),
            (self.state() matches Ok(v) ==> (r.state() matches Ok(o) && call_ensures(
                f,
                (v,),
                o,
            ))),
            exists|d: u128| r.timings() == #[trigger] self.timings().insert(OpName::MapValue, d),
    {
        let start = instant_now();
        let inner = self.inner.map(f);
        let nanos = elapsed_nanos(&start);
        let mut table = self.table;
        table.record(OpName::MapValue, nanos);
        let r = TimedReactor { inner, table };
        proof {
            assert(r.timings() == self.timings().insert(OpName::MapValue, nanos));
        }
        r
    }

    /// As `Reactor::and_then`, and records the call's elapsed time under
    /// `OpName::AndThen`.
    pub fn and_then<O, F>(self, f: F) -> (r: TimedReactor<O, E>) where F: FnOnce(I) -> Out<O, E>
        requires
            (self.state() matches Ok(v) ==> call_requires(f, (v,))),
        ensures
            (self.state() matches Err(e) ==> r.state() == Out::<O, E>::Err(e)),
            (self.state() matches Ok(v) ==> call_ensures(f, (v,), r.state())),
            exists|d: u128| r.timings() == #[trigger] self.timings().insert(OpName::AndThen, d),
    {
        let start = instant_now();
        let inner = self.inner.and_then(f);
        let nanos = elapsed_nanos(&start);
        let mut table = self.table;
        table.record(OpName::AndThen, nanos);
        let r = TimedReactor { inner, table };
        proof {
            assert(r.timings() == self.timings().insert(OpName::AndThen, nanos));
        }
        r
    }

    /// Extracts the final result together with a snapshot of the timing
    /// table, consuming the pipeline.
    pub fn run(self) -> (r: (Out<I, E>, TimingTable))
        ensures
            r.0 == self.state(),
            r.1@ == self.timings(),
    {
        (self.inner.run(), self.table)
    }
}

impl<A, E> TimedReactor<Vec<A>, E> {
    /// As `Reactor::for_each`, and records the call's elapsed time under
    /// `OpName::ForEach`.
    pub fn for_each<O, T>(self, transform: T) -> (r: TimedReactor<Vec<O>, E>) where
        A: DeepView,
        O: DeepView,
        T: Act<A, O, E>,

        requires
            (self.state() matches Ok(v) ==> for_each_req(transform, v.deep_view())),
        ensures
            (self.state() matches Err(e) ==> r.state() == Out::<Vec<O>, E>::Err(e)),
            (self.state() matches Ok(v) ==> (match r.state() {
                Ok(outs) => for_each_ok(transform, v.deep_view()) && outs.deep_view()
                    == for_each_out(transform, v.deep_view()),
                Err(e) => !for_each_ok(transform, v.deep_view()) && for_each_err(
                    transform,
                    v.deep_view(),
                    e,
                ),
            })),
            exists|d: u128| r.timings() == #[trigger] self.timings().insert(OpName::ForEach, d),
    {
        let start = instant_now();
        let inner = self.inner.for_each(transform);
        let nanos = elapsed_nanos(&start);
        let mut table = self.table;
        table.record(OpName::ForEach, nanos);
        let r = TimedReactor { inner, table };
        proof {
            assert(r.timings() == self.timings().insert(OpName::ForEach, nanos));
        }
        r
    }

    /// As `Reactor::merge`, and records the call's elapsed time under
    /// `OpName::Merge`.
    pub fn merge<O, F>(self, combine: F) -> (r: TimedReactor<O, E>) where F: Fn(A, A) -> O
        requires
            (self.state() matches Ok(v) ==> v@.len() >= 2 && call_requires(
                combine,
                (v@[0], v@[1]),
            )),
        ensures
            (self.state() matches Err(e) ==> r.state() == Out::<O, E>::Err(e)),
            (self.state() matches Ok(v) ==> (r.state() matches Ok(o) && call_ensures(
                combine,
                (v@[0], v@[1]),
                o,
            ))),
            exists|d: u128| r.timings() == #[trigger] self.timings().insert(OpName::Merge, d),
    {
        let start = instant_now();
        let inner = self.inner.merge(combine);
        let nanos = elapsed_nanos(&start);
        let mut table = self.table;
        table.record(OpName::Merge, nanos);
        let r = TimedReactor { inner, table };
        proof {
            assert(r.timings() == self.timings().insert(OpName::Merge, nanos));
        }
        r
    }
}

} // verus!
