//! A composable pipeline engine: fallible transformation steps are chained
//! into linear pipelines in which the first failure short-circuits every
//! remaining stage, while successful values flow forward.

pub mod decimal;
pub mod failure;
pub mod reactor;
pub mod step;
pub mod steps;
pub mod timed;

pub use failure::Failure;
pub use reactor::Either;
pub use reactor::Reactor;
pub use step::Act;
pub use step::Chain;
pub use step::ChainableAct;
pub use timed::OpName;
pub use timed::TimedReactor;
pub use timed::TimingTable;

use vstd::prelude::*;

verus! {

/// The outcome of one fallible transformation: a transformed value or a failure.
pub type Out<O, E = Failure> = Result<O, E>;

} // verus!
