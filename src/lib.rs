//! A typed dataflow task scheduler.
//!
//! Tasks are callables with typed inputs ("conditions"). A task waits in the
//! wait map until every input slot has been written by a producer, then moves
//! to a run queue, where a worker runs it and routes its result to the input
//! slots of downstream tasks.
pub mod cond;
pub mod curry;
pub mod meta;
pub mod queue;
pub mod submitter;
pub mod task;
pub mod value;

pub use cond::{Anchor, ArgIdx, CondAddr, Section, TaskId};
pub use curry::Currier;
pub use meta::{AnchorTuple, TupleAt, TupleCondAddr};
pub use queue::{post_do, when_ci_comed, C1map, Entry, EntryView, PostDo, Queue, Waiting};
pub use submitter::{keeps_running, next_step, Step, TaskInf, TaskSubmitError, TaskSubmitter};
pub use task::{taskid_next, Kind, PassthroughMapFn, TaskBuildNew, TaskCurrier, TaskIdGen, TaskNeed};
pub use value::{TypeTag, Typed, Value};
