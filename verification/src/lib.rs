//! A fixed-size worker pool, stated as a lifecycle model of a job queue and
//! its workers.
//!
//! The pool owns an unbounded first-in first-out queue of jobs and a fixed
//! set of workers. Every call is one atomic step of the pool: a producer
//! submits a job, a worker asks for its next action, a worker reports that a
//! job has finished, or the owner shuts the pool down. The code that owns the
//! threads performs the actions that a step hands back.

pub mod channel;
pub mod laws;
pub mod model;
pub mod pool;
pub mod response;
pub mod worker;

pub use channel::{ChannelView, JobChannel, Received};
pub use model::{PoolView, Step};
pub use pool::ThreadPool;
pub use response::{response, Page};
pub use worker::{Action, Worker, WorkerState, WorkerView};
