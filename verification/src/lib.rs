//! Runs a one-off task in a container orchestration cluster, derived from a
//! deployed service's configuration, waits for it to stop, and correlates the
//! finished task to its log stream.
//!
//! The crate holds the verified core of that pipeline: resolving a service
//! lookup answer, selecting the container whose log configuration is used,
//! building the run-task request that inherits the service's placement and
//! network parameters, deciding each step of the polling loop, and computing
//! the task identifier and log-stream name. The remote calls themselves
//! (service lookup, task submission, task status, log retrieval) are made by
//! an unverified driver that hands this crate plain values.

pub mod errors;
pub mod launch;
pub mod logs;
pub mod model;
pub mod poll;
pub mod resolve;
pub mod task_id;
