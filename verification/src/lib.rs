//! An in-process engine for running caller-supplied units of work off the
//! caller's primary execution context: task identity, priority and pool
//! dispatch, dependency ordering, cooperative cancellation, admission
//! backpressure, progress reporting, execution metrics, and coordinated
//! shutdown.

pub mod admission;
pub mod channels;
pub mod deps;
pub mod dispatch;
pub mod engine;
pub mod gather;
pub mod errors;
pub mod handle;
pub mod laws;
pub mod metrics;
pub mod priority;
pub mod progress;
pub mod registry;
pub mod sysmon;
pub mod table;
pub mod text;
pub mod values;
