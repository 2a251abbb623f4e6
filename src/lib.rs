//! A demand-gated long-poll buffer: the decisions of a pool of poll workers,
//! their bounded result queue and their shutdown, as a verified state machine.
pub mod buffer;
pub mod composite;
pub mod laws;

pub use buffer::{BufferModel, LongPollBuffer, Receipt, WorkerAction, WorkerPhase};
pub use composite::{RaceModel, WorkflowTaskPoller};
