//! A verified execution controller for a single-stepping virtual machine.
//!
//! The controller accepts `Run`, `Cancel` and `Exit` commands through a
//! bounded FIFO queue, guarantees that at most one run is active at a time,
//! advances the machine one step per cadence tick while a run is in flight,
//! and encodes each new machine state into a telemetry frame for a
//! best-effort publisher.

pub mod actor;
pub mod config;
pub mod gateway;
pub mod queue;
pub mod service;
pub mod snapshot;
pub mod telemetry;
pub mod vm;
