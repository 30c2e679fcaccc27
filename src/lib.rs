//! The clock synchronization engine of a time service: it fuses UTC samples from external
//! time sources into an estimate of the offset between UTC and monotonic time, and decides
//! how the exposed UTC clock is started and corrected, what the real time clock is set to,
//! and what is reported to watchers and diagnostics. It also holds the error type that
//! collects the error stack of the cryptographic bindings.

pub mod boring_error;
pub mod clock;
pub mod clock_manager;
pub mod diagnostics;
pub mod enums;
pub mod estimator;
pub mod metrics;
pub mod notifier;
pub mod sample;
pub mod time_source_manager;
