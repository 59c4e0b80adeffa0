//! A safety layer over a single-threaded script-engine embedding interface.
//!
//! The engine executes all script-visible state on one dedicated thread. This
//! crate models that engine as explicit data (`engine::Env`), wraps raw engine
//! values in typed, scope-checked handles, translates raw result codes into a
//! closed error taxonomy, and provides the cross-thread invocation bridge
//! (`threadsafe_function::ThreadsafeFunction`) through which worker code
//! schedules calls into a script-visible function with backpressure and
//! two-phase teardown.

pub mod buffer;
pub mod class;
pub mod engine;
pub mod function;
pub mod status;
pub mod threadsafe_function;
pub mod tsfn;
pub mod values;
