//! Coordination core of a developer-facing build/run loop.
//!
//! The crate models the decision layer of a tool that drives an external
//! toolchain invocation, collects its streamed build output, and supervises
//! the resulting executable so that it can be killed and restarted the moment
//! a relevant event (source change, shutdown request) occurs:
//!
//! - [`event`]: bus events and the waiter that turns "any message in a target
//!   set" into a one-time wake-up;
//! - [`runner`]: the race between "child process finished naturally" and
//!   "an event demands termination";
//! - [`collect`]: the streaming collector for the toolchain's line-delimited
//!   structured output;
//! - [`util`]: small platform and string/path helpers.

pub mod collect;
pub mod event;
pub mod runner;
pub mod util;
