//! Decisions behind a small tracing demonstration: which agent address the
//! span exporter is bound to, what the exporter and tracer are called, what
//! the instrumented function writes, and in which order the program acts.
//!
//! Everything here works on plain values. Name resolution, sockets, the
//! tracing registry and the clock belong to the program that drives this
//! library.

pub mod endpoint;
pub mod run;
pub mod setup;

pub use endpoint::{resolve_agent_address, unresolved_message, SocketAddress};
pub use run::{agent_host, foo, Action, Phase, AGENT_PORT, DRAIN_MILLIS};
pub use setup::{setup_instrumentation, Instrumentation};
