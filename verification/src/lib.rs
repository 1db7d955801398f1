//! Client-side library for an uptime-monitoring service: the monitor entity
//! model, its wire encoding, the in-memory monitor cache, and the decision
//! logic of the session client. The transport itself (a socket-based event
//! connection) lives outside this crate; the library states and proves what
//! the client decides at every step of the choreography.

pub mod errors;
pub mod monitor;
pub mod cache;
pub mod client;
pub mod wire;

pub use client::KumaAuthentication;
pub use client::KumaClient;
pub use errors::KumaError;
pub use monitor::Monitor;
pub use monitor::MonitorMethod;
pub use monitor::MonitorType;
