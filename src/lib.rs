//! Host load sampling and the service lifecycle of a status-bar monitor.
pub mod label;
pub mod lifecycle;
pub mod sampler;
