//! Builders that turn a component definition and an instance's identity into
//! the batch Job and, when the component listens on a port, the Service that
//! a cluster control plane expects.

pub mod component;
pub mod job;
pub mod meta;
pub mod service;
pub mod workload;
