//! Per-request database resource brokering for an HTTP middleware pipeline.
//!
//! Each request gets exactly one resource: a plain pooled connection for
//! read-only methods, or a transaction for everything else. The broker
//! decides, step by step, what to acquire, when to hand control downstream,
//! and how to resolve the resource (commit, release, or halt) once the
//! downstream stages have produced an outcome.
pub mod broker;
pub mod handle;
pub mod lifecycle;
pub mod method;
pub mod slot;

pub use handle::ConnectionWrapInner;
