//! Listener binding for a small HTTP daemon.
//!
//! A declarative configuration names listen addresses (`tcp://host:port` or
//! `unix:///path`) and, optionally, TLS material applied uniformly to every
//! TCP listener. This crate classifies each address, validates the TLS
//! material, and produces a bind plan: the ordered sequence of bind actions
//! and the worker concurrency for the server. Classification is
//! all-or-nothing: the first invalid address fails the whole plan, and
//! nothing after it is considered.

pub mod address;
pub mod config;
pub mod error;
pub mod plan;
pub mod run;

pub use address::ListenAddress;
pub use config::{DaemonConfig, SslConfig, SystemState, SystemStateInner};
pub use error::{BindError, ConfigError, ErrorKind};
pub use plan::{build_plan, plan_server, BindPlan, BindStep};
pub use run::BindRun;
