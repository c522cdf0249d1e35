//! A pod-oriented runtime core that executes sandboxed WASI modules with the
//! wasm3 interpreter and reports their lifecycle back to an orchestration
//! layer.
//!
//! The crate models the execution runtime and its status/lifecycle protocol:
//! how a module is run to completion, how its outcome is published exactly
//! once on a status channel, how its output is captured in a reopenable log
//! sink, and how a registry tracks many instances keyed by pod identity.
//! Host plumbing (threads, files, the control plane client) lives outside
//! this crate and talks to it through plain values.

pub mod status;
pub mod logsink;
pub mod kvmap;
pub mod binding;
pub mod runtime;
pub mod provider;
