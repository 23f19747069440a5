//! Recovery logic of a remote execution client and of the build driver around it.
//!
//! The modules keep the decisions apart from the transport: each takes what a
//! remote peer answered as a plain value and says what to do next.
pub mod action_run;
pub mod attribution;
pub mod batching;
pub mod build_command;
pub mod calculation;
pub mod cas_missing_recovery;
pub mod chance;
pub mod client;
pub mod command_executor;
pub mod convert;
pub mod digest;
pub mod digests_ttl;
pub mod download;
pub mod duration;
pub mod error;
pub mod execute;
pub mod find_missing;
pub mod headers;
pub mod keyed;
pub mod messages;
pub mod missing_cas_digests;
pub mod names;
pub mod observer;
pub mod platform;
pub mod reattach;
pub mod recovery_rounds;
pub mod restarter;
pub mod retry;
pub mod text;
pub mod upload;
