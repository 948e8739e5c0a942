//! SQLite-compatible SQL for a provider whose storage, entropy and clocks all
//! belong to its host.
//!
//! The SQL engine is `turso_core`. It reaches durable files, random bytes and
//! both clocks only through the host. This library decides what is asked of
//! the engine and of the host, and what their answers become; it makes no call
//! to either. A caller performs each call and hands back what came of it.
//!
//! - [`provider`]: the manifest, the capability and the command word.
//! - [`statements`]: which inputs hold statements, and which are refused.
//! - [`exec`]: the course of one invocation, and [`exec_laws`] what holds of
//!   every one.
//! - [`cell`], [`response`], [`json`]: rows and answers as JSON.
//! - [`io`], [`file`], [`storage`]: files by name, one open file with its lock,
//!   and the errors of the host.
//! - [`entropy`]: random bytes in bounded calls.
//! - [`trace`]: the count of host calls that an answer reports, and
//!   [`report_laws`] what the report says of the calls that were made.
//! - [`text`], [`error`]: words and failures.

pub mod cell;
pub mod entropy;
pub mod error;
pub mod exec;
pub mod exec_laws;
pub mod file;
pub mod io;
pub mod json;
pub mod provider;
pub mod report_laws;
pub mod response;
pub mod statements;
pub mod storage;
pub mod text;
pub mod trace;
