//! Scheduling assistant for governance upgrades of a Cosmos-style network.
//!
//! The crate covers the computational core of planning a software upgrade:
//! estimating a future block height from observed chain timing, computing a
//! compliant upgrade date under business-calendar rules, and validating
//! version strings.  Network I/O, prompting and templating live outside the
//! library and feed it plain values.

pub mod block;
pub mod date;
pub mod evmosd;
pub mod helper;
pub mod inputs;
pub mod keys;
pub mod llm;
pub mod network;
pub mod proposal;
pub mod release;
pub mod schedule;
pub mod strutil;
pub mod version;
