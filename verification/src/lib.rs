//! Declarative synchronization of GitHub repository deployment environments
//! and their variables against a desired-state configuration document.
//!
//! The crate holds the reconciliation logic: which API requests to issue for
//! a given document and selector, how each response is to be read, and the
//! create-or-update decision for every variable. A thin driver performs the
//! HTTP exchanges and feeds each response back into the session state machine.

pub mod cli;
pub mod client;
pub mod config;
pub mod correctness;
pub mod effect;
pub mod err;
pub mod http;
pub mod json;
pub mod numeral;
pub mod sync;
