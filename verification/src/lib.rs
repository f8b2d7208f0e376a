//! Command gateway of a blob-store client.
//!
//! An invocation names one operation: on the command line, or in a JSON
//! document that holds the same fields in lower camel case. This crate
//! holds the operations and their parameters ([`command`], [`defaults`]),
//! reads and writes the JSON form of an invocation ([`json`], [`schema`]),
//! resolves an invocation that stands for a document ([`rehydrate`]),
//! decides what has to be set up for an operation ([`route`], [`config`]),
//! and writes out what came of it, for people or for programs ([`output`],
//! with [`units`], [`style`], [`sizing`] and [`status`]). Talking to the
//! storage system is left to the caller.
//!
//! The options of the testbed orchestrator are in [`orchestrator`].

pub mod blob_id;
pub mod command;
pub mod config;
pub mod defaults;
pub mod error;
pub mod json;
pub mod orchestrator;
pub mod output;
pub mod rehydrate;
pub mod route;
pub mod schema;
pub mod sizing;
pub mod status;
pub mod style;
pub mod text;
pub mod units;
