//! Verified core of a desktop shell around the `fnm` Node.js version manager.
//!
//! The library holds the logic that must be exact: enumerating the
//! platform-specific places where the `fnm` binary may live and picking the
//! first that exists, building the process environment the tool needs when
//! launched outside an interactive shell, constructing the argument vectors
//! for each tool operation, and parsing the tool's line-oriented output into
//! typed records. Everything ambient (the home directory, environment
//! variables, filesystem probes, subprocess outcomes) is passed in as plain
//! values, so every function here is verified for all inputs.

pub mod alias;
pub mod ambient;
pub mod environment;
pub mod facade;
pub mod parser;
pub mod platform;
pub mod resolver;
pub mod text;
