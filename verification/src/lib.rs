//! The front end of a derive macro for error types, and the build-time
//! probe that goes with it.
//!
//! - [`node`]: a declaration as the host hands it in, read from the syntax
//!   tree that `syn` parsed.
//! - [`ast`]: the typed model of a declaration, and its extraction from a
//!   node with the help of the caller's attribute parser.
//! - [`probe`]: the decisions of the toolchain probe, from the environment
//!   of the build to the configuration gate.
//! - [`syntax`]: what is taken from `syn` on trust.

pub mod ast;
pub mod node;
pub mod probe;
pub mod syntax;
