//! A verified toolkit for gating code units on interchangeable zero-knowledge
//! virtual-machine backends.
//!
//! The heart of the crate is the configuration-predicate rewriter: it takes a
//! small configuration expression (bare atoms, `key = "literal"` assignments,
//! and n-ary combinator calls), replaces every recognized backend identifier
//! with the canonical low-level predicate for that backend, and leaves every
//! unrelated flag untouched.  Identifier resolution, alias-based diagnostics,
//! and the rewrite itself carry full functional contracts.
//!
//! The remaining modules hold the verified surface of the surrounding
//! toolkit: guest-program and prover interfaces, serialization strategies,
//! and build-option plumbing.

pub mod build_options;
pub mod expr;
pub mod ident;
pub mod interface;
pub mod io;
pub mod laws;
pub mod platform;
pub mod rewrite;
