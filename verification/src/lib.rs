//! A builder-pattern code generator.
//!
//! Given the schema of a record type (an ordered list of named fields, each
//! with a declared type), the crate decides which fields are optional and
//! which are required, and synthesizes a companion builder definition: a
//! storage layout, an initializer, one setter per field, and a finalizer
//! that enforces required-field presence.
//!
//! The crate also carries the runtime behaviour that every synthesized
//! builder shares (`runtime`), and a small package-manifest model built in
//! that style (`manifest`).

pub mod manifest;
pub mod runtime;
pub mod schema;
pub mod synth;
pub mod type_expr;
