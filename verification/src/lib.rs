//! Build-time interface generator for a native filesystem callback table.
//!
//! The native library drives a fixed C-ABI struct of nullable function
//! pointers, one per filesystem operation.  This crate models that table and
//! the whole generation pipeline over it: analyzing which table fields are
//! eligible operations, synthesizing safe method signatures from raw
//! pointer-level signatures, the trampoline result mapping that keeps every
//! failure inside a well-formed status code, and the delegation fallback that
//! recovers the native default behavior for a declined operation.

pub mod analyzer;
pub mod error;
pub mod generate;
pub mod harness;
pub mod idents;
pub mod runtime;
pub mod shape;
pub mod synth;
pub mod table;

pub use error::Error;
