//! Instrumentation engine for power-assert style assertion diagnostics.
//!
//! The library rewrites assertion call sites in a modeled ECMAScript syntax
//! tree so that every evaluated sub-expression reports its value and source
//! position at run time.

pub mod ast;
pub mod laws;
pub mod names;
pub mod pos;
pub mod sandbox;
pub mod synth;
pub mod targets;
pub mod text;
pub mod transform;
pub mod walk;
