//! Orchestration layer for a two-tape, cell-based virtual machine.
//!
//! The instruction-level semantics of the machine live in the external
//! `sbrain` crate and are deliberately opaque here.  This library owns
//! everything around that engine: turning raw source text into a program
//! tape and a data tape, validating and committing those tapes into a
//! freshly constructed machine, supervising a bounded or unbounded run,
//! adapting externally supplied input into the machine's cell width, and
//! rendering the resulting output tape either as a numeric listing or as a
//! lossily decoded text.
//!
//! Two thin front ends share one pipeline: a flag-driven one that reads a
//! source file, an optional input file and an optional cycle cap, and a
//! config-driven one that reads a single declarative document.  Both are
//! exposed here as pure functions from plain values to a rendered result
//! or a [`fault::Fault`]; the surrounding process (argument handling, file
//! reads, printing, exit status) stays outside the library.

pub mod adapter;
pub mod config;
pub mod engine;
pub mod fault;
pub mod laws;
pub mod machine;
pub mod numeral;
pub mod pipeline;
pub mod render;
