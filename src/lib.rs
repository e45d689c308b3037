//! Resolves the output of an external command into a literal that generated
//! source code can embed.
//!
//! The pipeline runs in four steps: an argument list is parsed, the command
//! is run by the caller, its termination is classified, and the standard
//! output, with one trailing newline removed, becomes a text or byte literal.
//! Running the process is left to the caller, which hands the captured
//! result back to this library as plain values.
pub mod diagnostic;
pub mod literal;
pub mod normalize;
pub mod resolve;
pub mod text;
