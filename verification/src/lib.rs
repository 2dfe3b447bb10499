//! A verified interpreter for a tiny eight-symbol tape language.
//!
//! A source text is translated character by character into a sequence of
//! [`instruction::Instruction`]s, and an executor then runs that sequence
//! against a fixed-length tape of byte cells. The step semantics, the
//! loop-matching scan and the bounded driver are all specified against a
//! mathematical model of the interpreter state and proved to follow it.

pub mod instruction;
pub mod interp;
pub mod laws;
pub mod state;
pub mod step;
