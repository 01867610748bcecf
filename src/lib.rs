//! Trace transcoding between a column-major virtual-machine execution trace
//! and the row-major, power-of-two-height matrix that a STARK prover consumes,
//! together with a translation of the machine's constraint system into a list
//! of two-row polynomial assertions.
//!
//! Field elements travel as their canonical unsigned-integer representation;
//! re-encoding them into a concrete field type is left to the caller.

pub mod air;
pub mod convert;
pub mod error;
pub mod padding;
pub mod trace;

pub use air::{Assertion, Constraint, Expr, Guard, MidenProcessorAir, Segment};
pub use convert::{
    convert_miden_execution, convert_miden_trace, BoundaryPolicy, TraceConverter, TraceStats,
};
pub use error::ConversionError;
pub use padding::next_power_of_two;
pub use trace::{SourceTrace, TargetMatrix};
