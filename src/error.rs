//! Errors of trace conversion.

use vstd::prelude::*;

verus! {

/// Why a trace could not be converted.
#[derive(Debug, PartialEq, Eq)]
pub enum ConversionError {
    /// The columns handed over do not form a `rows` x `cols` rectangle.
    InvalidDimensions { rows: usize, cols: usize },
    /// The trace has no rows or no columns.
    EmptyTrace,
    /// A value cannot be represented in the target field's canonical domain.
    FieldConversion(String),
    /// A padded height disagrees with the height a caller required.
    PowerOfTwoPadding { current: usize, required: usize },
}

impl ConversionError {
    /// A human-readable description of the error.
    pub fn to_string(&self) -> (r: String)
        ensures
            *self == ConversionError::EmptyTrace ==> r@ == "Trace is empty"@,
            self is FieldConversion ==> r@ == "Field conversion error: "@ + self->FieldConversion_0@,
            self is InvalidDimensions ==> r@.len() >= "Invalid trace dimensions: "@.len()
                && r@.subrange(0, "Invalid trace dimensions: "@.len() as int)
                == "Invalid trace dimensions: "@,
            self is PowerOfTwoPadding ==> r@.len() >= "Power of 2 padding error: current="@.len()
                && r@.subrange(0, "Power of 2 padding error: current="@.len() as int)
                == "Power of 2 padding error: current="@,
    {
        match self {
            ConversionError::InvalidDimensions { rows, cols } => {
                let mut s = String::from_str("Invalid trace dimensions: ");
                s.append(rows.to_string().as_str());
                s.append("×");
                s.append(cols.to_string().as_str());
                s
            },
            ConversionError::EmptyTrace => String::from_str("Trace is empty"),
            ConversionError::FieldConversion(msg) => {
                let mut s = String::from_str("Field conversion error: ");
                s.append(msg.as_str());
                s
            },
            ConversionError::PowerOfTwoPadding { current, required } => {
                let mut s = String::from_str("Power of 2 padding error: current=");
                s.append(current.to_string().as_str());
                s.append(", required=");
                s.append(required.to_string().as_str());
                s
            },
        }
    }
}

} // verus!
