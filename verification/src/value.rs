//! The structured value that a cell converts to, and the failures of a
//! conversion.

use vstd::prelude::*;

verus! {

/// One interchange-ready value. A float is held as its IEEE 754 bit pattern.
#[derive(Debug, PartialEq)]
pub enum StructuredValue {
    /// The absent value.
    Null,
    /// A boolean.
    Bool(bool),
    /// A 16-bit integer.
    Int16(i16),
    /// A 32-bit integer.
    Int32(i32),
    /// A 64-bit integer.
    Int64(i64),
    /// A 32-bit float, by its bits.
    Float32(u32),
    /// A 64-bit float, by its bits.
    Float64(u64),
    /// A text, verbatim.
    Text(String),
    /// A decimal in its canonical text.
    NumericText(String),
    /// Bytes, in the order of the cell.
    Bytes(Vec<u8>),
    /// A nested document, parsed.
    Json(serde_json::Value),
}

/// The mathematical model of a [`StructuredValue`].
pub enum ValueView {
    Null,
    Bool(bool),
    Int16(i16),
    Int32(i32),
    Int64(i64),
    Float32(u32),
    Float64(u64),
    Text(Seq<char>),
    NumericText(Seq<char>),
    Bytes(Seq<u8>),
    Json(serde_json::Value),
}

impl View for StructuredValue {
    type V = ValueView;

    open spec fn view(&self) -> ValueView {
        match *self {
            StructuredValue::Null => ValueView::Null,
            StructuredValue::Bool(b) => ValueView::Bool(b),
            StructuredValue::Int16(n) => ValueView::Int16(n),
            StructuredValue::Int32(n) => ValueView::Int32(n),
            StructuredValue::Int64(n) => ValueView::Int64(n),
            StructuredValue::Float32(bits) => ValueView::Float32(bits),
            StructuredValue::Float64(bits) => ValueView::Float64(bits),
            StructuredValue::Text(s) => ValueView::Text(s@),
            StructuredValue::NumericText(s) => ValueView::NumericText(s@),
            StructuredValue::Bytes(b) => ValueView::Bytes(b@),
            StructuredValue::Json(doc) => ValueView::Json(doc),
        }
    }
}

/// Why a cell could not be converted.
#[derive(Clone, Debug, PartialEq, Eq)]
pub enum ConvertError {
    /// The cell did not decode as the target that its type identifier selects.
    DecodeMismatch { ordinal: usize, identifier: String },
    /// The cell took the text fallback and did not decode as text.
    FallbackDecodeFailure { ordinal: usize },
    /// The text of a JSON cell is not a JSON document.
    NestedJsonParseFailure { ordinal: usize },
}

/// The mathematical model of a [`ConvertError`].
pub enum ErrorView {
    DecodeMismatch { ordinal: nat, identifier: Seq<char> },
    FallbackDecodeFailure { ordinal: nat },
    NestedJsonParseFailure { ordinal: nat },
}

impl View for ConvertError {
    type V = ErrorView;

    open spec fn view(&self) -> ErrorView {
        match *self {
            ConvertError::DecodeMismatch { ordinal, identifier } => ErrorView::DecodeMismatch {
                ordinal: ordinal as nat,
                identifier: identifier@,
            },
            ConvertError::FallbackDecodeFailure { ordinal } => ErrorView::FallbackDecodeFailure {
                ordinal: ordinal as nat,
            },
            ConvertError::NestedJsonParseFailure { ordinal } => ErrorView::NestedJsonParseFailure {
                ordinal: ordinal as nat,
            },
        }
    }
}

impl ConvertError {
    /// The ordinal of the column whose cell failed.
    pub fn ordinal(&self) -> (ordinal: usize)
        ensures
            ordinal == self@.ordinal(),
    {
        match self {
            ConvertError::DecodeMismatch { ordinal, .. } => *ordinal,
            ConvertError::FallbackDecodeFailure { ordinal } => *ordinal,
            ConvertError::NestedJsonParseFailure { ordinal } => *ordinal,
        }
    }
}

impl ErrorView {
    /// The ordinal of the column whose cell failed.
    pub open spec fn ordinal(self) -> nat {
        match self {
            ErrorView::DecodeMismatch { ordinal, .. } => ordinal,
            ErrorView::FallbackDecodeFailure { ordinal } => ordinal,
            ErrorView::NestedJsonParseFailure { ordinal } => ordinal,
        }
    }
}

/// The model of the outcome of a conversion.
pub open spec fn outcome_view(outcome: Result<StructuredValue, ConvertError>) -> Result<
    ValueView,
    ErrorView,
> {
    match outcome {
        Ok(value) => Ok(value@),
        Err(error) => Err(error@),
    }
}

} // verus!
