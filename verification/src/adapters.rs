//! Wrappers that fix how a row, or one raw value, is rendered: as a positional
//! document, as an associative document, or as a single value.

use vstd::prelude::*;
use vstd::std_specs::convert::FromSpecImpl;
use crate::assemble::{
    associative_document, associative_view, positional_document, positional_view,
    serialize_pgrow_as_map, serialize_pgrow_as_vec,
};
use crate::catalog::TypeDispatcher;
use crate::convert::{convert_spec, serialize_pgvalueref};
use crate::keyed::Entry;
use crate::raw::{RawValue, Row};
use crate::value::{outcome_view, ConvertError, StructuredValue};

verus! {

/// A row that renders as its positional document.
#[derive(Clone, Debug, PartialEq, Eq)]
pub struct SerVecPgRow(pub Row);

/// A row that renders as its associative document. Where several columns have
/// one name, the last one wins.
#[derive(Clone, Debug, PartialEq, Eq)]
pub struct SerMapPgRow(pub Row);

/// A raw value that renders as its closest structured value.
#[derive(Clone, Debug, PartialEq, Eq)]
pub struct SerPgValueRef(pub RawValue);

impl From<Row> for SerVecPgRow {
    fn from(row: Row) -> (wrapper: SerVecPgRow) {
        SerVecPgRow(row)
    }
}

impl FromSpecImpl<Row> for SerVecPgRow {
    open spec fn obeys_from_spec() -> bool {
        true
    }

    open spec fn from_spec(row: Row) -> SerVecPgRow {
        SerVecPgRow(row)
    }
}

impl From<Row> for SerMapPgRow {
    fn from(row: Row) -> (wrapper: SerMapPgRow) {
        SerMapPgRow(row)
    }
}

impl FromSpecImpl<Row> for SerMapPgRow {
    open spec fn obeys_from_spec() -> bool {
        true
    }

    open spec fn from_spec(row: Row) -> SerMapPgRow {
        SerMapPgRow(row)
    }
}

impl From<RawValue> for SerPgValueRef {
    fn from(value: RawValue) -> (wrapper: SerPgValueRef) {
        SerPgValueRef(value)
    }
}

impl FromSpecImpl<RawValue> for SerPgValueRef {
    open spec fn obeys_from_spec() -> bool {
        true
    }

    open spec fn from_spec(value: RawValue) -> SerPgValueRef {
        SerPgValueRef(value)
    }
}

impl SerVecPgRow {
    /// The positional document of the row.
    pub fn as_positional_document(&self, dispatcher: &TypeDispatcher) -> (outcome: Result<
        Vec<StructuredValue>,
        ConvertError,
    >)
        ensures
            positional_view(outcome) == positional_document(*dispatcher, self.0@),
    {
        serialize_pgrow_as_vec(&self.0, dispatcher)
    }

    /// The row.
    pub fn as_row(&self) -> (row: &Row)
        ensures
            *row == self.0,
    {
        &self.0
    }

    /// Gives the row back.
    pub fn into_row(self) -> (row: Row)
        ensures
            row == self.0,
    {
        self.0
    }
}

impl SerMapPgRow {
    /// The associative document of the row.
    pub fn as_associative_document(&self, dispatcher: &TypeDispatcher) -> (outcome: Result<
        Vec<Entry>,
        ConvertError,
    >)
        ensures
            associative_view(outcome) == associative_document(*dispatcher, self.0@),
    {
        serialize_pgrow_as_map(&self.0, dispatcher)
    }

    /// The row.
    pub fn as_row(&self) -> (row: &Row)
        ensures
            *row == self.0,
    {
        &self.0
    }

    /// Gives the row back.
    pub fn into_row(self) -> (row: Row)
        ensures
            row == self.0,
    {
        self.0
    }
}

impl SerPgValueRef {
    /// The structured value of the raw value, as the cell of the column at
    /// `ordinal`.
    pub fn as_structured_value(&self, ordinal: usize, dispatcher: &TypeDispatcher) -> (outcome:
        Result<StructuredValue, ConvertError>)
        ensures
            outcome_view(outcome) == convert_spec(*dispatcher, self.0@, ordinal as nat),
    {
        serialize_pgvalueref(&self.0, ordinal, dispatcher)
    }

    /// The raw value.
    pub fn as_raw_value(&self) -> (value: &RawValue)
        ensures
            *value == self.0,
    {
        &self.0
    }

    /// Gives the raw value back.
    pub fn into_raw_value(self) -> (value: RawValue)
        ensures
            value == self.0,
    {
        self.0
    }
}

} // verus!
