//! The type dispatcher: the catalog of database type identifiers and the
//! decode target that each of them selects.

use vstd::prelude::*;
use crate::text::same_text;

verus! {

/// The native representation that a cell is decoded into before it is encoded
/// as a structured value.
#[derive(Clone, Copy, Debug, PartialEq, Eq, Structural)]
pub enum DecodeTarget {
    /// `BOOL`: a boolean.
    Bool,
    /// `INT2`: a 16-bit integer.
    Int2,
    /// `INT4`: a 32-bit integer.
    Int4,
    /// `INT8`: a 64-bit integer.
    Int8,
    /// `FLOAT4`: a 32-bit float.
    Float4,
    /// `FLOAT8`: a 64-bit float.
    Float8,
    /// `NUMERIC`, where the dispatcher supports decimals.
    Numeric,
    /// `CHAR`, `VARCHAR`, `TEXT` and the quoted `"CHAR"`: text.
    Text,
    /// `BYTEA`: binary.
    Bytea,
    /// `JSON` and `JSONB`: text that holds a nested document.
    Json,
    /// `TIMESTAMP`: a date-time without zone.
    Timestamp,
    /// `TIMESTAMPTZ`: a date-time with zone, normalized to UTC.
    TimestampTz,
    /// `DATE`: a calendar date.
    Date,
    /// `TIME`: a time of day.
    Time,
    /// `UUID`: a 128-bit identifier.
    Uuid,
    /// Every other identifier: the cell is decoded as text.
    Fallback,
}

/// The dispatch table: the decode target of a type identifier. The match is
/// exact and case-sensitive; an identifier that the table does not list selects
/// the text fallback, and so does `NUMERIC` without decimal support.
pub open spec fn target_of(name: Seq<char>, numeric: bool) -> DecodeTarget {
    if name == "BOOL"@ {
        DecodeTarget::Bool
    } else if name == "INT2"@ {
        DecodeTarget::Int2
    } else if name == "INT4"@ {
        DecodeTarget::Int4
    } else if name == "INT8"@ {
        DecodeTarget::Int8
    } else if name == "FLOAT4"@ {
        DecodeTarget::Float4
    } else if name == "FLOAT8"@ {
        DecodeTarget::Float8
    } else if name == "NUMERIC"@ {
        if numeric {
            DecodeTarget::Numeric
        } else {
            DecodeTarget::Fallback
        }
    } else if name == "CHAR"@ || name == "VARCHAR"@ || name == "TEXT"@ || name == "\"CHAR\""@ {
        DecodeTarget::Text
    } else if name == "BYTEA"@ {
        DecodeTarget::Bytea
    } else if name == "JSON"@ || name == "JSONB"@ {
        DecodeTarget::Json
    } else if name == "TIMESTAMP"@ {
        DecodeTarget::Timestamp
    } else if name == "TIMESTAMPTZ"@ {
        DecodeTarget::TimestampTz
    } else if name == "DATE"@ {
        DecodeTarget::Date
    } else if name == "TIME"@ {
        DecodeTarget::Time
    } else if name == "UUID"@ {
        DecodeTarget::Uuid
    } else {
        DecodeTarget::Fallback
    }
}

/// The type dispatcher. Its one capability, decimal support, is fixed when it
/// is made.
#[derive(Clone, Copy, Debug, PartialEq, Eq, Structural)]
pub struct TypeDispatcher {
    /// Whether `NUMERIC` cells are decoded as decimals. Without it they take
    /// the text fallback.
    pub numeric: bool,
}

impl TypeDispatcher {
    /// A dispatcher without decimal support.
    pub fn new() -> (dispatcher: TypeDispatcher)
        ensures
            dispatcher == (TypeDispatcher { numeric: false }),
    {
        TypeDispatcher { numeric: false }
    }

    /// A dispatcher with decimal support as given.
    pub fn with_numeric(numeric: bool) -> (dispatcher: TypeDispatcher)
        ensures
            dispatcher == (TypeDispatcher { numeric }),
    {
        TypeDispatcher { numeric }
    }

    /// Whether this dispatcher decodes `NUMERIC` cells as decimals.
    pub fn supports_numeric(&self) -> (numeric: bool)
        ensures
            numeric == self.numeric,
    {
        self.numeric
    }

    /// The decode target of a type identifier. Total: every identifier, known
    /// or not, has a target.
    pub fn dispatch(&self, name: &str) -> (target: DecodeTarget)
        ensures
            target == target_of(name@, self.numeric),
    {
        if same_text(name, "BOOL") {
            DecodeTarget::Bool
        } else if same_text(name, "INT2") {
            DecodeTarget::Int2
        } else if same_text(name, "INT4") {
            DecodeTarget::Int4
        } else if same_text(name, "INT8") {
            DecodeTarget::Int8
        } else if same_text(name, "FLOAT4") {
            DecodeTarget::Float4
        } else if same_text(name, "FLOAT8") {
            DecodeTarget::Float8
        } else if same_text(name, "NUMERIC") {
            if self.numeric {
                DecodeTarget::Numeric
            } else {
                DecodeTarget::Fallback
            }
        } else if same_text(name, "CHAR") || same_text(name, "VARCHAR") || same_text(name, "TEXT")
            || same_text(name, "\"CHAR\"") {
            DecodeTarget::Text
        } else if same_text(name, "BYTEA") {
            DecodeTarget::Bytea
        } else if same_text(name, "JSON") || same_text(name, "JSONB") {
            DecodeTarget::Json
        } else if same_text(name, "TIMESTAMP") {
            DecodeTarget::Timestamp
        } else if same_text(name, "TIMESTAMPTZ") {
            DecodeTarget::TimestampTz
        } else if same_text(name, "DATE") {
            DecodeTarget::Date
        } else if same_text(name, "TIME") {
            DecodeTarget::Time
        } else if same_text(name, "UUID") {
            DecodeTarget::Uuid
        } else {
            DecodeTarget::Fallback
        }
    }
}

impl Default for TypeDispatcher {
    fn default() -> (dispatcher: TypeDispatcher)
        ensures
            dispatcher == (TypeDispatcher { numeric: false }),
    {
        TypeDispatcher { numeric: false }
    }
}

} // verus!
