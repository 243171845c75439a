//! Conversion of one database result row into an interchange-ready structured
//! document.
//!
//! A row is a list of named cells. Each cell reports a type identifier, a null
//! flag and the outcome of the driver's typed decode. The [`TypeDispatcher`]
//! maps the type identifier onto a decode target, the value converter turns one
//! cell into a [`StructuredValue`], and the two row assemblers build the
//! positional and the name-keyed document.

pub mod adapters;
pub mod assemble;
pub mod catalog;
pub mod convert;
pub mod identifier;
pub mod keyed;
pub mod laws;
pub mod raw;
pub mod render;
pub mod text;
pub mod value;

pub use adapters::{SerMapPgRow, SerPgValueRef, SerVecPgRow};
pub use assemble::{read_header, read_row, serialize_pgrow_as_map, serialize_pgrow_as_vec};
pub use catalog::{DecodeTarget, TypeDispatcher};
pub use convert::serialize_pgvalueref;
pub use keyed::Entry;
pub use raw::{Cell, Column, Decoded, RawValue, Row};
pub use value::{ConvertError, StructuredValue};
