//! The value converter: from one raw value to one structured value.

use vstd::prelude::*;
use crate::catalog::{target_of, DecodeTarget, TypeDispatcher};
use crate::identifier::{hyphenated, uuid_text};
use crate::raw::{decoded_view, Decoded, DecodedView, RawValue, RawValueView};
use crate::render::{
    date_text, document_view, json_document, numeric_in_range, numeric_text, parse_json,
    render_date, render_numeric, render_time, render_timestamp, render_timestamptz, text_view,
    time_in_range, time_text, timestamp_text, timestamptz_text,
};
use crate::value::{outcome_view, ConvertError, ErrorView, StructuredValue, ValueView};

verus! {

/// The value of a rendered text: the text where there is one, a decode mismatch
/// of the column where there is none.
pub open spec fn rendered_text_spec(
    rendered: Option<Seq<char>>,
    identifier: Seq<char>,
    ordinal: nat,
) -> Result<ValueView, ErrorView> {
    match rendered {
        Some(text) => Ok(ValueView::Text(text)),
        None => Err(ErrorView::DecodeMismatch { ordinal, identifier }),
    }
}

/// The value of a rendered decimal: the canonical text where there is one, a
/// decode mismatch of the column where there is none.
pub open spec fn rendered_numeric_spec(
    rendered: Option<Seq<char>>,
    identifier: Seq<char>,
    ordinal: nat,
) -> Result<ValueView, ErrorView> {
    match rendered {
        Some(text) => Ok(ValueView::NumericText(text)),
        None => Err(ErrorView::DecodeMismatch { ordinal, identifier }),
    }
}

/// The value of a parsed document: the document where there is one, a parse
/// failure of the column where there is none.
pub open spec fn embedded_json_spec(parsed: Option<serde_json::Value>, ordinal: nat) -> Result<
    ValueView,
    ErrorView,
> {
    match parsed {
        Some(document) => Ok(ValueView::Json(document)),
        None => Err(ErrorView::NestedJsonParseFailure { ordinal }),
    }
}

/// The encoding rules. A decoded value of the shape that the target expects is
/// encoded; anything else, a failed decode included, is a decode mismatch that
/// names the column and the type identifier. On the text fallback it is a
/// fallback failure instead.
pub open spec fn encode_spec(
    target: DecodeTarget,
    identifier: Seq<char>,
    decoded: Option<DecodedView>,
    ordinal: nat,
) -> Result<ValueView, ErrorView> {
    match (target, decoded) {
        (DecodeTarget::Bool, Some(DecodedView::Bool(b))) => Ok(ValueView::Bool(b)),
        (DecodeTarget::Int2, Some(DecodedView::Int2(n))) => Ok(ValueView::Int16(n)),
        (DecodeTarget::Int4, Some(DecodedView::Int4(n))) => Ok(ValueView::Int32(n)),
        (DecodeTarget::Int8, Some(DecodedView::Int8(n))) => Ok(ValueView::Int64(n)),
        (DecodeTarget::Float4, Some(DecodedView::Float4(bits))) => Ok(
            ValueView::Float32(bits),
        ),
        (DecodeTarget::Float8, Some(DecodedView::Float8(bits))) => Ok(
            ValueView::Float64(bits),
        ),
        (DecodeTarget::Numeric, Some(DecodedView::Numeric { mantissa, scale })) =>
            rendered_numeric_spec(numeric_text(mantissa, scale), identifier, ordinal),
        (DecodeTarget::Text, Some(DecodedView::Text(text))) => Ok(ValueView::Text(text)),
        (DecodeTarget::Bytea, Some(DecodedView::Bytes(bytes))) => Ok(ValueView::Bytes(bytes)),
        (DecodeTarget::Json, Some(DecodedView::Text(text))) => embedded_json_spec(
            json_document(text),
            ordinal,
        ),
        (DecodeTarget::Timestamp, Some(DecodedView::Timestamp { secs, nanos })) =>
            rendered_text_spec(timestamp_text(secs, nanos), identifier, ordinal),
        (DecodeTarget::TimestampTz, Some(DecodedView::TimestampTz { secs, nanos })) =>
            rendered_text_spec(timestamptz_text(secs, nanos), identifier, ordinal),
        (DecodeTarget::Date, Some(DecodedView::Date { days })) => rendered_text_spec(
            date_text(days),
            identifier,
            ordinal,
        ),
        (DecodeTarget::Time, Some(DecodedView::Time { second_of_day, nanos })) =>
            rendered_text_spec(time_text(second_of_day, nanos), identifier, ordinal),
        (DecodeTarget::Uuid, Some(DecodedView::Uuid(id))) => Ok(ValueView::Text(hyphenated(id))),
        (DecodeTarget::Fallback, Some(DecodedView::Text(text))) => Ok(ValueView::Text(text)),
        (DecodeTarget::Fallback, _) => Err(ErrorView::FallbackDecodeFailure { ordinal }),
        _ => Err(ErrorView::DecodeMismatch { ordinal, identifier }),
    }
}

/// What is known of when a time of day or a decimal can be written: whether
/// `made`, the success of an encoding, is what the ranges of the date-time and
/// decimal crates give for such a decoded value. True of every other value.
pub open spec fn ranges_respected(
    target: DecodeTarget,
    decoded: Option<DecodedView>,
    made: bool,
) -> bool {
    match (target, decoded) {
        (DecodeTarget::Time, Some(DecodedView::Time { second_of_day, nanos })) => made
            == time_in_range(second_of_day, nanos),
        (DecodeTarget::Numeric, Some(DecodedView::Numeric { mantissa, scale })) => made
            == numeric_in_range(mantissa, scale),
        _ => true,
    }
}

/// What the type dispatcher makes of a raw value: the encoding, by the target
/// that the value's type identifier selects, of what the value decoded to.
pub open spec fn dispatch_spec(
    dispatcher: TypeDispatcher,
    value: RawValueView,
    ordinal: nat,
) -> Result<ValueView, ErrorView> {
    encode_spec(
        target_of(value.identifier, dispatcher.numeric),
        value.identifier,
        value.decoded,
        ordinal,
    )
}

/// What a raw value converts to: `Null` for a null cell, whatever its type
/// identifier; else what the type dispatcher makes of it.
pub open spec fn convert_spec(
    dispatcher: TypeDispatcher,
    value: RawValueView,
    ordinal: nat,
) -> Result<ValueView, ErrorView> {
    if value.null {
        Ok(ValueView::Null)
    } else {
        dispatch_spec(dispatcher, value, ordinal)
    }
}

/// The decode mismatch of a column.
fn mismatch(identifier: &str, ordinal: usize) -> (outcome: Result<StructuredValue, ConvertError>)
    ensures
        outcome_view(outcome) == Err::<ValueView, ErrorView>(
            ErrorView::DecodeMismatch { ordinal: ordinal as nat, identifier: identifier@ },
        ),
{
    Err(ConvertError::DecodeMismatch { ordinal, identifier: identifier.to_owned() })
}

/// Makes a text value of a rendered text, or a decode mismatch where nothing
/// was rendered.
pub fn rendered_text(rendered: Option<String>, identifier: &str, ordinal: usize) -> (outcome:
    Result<StructuredValue, ConvertError>)
    ensures
        outcome_view(outcome) == rendered_text_spec(
            text_view(rendered),
            identifier@,
            ordinal as nat,
        ),
{
    match rendered {
        Some(text) => Ok(StructuredValue::Text(text)),
        None => mismatch(identifier, ordinal),
    }
}

/// Makes a numeric text value of a rendered decimal, or a decode mismatch
/// where nothing was rendered.
pub fn rendered_numeric(rendered: Option<String>, identifier: &str, ordinal: usize) -> (outcome:
    Result<StructuredValue, ConvertError>)
    ensures
        outcome_view(outcome) == rendered_numeric_spec(
            text_view(rendered),
            identifier@,
            ordinal as nat,
        ),
{
    match rendered {
        Some(text) => Ok(StructuredValue::NumericText(text)),
        None => mismatch(identifier, ordinal),
    }
}

/// Embeds a parsed document as a value, or reports the parse failure of the
/// column.
pub fn embedded_json(
    parsed: Result<serde_json::Value, serde_json::Error>,
    ordinal: usize,
) -> (outcome: Result<StructuredValue, ConvertError>)
    ensures
        outcome_view(outcome) == embedded_json_spec(document_view(parsed), ordinal as nat),
{
    match parsed {
        Ok(document) => Ok(StructuredValue::Json(document)),
        Err(_) => Err(ConvertError::NestedJsonParseFailure { ordinal }),
    }
}

/// Encodes what a cell decoded to, by the rules of the given target.
pub fn encode(
    target: DecodeTarget,
    identifier: &str,
    decoded: &Option<Decoded>,
    ordinal: usize,
) -> (outcome: Result<StructuredValue, ConvertError>)
    ensures
        outcome_view(outcome) == encode_spec(
            target,
            identifier@,
            decoded_view(*decoded),
            ordinal as nat,
        ),
        ranges_respected(target, decoded_view(*decoded), outcome is Ok),
{
    match target {
        DecodeTarget::Bool => match decoded {
            Some(Decoded::Bool(b)) => Ok(StructuredValue::Bool(*b)),
            _ => mismatch(identifier, ordinal),
        },
        DecodeTarget::Int2 => match decoded {
            Some(Decoded::Int2(n)) => Ok(StructuredValue::Int16(*n)),
            _ => mismatch(identifier, ordinal),
        },
        DecodeTarget::Int4 => match decoded {
            Some(Decoded::Int4(n)) => Ok(StructuredValue::Int32(*n)),
            _ => mismatch(identifier, ordinal),
        },
        DecodeTarget::Int8 => match decoded {
            Some(Decoded::Int8(n)) => Ok(StructuredValue::Int64(*n)),
            _ => mismatch(identifier, ordinal),
        },
        DecodeTarget::Float4 => match decoded {
            Some(Decoded::Float4(bits)) => Ok(StructuredValue::Float32(*bits)),
            _ => mismatch(identifier, ordinal),
        },
        DecodeTarget::Float8 => match decoded {
            Some(Decoded::Float8(bits)) => Ok(StructuredValue::Float64(*bits)),
            _ => mismatch(identifier, ordinal),
        },
        DecodeTarget::Numeric => match decoded {
            Some(Decoded::Numeric { mantissa, scale }) => rendered_numeric(
                render_numeric(*mantissa, *scale),
                identifier,
                ordinal,
            ),
            _ => mismatch(identifier, ordinal),
        },
        DecodeTarget::Text => match decoded {
            Some(Decoded::Text(text)) => Ok(StructuredValue::Text(text.clone())),
            _ => mismatch(identifier, ordinal),
        },
        DecodeTarget::Bytea => match decoded {
            Some(Decoded::Bytes(bytes)) => {
                let copy = bytes.clone();
                assert(copy@ =~= bytes@);
                Ok(StructuredValue::Bytes(copy))
            },
            _ => mismatch(identifier, ordinal),
        },
        DecodeTarget::Json => match decoded {
            Some(Decoded::Text(text)) => embedded_json(parse_json(text.as_str()), ordinal),
            _ => mismatch(identifier, ordinal),
        },
        DecodeTarget::Timestamp => match decoded {
            Some(Decoded::Timestamp { secs, nanos }) => rendered_text(
                render_timestamp(*secs, *nanos),
                identifier,
                ordinal,
            ),
            _ => mismatch(identifier, ordinal),
        },
        DecodeTarget::TimestampTz => match decoded {
            Some(Decoded::TimestampTz { secs, nanos }) => rendered_text(
                render_timestamptz(*secs, *nanos),
                identifier,
                ordinal,
            ),
            _ => mismatch(identifier, ordinal),
        },
        DecodeTarget::Date => match decoded {
            Some(Decoded::Date { days }) => rendered_text(render_date(*days), identifier, ordinal),
            _ => mismatch(identifier, ordinal),
        },
        DecodeTarget::Time => match decoded {
            Some(Decoded::Time { second_of_day, nanos }) => rendered_text(
                render_time(*second_of_day, *nanos),
                identifier,
                ordinal,
            ),
            _ => mismatch(identifier, ordinal),
        },
        DecodeTarget::Uuid => match decoded {
            Some(Decoded::Uuid(id)) => Ok(StructuredValue::Text(uuid_text(*id))),
            _ => mismatch(identifier, ordinal),
        },
        DecodeTarget::Fallback => match decoded {
            Some(Decoded::Text(text)) => Ok(StructuredValue::Text(text.clone())),
            _ => Err(ConvertError::FallbackDecodeFailure { ordinal }),
        },
    }
}

impl TypeDispatcher {
    /// Decodes and encodes a raw value by the target that its type identifier
    /// selects. Total: an identifier that the catalog does not list takes the
    /// text fallback.
    pub fn dispatch_value(&self, value: &RawValue, ordinal: usize) -> (outcome: Result<
        StructuredValue,
        ConvertError,
    >)
        ensures
            outcome_view(outcome) == dispatch_spec(*self, value@, ordinal as nat),
            ranges_respected(
                target_of(value@.identifier, self.numeric),
                value@.decoded,
                outcome is Ok,
            ),
    {
        let target = self.dispatch(value.identifier.as_str());
        encode(target, value.identifier.as_str(), &value.decoded, ordinal)
    }
}

/// Converts one raw value. A null cell gives `Null` before any dispatch,
/// whatever type it reports; any other cell goes to the type dispatcher, whose
/// failure comes back unchanged.
pub fn serialize_pgvalueref(
    value: &RawValue,
    ordinal: usize,
    dispatcher: &TypeDispatcher,
) -> (outcome: Result<StructuredValue, ConvertError>)
    ensures
        outcome_view(outcome) == convert_spec(*dispatcher, value@, ordinal as nat),
        value@.null ==> outcome_view(outcome) == Ok::<ValueView, ErrorView>(ValueView::Null),
        !value@.null ==> ranges_respected(
            target_of(value@.identifier, dispatcher.numeric),
            value@.decoded,
            outcome is Ok,
        ),
{
    if value.null {
        Ok(StructuredValue::Null)
    } else {
        dispatcher.dispatch_value(value, ordinal)
    }
}

} // verus!
