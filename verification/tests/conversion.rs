use sqlx_serde::convert::{embedded_json, encode, rendered_numeric, rendered_text};
use sqlx_serde::identifier::uuid_text;
use sqlx_serde::text::same_text;
use sqlx_serde::{
    serialize_pgvalueref, ConvertError, DecodeTarget, Decoded, RawValue, SerPgValueRef,
    StructuredValue, TypeDispatcher,
};

fn cell(identifier: &str, decoded: Decoded) -> RawValue {
    RawValue::decoded(identifier.to_string(), decoded)
}

fn convert(value: &RawValue) -> Result<StructuredValue, ConvertError> {
    serialize_pgvalueref(value, 0, &TypeDispatcher::new())
}

fn text(s: &str) -> StructuredValue {
    StructuredValue::Text(s.to_string())
}

fn mismatch(ordinal: usize, identifier: &str) -> ConvertError {
    ConvertError::DecodeMismatch { ordinal, identifier: identifier.to_string() }
}

#[test]
fn same_text_compares_characters() {
    assert!(same_text("", ""));
    assert!(same_text("INT4", "INT4"));
    assert!(!same_text("INT4", "INT8"));
    assert!(!same_text("INT4", "INT"));
    assert!(!same_text("INT", "INT4"));
    assert!(!same_text("int4", "INT4"));
    assert!(same_text("zoë", "zoë"));
    assert!(!same_text("zoë", "zoe"));
}

#[test]
fn dispatch_follows_the_table() {
    let d = TypeDispatcher::new();
    assert_eq!(d.dispatch("BOOL"), DecodeTarget::Bool);
    assert_eq!(d.dispatch("INT2"), DecodeTarget::Int2);
    assert_eq!(d.dispatch("INT4"), DecodeTarget::Int4);
    assert_eq!(d.dispatch("INT8"), DecodeTarget::Int8);
    assert_eq!(d.dispatch("FLOAT4"), DecodeTarget::Float4);
    assert_eq!(d.dispatch("FLOAT8"), DecodeTarget::Float8);
    assert_eq!(d.dispatch("CHAR"), DecodeTarget::Text);
    assert_eq!(d.dispatch("VARCHAR"), DecodeTarget::Text);
    assert_eq!(d.dispatch("TEXT"), DecodeTarget::Text);
    assert_eq!(d.dispatch("\"CHAR\""), DecodeTarget::Text);
    assert_eq!(d.dispatch("BYTEA"), DecodeTarget::Bytea);
    assert_eq!(d.dispatch("JSON"), DecodeTarget::Json);
    assert_eq!(d.dispatch("JSONB"), DecodeTarget::Json);
    assert_eq!(d.dispatch("TIMESTAMP"), DecodeTarget::Timestamp);
    assert_eq!(d.dispatch("TIMESTAMPTZ"), DecodeTarget::TimestampTz);
    assert_eq!(d.dispatch("DATE"), DecodeTarget::Date);
    assert_eq!(d.dispatch("TIME"), DecodeTarget::Time);
    assert_eq!(d.dispatch("UUID"), DecodeTarget::Uuid);
}

#[test]
fn dispatch_sends_unknown_identifiers_to_the_fallback() {
    let d = TypeDispatcher::with_numeric(true);
    assert_eq!(d.dispatch("INET"), DecodeTarget::Fallback);
    assert_eq!(d.dispatch("INT4[]"), DecodeTarget::Fallback);
    assert_eq!(d.dispatch("TIMETZ"), DecodeTarget::Fallback);
    assert_eq!(d.dispatch(""), DecodeTarget::Fallback);
}

#[test]
fn dispatch_is_case_sensitive() {
    let d = TypeDispatcher::new();
    assert_eq!(d.dispatch("bool"), DecodeTarget::Fallback);
    assert_eq!(d.dispatch("Int4"), DecodeTarget::Fallback);
    assert_eq!(d.dispatch("uuid"), DecodeTarget::Fallback);
}

#[test]
fn numeric_needs_the_capability() {
    assert!(!TypeDispatcher::new().supports_numeric());
    assert!(!TypeDispatcher::default().supports_numeric());
    assert!(TypeDispatcher::with_numeric(true).supports_numeric());
    assert_eq!(TypeDispatcher::new().dispatch("NUMERIC"), DecodeTarget::Fallback);
    assert_eq!(TypeDispatcher::with_numeric(false).dispatch("NUMERIC"), DecodeTarget::Fallback);
    assert_eq!(TypeDispatcher::with_numeric(true).dispatch("NUMERIC"), DecodeTarget::Numeric);
}

#[test]
fn booleans_and_integers_keep_their_value() {
    assert_eq!(convert(&cell("BOOL", Decoded::Bool(true))), Ok(StructuredValue::Bool(true)));
    assert_eq!(convert(&cell("BOOL", Decoded::Bool(false))), Ok(StructuredValue::Bool(false)));
    assert_eq!(convert(&cell("INT2", Decoded::Int2(-7))), Ok(StructuredValue::Int16(-7)));
    assert_eq!(convert(&cell("INT4", Decoded::Int4(1))), Ok(StructuredValue::Int32(1)));
    assert_eq!(
        convert(&cell("INT8", Decoded::Int8(i64::MIN))),
        Ok(StructuredValue::Int64(i64::MIN))
    );
}

#[test]
fn floats_keep_their_bits() {
    let single = 1.5f32.to_bits();
    let double = (-0.25f64).to_bits();
    assert_eq!(
        convert(&cell("FLOAT4", Decoded::Float4(single))),
        Ok(StructuredValue::Float32(0x3fc0_0000))
    );
    assert_eq!(
        convert(&cell("FLOAT8", Decoded::Float8(double))),
        Ok(StructuredValue::Float64(0xbfd0_0000_0000_0000))
    );
    let nan = f64::NAN.to_bits();
    assert_eq!(convert(&cell("FLOAT8", Decoded::Float8(nan))), Ok(StructuredValue::Float64(nan)));
}

#[test]
fn text_types_are_verbatim() {
    for identifier in ["CHAR", "VARCHAR", "TEXT", "\"CHAR\""] {
        assert_eq!(
            convert(&cell(identifier, Decoded::Text("  Hello, \"wörld\"\n".to_string()))),
            Ok(text("  Hello, \"wörld\"\n"))
        );
    }
    assert_eq!(convert(&cell("TEXT", Decoded::Text(String::new()))), Ok(text("")));
}

#[test]
fn bytes_keep_their_order() {
    assert_eq!(
        convert(&cell("BYTEA", Decoded::Bytes(vec![0, 255, 1, 128]))),
        Ok(StructuredValue::Bytes(vec![0, 255, 1, 128]))
    );
    assert_eq!(
        convert(&cell("BYTEA", Decoded::Bytes(Vec::new()))),
        Ok(StructuredValue::Bytes(Vec::new()))
    );
}

#[test]
fn json_is_parsed_and_embedded() {
    let source = "{\"a\":[1,true,null],\"b\":\"x\"}";
    let got = convert(&cell("JSON", Decoded::Text(source.to_string())));
    let mut object = serde_json::Map::new();
    object.insert(
        "a".to_string(),
        serde_json::Value::Array(vec![
            serde_json::Value::from(1),
            serde_json::Value::Bool(true),
            serde_json::Value::Null,
        ]),
    );
    object.insert("b".to_string(), serde_json::Value::String("x".to_string()));
    assert_eq!(got, Ok(StructuredValue::Json(serde_json::Value::Object(object))));
}

#[test]
fn json_null_is_the_null_document() {
    let got = convert(&cell("JSONB", Decoded::Text("null".to_string())));
    assert_eq!(got, Ok(StructuredValue::Json(serde_json::Value::Null)));
    assert_ne!(got, Ok(text("null")));
}

#[test]
fn json_string_is_not_reparsed_as_text() {
    let got = convert(&cell("JSONB", Decoded::Text("\"null\"".to_string())));
    assert_eq!(got, Ok(StructuredValue::Json(serde_json::Value::String("null".to_string()))));
}

#[test]
fn bad_json_is_a_parse_failure() {
    let value = cell("JSON", Decoded::Text("{\"a\":".to_string()));
    assert_eq!(
        serialize_pgvalueref(&value, 4, &TypeDispatcher::new()),
        Err(ConvertError::NestedJsonParseFailure { ordinal: 4 })
    );
    let empty = cell("JSONB", Decoded::Text(String::new()));
    assert_eq!(
        serialize_pgvalueref(&empty, 0, &TypeDispatcher::new()),
        Err(ConvertError::NestedJsonParseFailure { ordinal: 0 })
    );
}

#[test]
fn json_cell_that_is_not_text_is_a_mismatch() {
    let value = cell("JSON", Decoded::Int4(3));
    assert_eq!(serialize_pgvalueref(&value, 2, &TypeDispatcher::new()), Err(mismatch(2, "JSON")));
}

#[test]
fn timestamp_has_six_fraction_digits_and_no_zone() {
    let value = cell("TIMESTAMP", Decoded::Timestamp { secs: 1_672_628_645, nanos: 6_007_000 });
    assert_eq!(convert(&value), Ok(text("2023-01-02T03:04:05.006007")));
    let whole = cell("TIMESTAMP", Decoded::Timestamp { secs: 0, nanos: 0 });
    assert_eq!(convert(&whole), Ok(text("1970-01-01T00:00:00.000000")));
    let early = cell("TIMESTAMP", Decoded::Timestamp { secs: -1, nanos: 999_999_000 });
    assert_eq!(convert(&early), Ok(text("1969-12-31T23:59:59.999999")));
}

#[test]
fn timestamptz_is_rfc3339_in_utc() {
    let value = cell("TIMESTAMPTZ", Decoded::TimestampTz { secs: 1_672_628_645, nanos: 6_007_000 });
    assert_eq!(convert(&value), Ok(text("2023-01-02T03:04:05.006007+00:00")));
    let whole = cell("TIMESTAMPTZ", Decoded::TimestampTz { secs: 0, nanos: 0 });
    assert_eq!(convert(&whole), Ok(text("1970-01-01T00:00:00+00:00")));
}

#[test]
fn timestamptz_parses_back() {
    let value =
        cell("TIMESTAMPTZ", Decoded::TimestampTz { secs: 1_700_000_000, nanos: 123_456_000 });
    let got = match convert(&value) {
        Ok(StructuredValue::Text(s)) => s,
        other => panic!("unexpected {:?}", other),
    };
    let parsed = sqlx::types::chrono::DateTime::parse_from_rfc3339(&got).unwrap();
    assert_eq!(parsed.timestamp(), 1_700_000_000);
    assert_eq!(parsed.timestamp_subsec_nanos(), 123_456_000);
}

#[test]
fn date_is_year_month_day() {
    assert_eq!(convert(&cell("DATE", Decoded::Date { days: 19_782 })), Ok(text("2024-02-29")));
    assert_eq!(convert(&cell("DATE", Decoded::Date { days: 0 })), Ok(text("1970-01-01")));
    assert_eq!(convert(&cell("DATE", Decoded::Date { days: -719_162 })), Ok(text("0001-01-01")));
}

#[test]
fn time_has_a_fraction_only_where_there_is_one() {
    assert_eq!(
        convert(&cell("TIME", Decoded::Time { second_of_day: 45_296, nanos: 0 })),
        Ok(text("12:34:56"))
    );
    assert_eq!(
        convert(&cell("TIME", Decoded::Time { second_of_day: 45_296, nanos: 1_000 })),
        Ok(text("12:34:56.000001"))
    );
    assert_eq!(
        convert(&cell("TIME", Decoded::Time { second_of_day: 0, nanos: 789_000_000 })),
        Ok(text("00:00:00.789"))
    );
}

#[test]
fn out_of_range_dates_and_times_are_mismatches() {
    let d = TypeDispatcher::new();
    let time = cell("TIME", Decoded::Time { second_of_day: 86_400, nanos: 0 });
    assert_eq!(serialize_pgvalueref(&time, 1, &d), Err(mismatch(1, "TIME")));
    let nanos = cell("TIME", Decoded::Time { second_of_day: 10, nanos: 1_000_000_000 });
    assert_eq!(serialize_pgvalueref(&nanos, 1, &d), Err(mismatch(1, "TIME")));
    let date = cell("DATE", Decoded::Date { days: i32::MAX });
    assert_eq!(serialize_pgvalueref(&date, 2, &d), Err(mismatch(2, "DATE")));
    let stamp = cell("TIMESTAMP", Decoded::Timestamp { secs: i64::MAX, nanos: 0 });
    assert_eq!(serialize_pgvalueref(&stamp, 3, &d), Err(mismatch(3, "TIMESTAMP")));
    let zoned = cell("TIMESTAMPTZ", Decoded::TimestampTz { secs: i64::MIN, nanos: 0 });
    assert_eq!(serialize_pgvalueref(&zoned, 5, &d), Err(mismatch(5, "TIMESTAMPTZ")));
}

#[test]
fn zero_uuid_is_all_zeros() {
    assert_eq!(
        convert(&cell("UUID", Decoded::Uuid(0))),
        Ok(text("00000000-0000-0000-0000-000000000000"))
    );
}

#[test]
fn uuid_is_lowercase_and_hyphenated() {
    assert_eq!(
        uuid_text(0xa1a2_a3a4_b1b2_c1c2_d1d2_d3d4_d5d6_d7d8),
        "a1a2a3a4-b1b2-c1c2-d1d2-d3d4d5d6d7d8"
    );
    assert_eq!(uuid_text(u128::MAX), "ffffffff-ffff-ffff-ffff-ffffffffffff");
    assert_eq!(uuid_text(0x0123_4567_89ab_cdef), "00000000-0000-0000-0123-456789abcdef");
    assert_eq!(uuid_text(1).len(), 36);
}

#[test]
fn uuid_text_agrees_with_the_uuid_crate() {
    let mut id: u128 = 0x9e37_79b9_7f4a_7c15_f39c_c060_5ced_c834;
    for _ in 0..200 {
        assert_eq!(uuid_text(id), sqlx::types::Uuid::from_u128(id).to_string());
        id = id.wrapping_mul(0x2545_f491_4f6c_dd1d_0000_0000_0000_0001).rotate_left(17) ^ 0x55;
    }
}

#[test]
fn numeric_keeps_its_declared_scale() {
    let d = TypeDispatcher::with_numeric(true);
    let scaled = cell("NUMERIC", Decoded::Numeric { mantissa: 33_000, scale: 4 });
    assert_eq!(
        serialize_pgvalueref(&scaled, 0, &d),
        Ok(StructuredValue::NumericText("3.3000".to_string()))
    );
    let plain = cell("NUMERIC", Decoded::Numeric { mantissa: 33, scale: 1 });
    assert_eq!(
        serialize_pgvalueref(&plain, 0, &d),
        Ok(StructuredValue::NumericText("3.3".to_string()))
    );
    let negative = cell("NUMERIC", Decoded::Numeric { mantissa: -5, scale: 3 });
    assert_eq!(
        serialize_pgvalueref(&negative, 0, &d),
        Ok(StructuredValue::NumericText("-0.005".to_string()))
    );
    let whole = cell("NUMERIC", Decoded::Numeric { mantissa: 42, scale: 0 });
    assert_eq!(
        serialize_pgvalueref(&whole, 0, &d),
        Ok(StructuredValue::NumericText("42".to_string()))
    );
}

#[test]
fn numeric_out_of_range_is_a_mismatch() {
    let d = TypeDispatcher::with_numeric(true);
    let scale = cell("NUMERIC", Decoded::Numeric { mantissa: 1, scale: 29 });
    assert_eq!(serialize_pgvalueref(&scale, 6, &d), Err(mismatch(6, "NUMERIC")));
    let wide = cell("NUMERIC", Decoded::Numeric { mantissa: 1i128 << 96, scale: 0 });
    assert_eq!(serialize_pgvalueref(&wide, 6, &d), Err(mismatch(6, "NUMERIC")));
    let widest = cell("NUMERIC", Decoded::Numeric { mantissa: (1i128 << 96) - 1, scale: 28 });
    assert_eq!(
        serialize_pgvalueref(&widest, 6, &d),
        Ok(StructuredValue::NumericText("7.9228162514264337593543950335".to_string()))
    );
}

#[test]
fn numeric_without_the_capability_is_text() {
    let d = TypeDispatcher::new();
    let declared = cell("NUMERIC", Decoded::Text("3.3000".to_string()));
    assert_eq!(serialize_pgvalueref(&declared, 0, &d), Ok(text("3.3000")));
    let undeclared = cell("NUMERIC", Decoded::Text("3.3".to_string()));
    assert_eq!(serialize_pgvalueref(&undeclared, 0, &d), Ok(text("3.3")));
    let decimal = cell("NUMERIC", Decoded::Numeric { mantissa: 33, scale: 1 });
    assert_eq!(
        serialize_pgvalueref(&decimal, 8, &d),
        Err(ConvertError::FallbackDecodeFailure { ordinal: 8 })
    );
}

#[test]
fn unknown_types_fall_back_to_text() {
    assert_eq!(
        convert(&cell("INET", Decoded::Text("10.0.0.1/8".to_string()))),
        Ok(text("10.0.0.1/8"))
    );
    assert_eq!(convert(&cell("", Decoded::Text("x".to_string()))), Ok(text("x")));
}

#[test]
fn fallback_that_is_not_text_is_a_fallback_failure() {
    let d = TypeDispatcher::new();
    assert_eq!(
        serialize_pgvalueref(&RawValue::undecodable("POINT".to_string()), 3, &d),
        Err(ConvertError::FallbackDecodeFailure { ordinal: 3 })
    );
    assert_eq!(
        serialize_pgvalueref(&cell("POINT", Decoded::Bytes(vec![1, 2])), 9, &d),
        Err(ConvertError::FallbackDecodeFailure { ordinal: 9 })
    );
}

#[test]
fn failed_decode_is_a_mismatch_with_ordinal_and_identifier() {
    let d = TypeDispatcher::with_numeric(true);
    for identifier in [
        "BOOL", "INT2", "INT4", "INT8", "FLOAT4", "FLOAT8", "NUMERIC", "CHAR", "VARCHAR", "TEXT",
        "\"CHAR\"", "BYTEA", "JSON", "JSONB", "TIMESTAMP", "TIMESTAMPTZ", "DATE", "TIME", "UUID",
    ] {
        let value = RawValue::undecodable(identifier.to_string());
        let got = serialize_pgvalueref(&value, 7, &d);
        assert_eq!(got, Err(mismatch(7, identifier)));
        assert_eq!(got.unwrap_err().ordinal(), 7);
    }
}

#[test]
fn wrong_payload_is_a_mismatch() {
    let d = TypeDispatcher::new();
    assert_eq!(
        serialize_pgvalueref(&cell("INT4", Decoded::Int8(1)), 1, &d),
        Err(mismatch(1, "INT4"))
    );
    assert_eq!(
        serialize_pgvalueref(&cell("BOOL", Decoded::Text("t".to_string())), 0, &d),
        Err(mismatch(0, "BOOL"))
    );
    assert_eq!(
        serialize_pgvalueref(
            &cell("TIMESTAMP", Decoded::TimestampTz { secs: 0, nanos: 0 }),
            2,
            &d
        ),
        Err(mismatch(2, "TIMESTAMP"))
    );
    assert_eq!(
        serialize_pgvalueref(&cell("UUID", Decoded::Text("x".to_string())), 3, &d),
        Err(mismatch(3, "UUID"))
    );
}

#[test]
fn null_is_null_under_every_identifier() {
    for numeric in [false, true] {
        let d = TypeDispatcher::with_numeric(numeric);
        for identifier in
            ["BOOL", "INT4", "NUMERIC", "TEXT", "JSONB", "TIMESTAMPTZ", "UUID", "POINT", "X[]", ""]
        {
            let value = RawValue::null(identifier.to_string());
            assert!(value.is_null());
            assert_eq!(value.type_identifier(), identifier);
            assert_eq!(serialize_pgvalueref(&value, 5, &d), Ok(StructuredValue::Null));
        }
    }
}

#[test]
fn null_flag_wins_over_a_payload() {
    let value = RawValue {
        identifier: "POINT".to_string(),
        null: true,
        decoded: Some(Decoded::Text("(1,2)".to_string())),
    };
    assert_eq!(convert(&value), Ok(StructuredValue::Null));
}

#[test]
fn encode_goes_by_the_target_alone() {
    let decoded = Some(Decoded::Text("7".to_string()));
    assert_eq!(encode(DecodeTarget::Text, "anything", &decoded, 0), Ok(text("7")));
    assert_eq!(encode(DecodeTarget::Fallback, "anything", &decoded, 0), Ok(text("7")));
    assert_eq!(
        encode(DecodeTarget::Json, "anything", &decoded, 0),
        Ok(StructuredValue::Json(serde_json::Value::from(7)))
    );
    assert_eq!(encode(DecodeTarget::Int4, "anything", &decoded, 3), Err(mismatch(3, "anything")));
    assert_eq!(encode(DecodeTarget::Int4, "anything", &None, 3), Err(mismatch(3, "anything")));
    assert_eq!(
        encode(DecodeTarget::Fallback, "anything", &None, 3),
        Err(ConvertError::FallbackDecodeFailure { ordinal: 3 })
    );
}

#[test]
fn rendered_outcomes_map_to_values() {
    assert_eq!(rendered_text(Some("a".to_string()), "DATE", 1), Ok(text("a")));
    assert_eq!(rendered_text(None, "DATE", 1), Err(mismatch(1, "DATE")));
    assert_eq!(
        rendered_numeric(Some("1.0".to_string()), "NUMERIC", 2),
        Ok(StructuredValue::NumericText("1.0".to_string()))
    );
    assert_eq!(rendered_numeric(None, "NUMERIC", 2), Err(mismatch(2, "NUMERIC")));
    assert_eq!(
        embedded_json(serde_json::from_str("[1]"), 0),
        Ok(StructuredValue::Json(serde_json::Value::Array(vec![serde_json::Value::from(1)])))
    );
    assert_eq!(
        embedded_json(serde_json::from_str("["), 4),
        Err(ConvertError::NestedJsonParseFailure { ordinal: 4 })
    );
}

#[test]
fn dispatch_value_skips_the_null_check() {
    let d = TypeDispatcher::new();
    let value = RawValue::null("INT4".to_string());
    assert_eq!(d.dispatch_value(&value, 0), Err(mismatch(0, "INT4")));
    assert_eq!(d.dispatch_value(&cell("INT4", Decoded::Int4(9)), 0), Ok(StructuredValue::Int32(9)));
}

#[test]
fn value_wrapper_converts_like_the_function() {
    let wrapper = SerPgValueRef::from(cell("INT2", Decoded::Int2(12)));
    let d = TypeDispatcher::new();
    assert_eq!(wrapper.as_structured_value(0, &d), Ok(StructuredValue::Int16(12)));
    assert_eq!(wrapper.as_raw_value(), &cell("INT2", Decoded::Int2(12)));
    assert_eq!(wrapper.into_raw_value(), cell("INT2", Decoded::Int2(12)));
}
