use df_extension_types::model::{
    ArrayValue, CodecError, ColumnarValue, DataKind, FieldMeta, ScalarValue, TextKind,
};
use df_extension_types::string_to_uuid::StringToUuid;
use df_extension_types::uuid_to_string::UuidToString;
use df_extension_types::uuid_version::UuidVersion;

const CANONICAL: &str = "550e8400-e29b-41d4-a716-446655440000";
const CANONICAL_BYTES: [u8; 16] = [
    0x55, 0x0e, 0x84, 0x00, 0xe2, 0x9b, 0x41, 0xd4, 0xa7, 0x16, 0x44, 0x66, 0x55, 0x44, 0x00,
    0x00,
];

fn text_field(kind: DataKind) -> FieldMeta {
    FieldMeta { name: "col".to_string(), data_kind: kind, nullable: true, uuid_tag: false }
}

fn uuid_field(tagged: bool) -> FieldMeta {
    FieldMeta {
        name: "col".to_string(),
        data_kind: DataKind::FixedSizeBinary(16),
        nullable: true,
        uuid_tag: tagged,
    }
}

#[test]
fn function_names() {
    assert_eq!(StringToUuid::default().name(), "string_to_uuid");
    assert_eq!(UuidToString::default().name(), "uuid_to_string");
    assert_eq!(UuidVersion::default().name(), "uuid_version");
}

#[test]
fn encode_return_field() {
    let f = StringToUuid::default();
    for kind in [DataKind::Utf8, DataKind::LargeUtf8, DataKind::Utf8View] {
        let out = f.return_field_from_args(&vec![text_field(kind)]).unwrap();
        assert_eq!(out.data_kind, DataKind::FixedSizeBinary(16));
        assert!(out.nullable);
        assert!(out.uuid_tag);
        assert_eq!(out.name, "string_to_uuid");
    }
    assert_eq!(f.return_field_from_args(&vec![]), Err(CodecError::SchemaError));
    assert_eq!(
        f.return_field_from_args(&vec![text_field(DataKind::Utf8), text_field(DataKind::Utf8)]),
        Err(CodecError::SchemaError)
    );
    assert_eq!(
        f.return_field_from_args(&vec![text_field(DataKind::UInt32)]),
        Err(CodecError::SchemaError)
    );
    assert_eq!(f.return_field_from_args(&vec![uuid_field(true)]), Err(CodecError::SchemaError));
}

#[test]
fn decode_return_field_enforces_tag() {
    let f = UuidToString::default();
    let out = f.return_field_from_args(&vec![uuid_field(true)]).unwrap();
    assert_eq!(out.data_kind, DataKind::Utf8View);
    assert!(out.nullable);
    assert!(!out.uuid_tag);
    // The byte length matches, but the canonical-UUID tag is missing.
    assert_eq!(f.return_field_from_args(&vec![uuid_field(false)]), Err(CodecError::SchemaError));
    assert_eq!(f.return_field_from_args(&vec![]), Err(CodecError::SchemaError));
    assert_eq!(
        f.return_field_from_args(&vec![text_field(DataKind::Utf8)]),
        Err(CodecError::SchemaError)
    );
}

#[test]
fn version_return_field() {
    let f = UuidVersion::default();
    let out = f.return_field_from_args(&vec![uuid_field(true)]).unwrap();
    assert_eq!(out.data_kind, DataKind::UInt32);
    assert_eq!(out.name, "uuid_version");
    // Text needs no tag.
    let out = f.return_field_from_args(&vec![text_field(DataKind::Utf8View)]).unwrap();
    assert_eq!(out.data_kind, DataKind::UInt32);
    // Untagged 16-byte binary is rejected.
    assert_eq!(f.return_field_from_args(&vec![uuid_field(false)]), Err(CodecError::SchemaError));
    assert_eq!(
        f.return_field_from_args(&vec![uuid_field(true), uuid_field(true)]),
        Err(CodecError::SchemaError)
    );
    // Types that are neither canonical-UUID binary nor text-like are
    // rejected too.
    assert_eq!(
        f.return_field_from_args(&vec![text_field(DataKind::UInt32)]),
        Err(CodecError::SchemaError)
    );
    assert_eq!(
        f.return_field_from_args(&vec![text_field(DataKind::Other)]),
        Err(CodecError::SchemaError)
    );
    assert_eq!(
        f.return_field_from_args(&vec![text_field(DataKind::FixedSizeBinary(8))]),
        Err(CodecError::SchemaError)
    );
}

#[test]
fn encode_scalar() {
    let f = StringToUuid::default();
    let r = f.invoke_with_args(ColumnarValue::Scalar(ScalarValue::Text(
        TextKind::Utf8,
        Some(CANONICAL.to_string()),
    )));
    assert_eq!(
        r,
        Ok(ColumnarValue::Scalar(ScalarValue::FixedSizeBinary(
            16,
            Some(CANONICAL_BYTES.to_vec())
        )))
    );
}

#[test]
fn encode_null_scalar_propagates() {
    let f = StringToUuid::default();
    for kind in [TextKind::Utf8, TextKind::LargeUtf8, TextKind::Utf8View] {
        let r = f.invoke_with_args(ColumnarValue::Scalar(ScalarValue::Text(kind, None)));
        assert_eq!(r, Ok(ColumnarValue::Scalar(ScalarValue::FixedSizeBinary(16, None))));
    }
}

#[test]
fn encode_invalid_scalar_is_parse_error() {
    let f = StringToUuid::default();
    let r = f.invoke_with_args(ColumnarValue::Scalar(ScalarValue::Text(
        TextKind::Utf8,
        Some("not-a-uuid".to_string()),
    )));
    assert_eq!(r, Err(CodecError::ParseError));
}

#[test]
fn encode_batch_with_nulls() {
    let f = StringToUuid::default();
    let r = f.invoke_with_args(ColumnarValue::Array(ArrayValue::Text(
        TextKind::Utf8View,
        vec![Some(CANONICAL.to_string()), None, Some(CANONICAL.to_uppercase())],
    )));
    assert_eq!(
        r,
        Ok(ColumnarValue::Array(ArrayValue::FixedSizeBinary(
            16,
            vec![Some(CANONICAL_BYTES.to_vec()), None, Some(CANONICAL_BYTES.to_vec())]
        )))
    );
}

#[test]
fn encode_batch_fails_fast() {
    // Five text values, exactly one malformed: the whole call fails and
    // no four-of-five partial batch is observable.
    let f = StringToUuid::default();
    let r = f.invoke_with_args(ColumnarValue::Array(ArrayValue::Text(
        TextKind::Utf8,
        vec![
            Some(CANONICAL.to_string()),
            Some("6ba7b810-9dad-11d1-80b4-00c04fd430c8".to_string()),
            Some("not-a-uuid".to_string()),
            Some(CANONICAL.to_string()),
            None,
        ],
    )));
    assert_eq!(r, Err(CodecError::ParseError));
}

#[test]
fn empty_batches_stay_empty() {
    let encode = StringToUuid::default();
    let r = encode.invoke_with_args(ColumnarValue::Array(ArrayValue::Text(TextKind::Utf8, vec![])));
    assert_eq!(r, Ok(ColumnarValue::Array(ArrayValue::FixedSizeBinary(16, vec![]))));
    let decode = UuidToString::default();
    let r = decode.invoke_with_args(ColumnarValue::Array(ArrayValue::FixedSizeBinary(16, vec![])));
    assert_eq!(r, Ok(ColumnarValue::Array(ArrayValue::Text(TextKind::Utf8View, vec![]))));
    let version = UuidVersion::default();
    let r = version.invoke_with_args(ColumnarValue::Array(ArrayValue::FixedSizeBinary(16, vec![])));
    assert_eq!(r, Ok(ColumnarValue::Array(ArrayValue::UInt32(vec![]))));
}

#[test]
fn encode_wrong_shape_is_internal_error() {
    let f = StringToUuid::default();
    let r = f.invoke_with_args(ColumnarValue::Array(ArrayValue::UInt32(vec![Some(1)])));
    assert_eq!(r, Err(CodecError::InternalShapeError));
    let r = f.invoke_with_args(ColumnarValue::Scalar(ScalarValue::FixedSizeBinary(
        16,
        Some(CANONICAL_BYTES.to_vec()),
    )));
    assert_eq!(r, Err(CodecError::InternalShapeError));
}

#[test]
fn decode_scalar_round_trip() {
    let encode = StringToUuid::default();
    let decode = UuidToString::default();
    let encoded = encode
        .invoke_with_args(ColumnarValue::Scalar(ScalarValue::Text(
            TextKind::Utf8,
            Some("550E8400-E29B-41D4-A716-446655440000".to_string()),
        )))
        .unwrap();
    let r = decode.invoke_with_args(encoded);
    assert_eq!(
        r,
        Ok(ColumnarValue::Scalar(ScalarValue::Text(
            TextKind::Utf8View,
            Some(CANONICAL.to_string())
        )))
    );
}

#[test]
fn decode_batch_with_nulls() {
    let f = UuidToString::default();
    let r = f.invoke_with_args(ColumnarValue::Array(ArrayValue::FixedSizeBinary(
        16,
        vec![Some(CANONICAL_BYTES.to_vec()), None],
    )));
    assert_eq!(
        r,
        Ok(ColumnarValue::Array(ArrayValue::Text(
            TextKind::Utf8View,
            vec![Some(CANONICAL.to_string()), None]
        )))
    );
}

#[test]
fn decode_null_scalar_propagates() {
    let f = UuidToString::default();
    let r = f.invoke_with_args(ColumnarValue::Scalar(ScalarValue::FixedSizeBinary(16, None)));
    assert_eq!(r, Ok(ColumnarValue::Scalar(ScalarValue::Text(TextKind::Utf8View, None))));
}

#[test]
fn decode_malformed_length_is_parse_error() {
    let f = UuidToString::default();
    let r = f.invoke_with_args(ColumnarValue::Array(ArrayValue::FixedSizeBinary(
        16,
        vec![Some(vec![0u8; 15])],
    )));
    assert_eq!(r, Err(CodecError::ParseError));
    let r = f.invoke_with_args(ColumnarValue::Scalar(ScalarValue::FixedSizeBinary(
        16,
        Some(vec![0u8; 17]),
    )));
    assert_eq!(r, Err(CodecError::ParseError));
}

#[test]
fn decode_wrong_shape_is_internal_error() {
    let f = UuidToString::default();
    let r = f.invoke_with_args(ColumnarValue::Scalar(ScalarValue::FixedSizeBinary(8, None)));
    assert_eq!(r, Err(CodecError::InternalShapeError));
    let r = f.invoke_with_args(ColumnarValue::Array(ArrayValue::FixedSizeBinary(
        8,
        vec![Some(vec![0u8; 8])],
    )));
    assert_eq!(r, Err(CodecError::InternalShapeError));
    let r = f.invoke_with_args(ColumnarValue::Scalar(ScalarValue::Text(
        TextKind::Utf8,
        Some(CANONICAL.to_string()),
    )));
    assert_eq!(r, Err(CodecError::InternalShapeError));
}

#[test]
fn version_of_encoded_text_is_four() {
    let encode = StringToUuid::default();
    let version = UuidVersion::default();
    let encoded = encode
        .invoke_with_args(ColumnarValue::Scalar(ScalarValue::Text(
            TextKind::Utf8,
            Some(CANONICAL.to_string()),
        )))
        .unwrap();
    let r = version.invoke_with_args(encoded);
    assert_eq!(r, Ok(ColumnarValue::Scalar(ScalarValue::UInt32(Some(4)))));
}

#[test]
fn version_of_text_delegates() {
    // The version of a UUID still in text form, with no prior explicit
    // encode call, matches the version of its encoding.
    let encode = StringToUuid::default();
    let version = UuidVersion::default();
    let text = "6ba7b810-9dad-11d1-80b4-00c04fd430c8";
    let direct = version.invoke_with_args(ColumnarValue::Scalar(ScalarValue::Text(
        TextKind::Utf8,
        Some(text.to_string()),
    )));
    assert_eq!(direct, Ok(ColumnarValue::Scalar(ScalarValue::UInt32(Some(1)))));
    let encoded = encode
        .invoke_with_args(ColumnarValue::Scalar(ScalarValue::Text(
            TextKind::Utf8,
            Some(text.to_string()),
        )))
        .unwrap();
    let via_binary = version.invoke_with_args(encoded);
    assert_eq!(direct, via_binary);
}

#[test]
fn version_null_propagates() {
    let f = UuidVersion::default();
    let r = f.invoke_with_args(ColumnarValue::Scalar(ScalarValue::FixedSizeBinary(16, None)));
    assert_eq!(r, Ok(ColumnarValue::Scalar(ScalarValue::UInt32(None))));
    let r = f.invoke_with_args(ColumnarValue::Scalar(ScalarValue::Text(TextKind::Utf8, None)));
    assert_eq!(r, Ok(ColumnarValue::Scalar(ScalarValue::UInt32(None))));
}

#[test]
fn version_batch_mixes_nulls() {
    let f = UuidVersion::default();
    let r = f.invoke_with_args(ColumnarValue::Array(ArrayValue::FixedSizeBinary(
        16,
        vec![Some(CANONICAL_BYTES.to_vec()), None, Some(vec![0u8; 16])],
    )));
    assert_eq!(
        r,
        Ok(ColumnarValue::Array(ArrayValue::UInt32(vec![Some(4), None, Some(0)])))
    );
}

#[test]
fn version_text_parse_error_propagates() {
    let f = UuidVersion::default();
    let r = f.invoke_with_args(ColumnarValue::Array(ArrayValue::Text(
        TextKind::LargeUtf8,
        vec![Some("bogus".to_string())],
    )));
    assert_eq!(r, Err(CodecError::ParseError));
}

#[test]
fn version_wrong_shape_is_internal_error() {
    let f = UuidVersion::default();
    let r = f.invoke_with_args(ColumnarValue::Array(ArrayValue::UInt32(vec![Some(4)])));
    assert_eq!(r, Err(CodecError::InternalShapeError));
}

#[test]
fn scalar_and_singleton_batch_agree() {
    // A one-element batch and the matching scalar hold bit-identical
    // results, for each of the three functions.
    let encode = StringToUuid::default();
    let scalar = encode
        .invoke_with_args(ColumnarValue::Scalar(ScalarValue::Text(
            TextKind::Utf8,
            Some(CANONICAL.to_string()),
        )))
        .unwrap();
    let batch = encode
        .invoke_with_args(ColumnarValue::Array(ArrayValue::Text(
            TextKind::Utf8,
            vec![Some(CANONICAL.to_string())],
        )))
        .unwrap();
    match (&scalar, &batch) {
        (
            ColumnarValue::Scalar(ScalarValue::FixedSizeBinary(16, Some(b))),
            ColumnarValue::Array(ArrayValue::FixedSizeBinary(16, vals)),
        ) => {
            assert_eq!(vals.len(), 1);
            assert_eq!(vals[0].as_ref(), Some(b));
        },
        _ => panic!("unexpected shapes"),
    }

    let decode = UuidToString::default();
    let s = decode
        .invoke_with_args(ColumnarValue::Scalar(ScalarValue::FixedSizeBinary(
            16,
            Some(CANONICAL_BYTES.to_vec()),
        )))
        .unwrap();
    let a = decode
        .invoke_with_args(ColumnarValue::Array(ArrayValue::FixedSizeBinary(
            16,
            vec![Some(CANONICAL_BYTES.to_vec())],
        )))
        .unwrap();
    match (&s, &a) {
        (
            ColumnarValue::Scalar(ScalarValue::Text(TextKind::Utf8View, Some(t))),
            ColumnarValue::Array(ArrayValue::Text(TextKind::Utf8View, vals)),
        ) => {
            assert_eq!(vals.len(), 1);
            assert_eq!(vals[0].as_ref(), Some(t));
        },
        _ => panic!("unexpected shapes"),
    }

    let version = UuidVersion::default();
    let s = version
        .invoke_with_args(ColumnarValue::Scalar(ScalarValue::Text(
            TextKind::Utf8,
            Some(CANONICAL.to_string()),
        )))
        .unwrap();
    let a = version
        .invoke_with_args(ColumnarValue::Array(ArrayValue::Text(
            TextKind::Utf8,
            vec![Some(CANONICAL.to_string())],
        )))
        .unwrap();
    assert_eq!(s, ColumnarValue::Scalar(ScalarValue::UInt32(Some(4))));
    assert_eq!(a, ColumnarValue::Array(ArrayValue::UInt32(vec![Some(4)])));
}
