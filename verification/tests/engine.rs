//! Pointwise checks of the engines: coercion edges, the error taxonomy, and
//! the fixed wording of messages.

use serde_rusqlite::{
    decode_value, from_row_with_columns, to_params, to_params_named, to_params_named_with_fields,
    DecodeTarget, DecodedValue, EnumVariant, Error, RowDecoded, RowTarget, SourceValue,
    StorageValue, ToSqlSerializer, VariantKind,
};

fn strings(names: &[&str]) -> Vec<String> {
    names.iter().map(|n| n.to_string()).collect()
}

#[test]
fn bool_coercion_table() {
    // Integer and real zero mean false; any other numeric value means true.
    let cases = [
        (StorageValue::Integer(0), false),
        (StorageValue::Real(0.0_f64.to_bits()), false),
        (StorageValue::Real((-0.0_f64).to_bits()), false),
        (StorageValue::Integer(5), true),
        (StorageValue::Real((-1.0_f64).to_bits()), true),
        (StorageValue::Real(f64::NAN.to_bits()), true),
    ];
    for (stored, expected) in cases {
        assert_eq!(
            decode_value(&DecodeTarget::Bool, &stored).unwrap(),
            DecodedValue::Bool(expected)
        );
    }
    assert!(decode_value(&DecodeTarget::Bool, &StorageValue::Null).is_err());
    assert!(decode_value(&DecodeTarget::Bool, &StorageValue::Text("t".to_string())).is_err());
}

#[test]
fn null_splits_by_target_shape() {
    // The same stored null is absent under an optional target and NaN under
    // a bare double target.
    let stored = StorageValue::Null;
    assert_eq!(
        decode_value(
            &DecodeTarget::Optional(Box::new(DecodeTarget::Integer)),
            &stored
        )
        .unwrap(),
        DecodedValue::Absent
    );
    match decode_value(&DecodeTarget::F64, &stored).unwrap() {
        DecodedValue::Real(bits) => assert!(f64::from_bits(bits).is_nan()),
        other => panic!("expected a real, got {:?}", other),
    }
}

#[test]
fn unsupported_positional_sources() {
    match to_params(&SourceValue::Mapping(vec![])) {
        Err(Error::Unsupported(msg)) => {
            assert_eq!(msg, "Serialization is not supported from type: map")
        }
        other => panic!("expected Unsupported, got {:?}", other),
    }
    match to_params(&SourceValue::Struct("S".to_string(), vec![])) {
        Err(Error::Unsupported(msg)) => {
            assert_eq!(msg, "Serialization is not supported from type: struct")
        }
        other => panic!("expected Unsupported, got {:?}", other),
    }
}

#[test]
fn unsupported_named_sources() {
    match to_params_named(&SourceValue::I64(1)) {
        Err(Error::Unsupported(msg)) => {
            assert_eq!(msg, "Serialization is not supported from type: i64")
        }
        other => panic!("expected Unsupported, got {:?}", other),
    }
    match to_params_named(&SourceValue::Tuple(vec![])) {
        Err(Error::Unsupported(msg)) => {
            assert_eq!(msg, "Serialization is not supported from type: tuple")
        }
        other => panic!("expected Unsupported, got {:?}", other),
    }
}

#[test]
fn value_too_large_names_the_value() {
    match to_params(&SourceValue::U64(u64::MAX)) {
        Err(Error::ValueTooLarge(msg)) => {
            assert_eq!(msg, "Value is too large to fit into i64: 18446744073709551615")
        }
        other => panic!("expected ValueTooLarge, got {:?}", other),
    }
    // The boundary value still fits and round-trips exactly.
    let row = to_params(&SourceValue::U64(i64::MAX as u64)).unwrap();
    assert_eq!(row, vec![StorageValue::Integer(i64::MAX)]);
    assert_eq!(
        decode_value(&DecodeTarget::Integer, &row[0]).unwrap(),
        DecodedValue::Integer(i64::MAX)
    );
}

#[test]
fn char_encodes_as_one_character_text() {
    // Multi-byte characters still make one-character text.
    let row = to_params(&SourceValue::Char('Ü')).unwrap();
    assert_eq!(row, vec![StorageValue::Text("Ü".to_string())]);
    assert_eq!(
        decode_value(&DecodeTarget::Char, &row[0]).unwrap(),
        DecodedValue::Char('Ü')
    );
}

#[test]
fn blob_elements_must_be_bytes() {
    // A sequence standing as one value becomes one blob; an element of any
    // shape but an 8-bit unsigned value fails, and the bytes gathered before
    // the failure are discarded.
    let src = SourceValue::Sequence(vec![
        SourceValue::U8(1),
        SourceValue::I64(2),
        SourceValue::U8(3),
    ]);
    match ToSqlSerializer.serialize_value(&src) {
        Err(Error::Unsupported(msg)) => {
            assert_eq!(msg, "Serialization is not supported from type: i64")
        }
        other => panic!("expected Unsupported, got {:?}", other),
    }
    // An empty sequence is an empty blob.
    assert_eq!(
        ToSqlSerializer.serialize_value(&SourceValue::Sequence(vec![])).unwrap(),
        StorageValue::Blob(vec![])
    );
}

#[test]
fn newtype_wrappers_are_transparent() {
    let src = SourceValue::NewtypeVariant(
        "Wrapper".to_string(),
        Box::new(SourceValue::Text("inner".to_string())),
    );
    let row = to_params(&src).unwrap();
    assert_eq!(row, vec![StorageValue::Text("inner".to_string())]);
}

#[test]
fn bare_primitive_makes_single_entry_list() {
    let row = to_params(&SourceValue::I32(7)).unwrap();
    assert_eq!(row, vec![StorageValue::Integer(7)]);
    let row = to_params(&SourceValue::Absent).unwrap();
    assert_eq!(row, vec![StorageValue::Null]);
    let row = to_params(&SourceValue::UnitVariant("M".to_string())).unwrap();
    assert_eq!(row, vec![StorageValue::Text("M".to_string())]);
}

#[test]
fn allow_list_drops_silently() {
    // A non-listed field never reaches the value encoder, so even an
    // unsupported value in it does not fail the encode.
    let src = SourceValue::Struct(
        "S".to_string(),
        vec![
            ("keep".to_string(), SourceValue::I64(1)),
            ("drop".to_string(), SourceValue::Tuple(vec![])),
        ],
    );
    let named = to_params_named_with_fields(&src, strings(&["keep"])).unwrap();
    assert_eq!(
        *named.to_slice(),
        vec![(":keep".to_string(), StorageValue::Integer(1))]
    );
}

#[test]
fn map_keys_must_be_strings() {
    let src = SourceValue::Mapping(vec![(SourceValue::I64(1), SourceValue::I64(2))]);
    match to_params_named(&src) {
        Err(Error::Unsupported(msg)) => {
            assert_eq!(msg, "Serialization is not supported from type: i64")
        }
        other => panic!("expected Unsupported, got {:?}", other),
    }
}

#[test]
fn enum_decode_failures() {
    let variants = vec![
        EnumVariant { name: "A".to_string(), kind: VariantKind::Unit },
        EnumVariant { name: "N".to_string(), kind: VariantKind::Newtype },
        EnumVariant { name: "T".to_string(), kind: VariantKind::Tuple },
        EnumVariant { name: "S".to_string(), kind: VariantKind::Struct },
    ];
    let target = DecodeTarget::Enum(variants);
    // A stored text matching a payload-carrying variant always fails
    // Unsupported, naming the attempted shape.
    for (text, shape) in [("N", "newtype_variant"), ("T", "tuple_variant"), ("S", "struct_variant")]
    {
        match decode_value(&target, &StorageValue::Text(text.to_string())) {
            Err(Error::Unsupported(msg)) => assert_eq!(
                msg,
                format!("Deserialization is not supported into type: {}", shape)
            ),
            other => panic!("expected Unsupported, got {:?}", other),
        }
    }
    // Unknown variant text is a decode failure.
    match decode_value(&target, &StorageValue::Text("Z".to_string())) {
        Err(Error::Deserialization { column: None, .. }) => {}
        other => panic!("expected Deserialization, got {:?}", other),
    }
    // A non-text column is the accessor's own type failure.
    match decode_value(&target, &StorageValue::Integer(1)) {
        Err(Error::Rusqlite(..)) => {}
        other => panic!("expected a driver error, got {:?}", other),
    }
}

#[test]
fn byte_buf_insists_on_blob() {
    match decode_value(&DecodeTarget::ByteBuf, &StorageValue::Integer(1)) {
        Err(Error::Rusqlite(..)) => {}
        other => panic!("expected a driver error, got {:?}", other),
    }
}

#[test]
fn unit_struct_name_must_match() {
    let target = DecodeTarget::UnitStruct("Marker".to_string());
    assert_eq!(
        decode_value(&target, &StorageValue::Text("Marker".to_string())).unwrap(),
        DecodedValue::Unit
    );
    assert!(decode_value(&target, &StorageValue::Text("Other".to_string())).is_err());
    assert!(decode_value(&target, &StorageValue::Null).is_err());
}

#[test]
fn tuple_width_is_asymmetric() {
    // Extra row columns are ignored; asking past the row's end surfaces the
    // accessor's own failure.
    let row = vec![StorageValue::Integer(1), StorageValue::Integer(2)];
    let cols = strings(&["a", "b"]);
    let decoded = from_row_with_columns(
        row.clone(),
        cols.clone(),
        &RowTarget::Tuple(vec![DecodeTarget::Integer]),
    )
    .unwrap();
    assert_eq!(decoded, RowDecoded::Tuple(vec![DecodedValue::Integer(1)]));
    let over = from_row_with_columns(
        row,
        cols,
        &RowTarget::Tuple(vec![
            DecodeTarget::Integer,
            DecodeTarget::Integer,
            DecodeTarget::Integer,
        ]),
    );
    match over {
        Err(Error::Rusqlite(..)) => {}
        other => panic!("expected a driver error, got {:?}", other),
    }
}

#[test]
fn single_decode_needs_a_column() {
    let out = from_row_with_columns(vec![], vec![], &RowTarget::Single(DecodeTarget::Integer));
    match out {
        Err(Error::Rusqlite(..)) => {}
        other => panic!("expected a driver error, got {:?}", other),
    }
}

#[test]
fn map_failures_carry_the_column() {
    let row = vec![StorageValue::Integer(1), StorageValue::Text("x".to_string())];
    let out = from_row_with_columns(
        row,
        strings(&["good", "bad"]),
        &RowTarget::Mapping(DecodeTarget::Integer),
    );
    match out {
        Err(Error::Deserialization { column: Some(c), .. }) => assert_eq!(c, "bad"),
        other => panic!("expected an annotated failure, got {:?}", other),
    }
}

#[test]
fn struct_ignores_unknown_columns() {
    let row = vec![StorageValue::Integer(1), StorageValue::Integer(2)];
    let target = RowTarget::Struct(vec![("known".to_string(), DecodeTarget::Integer)]);
    let decoded =
        from_row_with_columns(row, strings(&["mystery", "known"]), &target).unwrap();
    assert_eq!(
        decoded,
        RowDecoded::Mapping(vec![("known".to_string(), DecodedValue::Integer(2))])
    );
}

#[test]
fn decimal_rendering() {
    assert_eq!(serde_rusqlite::error::decimal_string(0), "0");
    assert_eq!(serde_rusqlite::error::decimal_string(10), "10");
    assert_eq!(serde_rusqlite::error::decimal_string(9007), "9007");
    assert_eq!(
        serde_rusqlite::error::decimal_string(u64::MAX),
        "18446744073709551615"
    );
}

#[test]
fn error_messages_have_fixed_wording() {
    let e = Error::Deserialization {
        column: Some("f_text".to_string()),
        message: "invalid type for an integer".to_string(),
    };
    assert_eq!(
        e.message(),
        "Deserialization failed for column: f_text error: invalid type for an integer"
    );
    assert_eq!(
        Error::ColumnNamesNotAvailable.message(),
        "Column names are not available"
    );
    assert_eq!(
        Error::Rusqlite("Invalid column index".to_string()).message(),
        "Rusqlite error: Invalid column index"
    );
    assert_eq!(
        Error::ser_unsupported("tuple").message(),
        "Serialization is not supported from type: tuple"
    );
    assert_eq!(
        Error::de_unsupported("tuple_variant").message(),
        "Deserialization is not supported into type: tuple_variant"
    );
}
