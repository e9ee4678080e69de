//! Round trips through the encoding and decoding engines: a value is
//! encoded to bindable storage values, held as a stored row, and decoded
//! back under the shape it came from.

use serde_rusqlite::{
    decode_value, from_row_with_columns, to_params, to_params_named, to_params_named_with_fields,
    DecodeTarget, DecodedValue, EnumVariant, Error, RowDecoded, RowTarget, SourceValue,
    StorageValue, VariantKind,
};

/// Encode one primitive, expect exactly one storage value, decode it back.
fn roundtrip_value(src: &SourceValue, target: &DecodeTarget) -> DecodedValue {
    let params = to_params(src).unwrap();
    assert_eq!(params.len(), 1);
    decode_value(target, &params[0]).unwrap()
}

/// Bind named parameters against a column list, as the execution layer
/// would: the value of each column is the entry named `:column`.
fn bind_named(entries: &[(String, StorageValue)], columns: &[&str]) -> Vec<StorageValue> {
    let mut row = Vec::new();
    for col in columns {
        let name = format!(":{}", col);
        let hit = entries.iter().find(|e| e.0 == name).unwrap();
        row.push(hit.1.clone());
    }
    row
}

fn strings(names: &[&str]) -> Vec<String> {
    names.iter().map(|n| n.to_string()).collect()
}

#[test]
fn test_bool() {
    assert_eq!(
        roundtrip_value(&SourceValue::Bool(false), &DecodeTarget::Bool),
        DecodedValue::Bool(false)
    );
    assert_eq!(
        roundtrip_value(&SourceValue::Bool(true), &DecodeTarget::Bool),
        DecodedValue::Bool(true)
    );
}

#[test]
fn test_int() {
    assert_eq!(
        roundtrip_value(&SourceValue::I8(0), &DecodeTarget::Integer),
        DecodedValue::Integer(0)
    );
    assert_eq!(
        roundtrip_value(&SourceValue::I16(-9881), &DecodeTarget::Integer),
        DecodedValue::Integer(-9881)
    );
    assert_eq!(
        roundtrip_value(&SourceValue::I32(16526), &DecodeTarget::Integer),
        DecodedValue::Integer(16526)
    );
    assert_eq!(
        roundtrip_value(&SourceValue::I64(-18968298731236), &DecodeTarget::Integer),
        DecodedValue::Integer(-18968298731236)
    );
}

#[test]
fn test_uint() {
    assert_eq!(
        roundtrip_value(&SourceValue::U8(112), &DecodeTarget::Integer),
        DecodedValue::Integer(112)
    );
    assert_eq!(
        roundtrip_value(&SourceValue::U16(7162), &DecodeTarget::Integer),
        DecodedValue::Integer(7162)
    );
    assert_eq!(
        roundtrip_value(&SourceValue::U32(98172983), &DecodeTarget::Integer),
        DecodedValue::Integer(98172983)
    );
    assert_eq!(
        roundtrip_value(&SourceValue::U64(98169812698712987), &DecodeTarget::Integer),
        DecodedValue::Integer(98169812698712987)
    );
    match to_params(&SourceValue::U64(u64::MAX)) {
        Err(Error::ValueTooLarge(..)) => {}
        other => panic!("expected ValueTooLarge, got {:?}", other),
    }
}

/// Decode under a float target and widen as the consumer would.
fn decoded_to_f64(d: &DecodedValue) -> f64 {
    match d {
        DecodedValue::Real(bits) => f64::from_bits(*bits),
        DecodedValue::Integer(i) => *i as f64,
        other => panic!("not a numeric decode: {:?}", other),
    }
}

#[test]
fn test_float() {
    let f32_cases: &[f32] = &[0.3_f32, f32::NEG_INFINITY, f32::INFINITY];
    for v in f32_cases {
        let src = SourceValue::F64Bits((*v as f64).to_bits());
        let got = roundtrip_value(&src, &DecodeTarget::F32);
        assert_eq!(decoded_to_f64(&got) as f32, *v);
    }
    let f64_cases: &[f64] = &[-54.7612_f64, f64::NEG_INFINITY, f64::INFINITY];
    for v in f64_cases {
        let src = SourceValue::F64Bits(v.to_bits());
        let got = roundtrip_value(&src, &DecodeTarget::F64);
        assert_eq!(decoded_to_f64(&got), *v);
    }
    // NaN cannot be compared directly: it must encode to null and decode to
    // a NaN again.
    let params = to_params(&SourceValue::F64Bits(f64::NAN.to_bits())).unwrap();
    assert_eq!(params, vec![StorageValue::Null]);
    let back = decode_value(&DecodeTarget::F64, &params[0]).unwrap();
    assert!(decoded_to_f64(&back).is_nan());
    let params32 = to_params(&SourceValue::F64Bits((f32::NAN as f64).to_bits())).unwrap();
    assert_eq!(params32, vec![StorageValue::Null]);
    match decode_value(&DecodeTarget::F32, &params32[0]).unwrap() {
        DecodedValue::Real32(bits) => assert!(f32::from_bits(bits).is_nan()),
        other => panic!("expected a single-precision NaN, got {:?}", other),
    }
}

#[test]
fn test_string() {
    assert_eq!(
        roundtrip_value(&SourceValue::Char('a'), &DecodeTarget::Char),
        DecodedValue::Char('a')
    );
    assert_eq!(
        roundtrip_value(
            &SourceValue::Text("test string".to_string()),
            &DecodeTarget::Text
        ),
        DecodedValue::Text("test string".to_string())
    );
    assert_eq!(
        roundtrip_value(
            &SourceValue::Text("Ünicódé".to_string()),
            &DecodeTarget::Text
        ),
        DecodedValue::Text("Ünicódé".to_string())
    );
}

#[test]
fn test_bytes() {
    let val = b"123456";
    // The optimized byte-buffer path.
    let params = to_params(&SourceValue::Bytes(val.to_vec())).unwrap();
    assert_eq!(params, vec![StorageValue::Blob(val.to_vec())]);
    assert_eq!(
        decode_value(&DecodeTarget::Bytes, &params[0]).unwrap(),
        DecodedValue::Bytes(val.to_vec())
    );
    assert_eq!(
        decode_value(&DecodeTarget::ByteBuf, &params[0]).unwrap(),
        DecodedValue::Bytes(val.to_vec())
    );
}

#[test]
fn test_nullable() {
    assert_eq!(
        roundtrip_value(
            &SourceValue::Present(Box::new(SourceValue::I64(18))),
            &DecodeTarget::Optional(Box::new(DecodeTarget::Integer))
        ),
        DecodedValue::Present(Box::new(DecodedValue::Integer(18)))
    );
    assert_eq!(
        roundtrip_value(
            &SourceValue::Absent,
            &DecodeTarget::Optional(Box::new(DecodeTarget::Integer))
        ),
        DecodedValue::Absent
    );
    assert_eq!(
        roundtrip_value(&SourceValue::Unit, &DecodeTarget::Unit),
        DecodedValue::Unit
    );
}

fn abc_variants() -> Vec<EnumVariant> {
    vec![
        EnumVariant { name: "A".to_string(), kind: VariantKind::Unit },
        EnumVariant { name: "B".to_string(), kind: VariantKind::Unit },
        EnumVariant { name: "C".to_string(), kind: VariantKind::Unit },
    ]
}

#[test]
fn test_enum() {
    for name in ["A", "B", "C"] {
        let got = roundtrip_value(
            &SourceValue::UnitVariant(name.to_string()),
            &DecodeTarget::Enum(abc_variants()),
        );
        assert_eq!(got, DecodedValue::Variant(name.to_string()));
    }
}

#[test]
fn test_map() {
    {
        let src = SourceValue::Mapping(vec![
            (SourceValue::Text("field_2".to_string()), SourceValue::I64(2)),
            (SourceValue::Text("field_1".to_string()), SourceValue::I64(1)),
            (SourceValue::Text("field_3".to_string()), SourceValue::I64(3)),
        ]);
        let named = to_params_named(&src).unwrap();
        let columns = ["field_1", "field_2", "field_3"];
        let row = bind_named(named.to_slice(), &columns);
        let decoded = from_row_with_columns(
            row,
            strings(&columns),
            &RowTarget::Mapping(DecodeTarget::Integer),
        )
        .unwrap();
        assert_eq!(
            decoded,
            RowDecoded::Mapping(vec![
                ("field_1".to_string(), DecodedValue::Integer(1)),
                ("field_2".to_string(), DecodedValue::Integer(2)),
                ("field_3".to_string(), DecodedValue::Integer(3)),
            ])
        );
    }
    {
        let src = SourceValue::Mapping(vec![
            (SourceValue::Char('a'), SourceValue::I64(2)),
            (SourceValue::Char('b'), SourceValue::I64(1)),
            (SourceValue::Char('c'), SourceValue::I64(3)),
        ]);
        let named = to_params_named(&src).unwrap();
        let columns = ["a", "b", "c"];
        let row = bind_named(named.to_slice(), &columns);
        // Decoding with the full column list sees every entry.
        let decoded = from_row_with_columns(
            row.clone(),
            strings(&columns),
            &RowTarget::Mapping(DecodeTarget::Integer),
        )
        .unwrap();
        assert_eq!(
            decoded,
            RowDecoded::Mapping(vec![
                ("a".to_string(), DecodedValue::Integer(2)),
                ("b".to_string(), DecodedValue::Integer(1)),
                ("c".to_string(), DecodedValue::Integer(3)),
            ])
        );
        // An explicit two-element column list yields exactly those entries.
        let decoded = from_row_with_columns(
            row,
            strings(&["a", "b"]),
            &RowTarget::Mapping(DecodeTarget::Integer),
        )
        .unwrap();
        assert_eq!(
            decoded,
            RowDecoded::Mapping(vec![
                ("a".to_string(), DecodedValue::Integer(2)),
                ("b".to_string(), DecodedValue::Integer(1)),
            ])
        );
    }
}

#[test]
fn test_tuple() {
    let src = SourceValue::Tuple(vec![
        SourceValue::I64(34),
        SourceValue::F64Bits(76.4_f64.to_bits()),
        SourceValue::Text("the test".to_string()),
        SourceValue::Sequence(vec![
            SourceValue::U8(10),
            SourceValue::U8(20),
            SourceValue::U8(30),
        ]),
        SourceValue::Present(Box::new(SourceValue::I64(9))),
    ]);
    let row = to_params(&src).unwrap();
    assert_eq!(row.len(), 5);
    let columns = ["f_integer", "f_real", "f_text", "f_blob", "f_null"];
    let target = RowTarget::Tuple(vec![
        DecodeTarget::Integer,
        DecodeTarget::F64,
        DecodeTarget::Text,
        DecodeTarget::Bytes,
        DecodeTarget::Optional(Box::new(DecodeTarget::Integer)),
    ]);
    let decoded = from_row_with_columns(row, strings(&columns), &target).unwrap();
    assert_eq!(
        decoded,
        RowDecoded::Tuple(vec![
            DecodedValue::Integer(34),
            DecodedValue::Real(76.4_f64.to_bits()),
            DecodedValue::Text("the test".to_string()),
            DecodedValue::Bytes(vec![10, 20, 30]),
            DecodedValue::Present(Box::new(DecodedValue::Integer(9))),
        ])
    );
}

#[test]
fn test_struct() {
    {
        // A newtype struct is transparent on both sides.
        let src = SourceValue::NewtypeStruct(
            "Test".to_string(),
            Box::new(SourceValue::I64(891287912)),
        );
        let row = to_params(&src).unwrap();
        let decoded = from_row_with_columns(
            row,
            strings(&["test_column"]),
            &RowTarget::Single(DecodeTarget::Integer),
        )
        .unwrap();
        assert_eq!(decoded, RowDecoded::Single(DecodedValue::Integer(891287912)));
    }
    {
        // A unit struct stores its own name as text.
        let src = SourceValue::UnitStruct("Test".to_string());
        let row = to_params(&src).unwrap();
        assert_eq!(row, vec![StorageValue::Text("Test".to_string())]);
        let decoded = from_row_with_columns(
            row,
            strings(&["test_column"]),
            &RowTarget::Single(DecodeTarget::UnitStruct("Test".to_string())),
        )
        .unwrap();
        assert_eq!(decoded, RowDecoded::Single(DecodedValue::Unit));
    }
    {
        let src = SourceValue::Struct(
            "Test".to_string(),
            vec![
                ("f_integer".to_string(), SourceValue::I64(10)),
                ("f_real".to_string(), SourceValue::F64Bits(65.3_f64.to_bits())),
                ("f_text".to_string(), SourceValue::Text("the test".to_string())),
                (
                    "f_blob".to_string(),
                    SourceValue::Sequence(vec![
                        SourceValue::U8(0),
                        SourceValue::U8(1),
                        SourceValue::U8(2),
                    ]),
                ),
                ("f_null".to_string(), SourceValue::Absent),
            ],
        );
        let named = to_params_named(&src).unwrap();
        let columns = ["f_integer", "f_real", "f_text", "f_blob", "f_null"];
        let row = bind_named(named.to_slice(), &columns);
        let target = RowTarget::Struct(vec![
            ("f_integer".to_string(), DecodeTarget::Integer),
            ("f_real".to_string(), DecodeTarget::F64),
            ("f_text".to_string(), DecodeTarget::Text),
            ("f_blob".to_string(), DecodeTarget::Bytes),
            (
                "f_null".to_string(),
                DecodeTarget::Optional(Box::new(DecodeTarget::Integer)),
            ),
        ]);
        let decoded = from_row_with_columns(row, strings(&columns), &target).unwrap();
        assert_eq!(
            decoded,
            RowDecoded::Mapping(vec![
                ("f_integer".to_string(), DecodedValue::Integer(10)),
                ("f_real".to_string(), DecodedValue::Real(65.3_f64.to_bits())),
                ("f_text".to_string(), DecodedValue::Text("the test".to_string())),
                ("f_blob".to_string(), DecodedValue::Bytes(vec![0, 1, 2])),
                ("f_null".to_string(), DecodedValue::Absent),
            ])
        );
    }
    {
        // The optimized blob field, an empty string and a present optional.
        let src = SourceValue::Struct(
            "Test".to_string(),
            vec![
                ("f_blob".to_string(), SourceValue::Bytes(vec![5, 10, 15])),
                ("f_integer".to_string(), SourceValue::I64(10)),
                ("f_text".to_string(), SourceValue::Text("".to_string())),
                (
                    "f_null".to_string(),
                    SourceValue::Present(Box::new(SourceValue::I64(43))),
                ),
                ("f_real".to_string(), SourceValue::F64Bits((-65.3_f64).to_bits())),
            ],
        );
        let named = to_params_named(&src).unwrap();
        let columns = ["f_integer", "f_real", "f_text", "f_blob", "f_null"];
        let row = bind_named(named.to_slice(), &columns);
        let target = RowTarget::Struct(vec![
            ("f_blob".to_string(), DecodeTarget::ByteBuf),
            ("f_integer".to_string(), DecodeTarget::Integer),
            ("f_text".to_string(), DecodeTarget::Text),
            (
                "f_null".to_string(),
                DecodeTarget::Optional(Box::new(DecodeTarget::Integer)),
            ),
            ("f_real".to_string(), DecodeTarget::F64),
        ]);
        let decoded = from_row_with_columns(row, strings(&columns), &target).unwrap();
        assert_eq!(
            decoded,
            RowDecoded::Mapping(vec![
                ("f_integer".to_string(), DecodedValue::Integer(10)),
                ("f_real".to_string(), DecodedValue::Real((-65.3_f64).to_bits())),
                ("f_text".to_string(), DecodedValue::Text("".to_string())),
                ("f_blob".to_string(), DecodedValue::Bytes(vec![5, 10, 15])),
                (
                    "f_null".to_string(),
                    DecodedValue::Present(Box::new(DecodedValue::Integer(43)))
                ),
            ])
        );
    }
}

#[test]
fn test_deser_err() {
    let src = SourceValue::Struct(
        "Ser".to_string(),
        vec![
            ("f_real".to_string(), SourceValue::F64Bits((-65.3_f64).to_bits())),
            ("f_text".to_string(), SourceValue::Text("test".to_string())),
        ],
    );
    let named = to_params_named(&src).unwrap();
    let columns = ["f_real", "f_text"];
    let row = bind_named(named.to_slice(), &columns);
    // The stored text lands in an integer-typed field of the same name.
    let target = RowTarget::Struct(vec![
        ("f_real".to_string(), DecodeTarget::F64),
        ("f_text".to_string(), DecodeTarget::Integer),
    ]);
    let err = from_row_with_columns(row, strings(&columns), &target);
    match err {
        Err(Error::Deserialization { column: Some(field), .. }) => {
            assert_eq!(field, "f_text")
        }
        _ => panic!("Unexpected result: {:?}", err),
    }
}

#[test]
fn pluck_named() {
    let item = SourceValue::Struct(
        "Food".to_string(),
        vec![
            ("id".to_string(), SourceValue::I32(15)),
            ("name".to_string(), SourceValue::Text("Snickers bar".to_string())),
            (
                "flavor".to_string(),
                SourceValue::Text("choco and caramel".to_string()),
            ),
            ("color".to_string(), SourceValue::Text("brown".to_string())),
            (
                "expiration".to_string(),
                SourceValue::Text("2021-04-05".to_string()),
            ),
        ],
    );
    let plucked = to_params_named_with_fields(&item, strings(&["flavor", "id"])).unwrap();
    assert_eq!(
        *plucked.to_slice(),
        vec![
            (":id".to_string(), StorageValue::Integer(15)),
            (
                ":flavor".to_string(),
                StorageValue::Text("choco and caramel".to_string())
            ),
        ]
    );
}
