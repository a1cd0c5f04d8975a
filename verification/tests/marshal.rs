//! Tests for the status mapper, the identifier codec, and the decoder.

use otama::ident::{decode, encode};
use otama::status::{map_status, Error, Status, StatusCode};
use otama::value::{decode as decode_value, hash_get, similarity_of, NativeValue, Value};

#[test]
fn status_success_maps_to_ok() {
    assert_eq!(map_status(StatusCode::Okay), Ok(Status::Okay));
}

#[test]
fn status_known_codes_map_one_to_one() {
    assert_eq!(map_status(StatusCode::Nodata), Err(Error::Nodata));
    assert_eq!(
        map_status(StatusCode::InvalidArguments),
        Err(Error::InvalidArguments)
    );
    assert_eq!(
        map_status(StatusCode::AssertionFailure),
        Err(Error::AssertionFailure)
    );
    assert_eq!(map_status(StatusCode::Syserror), Err(Error::SysError));
    assert_eq!(
        map_status(StatusCode::NotImplemented),
        Err(Error::NotImplemented)
    );
    assert_eq!(map_status(StatusCode::End), Err(Error::End));
}

#[test]
fn status_unrecognized_maps_to_unknown() {
    assert_eq!(map_status(StatusCode::Unrecognized), Err(Error::Unknown));
}

#[test]
fn encode_twenty_bytes_gives_forty_lowercase_hex_chars() {
    let bytes: Vec<u8> = (0u8..20u8).collect();
    let text = encode(&bytes);
    assert_eq!(text, "000102030405060708090a0b0c0d0e0f10111213");
    assert_eq!(text.len(), 40);
}

#[test]
fn encode_covers_all_digit_values() {
    let bytes = vec![
        0x00u8, 0xff, 0xa5, 0x5a, 0x12, 0x34, 0x56, 0x78, 0x9a, 0xbc, 0xde, 0xf0, 0x0f, 0x10,
        0xc3, 0xd4, 0xe5, 0xf6, 0x07, 0x89,
    ];
    assert_eq!(encode(&bytes), "00ffa55a123456789abcdef00f10c3d4e5f60789");
}

#[test]
fn encode_of_nothing_is_empty() {
    let bytes: Vec<u8> = Vec::new();
    assert_eq!(encode(&bytes), "");
}

#[test]
fn decode_inverts_encode() {
    let bytes = vec![
        0xdeu8, 0xad, 0xbe, 0xef, 0x00, 0x11, 0x22, 0x33, 0x44, 0x55, 0x66, 0x77, 0x88, 0x99,
        0xaa, 0xbb, 0xcc, 0xdd, 0xee, 0xff,
    ];
    let text = encode(&bytes);
    assert_eq!(decode(&text), Ok(bytes));
}

#[test]
fn encode_inverts_decode_on_lowercase_hex() {
    let text = "00ffa55a123456789abcdef00f10c3d4e5f60789";
    let bytes = decode(text).unwrap();
    assert_eq!(encode(&bytes), text);
}

#[test]
fn decode_accepts_uppercase_and_reencodes_lowercase() {
    let upper = "00FFA55A123456789ABCDEF00F10C3D4E5F60789";
    let bytes = decode(upper).unwrap();
    assert_eq!(encode(&bytes), upper.to_lowercase());
}

#[test]
fn decode_rejects_wrong_length() {
    assert_eq!(decode(""), Err(Error::InvalidArguments));
    assert_eq!(
        decode("000102030405060708090a0b0c0d0e0f1011121"),
        Err(Error::InvalidArguments)
    );
    assert_eq!(
        decode("000102030405060708090a0b0c0d0e0f101112131"),
        Err(Error::InvalidArguments)
    );
}

#[test]
fn decode_rejects_non_hex_characters() {
    assert_eq!(
        decode("g00102030405060708090a0b0c0d0e0f10111213"),
        Err(Error::InvalidArguments)
    );
    assert_eq!(
        decode("000102030405060708090a0b0c0d0e0f1011121z"),
        Err(Error::InvalidArguments)
    );
}

#[test]
fn decoder_null_tag_gives_null() {
    assert!(matches!(decode_value(&NativeValue::Null), Value::Null));
}

#[test]
fn decoder_int_tag_copies_the_value() {
    assert!(matches!(
        decode_value(&NativeValue::Int(-42)),
        Value::Int(-42)
    ));
}

#[test]
fn decoder_float_tag_copies_the_bits() {
    let bits = 1.5f32.to_bits();
    match decode_value(&NativeValue::Float(bits)) {
        Value::Float(b) => assert_eq!(f32::from_bits(b), 1.5),
        other => panic!("expected a float, got {:?}", other),
    }
}

#[test]
fn decoder_string_tag_takes_the_text_over() {
    match decode_value(&NativeValue::Text(String::from("hello"))) {
        Value::String(s) => assert_eq!(s, "hello"),
        other => panic!("expected text, got {:?}", other),
    }
}

#[test]
fn decoder_array_tag_keeps_native_order() {
    let native = NativeValue::Array(vec![
        NativeValue::Int(1),
        NativeValue::Text(String::from("two")),
        NativeValue::Null,
    ]);
    match decode_value(&native) {
        Value::Array(items) => {
            assert_eq!(items.len(), 3);
            assert!(matches!(items[0], Value::Int(1)));
            match &items[1] {
                Value::String(s) => assert_eq!(s, "two"),
                other => panic!("expected text, got {:?}", other),
            }
            assert!(matches!(items[2], Value::Null));
        }
        other => panic!("expected an array, got {:?}", other),
    }
}

#[test]
fn decoder_hash_tag_keeps_every_key() {
    let native = NativeValue::Hash(vec![
        (String::from("a"), NativeValue::Int(1)),
        (String::from("b"), NativeValue::Int(2)),
    ]);
    match decode_value(&native) {
        Value::Hash(pairs) => {
            assert!(matches!(
                hash_get(&pairs, &String::from("a")),
                Some(Value::Int(1))
            ));
            assert!(matches!(
                hash_get(&pairs, &String::from("b")),
                Some(Value::Int(2))
            ));
            assert!(hash_get(&pairs, &String::from("c")).is_none());
        }
        other => panic!("expected a mapping, got {:?}", other),
    }
}

#[test]
fn decoder_hash_duplicate_key_last_write_wins() {
    let native = NativeValue::Hash(vec![
        (String::from("k"), NativeValue::Int(1)),
        (String::from("k"), NativeValue::Int(2)),
    ]);
    match decode_value(&native) {
        Value::Hash(pairs) => {
            assert!(matches!(
                hash_get(&pairs, &String::from("k")),
                Some(Value::Int(2))
            ));
        }
        other => panic!("expected a mapping, got {:?}", other),
    }
}

#[test]
fn decoder_unknown_tag_gives_null_without_failing() {
    assert!(matches!(decode_value(&NativeValue::Unknown), Value::Null));
}

#[test]
fn decoder_nests_hash_array_hash() {
    let native = NativeValue::Hash(vec![(
        String::from("outer"),
        NativeValue::Array(vec![
            NativeValue::Hash(vec![(String::from("inner"), NativeValue::Int(5))]),
            NativeValue::Text(String::from("leaf")),
        ]),
    )]);
    match decode_value(&native) {
        Value::Hash(pairs) => match hash_get(&pairs, &String::from("outer")) {
            Some(Value::Array(items)) => {
                assert_eq!(items.len(), 2);
                match &items[0] {
                    Value::Hash(inner) => {
                        assert!(matches!(
                            hash_get(inner, &String::from("inner")),
                            Some(Value::Int(5))
                        ));
                    }
                    other => panic!("expected a mapping, got {:?}", other),
                }
                match &items[1] {
                    Value::String(s) => assert_eq!(s, "leaf"),
                    other => panic!("expected text, got {:?}", other),
                }
            }
            other => panic!("expected an array, got {:?}", other),
        },
        other => panic!("expected a mapping, got {:?}", other),
    }
}

#[test]
fn similarity_reads_the_float_entry() {
    let v = decode_value(&NativeValue::Hash(vec![(
        String::from("similarity"),
        NativeValue::Float(0.75f32.to_bits()),
    )]));
    assert_eq!(f32::from_bits(similarity_of(&v)), 0.75);
}

#[test]
fn similarity_defaults_to_zero_on_missing_key() {
    let v = decode_value(&NativeValue::Hash(vec![(
        String::from("distance"),
        NativeValue::Float(0.75f32.to_bits()),
    )]));
    assert_eq!(similarity_of(&v), 0.0f32.to_bits());
}

#[test]
fn similarity_defaults_to_zero_on_non_float_entry() {
    let v = decode_value(&NativeValue::Hash(vec![(
        String::from("similarity"),
        NativeValue::Text(String::from("high")),
    )]));
    assert_eq!(similarity_of(&v), 0.0f32.to_bits());
}

#[test]
fn similarity_defaults_to_zero_on_non_mapping() {
    let v = decode_value(&NativeValue::Int(3));
    assert_eq!(similarity_of(&v), 0.0f32.to_bits());
}
