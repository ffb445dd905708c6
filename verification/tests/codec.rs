//! Scalar and row codec behaviour.

use vinyldb::catalog::schema::Schema;
use vinyldb::data::tuple::Tuple;
use vinyldb::data::types::{Data, DataType};

#[test]
fn data_encode_works() {
    let raw = true;
    let b = Data::Bool(raw);
    assert_eq!(b.encode(), vec![1u8]);

    let raw = 8_i64;
    let int64 = Data::Int64(raw);
    assert_eq!(int64.encode(), raw.to_le_bytes().to_vec());

    let raw = 10_f64;
    let float64 = Data::Float64(raw.to_bits());
    assert_eq!(float64.encode(), raw.to_le_bytes().to_vec());

    let raw = 70_i64;
    let timestamp = Data::Timestamp(raw);
    assert_eq!(timestamp.encode(), raw.to_le_bytes().to_vec());

    let raw = String::from("VinylDB");
    let string = Data::String(raw.clone());
    let expected = {
        let mut ret = Vec::new();
        let len: u64 = raw.len().try_into().expect("should never fail on a 64-bit machine");
        ret.extend_from_slice(&len.to_le_bytes());
        ret.extend_from_slice(raw.as_bytes());
        ret
    };
    assert_eq!(string.encode(), expected);
}

#[test]
fn data_decode_works() {
    let types = vec![
        DataType::String,
        DataType::Int64,
        DataType::Bool,
        DataType::String,
        DataType::Bool,
    ];
    let data = vec![
        Data::String("Vinyl".into()),
        Data::Int64(0),
        Data::Bool(false),
        Data::String("DB".into()),
        Data::Bool(true),
    ];

    let bytes = {
        let mut ret = Vec::new();
        for d in data.iter() {
            ret.extend_from_slice(&d.encode());
        }
        ret
    };

    let mut start = 0_usize;
    for (ty, expected) in types.iter().zip(data) {
        let res = Data::decode(&bytes[start..], ty).expect("should decode");
        assert_eq!(res, expected);
        start += res.encode_size();
    }
}

#[test]
fn encode_decode() {
    let schema = Schema::new_with_duplicate_check(vec![
        ("1".into(), DataType::Bool),
        ("2".into(), DataType::String),
        ("3".into(), DataType::Int64),
    ])
    .unwrap();
    let tuple = Tuple::new(vec![
        Data::Bool(true),
        Data::String("foo".into()),
        Data::Int64(1),
    ]);
    let bytes = tuple.encode();

    let decoded = Tuple::decode(&bytes, &schema).expect("should decode");
    assert_eq!(tuple, decoded);
}

#[test]
fn decode_rejects_short_input() {
    assert!(Data::decode(&[1u8, 2u8], &DataType::Int64).is_none());
    assert!(Data::decode(&[], &DataType::Bool).is_none());
}

#[test]
fn decode_rejects_invalid_utf8() {
    let mut bytes = 2u64.to_le_bytes().to_vec();
    bytes.extend_from_slice(&[0xff, 0xfe]);
    assert!(Data::decode(&bytes, &DataType::String).is_none());
}

#[test]
fn schema_new() {
    let fields = vec![
        (String::from("name"), DataType::String),
        (String::from("age"), DataType::Int64),
    ];
    let schema = Schema::new_with_duplicate_check(fields.clone()).unwrap();

    let names: Vec<String> = schema.column_names();
    assert_eq!(names, vec![String::from("name"), String::from("age")]);
    assert_eq!(
        schema.column_datatypes(),
        vec![DataType::String, DataType::Int64]
    );
    assert_eq!(schema.n_columns(), 2);
    assert_eq!(schema.index_of_column("age").unwrap(), 1);
    assert_eq!(schema.column_datatype("name").unwrap(), DataType::String);
}

#[test]
fn schema_duplicate_fields_rejected() {
    let fields = vec![
        (String::from("name"), DataType::String),
        (String::from("name"), DataType::Int64),
    ];
    assert!(Schema::new_with_duplicate_check(fields).is_err());
}

#[test]
fn float_round_trip_by_bits() {
    let raw = -123.456_f64;
    let d = Data::Float64(raw.to_bits());
    let bytes = d.encode();
    let back = Data::decode(&bytes, &DataType::Float64).unwrap();
    match back {
        Data::Float64(bits) => assert_eq!(f64::from_bits(bits), raw),
        other => panic!("decoded to {:?}", other),
    }
}
