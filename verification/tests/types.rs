use column_types::error::DBError;
use column_types::types::Blob;
use column_types::types::Boolean;
use column_types::types::Float32;
use column_types::types::Float64;
use column_types::types::Int32;
use column_types::types::Int64;
use column_types::types::Text;
use column_types::types::Type;
use column_types::types::UInt32;
use column_types::types::UInt64;
use column_types::types::ValueInfo;
use column_types::types::VIEW_DESCRIPTOR_WIDTH;
use column_types::types::descriptor_for;

const ALL_KINDS: [Type; 9] = [
    Type::UINT32,
    Type::UINT64,
    Type::INT32,
    Type::INT64,
    Type::FLOAT32,
    Type::FLOAT64,
    Type::BOOLEAN,
    Type::TEXT,
    Type::BLOB,
];

#[test]
fn names_are_canonical() {
    assert_eq!(Type::UINT32.name(), "UINT32");
    assert_eq!(Type::UINT64.name(), "UINT64");
    assert_eq!(Type::INT32.name(), "INT32");
    assert_eq!(Type::INT64.name(), "INT64");
    assert_eq!(Type::FLOAT32.name(), "FLOAT32");
    assert_eq!(Type::FLOAT64.name(), "FLOAT64");
    assert_eq!(Type::BOOLEAN.name(), "BOOLEAN");
    assert_eq!(Type::TEXT.name(), "TEXT");
    assert_eq!(Type::BLOB.name(), "BLOB");
}

#[test]
fn parse_name_round_trips_for_every_kind() {
    for k in ALL_KINDS {
        assert_eq!(Type::parse(k.name()).unwrap(), k);
    }
}

#[test]
fn parse_rejects_unknown_names() {
    for bad in ["", "uint32", "UINT", "UINT328", "INT", "TEX", "BLOBB", " UINT32", "UINT32 "] {
        match Type::parse(bad) {
            Ok(k) => panic!("{} parsed as {:?}", bad, k),
            Err(DBError::UnknownType(w)) => assert_eq!(w, bad),
        }
    }
}

#[test]
fn parse_via_from_str() {
    let k: Type = "BOOLEAN".parse().unwrap();
    assert_eq!(k, Type::BOOLEAN);
    assert!("boolean".parse::<Type>().is_err());
}

#[test]
fn storage_widths_are_exact() {
    assert_eq!(Type::UINT32.size_of(), 4);
    assert_eq!(Type::INT32.size_of(), 4);
    assert_eq!(Type::FLOAT32.size_of(), 4);
    assert_eq!(Type::UINT64.size_of(), 8);
    assert_eq!(Type::INT64.size_of(), 8);
    assert_eq!(Type::FLOAT64.size_of(), 8);
    assert_eq!(Type::BOOLEAN.size_of(), 1);
    assert_eq!(Type::TEXT.size_of(), VIEW_DESCRIPTOR_WIDTH);
    assert_eq!(Type::BLOB.size_of(), Type::TEXT.size_of());
    for k in ALL_KINDS {
        assert!(k.size_of() > 0);
    }
}

#[test]
fn variable_length_is_text_and_blob_only() {
    for k in ALL_KINDS {
        let expected = k == Type::TEXT || k == Type::BLOB;
        assert_eq!(k.is_variable_length(), expected);
    }
}

#[test]
fn descriptor_matches_kind_metadata() {
    for k in ALL_KINDS {
        let d = descriptor_for(k);
        assert_eq!(d.native_width, k.size_of());
        assert_eq!(d.is_variable_length, k.is_variable_length());
        assert!(d.requires_deep_copy);
    }
}

#[test]
fn markers_report_their_kind() {
    assert_eq!(UInt32.enum_type(), Type::UINT32);
    assert_eq!(UInt64.enum_type(), Type::UINT64);
    assert_eq!(Int32.enum_type(), Type::INT32);
    assert_eq!(Int64.enum_type(), Type::INT64);
    assert_eq!(Float32.enum_type(), Type::FLOAT32);
    assert_eq!(Float64.enum_type(), Type::FLOAT64);
    assert_eq!(Boolean.enum_type(), Type::BOOLEAN);
    assert_eq!(Text.enum_type(), Type::TEXT);
    assert_eq!(Blob.enum_type(), Type::BLOB);
}

#[test]
fn markers_report_storage_metadata() {
    assert_eq!(UInt32.size_of(), 4);
    assert_eq!(UInt64.size_of(), 8);
    assert_eq!(Boolean.size_of(), 1);
    assert_eq!(Text.size_of(), VIEW_DESCRIPTOR_WIDTH);
    assert_eq!(Blob.size_of(), VIEW_DESCRIPTOR_WIDTH);
    assert!(!UInt32.varlen());
    assert!(!Float64.varlen());
    assert!(Text.varlen());
    assert!(Blob.varlen());
    assert!(UInt32.deep_copy());
    assert!(Text.deep_copy());
}
