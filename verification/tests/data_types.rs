//! Round-trip behaviour of the primitive transparent wrappers.

use ua_core::ua::data_types::{
    Boolean, Byte, Int16, Int32, Int64, SByte, StatusCode, UInt16, UInt32, UInt64,
};
use ua_core::DataType;

#[test]
fn boolean_roundtrip() {
    assert_eq!(*Boolean::new(true).as_ref(), true);
    assert_eq!(*Boolean::new(false).as_ref(), false);
}

#[test]
fn sbyte_roundtrip_boundaries() {
    for v in [0i8, 1, -1, i8::MIN, i8::MAX] {
        assert_eq!(*SByte::new(v).as_ref(), v);
    }
}

#[test]
fn byte_roundtrip_boundaries() {
    for v in [0u8, 1, u8::MAX] {
        assert_eq!(*Byte::new(v).as_ref(), v);
    }
}

#[test]
fn int16_roundtrip_boundaries() {
    for v in [0i16, 1, -1, i16::MIN, i16::MAX] {
        assert_eq!(*Int16::new(v).as_ref(), v);
    }
}

#[test]
fn uint16_roundtrip_boundaries() {
    for v in [0u16, 1, u16::MAX] {
        assert_eq!(*UInt16::new(v).as_ref(), v);
    }
}

#[test]
fn int32_roundtrip_boundaries() {
    for v in [0i32, 1, -1, i32::MIN, i32::MAX] {
        assert_eq!(*Int32::new(v).as_ref(), v);
    }
}

#[test]
fn uint32_roundtrip_boundaries() {
    for v in [0u32, 1, u32::MAX] {
        assert_eq!(*UInt32::new(v).as_ref(), v);
    }
}

#[test]
fn int64_roundtrip_boundaries() {
    for v in [0i64, 1, -1, i64::MIN, i64::MAX] {
        assert_eq!(*Int64::new(v).as_ref(), v);
    }
}

#[test]
fn uint64_roundtrip_boundaries() {
    for v in [0u64, 1, u64::MAX] {
        assert_eq!(*UInt64::new(v).as_ref(), v);
    }
}

#[test]
fn from_ref_matches_new() {
    let value: i16 = -12345;
    assert_eq!(Int16::from_ref(&value), Int16::new(value));
}

#[test]
fn exclusive_view_writes_through() {
    let mut w = UInt32::new(7);
    *w.as_mut() = 4096;
    assert_eq!(*w.as_ref(), 4096);
}

#[test]
fn descriptor_indices_follow_the_table() {
    assert_eq!(Boolean::type_index(), 0);
    assert_eq!(SByte::type_index(), 1);
    assert_eq!(Byte::type_index(), 2);
    assert_eq!(Int16::type_index(), 3);
    assert_eq!(UInt16::type_index(), 4);
    assert_eq!(Int32::type_index(), 5);
    assert_eq!(UInt32::type_index(), 6);
    assert_eq!(Int64::type_index(), 7);
    assert_eq!(UInt64::type_index(), 8);
}

#[test]
fn status_code_severity_classes() {
    assert!(StatusCode::new(0).is_good());
    // An uncertain severity class (top bits 01) is not good.
    assert!(!StatusCode::new(0x4000_0000).is_good());
    // A bad severity class (top bits 10), e.g. out-of-memory style codes.
    assert!(!StatusCode::new(0x8000_0000).is_good());
    assert_eq!(StatusCode::new(123).code(), 123);
}
