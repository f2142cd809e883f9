use smi::codes::{SmiAccess, SmiBasetype, SmiStatus};

#[test]
fn status_codes_decode() {
    assert_eq!(SmiStatus::from_code(0), SmiStatus::Unknown);
    assert_eq!(SmiStatus::from_code(1), SmiStatus::Current);
    assert_eq!(SmiStatus::from_code(2), SmiStatus::Deprecated);
    assert_eq!(SmiStatus::from_code(3), SmiStatus::Mandatory);
    assert_eq!(SmiStatus::from_code(4), SmiStatus::Optional);
    assert_eq!(SmiStatus::from_code(5), SmiStatus::Obsolete);
}

#[test]
fn access_codes_decode() {
    assert_eq!(SmiAccess::from_code(0), SmiAccess::Unknown);
    assert_eq!(SmiAccess::from_code(2), SmiAccess::NotAccessible);
    assert_eq!(SmiAccess::from_code(4), SmiAccess::ReadOnly);
    assert_eq!(SmiAccess::from_code(5), SmiAccess::ReadWrite);
    assert_eq!(SmiAccess::from_code(9), SmiAccess::EventOnly);
}

#[test]
fn basetype_codes_decode() {
    assert_eq!(SmiBasetype::from_code(1), SmiBasetype::Integer32);
    assert_eq!(SmiBasetype::from_code(2), SmiBasetype::OctetString);
    assert_eq!(SmiBasetype::from_code(3), SmiBasetype::ObjectIdentifier);
    assert_eq!(SmiBasetype::from_code(10), SmiBasetype::Enum);
    assert_eq!(SmiBasetype::from_code(12), SmiBasetype::Pointer);
}

#[test]
fn unrecognised_codes_decode_to_unknown() {
    assert_eq!(SmiStatus::from_code(6), SmiStatus::Unknown);
    assert_eq!(SmiStatus::from_code(u32::MAX), SmiStatus::Unknown);
    assert_eq!(SmiAccess::from_code(10), SmiAccess::Unknown);
    assert_eq!(SmiAccess::from_code(1000), SmiAccess::Unknown);
    assert_eq!(SmiBasetype::from_code(13), SmiBasetype::Unknown);
    assert_eq!(SmiBasetype::from_code(u32::MAX), SmiBasetype::Unknown);
}

#[test]
fn codes_round_trip() {
    for code in 0..6u32 {
        assert_eq!(SmiStatus::from_code(code).code(), code);
    }
    for code in 0..10u32 {
        assert_eq!(SmiAccess::from_code(code).code(), code);
    }
    for code in 0..13u32 {
        assert_eq!(SmiBasetype::from_code(code).code(), code);
    }
}
