use shader_slang::{
    created_object, location_use_answer, object_or_diagnostics, result_from_blob, succeeded, uuid,
    CapabilityID, Error, ProfileID,
};

#[test]
fn success_is_a_non_negative_code() {
    assert!(succeeded(0));
    assert!(succeeded(1));
    assert!(!succeeded(-1));
    assert!(!succeeded(i32::MIN));
}

#[test]
fn result_from_blob_cases() {
    assert!(matches!(result_from_blob(0, Some("diag")), Ok(())));
    assert!(matches!(result_from_blob::<&str>(-5, None), Err(Error::Code(-5))));
    assert!(matches!(result_from_blob(-5, Some("diag")), Err(Error::Blob("diag"))));
}

#[test]
fn object_or_diagnostics_cases() {
    assert!(matches!(object_or_diagnostics(Some(3), Some("d")), Ok(3)));
    assert!(matches!(object_or_diagnostics::<i32, &str>(Some(3), None), Ok(3)));
    assert!(matches!(object_or_diagnostics::<i32, &str>(None, Some("d")), Err(Error::Blob("d"))));
}

#[test]
fn created_object_cases() {
    assert!(matches!(created_object(0, Some(7), Some("d")), Ok(7)));
    assert!(matches!(created_object::<i32, &str>(-2, None, None), Err(Error::Code(-2))));
    assert!(matches!(created_object::<i32, &str>(-2, Some(7), Some("d")), Err(Error::Blob("d"))));
}

#[test]
fn location_use_answer_cases() {
    assert_eq!(location_use_answer(0, true), Some(true));
    assert_eq!(location_use_answer(0, false), Some(false));
    assert_eq!(location_use_answer(-1, true), None);
}

#[test]
fn unknown_identifiers() {
    assert!(ProfileID::unknown().is_unknown());
    assert!(!ProfileID(3).is_unknown());
    assert!(CapabilityID::unknown().is_unknown());
    assert!(!CapabilityID(-1).is_unknown());
}

#[test]
fn uuid_splits_the_number() {
    let id = uuid(0x00000000_0000_0000_c000000000000046);
    assert_eq!((id.data1, id.data2, id.data3), (0, 0, 0));
    assert_eq!(id.data4, [0xc0, 0, 0, 0, 0, 0, 0, 0x46]);
    let id = uuid(0x8ba5fb08_5195_40e2_ac580d989c3a0102);
    assert_eq!(id.data1, 0x8ba5fb08);
    assert_eq!(id.data2, 0x5195);
    assert_eq!(id.data3, 0x40e2);
    assert_eq!(id.data4, [0xac, 0x58, 0x0d, 0x98, 0x9c, 0x3a, 0x01, 0x02]);
}

#[test]
fn uuid_fields_reassemble_the_number() {
    let value: u128 = 0x67618701_d116_468f_ab3b474bedce0e3d;
    let id = uuid(value);
    let mut back = (id.data1 as u128) << 96 | (id.data2 as u128) << 80 | (id.data3 as u128) << 64;
    for (i, b) in id.data4.iter().enumerate() {
        back |= (*b as u128) << (56 - 8 * i);
    }
    assert_eq!(back, value);
}
