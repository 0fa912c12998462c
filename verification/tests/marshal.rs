use tpm::marshal::marshal_response_header;
use tpm::marshal::marshal_rc;
use tpm::marshal::marshal_tag;
use tpm::marshal::marshal_tpms_tagged_property;
use tpm::marshal::marshal_tpmu_capability_data;
use tpm::marshal::marshal_get_capability_response;
use tpm::marshal::marshal_u16;
use tpm::marshal::marshal_u32;
use tpm::marshal::marshal_u8;
use tpm::marshal::unmarshal_capability;
use tpm::marshal::unmarshal_command_code;
use tpm::marshal::unmarshal_command_header;
use tpm::marshal::unmarshal_get_capability_args;
use tpm::marshal::unmarshal_pt;
use tpm::marshal::unmarshal_startup_args;
use tpm::marshal::unmarshal_startup_type;
use tpm::marshal::unmarshal_tag;
use tpm::marshal::unmarshal_u16;
use tpm::marshal::unmarshal_u32;
use tpm::marshal::unmarshal_u8;
use tpm::types::GetCapabilityResponse;
use tpm::types::ResponseHeader;
use tpm::types::StartupType;
use tpm::types::TpmCapability;
use tpm::types::TpmCommandCode;
use tpm::types::TpmCommandTag;
use tpm::types::TpmPt;
use tpm::types::TpmRc;
use tpm::types::TpmsCapabilityData;
use tpm::types::TpmsTaggedProperty;
use tpm::types::TpmuCapabilities;
use tpm::types::MAX_TPM_PROPERTIES;

#[test]
fn unmarshal_u8_reads_and_advances() {
    let buf = [0xAB, 0xCD];
    let mut offset = 1;
    assert_eq!(unmarshal_u8(&buf, &mut offset), Ok(0xCD));
    assert_eq!(offset, 2);
    assert_eq!(
        unmarshal_u8(&buf, &mut offset).unwrap_err().rc,
        TpmRc::Insufficient
    );
    assert_eq!(offset, 2);
}

#[test]
fn unmarshal_u16_big_endian() {
    let buf = [0x12, 0x34, 0x56];
    let mut offset = 0;
    assert_eq!(unmarshal_u16(&buf, &mut offset), Ok(0x1234));
    assert_eq!(offset, 2);
    let mut offset = 1;
    assert_eq!(unmarshal_u16(&buf, &mut offset), Ok(0x3456));
}

#[test]
fn unmarshal_u32_big_endian() {
    let buf = [0xDE, 0xAD, 0xBE, 0xEF, 0x01];
    let mut offset = 0;
    assert_eq!(unmarshal_u32(&buf, &mut offset), Ok(0xDEADBEEF));
    assert_eq!(offset, 4);
}

#[test]
fn unmarshal_u32_short_buffer_is_insufficient() {
    // Every buffer shorter than four bytes fails, and the cursor stays put.
    for len in 0..4 {
        let buf = vec![0xFF; len];
        let mut offset = 0;
        let e = unmarshal_u32(&buf, &mut offset).unwrap_err();
        assert_eq!(e.rc, TpmRc::Insufficient);
        assert_eq!(offset, 0);
    }
    let buf = [0u8; 6];
    let mut offset = 3;
    let e = unmarshal_u32(&buf, &mut offset).unwrap_err();
    assert_eq!(e.rc, TpmRc::Insufficient);
    assert_eq!(offset, 3);
}

#[test]
fn marshal_u8_writes_one_byte() {
    let mut buf = [0u8; 2];
    assert_eq!(marshal_u8(&mut buf, 1, 0x7F), Ok(1));
    assert_eq!(buf, [0x00, 0x7F]);
    assert_eq!(marshal_u8(&mut buf, 2, 0x00).unwrap_err().rc, TpmRc::Insufficient);
}

#[test]
fn marshal_u16_big_endian() {
    let mut buf = [0u8; 3];
    assert_eq!(marshal_u16(&mut buf, 1, 0xBEEF), Ok(2));
    assert_eq!(buf, [0x00, 0xBE, 0xEF]);
}

#[test]
fn marshal_u32_big_endian() {
    let mut buf = [0u8; 4];
    assert_eq!(marshal_u32(&mut buf, 0, 0x01020304), Ok(4));
    assert_eq!(buf, [0x01, 0x02, 0x03, 0x04]);
}

#[test]
fn marshal_u32_short_buffer_writes_nothing() {
    // Every destination shorter than four bytes fails untouched.
    for len in 0..4 {
        let mut buf = vec![0xAA; len];
        let e = marshal_u32(&mut buf, 0, 0xDEADBEEF).unwrap_err();
        assert_eq!(e.rc, TpmRc::Insufficient);
        assert!(buf.iter().all(|&b| b == 0xAA));
    }
}

#[test]
fn u32_roundtrip_through_bytes() {
    for &v in &[0u32, 1, 0xFF, 0x100, 0xDEADBEEF, u32::MAX] {
        let mut buf = [0u8; 4];
        assert_eq!(marshal_u32(&mut buf, 0, v), Ok(4));
        let mut offset = 0;
        assert_eq!(unmarshal_u32(&buf, &mut offset), Ok(v));
    }
}

#[test]
fn unmarshal_command_code_known_values() {
    let mut offset = 0;
    assert_eq!(
        unmarshal_command_code(&[0x00, 0x00, 0x01, 0x44], &mut offset),
        Ok(TpmCommandCode::Startup)
    );
    let mut offset = 0;
    assert_eq!(
        unmarshal_command_code(&[0x00, 0x00, 0x01, 0x7a], &mut offset),
        Ok(TpmCommandCode::GetCapability)
    );
}

#[test]
fn unmarshal_command_code_unknown_values_fail() {
    // A sample of wire values outside the opcode set: all fail the same way.
    for v in [0u32, 1, 0x143, 0x145, 0x179, 0x17b, u32::MAX] {
        let buf = v.to_be_bytes();
        let mut offset = 0;
        let e = unmarshal_command_code(&buf, &mut offset).unwrap_err();
        assert_eq!(e.rc, TpmRc::CommandCode);
    }
}

#[test]
fn unmarshal_command_code_short_buffer_is_insufficient() {
    let mut offset = 0;
    let e = unmarshal_command_code(&[0x00, 0x00, 0x01], &mut offset).unwrap_err();
    assert_eq!(e.rc, TpmRc::Insufficient);
}

#[test]
fn unmarshal_tag_known_and_unknown() {
    let mut offset = 0;
    assert_eq!(unmarshal_tag(&[0x80, 0x01], &mut offset), Ok(TpmCommandTag::NoSessions));
    let mut offset = 0;
    assert_eq!(unmarshal_tag(&[0x80, 0x02], &mut offset), Ok(TpmCommandTag::Sessions));
    let mut offset = 0;
    assert_eq!(unmarshal_tag(&[0x80, 0x03], &mut offset).unwrap_err().rc, TpmRc::BadTag);
    let mut offset = 0;
    assert_eq!(unmarshal_tag(&[0x80], &mut offset).unwrap_err().rc, TpmRc::Insufficient);
}

#[test]
fn unmarshal_startup_type_values() {
    let mut offset = 0;
    assert_eq!(unmarshal_startup_type(&[0x00, 0x00], &mut offset), Ok(StartupType::Clear));
    let mut offset = 0;
    assert_eq!(unmarshal_startup_type(&[0x00, 0x01], &mut offset), Ok(StartupType::State));
    let mut offset = 0;
    let e = unmarshal_startup_type(&[0x00, 0x02], &mut offset).unwrap_err();
    assert_eq!(e.rc, TpmRc::Value);
}

#[test]
fn unmarshal_startup_args_wraps_type() {
    let mut offset = 0;
    let args = unmarshal_startup_args(&[0x00, 0x01], &mut offset).unwrap();
    assert_eq!(args.su_type, StartupType::State);
    assert_eq!(offset, 2);
}

#[test]
fn unmarshal_capability_values() {
    let mut offset = 0;
    assert_eq!(
        unmarshal_capability(&[0x00, 0x00, 0x00, 0x06], &mut offset),
        Ok(TpmCapability::TpmProperty)
    );
    let mut offset = 0;
    let e = unmarshal_capability(&[0x00, 0x00, 0x00, 0x05], &mut offset).unwrap_err();
    assert_eq!(e.rc, TpmRc::Value);
}

#[test]
fn unmarshal_pt_values() {
    let mut offset = 0;
    assert_eq!(unmarshal_pt(&[0x00, 0x00, 0x01, 0x05], &mut offset), Ok(TpmPt::Manufacturer));
    let mut offset = 0;
    let e = unmarshal_pt(&[0x00, 0x00, 0x01, 0x04], &mut offset).unwrap_err();
    assert_eq!(e.rc, TpmRc::Value);
}

#[test]
fn unmarshal_get_capability_args_sequences_fields() {
    let buf = [
        0x00, 0x00, 0x00, 0x06, // capability: TpmProperty
        0x00, 0x00, 0x01, 0x05, // property: Manufacturer
        0x00, 0x00, 0x00, 0x2A, // count
    ];
    let mut offset = 0;
    let args = unmarshal_get_capability_args(&buf, &mut offset).unwrap();
    assert_eq!(args.cap, TpmCapability::TpmProperty);
    assert_eq!(args.property, TpmPt::Manufacturer);
    assert_eq!(args.property_count, 42);
    assert_eq!(offset, 12);

    // The first failure wins: a bad capability is reported even though the
    // property bytes are missing.
    let mut offset = 0;
    let e = unmarshal_get_capability_args(&[0x00, 0x00, 0x00, 0x07], &mut offset).unwrap_err();
    assert_eq!(e.rc, TpmRc::Value);
}

#[test]
fn unmarshal_command_header_fields() {
    let buf = [
        0x80, 0x02, // tag: Sessions
        0x00, 0x00, 0x00, 0x16, // size: 22
        0x00, 0x00, 0x01, 0x44, // opcode: Startup
    ];
    let mut offset = 0;
    let hdr = unmarshal_command_header(&buf, &mut offset).unwrap();
    assert_eq!(hdr.tag, TpmCommandTag::Sessions);
    assert_eq!(hdr.size, 22);
    assert_eq!(hdr.command_code, TpmCommandCode::Startup);
    assert_eq!(offset, 10);
}

#[test]
fn unmarshal_command_header_first_failure_wins() {
    // Bad tag is reported before the truncated opcode is reached.
    let mut offset = 0;
    let e = unmarshal_command_header(&[0x11, 0x22, 0x00], &mut offset).unwrap_err();
    assert_eq!(e.rc, TpmRc::BadTag);

    // With a good tag, the missing size bytes surface as Insufficient.
    let mut offset = 0;
    let e = unmarshal_command_header(&[0x80, 0x01, 0x00], &mut offset).unwrap_err();
    assert_eq!(e.rc, TpmRc::Insufficient);
}

#[test]
fn marshal_tag_rejects_sentinel() {
    let mut buf = [0u8; 2];
    assert_eq!(marshal_tag(&mut buf, 0, TpmCommandTag::Sessions), Ok(2));
    assert_eq!(buf, [0x80, 0x02]);
    let e = marshal_tag(&mut buf, 0, TpmCommandTag::Unknown).unwrap_err();
    assert_eq!(e.rc, TpmRc::Value);
}

#[test]
fn marshal_rc_writes_wire_value() {
    let mut buf = [0u8; 4];
    assert_eq!(marshal_rc(&mut buf, 0, TpmRc::CommandCode), Ok(4));
    assert_eq!(buf, [0x00, 0x00, 0x01, 0x43]);
    assert_eq!(marshal_rc(&mut buf, 0, TpmRc::Value), Ok(4));
    assert_eq!(buf, [0x00, 0x00, 0x00, 0x84]);
}

#[test]
fn marshal_response_header_exact_bytes() {
    let hdr = ResponseHeader { tag: TpmCommandTag::NoSessions, size: 26, rc: TpmRc::Success };
    let mut buf = [0xAAu8; 12];
    assert_eq!(marshal_response_header(&mut buf, 0, &hdr), Ok(10));
    assert_eq!(
        buf,
        [0x80, 0x01, 0x00, 0x00, 0x00, 0x1A, 0x00, 0x00, 0x00, 0x00, 0xAA, 0xAA]
    );
}

#[test]
fn marshal_response_header_failures() {
    let hdr = ResponseHeader { tag: TpmCommandTag::NoSessions, size: 0, rc: TpmRc::Success };
    let mut short = [0xAAu8; 9];
    let e = marshal_response_header(&mut short, 0, &hdr).unwrap_err();
    assert_eq!(e.rc, TpmRc::Insufficient);
    assert!(short.iter().all(|&b| b == 0xAA));

    let bad = ResponseHeader { tag: TpmCommandTag::Unknown, size: 0, rc: TpmRc::Success };
    let mut buf = [0u8; 10];
    let e = marshal_response_header(&mut buf, 0, &bad).unwrap_err();
    assert_eq!(e.rc, TpmRc::Value);
}

#[test]
fn response_header_roundtrips_through_bytes() {
    // Encode a response envelope, then read it back field by field.
    let hdr = ResponseHeader {
        tag: TpmCommandTag::Sessions,
        size: 0x12345678,
        rc: TpmRc::Insufficient,
    };
    let mut buf = [0u8; 10];
    assert_eq!(marshal_response_header(&mut buf, 0, &hdr), Ok(10));

    let mut offset = 0;
    assert_eq!(unmarshal_tag(&buf, &mut offset), Ok(TpmCommandTag::Sessions));
    assert_eq!(unmarshal_u32(&buf, &mut offset), Ok(0x12345678));
    assert_eq!(unmarshal_u32(&buf, &mut offset), Ok(TpmRc::Insufficient.wire_value()));
}

fn props_with(entries: &[(TpmPt, u32)]) -> TpmuCapabilities {
    let mut properties = [TpmsTaggedProperty { property: TpmPt::Unknown, val: 0 }; MAX_TPM_PROPERTIES];
    for (i, &(property, val)) in entries.iter().enumerate() {
        properties[i] = TpmsTaggedProperty { property, val };
    }
    TpmuCapabilities::TpmProps { count: entries.len() as u32, properties }
}

#[test]
fn marshal_tpms_tagged_property_exact_bytes() {
    let p = TpmsTaggedProperty { property: TpmPt::Manufacturer, val: 0x01020304 };
    let mut buf = [0u8; 8];
    assert_eq!(marshal_tpms_tagged_property(&mut buf, 0, &p), Ok(8));
    assert_eq!(buf, [0x00, 0x00, 0x01, 0x05, 0x01, 0x02, 0x03, 0x04]);

    let bad = TpmsTaggedProperty { property: TpmPt::Unknown, val: 0 };
    let e = marshal_tpms_tagged_property(&mut buf, 0, &bad).unwrap_err();
    assert_eq!(e.rc, TpmRc::Value);
}

#[test]
fn marshal_tpmu_capability_data_iterates_count_entries() {
    let u = props_with(&[(TpmPt::Manufacturer, 7), (TpmPt::Manufacturer, 9)]);
    let mut buf = [0xAAu8; 32];
    assert_eq!(marshal_tpmu_capability_data(&mut buf, 0, &u), Ok(24));
    assert_eq!(
        &buf[..24],
        &[
            0x00, 0x00, 0x00, 0x06, // capability kind re-emitted
            0x00, 0x00, 0x00, 0x02, // count
            0x00, 0x00, 0x01, 0x05, 0x00, 0x00, 0x00, 0x07, // first entry
            0x00, 0x00, 0x01, 0x05, 0x00, 0x00, 0x00, 0x09, // second entry
        ]
    );
    // Only `count` entries went out: the rest of the buffer is untouched.
    assert!(buf[24..].iter().all(|&b| b == 0xAA));
}

#[test]
fn marshal_tpmu_capability_data_failures() {
    let mut buf = [0xAAu8; 32];
    let e = marshal_tpmu_capability_data(&mut buf, 0, &TpmuCapabilities::Unknown).unwrap_err();
    assert_eq!(e.rc, TpmRc::Value);
    assert!(buf.iter().all(|&b| b == 0xAA));

    let u = props_with(&[(TpmPt::Manufacturer, 7)]);
    let mut short = [0xAAu8; 15];
    let e = marshal_tpmu_capability_data(&mut short, 0, &u).unwrap_err();
    assert_eq!(e.rc, TpmRc::Insufficient);
    assert!(short.iter().all(|&b| b == 0xAA));
}

#[test]
fn marshal_get_capability_response_exact_bytes() {
    let resp = GetCapabilityResponse {
        more_data: false,
        data: TpmsCapabilityData {
            cap: TpmCapability::TpmProperty,
            data: props_with(&[(TpmPt::Manufacturer, 0)]),
        },
    };
    let mut buf = [0xAAu8; 20];
    assert_eq!(marshal_get_capability_response(&mut buf, 0, &resp), Ok(17));
    assert_eq!(
        &buf[..17],
        &[
            0x00, // moreData: false
            0x00, 0x00, 0x00, 0x06, // capability kind
            0x00, 0x00, 0x00, 0x01, // count
            0x00, 0x00, 0x01, 0x05, 0x00, 0x00, 0x00, 0x00, // manufacturer entry
        ]
    );
}
