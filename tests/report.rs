use store::{DeserializeBigEndian, Error, QueueClass, ReadSite, ReportEvent, ValueClass};

fn event(domain: &str) -> ReportEvent {
    ReportEvent { due: 100, policy_hash: 0xAA, seq_id: 0xBB, domain: domain.to_string() }
}

#[test]
fn report_round_trip() {
    let e = event("example.com");
    for class in [
        ValueClass::Queue(QueueClass::DmarcReportEvent(e.clone())),
        ValueClass::Queue(QueueClass::TlsReportEvent(e.clone())),
    ] {
        let key = class.serialize(0, 0, 0, 0);
        assert_eq!(key.len(), 11 + 25);
        assert_eq!(ReportEvent::deserialize(&key), Ok(e.clone()));
    }
}

#[test]
fn report_round_trip_keeps_non_ascii_domain() {
    let e = event("bücher.example");
    let key = ValueClass::Queue(QueueClass::DmarcReportEvent(e.clone())).serialize(0, 0, 0, 0);
    assert_eq!(ReportEvent::deserialize(&key), Ok(e));
    let empty = event("");
    let key = ValueClass::Queue(QueueClass::TlsReportEvent(empty.clone())).serialize(0, 0, 0, 0);
    assert_eq!(key.len(), 25);
    assert_eq!(ReportEvent::deserialize(&key), Ok(empty));
}

#[test]
fn report_fields_read_from_their_offsets() {
    let mut key = vec![1u8, 0, 0, 0, 0, 0, 0, 0, 7, b'x'];
    key.extend_from_slice(&[0, 0, 0, 0, 0, 0, 1, 2]);
    key.extend_from_slice(&[0, 0, 0, 0, 0, 0, 0, 3]);
    assert_eq!(
        ReportEvent::deserialize(&key),
        Ok(ReportEvent { due: 7, policy_hash: 0x0102, seq_id: 3, domain: "x".to_string() })
    );
    let zeros = vec![0u8; 25];
    assert_eq!(ReportEvent::deserialize(&zeros), Ok(ReportEvent { due: 0, policy_hash: 0, seq_id: 0, domain: String::new() }));
}

#[test]
fn report_short_key_is_corrupt() {
    let key = vec![0u8; 24];
    assert_eq!(
        ReportEvent::deserialize(&key),
        Err(Error::DataCorruption { site: ReadSite::BigEndianU64, key: key.clone() })
    );
    let tiny = vec![0u8; 12];
    assert!(matches!(
        ReportEvent::deserialize(&tiny),
        Err(Error::DataCorruption { site: ReadSite::BigEndianU64, .. })
    ));
    let shorter = vec![0u8; 5];
    assert!(matches!(ReportEvent::deserialize(&shorter), Err(Error::DataCorruption { key, .. }) if key == shorter));
}

#[test]
fn report_invalid_domain_is_corrupt() {
    let mut key = vec![1u8; 9];
    key.push(0xff);
    key.extend_from_slice(&[0u8; 16]);
    assert_eq!(
        ReportEvent::deserialize(&key),
        Err(Error::DataCorruption { site: ReadSite::ReportDomain, key: key.clone() })
    );
    let mut pair = vec![0u8; 9];
    pair.extend_from_slice(&[0xff, 0xfe]);
    pair.extend_from_slice(&[0u8; 16]);
    assert!(matches!(
        ReportEvent::deserialize(&pair),
        Err(Error::DataCorruption { site: ReadSite::ReportDomain, .. })
    ));
}

#[test]
fn big_endian_readers() {
    let bytes: &[u8] = &[1, 2, 3, 4, 5, 6, 7, 8, 9];
    assert_eq!(bytes.deserialize_be_u16(1), Ok(0x0203));
    assert_eq!(bytes.deserialize_be_u16(7), Ok(0x0809));
    assert_eq!(bytes.deserialize_be_u32(0), Ok(0x0102_0304));
    assert_eq!(bytes.deserialize_be_u64(1), Ok(0x0203_0405_0607_0809));
    assert_eq!(
        bytes.deserialize_be_u64(2),
        Err(Error::DataCorruption { site: ReadSite::BigEndianU64, key: bytes.to_vec() })
    );
    assert!(matches!(bytes.deserialize_be_u16(8), Err(Error::DataCorruption { site: ReadSite::BigEndianU16, .. })));
    assert!(matches!(bytes.deserialize_be_u32(6), Err(Error::DataCorruption { site: ReadSite::BigEndianU32, .. })));
    assert!(bytes.deserialize_be_u32(usize::MAX).is_err());
}
