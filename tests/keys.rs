use store::subspace::{
    SUBSPACE_BITMAP_TAG, SUBSPACE_BLOB_LINK, SUBSPACE_COUNTER, SUBSPACE_DIRECTORY,
    SUBSPACE_INDEXES, SUBSPACE_IN_MEMORY_COUNTER, SUBSPACE_LOGS, SUBSPACE_PROPERTY,
    SUBSPACE_QUEUE_EVENT, SUBSPACE_QUEUE_MESSAGE, SUBSPACE_QUOTA, SUBSPACE_REPORT_OUT,
    SUBSPACE_TASK_QUEUE, SUBSPACE_TELEMETRY_METRIC,
};
use store::{
    AnyClass, AnyKey, BitmapClass, BitmapHash, BitmapKey, BlobHash, BlobOp, DirectoryClass,
    InMemoryClass, IndexKey, IndexKeyPrefix, Key, KeySerializer, LogKey, QueueClass, QueueEvent,
    ReportClass, ReportEvent, TagValue, TaskQueueClass, TelemetryClass, ValueClass, ValueKey,
    WITH_SUBSPACE,
};

fn value_key(class: ValueClass) -> ValueKey {
    ValueKey { account_id: 1, collection: 2, document_id: 3, class }
}

fn bitmap_key(class: BitmapClass) -> BitmapKey {
    BitmapKey { account_id: 1, collection: 2, document_id: 3, class }
}

fn report_event() -> ReportEvent {
    ReportEvent {
        due: 100,
        policy_hash: 0xAA,
        seq_id: 0xBB,
        domain: "example.com".to_string(),
    }
}

fn hash(b: u8) -> BlobHash {
    BlobHash([b; 32])
}

fn all_value_classes() -> Vec<ValueClass> {
    vec![
        ValueClass::Property(5),
        ValueClass::Property(84),
        ValueClass::Acl(9),
        ValueClass::InMemory(InMemoryClass::Key(b"k".to_vec())),
        ValueClass::InMemory(InMemoryClass::Counter(b"c".to_vec())),
        ValueClass::FtsIndex(BitmapHash { hash: [7; 8], len: 3 }),
        ValueClass::FtsIndex(BitmapHash { hash: [7; 8], len: 20 }),
        ValueClass::TaskQueue(TaskQueueClass::IndexEmail { due: 5, hash: hash(1) }),
        ValueClass::TaskQueue(TaskQueueClass::BayesTrain { due: 5, hash: hash(1), learn_spam: true }),
        ValueClass::TaskQueue(TaskQueueClass::SendAlarm { due: 5, event_id: 1, alarm_id: 2 }),
        ValueClass::TaskQueue(TaskQueueClass::SendImip { due: 5, is_payload: false }),
        ValueClass::TaskQueue(TaskQueueClass::SendImip { due: 5, is_payload: true }),
        ValueClass::Directory(DirectoryClass::NameToId(b"john".to_vec())),
        ValueClass::Directory(DirectoryClass::EmailToId(b"john@example.org".to_vec())),
        ValueClass::Directory(DirectoryClass::Index { word: b"jo".to_vec(), principal_id: 4 }),
        ValueClass::Directory(DirectoryClass::MemberOf { principal_id: 4, member_of: 5 }),
        ValueClass::Directory(DirectoryClass::Members { principal_id: 4, has_member: 5 }),
        ValueClass::Directory(DirectoryClass::Principal(300)),
        ValueClass::Directory(DirectoryClass::UsedQuota(300)),
        ValueClass::Blob(BlobOp::Reserve { hash: hash(2), until: 10 }),
        ValueClass::Blob(BlobOp::Commit { hash: hash(2) }),
        ValueClass::Blob(BlobOp::Link { hash: hash(2) }),
        ValueClass::Blob(BlobOp::LinkId { hash: hash(2), id: 77 }),
        ValueClass::Config(b"cfg".to_vec()),
        ValueClass::Queue(QueueClass::Message(1)),
        ValueClass::Queue(QueueClass::MessageEvent(QueueEvent {
            due: 1,
            queue_id: 2,
            queue_name: *b"local\0\0\0",
        })),
        ValueClass::Queue(QueueClass::DmarcReportHeader(report_event())),
        ValueClass::Queue(QueueClass::DmarcReportEvent(report_event())),
        ValueClass::Queue(QueueClass::TlsReportHeader(report_event())),
        ValueClass::Queue(QueueClass::TlsReportEvent(report_event())),
        ValueClass::Queue(QueueClass::QuotaCount(b"q".to_vec())),
        ValueClass::Queue(QueueClass::QuotaSize(b"q".to_vec())),
        ValueClass::Report(ReportClass::Tls { id: 1, expires: 2 }),
        ValueClass::Report(ReportClass::Dmarc { id: 1, expires: 2 }),
        ValueClass::Report(ReportClass::Arf { id: 1, expires: 2 }),
        ValueClass::Telemetry(TelemetryClass::Span { span_id: 1 }),
        ValueClass::Telemetry(TelemetryClass::Metric { timestamp: 1, metric_id: 2, node_id: 3 }),
        ValueClass::Telemetry(TelemetryClass::Index { span_id: 1, value: b"v".to_vec() }),
        ValueClass::Any(AnyClass { subspace: b'z', key: b"raw".to_vec() }),
        ValueClass::DocumentId,
        ValueClass::ChangeId,
    ]
}

#[test]
fn property_key_bytes() {
    let key = ValueKey::property(7, 2, 42, 5);
    assert_eq!(
        key.serialize(WITH_SUBSPACE),
        vec![SUBSPACE_PROPERTY, 0, 0, 0, 7, 2, 5, 0, 0, 0, 42]
    );
    assert_eq!(key.serialize(0), vec![0, 0, 0, 7, 2, 5, 0, 0, 0, 42]);
}

#[test]
fn property_84_of_collection_1_is_a_counter() {
    let counter = ValueKey::property(1, 1, 3, 84);
    assert_eq!(counter.subspace(), SUBSPACE_COUNTER);
    assert!(counter.is_counter());
    let plain = ValueKey::property(1, 2, 3, 84);
    assert_eq!(plain.subspace(), SUBSPACE_PROPERTY);
    assert!(!plain.is_counter());
    assert!(!ValueKey::property(1, 1, 3, 85).is_counter());
}

#[test]
fn queue_message_key_bytes() {
    let key = ValueKey::from(ValueClass::Queue(QueueClass::Message(0x0102_0304_0506_0708)));
    assert_eq!(
        key.serialize(WITH_SUBSPACE),
        vec![SUBSPACE_QUEUE_MESSAGE, 1, 2, 3, 4, 5, 6, 7, 8]
    );
}

#[test]
fn bitmap_tag_field_byte() {
    let text = bitmap_key(BitmapClass::Tag { field: 3, value: TagValue::Text(b"abc".to_vec()) });
    assert_eq!(
        text.serialize(0),
        vec![0, 0, 0, 1, 2, 0x83, b'a', b'b', b'c', 0, 0, 0, 3]
    );
    let id = bitmap_key(BitmapClass::Tag { field: 3, value: TagValue::Id(9) });
    assert_eq!(id.serialize(0), vec![0, 0, 0, 1, 2, 0x03, 0x09, 0, 0, 0, 3]);
    assert_eq!(id.subspace(), SUBSPACE_BITMAP_TAG);
    let wide = bitmap_key(BitmapClass::Tag { field: 3, value: TagValue::Id(300) });
    assert_eq!(wide.serialize(0), vec![0, 0, 0, 1, 2, 0x03, 0xAC, 0x02, 0, 0, 0, 3]);
}

#[test]
fn bitmap_document_ids_and_text() {
    let ids = bitmap_key(BitmapClass::DocumentIds);
    assert_eq!(ids.serialize(0), vec![0, 0, 0, 1, 2, 0, 0, 0, 3]);
    let short = bitmap_key(BitmapClass::Text {
        field: 4,
        token: BitmapHash { hash: [9, 8, 7, 6, 5, 4, 3, 2], len: 2 },
    });
    assert_eq!(short.serialize(0), vec![0, 0, 0, 1, 9, 8, 2, 4, 0, 0, 0, 3]);
    let long = bitmap_key(BitmapClass::Text {
        field: 4,
        token: BitmapHash { hash: [9, 8, 7, 6, 5, 4, 3, 2], len: 11 },
    });
    assert_eq!(
        long.serialize(0),
        vec![0, 0, 0, 1, 9, 8, 7, 6, 5, 4, 3, 2, 11, 2, 4, 0, 0, 0, 3]
    );
    assert_eq!(BitmapClass::DocumentIds.serialize(1, 2, 3, WITH_SUBSPACE)[0], store::subspace::SUBSPACE_BITMAP_ID);
}

#[test]
fn index_keys_differ_in_document_only() {
    let a = IndexKey { account_id: 1, collection: 2, document_id: 1, field: 3, key: b"x".to_vec() };
    let b = IndexKey { document_id: 2, ..a.clone() };
    let ka = a.serialize(0);
    let kb = b.serialize(0);
    assert_eq!(ka.len(), kb.len());
    let n = ka.len();
    assert_eq!(ka[..n - 1], kb[..n - 1]);
    assert_eq!(ka[n - 4..], [0, 0, 0, 1]);
    assert_eq!(kb[n - 4..], [0, 0, 0, 2]);
    assert!(ka < kb);
}

#[test]
fn subspace_byte_leads_every_key() {
    for class in all_value_classes() {
        let key = value_key(class);
        let with = key.serialize(WITH_SUBSPACE);
        let without = key.serialize(0);
        assert_eq!(with[0], key.subspace());
        assert_eq!(with[1..], without[..]);
    }
    for class in [
        BitmapClass::DocumentIds,
        BitmapClass::Tag { field: 1, value: TagValue::Id(1) },
        BitmapClass::Text { field: 1, token: BitmapHash { hash: [1; 8], len: 8 } },
    ] {
        let key = bitmap_key(class);
        let with = key.serialize(WITH_SUBSPACE);
        assert_eq!(with[0], key.subspace());
        assert_eq!(with[1..], key.serialize(0)[..]);
    }
    let log = LogKey { account_id: 1, collection: 2, change_id: 3 };
    assert_eq!(log.serialize(WITH_SUBSPACE), vec![SUBSPACE_LOGS, 0, 0, 0, 1, 2, 0, 0, 0, 0, 0, 0, 0, 3]);
    let any = AnyKey { subspace: 42, key: b"ab".to_vec() };
    assert_eq!(any.serialize(WITH_SUBSPACE), vec![42, b'a', b'b']);
    assert_eq!(any.serialize(0), b"ab".to_vec());
}

#[test]
fn log_keys_sort_by_fields() {
    let key = |account_id: u32, collection: u8, change_id: u64| {
        LogKey { account_id, collection, change_id }.serialize(0)
    };
    assert!(key(1, 2, 255) < key(1, 2, 256));
    assert!(key(1, 2, u64::MAX) < key(1, 3, 0));
    assert!(key(1, 255, u64::MAX) < key(256, 0, 0));
}

#[test]
fn index_prefix_is_contained() {
    let prefix = IndexKeyPrefix { account_id: 9, collection: 8, field: 7 };
    let key = IndexKey { account_id: 9, collection: 8, document_id: 6, field: 7, key: b"v".to_vec() };
    for flags in [0, WITH_SUBSPACE] {
        let p = prefix.serialize(flags);
        let k = key.serialize(flags);
        assert!(p.len() < k.len());
        assert_eq!(k[..p.len()], p[..]);
    }
    assert_eq!(prefix.serialize(0).len(), IndexKeyPrefix::len());
    assert_eq!(prefix.serialize(WITH_SUBSPACE)[0], SUBSPACE_INDEXES);
}

#[test]
fn size_hints() {
    let hint = |class: ValueClass| class.serialized_size();
    let len = |class: ValueClass| class.serialize(1, 2, 3, 0).len();
    let event = ValueClass::Queue(QueueClass::MessageEvent(QueueEvent {
        due: 1,
        queue_id: 2,
        queue_name: [0; 8],
    }));
    assert_eq!(hint(event.clone()), 24);
    assert_eq!(len(event), 24);
    let header = ValueClass::Queue(QueueClass::DmarcReportHeader(report_event()));
    assert_eq!(hint(header.clone()), 11 + 26);
    assert_eq!(len(header), 11 + 26);
    assert_eq!(hint(ValueClass::Property(5)), 10);
    assert_eq!(ValueKey::property(7, 2, 42, 5).serialize(0).len(), 10);
    assert_eq!(hint(ValueClass::Directory(DirectoryClass::Principal(1))), 2);
    assert_eq!(hint(ValueClass::Directory(DirectoryClass::Principal(0x4000))), 4);
    assert_eq!(hint(ValueClass::Directory(DirectoryClass::UsedQuota(u32::MAX))), 6);
    assert_eq!(
        hint(ValueClass::Telemetry(TelemetryClass::Metric { timestamp: 0, metric_id: u64::MAX, node_id: 1 })),
        19
    );
    assert_eq!(hint(ValueClass::FtsIndex(BitmapHash { hash: [0; 8], len: 3 })), 12);
    assert_eq!(hint(ValueClass::FtsIndex(BitmapHash { hash: [0; 8], len: 30 })), 18);
    for class in all_value_classes() {
        let n = len(class.clone());
        let h = hint(class.clone());
        assert!(h <= n && n <= h + 1);
        assert_eq!(h, n);
        assert_eq!(class.serialize(9, 8, 7, 0).len(), n);
        assert_eq!(class.serialize(1, 2, 3, WITH_SUBSPACE).len(), n + 1);
    }
}

#[test]
fn counter_classification() {
    let counters = [
        ValueClass::Directory(DirectoryClass::UsedQuota(1)),
        ValueClass::InMemory(InMemoryClass::Counter(b"c".to_vec())),
        ValueClass::Queue(QueueClass::QuotaCount(b"q".to_vec())),
        ValueClass::Queue(QueueClass::QuotaSize(b"q".to_vec())),
        ValueClass::DocumentId,
        ValueClass::ChangeId,
    ];
    for class in counters {
        for collection in [0, 1, 2, 255] {
            assert!(class.is_counter(collection));
            assert!(class.is_counter(collection));
            let subspace = class.subspace(collection);
            assert!(
                subspace == SUBSPACE_COUNTER
                    || subspace == SUBSPACE_QUOTA
                    || subspace == SUBSPACE_IN_MEMORY_COUNTER
            );
        }
    }
    assert!(!ValueClass::Directory(DirectoryClass::Principal(1)).is_counter(1));
    assert!(!ValueClass::InMemory(InMemoryClass::Key(b"c".to_vec())).is_counter(1));
    assert!(ValueClass::Property(84).is_counter(1));
    assert!(!ValueClass::Property(84).is_counter(0));
    assert!(!ValueClass::Property(83).is_counter(1));
}

#[test]
fn message_events_scan_by_deadline() {
    let dues = [50u64, 7, 300, 7, 0, u64::MAX, 256, 100];
    let mut keys: Vec<(Vec<u8>, u64)> = dues
        .iter()
        .enumerate()
        .map(|(i, due)| {
            let class = ValueClass::Queue(QueueClass::MessageEvent(QueueEvent {
                due: *due,
                queue_id: i as u64,
                queue_name: [i as u8; 8],
            }));
            (class.serialize(0, 0, 0, 0), *due)
        })
        .collect();
    keys.sort();
    let sorted: Vec<u64> = keys.iter().map(|(_, due)| *due).collect();
    assert_eq!(sorted, vec![0, 7, 7, 50, 100, 256, 300, u64::MAX]);
    let t = 100u64;
    let mut upper = t.to_be_bytes().to_vec();
    upper.extend_from_slice(&[0xff; 16]);
    let lower = vec![0u8; 24];
    let scanned: Vec<u64> = keys
        .iter()
        .filter(|(k, _)| *k >= lower && *k <= upper)
        .map(|(_, due)| *due)
        .collect();
    assert_eq!(scanned, vec![0, 7, 7, 50, 100]);
    let key = value_key(ValueClass::Queue(QueueClass::MessageEvent(QueueEvent {
        due: 1,
        queue_id: 2,
        queue_name: [3; 8],
    })));
    assert_eq!(key.subspace(), SUBSPACE_QUEUE_EVENT);
}

#[test]
fn imip_payload_rows_are_hidden() {
    let payload = ValueClass::TaskQueue(TaskQueueClass::SendImip { due: 77, is_payload: true });
    let plain = ValueClass::TaskQueue(TaskQueueClass::SendImip { due: 77, is_payload: false });
    let p = payload.serialize(1, 2, 3, 0);
    let q = plain.serialize(1, 2, 3, 0);
    assert_eq!(p[..8], [0xff; 8]);
    assert_eq!(q[..8], 77u64.to_be_bytes());
    assert_eq!(p, vec![0xff, 0xff, 0xff, 0xff, 0xff, 0xff, 0xff, 0xff, 0, 0, 0, 1, 5, 0, 0, 0, 3, 0, 0, 0, 0, 0, 0, 0, 77]);
    assert_eq!(q, vec![0, 0, 0, 0, 0, 0, 0, 77, 0, 0, 0, 1, 4, 0, 0, 0, 3]);
    let mut upper = (u64::MAX - 1).to_be_bytes().to_vec();
    upper.extend_from_slice(&[0xff; 64]);
    assert!(p > upper);
    assert_eq!(payload.subspace(2), SUBSPACE_TASK_QUEUE);
}

#[test]
fn task_queue_keys() {
    let alarm = ValueClass::TaskQueue(TaskQueueClass::SendAlarm { due: 1, event_id: 0x0102, alarm_id: 0x0304 });
    assert_eq!(
        alarm.serialize(5, 6, 7, 0),
        vec![0, 0, 0, 0, 0, 0, 0, 1, 0, 0, 0, 5, 3, 0, 0, 0, 7, 1, 2, 3, 4]
    );
    let index = ValueClass::TaskQueue(TaskQueueClass::IndexEmail { due: 1, hash: hash(9) });
    let bytes = index.serialize(5, 6, 7, 0);
    assert_eq!(bytes[..17], [0, 0, 0, 0, 0, 0, 0, 1, 0, 0, 0, 5, 0, 0, 0, 0, 7]);
    assert_eq!(bytes[17..], [9; 32]);
    let spam = ValueClass::TaskQueue(TaskQueueClass::BayesTrain { due: 1, hash: hash(9), learn_spam: true });
    let ham = ValueClass::TaskQueue(TaskQueueClass::BayesTrain { due: 1, hash: hash(9), learn_spam: false });
    assert_eq!(spam.serialize(5, 6, 7, 0)[12], 1);
    assert_eq!(ham.serialize(5, 6, 7, 0)[12], 2);
}

#[test]
fn blob_keys() {
    let commit = ValueClass::Blob(BlobOp::Commit { hash: hash(1) }).serialize(5, 6, 7, WITH_SUBSPACE);
    assert_eq!(commit[0], SUBSPACE_BLOB_LINK);
    assert_eq!(commit[1..33], [1; 32]);
    assert_eq!(commit[33..], [0xff, 0xff, 0xff, 0xff, 0, 0xff, 0xff, 0xff, 0xff]);
    let link = ValueClass::Blob(BlobOp::Link { hash: hash(1) }).serialize(5, 6, 7, 0);
    assert_eq!(link[32..], [0, 0, 0, 5, 6, 0, 0, 0, 7]);
    assert!(link < commit[1..].to_vec());
    let link_id = ValueClass::Blob(BlobOp::LinkId { hash: hash(1), id: 0x0000_0005_0000_0007 }).serialize(0, 0, 0, 0);
    assert_eq!(link_id[32..], [0, 0, 0, 5, 0xff, 0, 0, 0, 7]);
    let reserve = ValueClass::Blob(BlobOp::Reserve { hash: hash(1), until: 2 }).serialize(5, 6, 7, 0);
    assert_eq!(reserve[..4], [0, 0, 0, 5]);
    assert_eq!(reserve[36..], [0, 0, 0, 0, 0, 0, 0, 2]);
}

#[test]
fn directory_keys() {
    let principal = ValueKey::from(DirectoryClass::Principal(300));
    assert_eq!(principal.serialize(WITH_SUBSPACE), vec![SUBSPACE_DIRECTORY, 2, 0xAC, 0x02]);
    let quota = ValueKey::from(DirectoryClass::UsedQuota(1));
    assert_eq!(quota.serialize(WITH_SUBSPACE), vec![SUBSPACE_QUOTA, 4, 1]);
    assert!(quota.is_counter());
    let index = ValueClass::from(DirectoryClass::Index { word: b"ab".to_vec(), principal_id: 3 });
    assert_eq!(index.serialize(0, 0, 0, 0), vec![7, b'a', b'b', 0, 0, 0, 3]);
    let member = ValueClass::Directory(DirectoryClass::MemberOf { principal_id: 1, member_of: 2 });
    assert_eq!(member.serialize(0, 0, 0, 0), vec![5, 0, 0, 0, 1, 0, 0, 0, 2]);
    let name = ValueClass::Directory(DirectoryClass::NameToId(b"jo".to_vec()));
    assert_eq!(name.serialize(0, 0, 0, 0), vec![0, b'j', b'o']);
}

#[test]
fn report_and_telemetry_keys() {
    let header = value_key(ValueClass::Queue(QueueClass::TlsReportHeader(ReportEvent {
        due: 1,
        policy_hash: 2,
        seq_id: 3,
        domain: "a.b".to_string(),
    })));
    assert_eq!(
        header.serialize(WITH_SUBSPACE),
        vec![
            SUBSPACE_REPORT_OUT, 0, 0, 0, 0, 0, 0, 0, 0, 1, b'a', b'.', b'b', 0, 0, 0, 0, 0, 0, 0,
            2, 0, 0, 0, 0, 0, 0, 0, 3, 1
        ]
    );
    let report = ValueClass::Report(ReportClass::Arf { id: 1, expires: 2 });
    assert_eq!(
        report.serialize(0, 0, 0, 0),
        vec![2, 0, 0, 0, 0, 0, 0, 0, 2, 0, 0, 0, 0, 0, 0, 0, 1]
    );
    let metric = value_key(ValueClass::Telemetry(TelemetryClass::Metric {
        timestamp: 1,
        metric_id: 128,
        node_id: 3,
    }));
    assert_eq!(metric.subspace(), SUBSPACE_TELEMETRY_METRIC);
    assert_eq!(metric.serialize(0), vec![0, 0, 0, 0, 0, 0, 0, 1, 0x80, 0x01, 3]);
    let index = ValueClass::Telemetry(TelemetryClass::Index { span_id: 1, value: b"v".to_vec() });
    assert_eq!(index.serialize(0, 0, 0, 0), vec![b'v', 0, 0, 0, 0, 0, 0, 0, 1]);
}

#[test]
fn counters_and_raw_keys() {
    assert_eq!(
        ValueClass::DocumentId.serialize(1, 2, 3, WITH_SUBSPACE),
        vec![SUBSPACE_COUNTER, 0, 0, 0, 1, 2]
    );
    assert_eq!(ValueClass::ChangeId.serialize(1, 2, 3, 0), vec![0, 0, 0, 1]);
    let any = ValueClass::Any(AnyClass { subspace: 200, key: b"xy".to_vec() });
    assert_eq!(any.serialize(1, 2, 3, WITH_SUBSPACE), vec![200, b'x', b'y']);
    assert_eq!(any.subspace(0), 200);
    let fts = ValueClass::FtsIndex(BitmapHash { hash: [1, 2, 3, 4, 5, 6, 7, 8], len: 9 });
    assert_eq!(
        fts.serialize(1, 2, 3, 0),
        vec![0, 0, 0, 1, 1, 2, 3, 4, 5, 6, 7, 8, 9, 2, 0, 0, 0, 3]
    );
    let acl = ValueClass::Acl(9);
    assert_eq!(acl.serialize(1, 2, 3, 0), vec![0, 0, 0, 9, 0, 0, 0, 1, 2, 0, 0, 0, 3]);
}

#[test]
fn value_key_builders() {
    let key = ValueKey::property(1, 2, 3, 4).with_document_id(9);
    assert_eq!(key.document_id, 9);
    assert_eq!(key.account_id, 1);
    assert_eq!(key.class, ValueClass::Property(4));
    let from = ValueKey::from(ValueClass::ChangeId);
    assert_eq!((from.account_id, from.collection, from.document_id), (0, 0, 0));
    assert_eq!(ValueClass::from(BlobOp::Commit { hash: hash(0) }), ValueClass::Blob(BlobOp::Commit { hash: hash(0) }));
}

#[test]
fn key_serializer_writes() {
    let bytes = KeySerializer::new(4)
        .write(1u8)
        .write(0x0203u16)
        .write(0x0405_0607u32)
        .write(0x0809_0a0b_0c0d_0e0fu64)
        .write("é")
        .write(&"ab".to_string())
        .write::<&[u8]>(&[0xee])
        .write_leb128(300)
        .write_leb128(0)
        .finalize();
    assert_eq!(
        bytes,
        vec![1, 2, 3, 4, 5, 6, 7, 8, 9, 10, 11, 12, 13, 14, 15, 0xC3, 0xA9, b'a', b'b', 0xee, 0xAC, 0x02, 0]
    );
    assert_eq!(KeySerializer::new(0).write_leb128(u64::MAX).finalize().len(), 10);
    assert!(KeySerializer::new(0).finalize().is_empty());
}
