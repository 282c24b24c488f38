//! The value classes: every kind of record stored under a value key, with the
//! fields each one's key is made of and the subspace it lives in.

use vstd::prelude::*;
use vstd::utf8::encode_utf8;
use vstd::slice::slice_subrange;
use crate::encoding::{leb128, leb128_len};
use crate::layout::{encode_fields, key_bytes, lemma_encode_fields_concat, Field, WITH_SUBSPACE};
use crate::serializer::KeySerializer;
use crate::subspace::{
    BLOB_HASH_LEN, SUBSPACE_ACL, SUBSPACE_BLOB_LINK, SUBSPACE_BLOB_RESERVE, SUBSPACE_COUNTER,
    SUBSPACE_DIRECTORY, SUBSPACE_FTS_INDEX, SUBSPACE_IN_MEMORY_COUNTER, SUBSPACE_IN_MEMORY_VALUE,
    SUBSPACE_PROPERTY, SUBSPACE_QUEUE_EVENT, SUBSPACE_QUEUE_MESSAGE, SUBSPACE_QUOTA,
    SUBSPACE_REPORT_IN, SUBSPACE_REPORT_OUT, SUBSPACE_SETTINGS, SUBSPACE_TASK_QUEUE,
    SUBSPACE_TELEMETRY_INDEX, SUBSPACE_TELEMETRY_METRIC, SUBSPACE_TELEMETRY_SPAN, U16_LEN, U32_LEN, U64_LEN,
};

verus! {

broadcast use crate::layout::lemma_encode_fields_small;

/// The content hash of a blob.
#[derive(Debug, Clone, PartialEq, Eq, Hash)]
pub struct BlobHash(pub [u8; 32]);

/// A token hash: up to eight leading bytes of the hash and the token's length.
#[derive(Debug, Clone, Copy, PartialEq, Eq, Hash)]
pub struct BitmapHash {
    pub hash: [u8; 8],
    pub len: u8,
}

impl BitmapHash {
    /// A token hash is written as its first `min(len, 8)` bytes, followed by
    /// `len` itself when `len` is 8 or more.
    pub open spec fn fields(self) -> Seq<Field> {
        if self.len >= 8 {
            seq![Field::Bytes(self.hash@), Field::Byte(self.len)]
        } else {
            seq![Field::Bytes(self.hash@.take(self.len as int))]
        }
    }
}

/// An outbound report fragment, keyed by deadline, domain, policy and sequence.
#[derive(Debug, Clone, PartialEq, Eq, Hash)]
pub struct ReportEvent {
    pub due: u64,
    pub policy_hash: u64,
    pub seq_id: u64,
    pub domain: String,
}

/// A queued message's delivery event.
#[derive(Debug, Clone, PartialEq, Eq, Hash)]
pub struct QueueEvent {
    pub due: u64,
    pub queue_id: u64,
    pub queue_name: [u8; 8],
}

/// A raw key in a subspace chosen by the caller.
#[derive(Debug, Clone, PartialEq, Eq, Hash)]
pub struct AnyClass {
    pub subspace: u8,
    pub key: Vec<u8>,
}

/// Scheduled tasks of a document, keyed by deadline first.
#[derive(Debug, Clone, PartialEq, Eq, Hash)]
pub enum TaskQueueClass {
    IndexEmail { due: u64, hash: BlobHash },
    BayesTrain { due: u64, hash: BlobHash, learn_spam: bool },
    SendAlarm { due: u64, event_id: u16, alarm_id: u16 },
    SendImip { due: u64, is_payload: bool },
}

/// Blob reservations and the links that keep a blob alive.
#[derive(Debug, Clone, PartialEq, Eq, Hash)]
pub enum BlobOp {
    Reserve { hash: BlobHash, until: u64 },
    Commit { hash: BlobHash },
    Link { hash: BlobHash },
    LinkId { hash: BlobHash, id: u64 },
}

/// Values and counters of the in-memory store.
#[derive(Debug, Clone, PartialEq, Eq, Hash)]
pub enum InMemoryClass {
    Key(Vec<u8>),
    Counter(Vec<u8>),
}

/// Directory records: principals, their names, addresses, memberships and quotas.
#[derive(Debug, Clone, PartialEq, Eq, Hash)]
pub enum DirectoryClass {
    NameToId(Vec<u8>),
    EmailToId(Vec<u8>),
    Index { word: Vec<u8>, principal_id: u32 },
    MemberOf { principal_id: u32, member_of: u32 },
    Members { principal_id: u32, has_member: u32 },
    Principal(u32),
    UsedQuota(u32),
}

/// Records of the outbound queue: messages, their events, report fragments and quotas.
#[derive(Debug, Clone, PartialEq, Eq, Hash)]
pub enum QueueClass {
    Message(u64),
    MessageEvent(QueueEvent),
    DmarcReportHeader(ReportEvent),
    DmarcReportEvent(ReportEvent),
    TlsReportHeader(ReportEvent),
    TlsReportEvent(ReportEvent),
    QuotaCount(Vec<u8>),
    QuotaSize(Vec<u8>),
}

/// Received reports, keyed by expiry.
#[derive(Debug, Clone, PartialEq, Eq, Hash)]
pub enum ReportClass {
    Tls { id: u64, expires: u64 },
    Dmarc { id: u64, expires: u64 },
    Arf { id: u64, expires: u64 },
}

/// Telemetry spans, their search index and metrics.
#[derive(Debug, Clone, PartialEq, Eq, Hash)]
pub enum TelemetryClass {
    Span { span_id: u64 },
    Metric { timestamp: u64, metric_id: u64, node_id: u64 },
    Index { span_id: u64, value: Vec<u8> },
}

/// The kinds of record stored under a value key.
#[derive(Debug, Clone, PartialEq, Eq, Hash)]
pub enum ValueClass {
    Property(u8),
    Acl(u32),
    InMemory(InMemoryClass),
    FtsIndex(BitmapHash),
    TaskQueue(TaskQueueClass),
    Directory(DirectoryClass),
    Blob(BlobOp),
    Config(Vec<u8>),
    Queue(QueueClass),
    Report(ReportClass),
    Telemetry(TelemetryClass),
    Any(AnyClass),
    DocumentId,
    ChangeId,
}

impl ReportEvent {
    /// The domain as it is written in a key: its UTF-8 bytes.
    pub open spec fn domain_bytes(self) -> Seq<u8> {
        encode_utf8(self.domain@)
    }
}

impl TaskQueueClass {
    /// The key-forming fields of this record, in the order they are written.
    pub open spec fn fields(self, account_id: u32, document_id: u32) -> Seq<Field> {
        match self {
            TaskQueueClass::IndexEmail { due, hash } => seq![
                Field::Long(due),
                Field::Int(account_id),
                Field::Byte(0),
                Field::Int(document_id),
                Field::Bytes(hash.0@),
            ],
            TaskQueueClass::BayesTrain { due, hash, learn_spam } => seq![
                Field::Long(due),
                Field::Int(account_id),
                Field::Byte(if learn_spam { 1u8 } else { 2u8 }),
                Field::Int(document_id),
                Field::Bytes(hash.0@),
            ],
            TaskQueueClass::SendAlarm { due, event_id, alarm_id } => seq![
                Field::Long(due),
                Field::Int(account_id),
                Field::Byte(3),
                Field::Int(document_id),
                Field::Word(event_id),
                Field::Word(alarm_id),
            ],
            // A payload row leads with the largest deadline, so that no scan by
            // deadline meets it; its real deadline comes last.
            TaskQueueClass::SendImip { due, is_payload } => if !is_payload {
                seq![Field::Long(due), Field::Int(account_id), Field::Byte(4), Field::Int(document_id)]
            } else {
                seq![
                    Field::Long(u64::MAX),
                    Field::Int(account_id),
                    Field::Byte(5),
                    Field::Int(document_id),
                    Field::Long(due),
                ]
            },
        }
    }
}

impl BlobOp {
    /// The key-forming fields of this record, in the order they are written.
    pub open spec fn fields(self, account_id: u32, collection: u8, document_id: u32) -> Seq<Field> {
        match self {
            BlobOp::Reserve { hash, until } => seq![
                Field::Int(account_id),
                Field::Bytes(hash.0@),
                Field::Long(until),
            ],
            // A commit stands in the place of a link with the largest account and
            // document ids, so it sorts after every link of the same blob.
            BlobOp::Commit { hash } => seq![
                Field::Bytes(hash.0@),
                Field::Int(u32::MAX),
                Field::Byte(0),
                Field::Int(u32::MAX),
            ],
            BlobOp::Link { hash } => seq![
                Field::Bytes(hash.0@),
                Field::Int(account_id),
                Field::Byte(collection),
                Field::Int(document_id),
            ],
            BlobOp::LinkId { hash, id } => seq![
                Field::Bytes(hash.0@),
                Field::Int((id >> 32u64) as u32),
                Field::Byte(u8::MAX),
                Field::Int(id as u32),
            ],
        }
    }
}

impl DirectoryClass {
    /// The key-forming fields of this record, in the order they are written.
    pub open spec fn fields(self) -> Seq<Field> {
        match self {
            DirectoryClass::NameToId(name) => seq![Field::Byte(0), Field::Bytes(name@)],
            DirectoryClass::EmailToId(email) => seq![Field::Byte(1), Field::Bytes(email@)],
            DirectoryClass::Principal(uid) => seq![
                Field::Byte(2),
                Field::Bytes(leb128(uid as nat)),
            ],
            DirectoryClass::UsedQuota(uid) => seq![
                Field::Byte(4),
                Field::Bytes(leb128(uid as nat)),
            ],
            DirectoryClass::MemberOf { principal_id, member_of } => seq![
                Field::Byte(5),
                Field::Int(principal_id),
                Field::Int(member_of),
            ],
            DirectoryClass::Members { principal_id, has_member } => seq![
                Field::Byte(6),
                Field::Int(principal_id),
                Field::Int(has_member),
            ],
            DirectoryClass::Index { word, principal_id } => seq![
                Field::Byte(7),
                Field::Bytes(word@),
                Field::Int(principal_id),
            ],
        }
    }
}

impl QueueClass {
    /// The key-forming fields of this record, in the order they are written.
    pub open spec fn fields(self) -> Seq<Field> {
        match self {
            QueueClass::Message(queue_id) => seq![Field::Long(queue_id)],
            QueueClass::MessageEvent(event) => seq![
                Field::Long(event.due),
                Field::Long(event.queue_id),
                Field::Bytes(event.queue_name@),
            ],
            QueueClass::DmarcReportHeader(event) => seq![
                Field::Byte(0),
                Field::Long(event.due),
                Field::Bytes(event.domain_bytes()),
                Field::Long(event.policy_hash),
                Field::Long(event.seq_id),
                Field::Byte(0),
            ],
            QueueClass::TlsReportHeader(event) => seq![
                Field::Byte(0),
                Field::Long(event.due),
                Field::Bytes(event.domain_bytes()),
                Field::Long(event.policy_hash),
                Field::Long(event.seq_id),
                Field::Byte(1),
            ],
            QueueClass::DmarcReportEvent(event) => seq![
                Field::Byte(1),
                Field::Long(event.due),
                Field::Bytes(event.domain_bytes()),
                Field::Long(event.policy_hash),
                Field::Long(event.seq_id),
            ],
            QueueClass::TlsReportEvent(event) => seq![
                Field::Byte(2),
                Field::Long(event.due),
                Field::Bytes(event.domain_bytes()),
                Field::Long(event.policy_hash),
                Field::Long(event.seq_id),
            ],
            QueueClass::QuotaCount(key) => seq![Field::Byte(0), Field::Bytes(key@)],
            QueueClass::QuotaSize(key) => seq![Field::Byte(1), Field::Bytes(key@)],
        }
    }
}

impl ReportClass {
    /// The key-forming fields of this record, in the order they are written.
    pub open spec fn fields(self) -> Seq<Field> {
        match self {
            ReportClass::Tls { id, expires } => seq![
                Field::Byte(0),
                Field::Long(expires),
                Field::Long(id),
            ],
            ReportClass::Dmarc { id, expires } => seq![
                Field::Byte(1),
                Field::Long(expires),
                Field::Long(id),
            ],
            ReportClass::Arf { id, expires } => seq![
                Field::Byte(2),
                Field::Long(expires),
                Field::Long(id),
            ],
        }
    }
}

impl TelemetryClass {
    /// The key-forming fields of this record, in the order they are written.
    pub open spec fn fields(self) -> Seq<Field> {
        match self {
            TelemetryClass::Span { span_id } => seq![Field::Long(span_id)],
            TelemetryClass::Index { span_id, value } => seq![
                Field::Bytes(value@),
                Field::Long(span_id),
            ],
            TelemetryClass::Metric { timestamp, metric_id, node_id } => seq![
                Field::Long(timestamp),
                Field::Bytes(leb128(metric_id as nat)),
                Field::Bytes(leb128(node_id as nat)),
            ],
        }
    }
}

impl ValueClass {
    /// The fields of the key of this record, in the order they are written.
    pub open spec fn fields(self, account_id: u32, collection: u8, document_id: u32) -> Seq<Field> {
        match self {
            ValueClass::Property(field) => seq![
                Field::Int(account_id),
                Field::Byte(collection),
                Field::Byte(field),
                Field::Int(document_id),
            ],
            ValueClass::FtsIndex(hash) => seq![Field::Int(account_id)] + hash.fields() + seq![
                Field::Byte(collection),
                Field::Int(document_id),
            ],
            ValueClass::Acl(grant_account_id) => seq![
                Field::Int(grant_account_id),
                Field::Int(account_id),
                Field::Byte(collection),
                Field::Int(document_id),
            ],
            ValueClass::TaskQueue(task) => task.fields(account_id, document_id),
            ValueClass::Blob(op) => op.fields(account_id, collection, document_id),
            ValueClass::Config(key) => seq![Field::Bytes(key@)],
            ValueClass::InMemory(InMemoryClass::Key(key)) => seq![Field::Bytes(key@)],
            ValueClass::InMemory(InMemoryClass::Counter(key)) => seq![Field::Bytes(key@)],
            ValueClass::Directory(directory) => directory.fields(),
            ValueClass::Queue(queue) => queue.fields(),
            ValueClass::Report(report) => report.fields(),
            ValueClass::Telemetry(telemetry) => telemetry.fields(),
            ValueClass::DocumentId => seq![Field::Int(account_id), Field::Byte(collection)],
            ValueClass::ChangeId => seq![Field::Int(account_id)],
            ValueClass::Any(any) => seq![Field::Bytes(any.key@)],
        }
    }

    /// The subspace of this record's key.
    pub open spec fn spec_subspace(self, collection: u8) -> u8 {
        match self {
            ValueClass::Property(field) => if field == 84 && collection == 1 {
                SUBSPACE_COUNTER
            } else {
                SUBSPACE_PROPERTY
            },
            ValueClass::Acl(_) => SUBSPACE_ACL,
            ValueClass::FtsIndex(_) => SUBSPACE_FTS_INDEX,
            ValueClass::TaskQueue(_) => SUBSPACE_TASK_QUEUE,
            ValueClass::Blob(BlobOp::Reserve { .. }) => SUBSPACE_BLOB_RESERVE,
            ValueClass::Blob(_) => SUBSPACE_BLOB_LINK,
            ValueClass::Config(_) => SUBSPACE_SETTINGS,
            ValueClass::InMemory(InMemoryClass::Key(_)) => SUBSPACE_IN_MEMORY_VALUE,
            ValueClass::InMemory(InMemoryClass::Counter(_)) => SUBSPACE_IN_MEMORY_COUNTER,
            ValueClass::Directory(DirectoryClass::UsedQuota(_)) => SUBSPACE_QUOTA,
            ValueClass::Directory(_) => SUBSPACE_DIRECTORY,
            ValueClass::Queue(QueueClass::Message(_)) => SUBSPACE_QUEUE_MESSAGE,
            ValueClass::Queue(QueueClass::MessageEvent(_)) => SUBSPACE_QUEUE_EVENT,
            ValueClass::Queue(QueueClass::QuotaCount(_)) => SUBSPACE_QUOTA,
            ValueClass::Queue(QueueClass::QuotaSize(_)) => SUBSPACE_QUOTA,
            ValueClass::Queue(_) => SUBSPACE_REPORT_OUT,
            ValueClass::Report(_) => SUBSPACE_REPORT_IN,
            ValueClass::Telemetry(TelemetryClass::Span { .. }) => SUBSPACE_TELEMETRY_SPAN,
            ValueClass::Telemetry(TelemetryClass::Index { .. }) => SUBSPACE_TELEMETRY_INDEX,
            ValueClass::Telemetry(TelemetryClass::Metric { .. }) => SUBSPACE_TELEMETRY_METRIC,
            ValueClass::DocumentId => SUBSPACE_COUNTER,
            ValueClass::ChangeId => SUBSPACE_COUNTER,
            ValueClass::Any(any) => any.subspace,
        }
    }

    /// Whether the value under this record's key is an atomic counter.
    pub open spec fn spec_is_counter(self, collection: u8) -> bool {
        match self {
            ValueClass::Directory(DirectoryClass::UsedQuota(_)) => true,
            ValueClass::InMemory(InMemoryClass::Counter(_)) => true,
            ValueClass::Queue(QueueClass::QuotaCount(_)) => true,
            ValueClass::Queue(QueueClass::QuotaSize(_)) => true,
            ValueClass::DocumentId => true,
            ValueClass::ChangeId => true,
            ValueClass::Property(field) => field == 84 && collection == 1,
            _ => false,
        }
    }

    /// The length of this record's key without the subspace byte.
    pub open spec fn size_hint(self) -> int {
        encode_fields(self.fields(0, 0, 0)).len() as int
    }

    /// The length of a record's key does not depend on the account, the
    /// collection or the document it is made for.
    pub proof fn lemma_key_len(self, account_id: u32, collection: u8, document_id: u32)
        ensures
            encode_fields(self.fields(account_id, collection, document_id)).len()
                == self.size_hint(),
    {
        match self {
            ValueClass::FtsIndex(hash) => {
                let tail = |c: u8, d: u32| seq![Field::Byte(c), Field::Int(d)];
                lemma_encode_fields_concat(seq![Field::Int(account_id)], hash.fields());
                lemma_encode_fields_concat(
                    seq![Field::Int(account_id)] + hash.fields(),
                    tail(collection, document_id),
                );
                lemma_encode_fields_concat(seq![Field::Int(0)], hash.fields());
                lemma_encode_fields_concat(seq![Field::Int(0)] + hash.fields(), tail(0, 0));
            },
            _ => {},
        }
    }
}

impl BitmapHash {
    /// Appends the token hash, as `fields` lays it out.
    pub fn write_into(&self, s: KeySerializer) -> (r: KeySerializer)
        ensures
            r.buf@ == s.buf@ + encode_fields(self.fields()),
    {
        let ghost pre = s.buf@;
        let n: usize = if self.len >= 8 {
            8
        } else {
            self.len as usize
        };
        let part: &[u8] = slice_subrange(self.hash.as_slice(), 0, n);
        let r = s.write::<&[u8]>(part);
        if self.len >= 8 {
            assert(part@ =~= self.hash@);
            let r = r.write(self.len);
            assert(r.buf@ =~= pre + encode_fields(self.fields()));
            r
        } else {
            assert(part@ =~= self.hash@.take(self.len as int));
            assert(r.buf@ =~= pre + encode_fields(self.fields()));
            r
        }
    }
}

impl TaskQueueClass {
    /// Appends this record's fields.
    fn write_into(&self, s: KeySerializer, account_id: u32, document_id: u32) -> (r: KeySerializer)
        ensures
            r.buf@ == s.buf@ + encode_fields(self.fields(account_id, document_id)),
    {
        let ghost pre = s.buf@;
        let ghost fields = self.fields(account_id, document_id);
        match self {
            TaskQueueClass::IndexEmail { due, hash } => {
                let r = s.write(*due).write(account_id).write(0u8).write(document_id).write::<
                    &[u8],
                >(hash.0.as_slice());
                assert(r.buf@ =~= pre + encode_fields(fields));
                r
            },
            TaskQueueClass::BayesTrain { due, hash, learn_spam } => {
                let r = s.write(*due).write(account_id).write(
                    if *learn_spam {
                        1u8
                    } else {
                        2u8
                    },
                ).write(document_id).write::<&[u8]>(hash.0.as_slice());
                assert(r.buf@ =~= pre + encode_fields(fields));
                r
            },
            TaskQueueClass::SendAlarm { due, event_id, alarm_id } => {
                let r = s.write(*due).write(account_id).write(3u8).write(document_id).write(
                    *event_id,
                ).write(*alarm_id);
                assert(r.buf@ =~= pre + encode_fields(fields));
                r
            },
            TaskQueueClass::SendImip { due, is_payload } => {
                if !*is_payload {
                    let r = s.write(*due).write(account_id).write(4u8).write(document_id);
                    assert(r.buf@ =~= pre + encode_fields(fields));
                    r
                } else {
                    let r = s.write(u64::MAX).write(account_id).write(5u8).write(document_id).write(
                        *due,
                    );
                    assert(r.buf@ =~= pre + encode_fields(fields));
                    r
                }
            },
        }
    }
}

impl BlobOp {
    /// Appends this record's fields.
    fn write_into(&self, s: KeySerializer, account_id: u32, collection: u8, document_id: u32) -> (r:
        KeySerializer)
        ensures
            r.buf@ == s.buf@ + encode_fields(self.fields(account_id, collection, document_id)),
    {
        let ghost pre = s.buf@;
        let ghost fields = self.fields(account_id, collection, document_id);
        match self {
            BlobOp::Reserve { hash, until } => {
                let r = s.write(account_id).write::<&[u8]>(hash.0.as_slice()).write(*until);
                assert(r.buf@ =~= pre + encode_fields(fields));
                r
            },
            BlobOp::Commit { hash } => {
                let r = s.write::<&[u8]>(hash.0.as_slice()).write(u32::MAX).write(0u8).write(
                    u32::MAX,
                );
                assert(r.buf@ =~= pre + encode_fields(fields));
                r
            },
            BlobOp::Link { hash } => {
                let r = s.write::<&[u8]>(hash.0.as_slice()).write(account_id).write(
                    collection,
                ).write(document_id);
                assert(r.buf@ =~= pre + encode_fields(fields));
                r
            },
            BlobOp::LinkId { hash, id } => {
                let r = s.write::<&[u8]>(hash.0.as_slice()).write((*id >> 32u64) as u32).write(
                    u8::MAX,
                ).write(*id as u32);
                assert(r.buf@ =~= pre + encode_fields(fields));
                r
            },
        }
    }
}

impl DirectoryClass {
    /// Appends this record's fields.
    fn write_into(&self, s: KeySerializer) -> (r: KeySerializer)
        ensures
            r.buf@ == s.buf@ + encode_fields(self.fields()),
    {
        let ghost pre = s.buf@;
        let ghost fields = self.fields();
        match self {
            DirectoryClass::NameToId(name) => {
                let r = s.write(0u8).write::<&[u8]>(name.as_slice());
                assert(r.buf@ =~= pre + encode_fields(fields));
                r
            },
            DirectoryClass::EmailToId(email) => {
                let r = s.write(1u8).write::<&[u8]>(email.as_slice());
                assert(r.buf@ =~= pre + encode_fields(fields));
                r
            },
            DirectoryClass::Principal(uid) => {
                let r = s.write(2u8).write_leb128(*uid as u64);
                assert(r.buf@ =~= pre + encode_fields(fields));
                r
            },
            DirectoryClass::UsedQuota(uid) => {
                let r = s.write(4u8).write_leb128(*uid as u64);
                assert(r.buf@ =~= pre + encode_fields(fields));
                r
            },
            DirectoryClass::MemberOf { principal_id, member_of } => {
                let r = s.write(5u8).write(*principal_id).write(*member_of);
                assert(r.buf@ =~= pre + encode_fields(fields));
                r
            },
            DirectoryClass::Members { principal_id, has_member } => {
                let r = s.write(6u8).write(*principal_id).write(*has_member);
                assert(r.buf@ =~= pre + encode_fields(fields));
                r
            },
            DirectoryClass::Index { word, principal_id } => {
                let r = s.write(7u8).write::<&[u8]>(word.as_slice()).write(*principal_id);
                assert(r.buf@ =~= pre + encode_fields(fields));
                r
            },
        }
    }
}

impl QueueClass {
    /// Appends this record's fields.
    fn write_into(&self, s: KeySerializer) -> (r: KeySerializer)
        ensures
            r.buf@ == s.buf@ + encode_fields(self.fields()),
    {
        let ghost pre = s.buf@;
        let ghost fields = self.fields();
        match self {
            QueueClass::Message(queue_id) => {
                let r = s.write(*queue_id);
                assert(r.buf@ =~= pre + encode_fields(fields));
                r
            },
            QueueClass::MessageEvent(event) => {
                let r = s.write(event.due).write(event.queue_id).write::<&[u8]>(
                    event.queue_name.as_slice(),
                );
                assert(r.buf@ =~= pre + encode_fields(fields));
                r
            },
            QueueClass::DmarcReportHeader(event) => {
                let r = s.write(0u8).write(event.due).write(event.domain.as_str()).write(
                    event.policy_hash,
                ).write(event.seq_id).write(0u8);
                assert(r.buf@ =~= pre + encode_fields(fields));
                r
            },
            QueueClass::TlsReportHeader(event) => {
                let r = s.write(0u8).write(event.due).write(event.domain.as_str()).write(
                    event.policy_hash,
                ).write(event.seq_id).write(1u8);
                assert(r.buf@ =~= pre + encode_fields(fields));
                r
            },
            QueueClass::DmarcReportEvent(event) => {
                let r = s.write(1u8).write(event.due).write(event.domain.as_str()).write(
                    event.policy_hash,
                ).write(event.seq_id);
                assert(r.buf@ =~= pre + encode_fields(fields));
                r
            },
            QueueClass::TlsReportEvent(event) => {
                let r = s.write(2u8).write(event.due).write(event.domain.as_str()).write(
                    event.policy_hash,
                ).write(event.seq_id);
                assert(r.buf@ =~= pre + encode_fields(fields));
                r
            },
            QueueClass::QuotaCount(key) => {
                let r = s.write(0u8).write::<&[u8]>(key.as_slice());
                assert(r.buf@ =~= pre + encode_fields(fields));
                r
            },
            QueueClass::QuotaSize(key) => {
                let r = s.write(1u8).write::<&[u8]>(key.as_slice());
                assert(r.buf@ =~= pre + encode_fields(fields));
                r
            },
        }
    }
}

impl ReportClass {
    /// Appends this record's fields.
    fn write_into(&self, s: KeySerializer) -> (r: KeySerializer)
        ensures
            r.buf@ == s.buf@ + encode_fields(self.fields()),
    {
        let ghost pre = s.buf@;
        let ghost fields = self.fields();
        let r = match self {
            ReportClass::Tls { id, expires } => s.write(0u8).write(*expires).write(*id),
            ReportClass::Dmarc { id, expires } => s.write(1u8).write(*expires).write(*id),
            ReportClass::Arf { id, expires } => s.write(2u8).write(*expires).write(*id),
        };
        assert(r.buf@ =~= pre + encode_fields(fields));
        r
    }
}

impl TelemetryClass {
    /// Appends this record's fields.
    fn write_into(&self, s: KeySerializer) -> (r: KeySerializer)
        ensures
            r.buf@ == s.buf@ + encode_fields(self.fields()),
    {
        let ghost pre = s.buf@;
        let ghost fields = self.fields();
        match self {
            TelemetryClass::Span { span_id } => {
                let r = s.write(*span_id);
                assert(r.buf@ =~= pre + encode_fields(fields));
                r
            },
            TelemetryClass::Index { span_id, value } => {
                let r = s.write::<&[u8]>(value.as_slice()).write(*span_id);
                assert(r.buf@ =~= pre + encode_fields(fields));
                r
            },
            TelemetryClass::Metric { timestamp, metric_id, node_id } => {
                let r = s.write(*timestamp).write_leb128(*metric_id).write_leb128(*node_id);
                assert(r.buf@ =~= pre + encode_fields(fields));
                r
            },
        }
    }
}

impl ValueClass {
    /// The key of this record: the subspace byte when `flags` asks for it, then
    /// the record's fields.
    pub fn serialize(&self, account_id: u32, collection: u8, document_id: u32, flags: u32) -> (r:
        Vec<u8>)
        ensures
            r@ == key_bytes(
                self.spec_subspace(collection),
                self.fields(account_id, collection, document_id),
                flags,
            ),
    {
        let serializer = if (flags & WITH_SUBSPACE) != 0 {
            KeySerializer::new(self.serialized_size().saturating_add(1)).write(
                self.subspace(collection),
            )
        } else {
            KeySerializer::new(self.serialized_size())
        };
        let ghost pre = serializer.buf@;
        let ghost fields = self.fields(account_id, collection, document_id);
        let serializer = match self {
            ValueClass::Property(field) => serializer.write(account_id).write(collection).write(
                *field,
            ).write(document_id),
            ValueClass::FtsIndex(hash) => {
                let s = hash.write_into(serializer.write(account_id));
                let r = s.write(collection).write(document_id);
                proof {
                    let head = seq![Field::Int(account_id)];
                    let tail = seq![Field::Byte(collection), Field::Int(document_id)];
                    lemma_encode_fields_concat(head, hash.fields());
                    lemma_encode_fields_concat(head + hash.fields(), tail);
                    assert(r.buf@ =~= pre + encode_fields(fields));
                }
                r
            },
            ValueClass::Acl(grant_account_id) => serializer.write(*grant_account_id).write(
                account_id,
            ).write(collection).write(document_id),
            ValueClass::TaskQueue(task) => task.write_into(serializer, account_id, document_id),
            ValueClass::Blob(op) => op.write_into(serializer, account_id, collection, document_id),
            ValueClass::Config(key) => serializer.write::<&[u8]>(key.as_slice()),
            ValueClass::InMemory(lookup) => match lookup {
                InMemoryClass::Key(key) => serializer.write::<&[u8]>(key.as_slice()),
                InMemoryClass::Counter(key) => serializer.write::<&[u8]>(key.as_slice()),
            },
            ValueClass::Directory(directory) => directory.write_into(serializer),
            ValueClass::Queue(queue) => queue.write_into(serializer),
            ValueClass::Report(report) => report.write_into(serializer),
            ValueClass::Telemetry(telemetry) => telemetry.write_into(serializer),
            ValueClass::DocumentId => serializer.write(account_id).write(collection),
            ValueClass::ChangeId => serializer.write(account_id),
            ValueClass::Any(any) => serializer.write::<&[u8]>(any.key.as_slice()),
        };
        assert(serializer.buf@ =~= pre + encode_fields(fields));
        assert(key_bytes(self.spec_subspace(collection), fields, flags) =~= pre + encode_fields(
            fields,
        ));
        serializer.finalize()
    }

    /// The length of this record's key without the subspace byte, used to
    /// preallocate its buffer.
    pub fn serialized_size(&self) -> (r: usize)
        ensures
            forall|a: u32, c: u8, d: u32|
                #![trigger self.fields(a, c, d)]
                encode_fields(self.fields(a, c, d)).len() <= usize::MAX ==> r as int
                    == encode_fields(self.fields(a, c, d)).len(),
    {
        let r = match self {
            ValueClass::Property(_) => U32_LEN * 2 + 2,
            ValueClass::FtsIndex(hash) => {
                if hash.len >= 8 {
                    U32_LEN * 2 + 10
                } else {
                    hash.len as usize + U32_LEN * 2 + 1
                }
            },
            ValueClass::Acl(_) => U32_LEN * 3 + 1,
            ValueClass::InMemory(InMemoryClass::Counter(v)) => v.len(),
            ValueClass::InMemory(InMemoryClass::Key(v)) => v.len(),
            ValueClass::Config(v) => v.len(),
            ValueClass::Directory(d) => match d {
                DirectoryClass::NameToId(v) => v.len().saturating_add(1),
                DirectoryClass::EmailToId(v) => v.len().saturating_add(1),
                DirectoryClass::Principal(uid) => leb128_len(*uid as u64) + 1,
                DirectoryClass::UsedQuota(uid) => leb128_len(*uid as u64) + 1,
                DirectoryClass::Members { .. } => U32_LEN * 2 + 1,
                DirectoryClass::MemberOf { .. } => U32_LEN * 2 + 1,
                DirectoryClass::Index { word, .. } => word.len().saturating_add(U32_LEN + 1),
            },
            ValueClass::Blob(op) => match op {
                BlobOp::Reserve { .. } => BLOB_HASH_LEN + U64_LEN + U32_LEN,
                _ => BLOB_HASH_LEN + U32_LEN * 2 + 1,
            },
            ValueClass::TaskQueue(e) => match e {
                TaskQueueClass::IndexEmail { .. } => BLOB_HASH_LEN + U64_LEN + U32_LEN * 2 + 1,
                TaskQueueClass::BayesTrain { .. } => BLOB_HASH_LEN + U64_LEN + U32_LEN * 2 + 1,
                TaskQueueClass::SendAlarm { .. } => U64_LEN + U32_LEN * 2 + U16_LEN * 2 + 1,
                TaskQueueClass::SendImip { is_payload, .. } => {
                    if *is_payload {
                        U64_LEN * 2 + U32_LEN * 2 + 1
                    } else {
                        U64_LEN + U32_LEN * 2 + 1
                    }
                },
            },
            ValueClass::Queue(q) => match q {
                QueueClass::Message(_) => U64_LEN,
                QueueClass::MessageEvent(_) => U64_LEN * 3,
                QueueClass::DmarcReportEvent(event) | QueueClass::TlsReportEvent(event) => {
                    event.domain.as_str().len().saturating_add(U64_LEN * 3 + 1)
                },
                QueueClass::DmarcReportHeader(event) | QueueClass::TlsReportHeader(event) => {
                    event.domain.as_str().len().saturating_add(U64_LEN * 3 + 2)
                },
                QueueClass::QuotaCount(v) => v.len().saturating_add(1),
                QueueClass::QuotaSize(v) => v.len().saturating_add(1),
            },
            ValueClass::Report(_) => U64_LEN * 2 + 1,
            ValueClass::Telemetry(telemetry) => match telemetry {
                TelemetryClass::Span { .. } => U64_LEN,
                TelemetryClass::Index { value, .. } => value.len().saturating_add(U64_LEN),
                TelemetryClass::Metric { metric_id, node_id, .. } => {
                    U64_LEN + leb128_len(*metric_id) + leb128_len(*node_id)
                },
            },
            ValueClass::DocumentId => U32_LEN + 1,
            ValueClass::ChangeId => U32_LEN,
            ValueClass::Any(v) => v.key.len(),
        };
        proof {
            self.lemma_key_len(0, 0, 0);
            assert forall|a: u32, c: u8, d: u32|
                encode_fields(#[trigger] self.fields(a, c, d)).len() <= usize::MAX implies r as int
                    == encode_fields(self.fields(a, c, d)).len() by {
                self.lemma_key_len(a, c, d);
            }
        }
        r
    }

    /// The subspace of this record's key. Only a property record depends on
    /// `collection`: property 84 of collection 1 holds a counter.
    pub fn subspace(&self, collection: u8) -> (r: u8)
        ensures
            r == self.spec_subspace(collection),
    {
        match self {
            ValueClass::Property(field) => {
                if *field == 84 && collection == 1 {
                    SUBSPACE_COUNTER
                } else {
                    SUBSPACE_PROPERTY
                }
            },
            ValueClass::Acl(_) => SUBSPACE_ACL,
            ValueClass::FtsIndex(_) => SUBSPACE_FTS_INDEX,
            ValueClass::TaskQueue(_) => SUBSPACE_TASK_QUEUE,
            ValueClass::Blob(op) => match op {
                BlobOp::Reserve { .. } => SUBSPACE_BLOB_RESERVE,
                BlobOp::Commit { .. } | BlobOp::Link { .. } | BlobOp::LinkId { .. } => {
                    SUBSPACE_BLOB_LINK
                },
            },
            ValueClass::Config(_) => SUBSPACE_SETTINGS,
            ValueClass::InMemory(lookup) => match lookup {
                InMemoryClass::Key(_) => SUBSPACE_IN_MEMORY_VALUE,
                InMemoryClass::Counter(_) => SUBSPACE_IN_MEMORY_COUNTER,
            },
            ValueClass::Directory(directory) => match directory {
                DirectoryClass::UsedQuota(_) => SUBSPACE_QUOTA,
                _ => SUBSPACE_DIRECTORY,
            },
            ValueClass::Queue(queue) => match queue {
                QueueClass::Message(_) => SUBSPACE_QUEUE_MESSAGE,
                QueueClass::MessageEvent(_) => SUBSPACE_QUEUE_EVENT,
                QueueClass::DmarcReportHeader(_)
                | QueueClass::TlsReportHeader(_)
                | QueueClass::DmarcReportEvent(_)
                | QueueClass::TlsReportEvent(_) => SUBSPACE_REPORT_OUT,
                QueueClass::QuotaCount(_) | QueueClass::QuotaSize(_) => SUBSPACE_QUOTA,
            },
            ValueClass::Report(_) => SUBSPACE_REPORT_IN,
            ValueClass::Telemetry(telemetry) => match telemetry {
                TelemetryClass::Span { .. } => SUBSPACE_TELEMETRY_SPAN,
                TelemetryClass::Index { .. } => SUBSPACE_TELEMETRY_INDEX,
                TelemetryClass::Metric { .. } => SUBSPACE_TELEMETRY_METRIC,
            },
            ValueClass::DocumentId | ValueClass::ChangeId => SUBSPACE_COUNTER,
            ValueClass::Any(any) => any.subspace,
        }
    }

    /// Whether the value under this record's key is an atomic counter.
    pub fn is_counter(&self, collection: u8) -> (r: bool)
        ensures
            r == self.spec_is_counter(collection),
    {
        match self {
            ValueClass::Directory(DirectoryClass::UsedQuota(_))
            | ValueClass::InMemory(InMemoryClass::Counter(_))
            | ValueClass::Queue(QueueClass::QuotaCount(_) | QueueClass::QuotaSize(_))
            | ValueClass::DocumentId
            | ValueClass::ChangeId => true,
            ValueClass::Property(field) => *field == 84 && collection == 1,
            _ => false,
        }
    }
}

} // verus!
