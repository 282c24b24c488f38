//! Properties of the key layer as a whole, stated over the same spec
//! functions the encoders' contracts use.

use vstd::prelude::*;
use vstd::utf8::{decode_utf8, encode_utf8_decode_utf8, encode_utf8_valid_utf8, valid_utf8};
use crate::bitmap::{BitmapClass, TagValue, BM_MARKER};
use crate::classes::{
    BlobOp, DirectoryClass, InMemoryClass, QueueClass, QueueEvent, ReportClass, ReportEvent,
    TaskQueueClass, TelemetryClass, ValueClass,
};
use crate::encoding::{
    be64, be64_value, filled, leb128, lemma_be64_max, lemma_be64_order, lemma_be64_round_trip,
    lemma_lex_append, lemma_lex_common_head, lemma_lex_irreflexive,
    lemma_lex_le_max, lemma_lex_le_min, lemma_lex_transitive, lex_le, lex_lt,
};
use crate::keys::{IndexKey, IndexKeyPrefix, Key};
use crate::layout::{
    encode_fields, fields_lt, key_bytes, lemma_encode_fields_concat, lemma_fields_order,
    lemma_flags, same_layout, with_subspace, Field, WITH_SUBSPACE,
};
use crate::subspace::{SUBSPACE_COUNTER, SUBSPACE_IN_MEMORY_COUNTER, SUBSPACE_QUOTA};

verus! {

broadcast use crate::layout::lemma_encode_fields_small;

/// Subspace agreement: a key serialized with its subspace starts with the
/// byte that `subspace` returns.
pub proof fn lemma_subspace_agreement<K: Key>(k: &K, flags: u32)
    requires
        with_subspace(flags),
    ensures
        key_bytes(k.spec_subspace(), k.spec_fields(), flags)[0] == k.spec_subspace(),
{
}

/// Subspace prefix: a key serialized with its subspace is the subspace byte
/// followed by the key serialized without it, so it is one byte longer.
pub proof fn lemma_subspace_prefix<K: Key>(k: &K)
    ensures
        key_bytes(k.spec_subspace(), k.spec_fields(), WITH_SUBSPACE) == seq![k.spec_subspace()]
            + key_bytes(k.spec_subspace(), k.spec_fields(), 0),
        key_bytes(k.spec_subspace(), k.spec_fields(), WITH_SUBSPACE).len() == key_bytes(
            k.spec_subspace(),
            k.spec_fields(),
            0,
        ).len() + 1,
{
    lemma_flags();
}

/// Monotone encoding: two keys whose fields have one layout sort, as bytes,
/// in the lexicographic order of their field tuples; with the subspace byte
/// too, when they share a subspace.
pub proof fn lemma_key_order<K: Key>(a: &K, b: &K, flags: u32)
    requires
        same_layout(a.spec_fields(), b.spec_fields()),
        fields_lt(a.spec_fields(), b.spec_fields()),
        with_subspace(flags) ==> a.spec_subspace() == b.spec_subspace(),
    ensures
        lex_lt(
            key_bytes(a.spec_subspace(), a.spec_fields(), flags),
            key_bytes(b.spec_subspace(), b.spec_fields(), flags),
        ),
{
    lemma_fields_order(a.spec_fields(), b.spec_fields());
    if with_subspace(flags) {
        crate::encoding::lemma_lex_common_head(
            seq![a.spec_subspace()],
            encode_fields(a.spec_fields()),
            encode_fields(b.spec_fields()),
        );
    }
}

/// Prefix containment: an index prefix serializes to a strict prefix of every
/// index key with the same account, collection and field, with or without the
/// subspace byte.
pub proof fn lemma_index_prefix(p: IndexKeyPrefix, k: IndexKey, flags: u32)
    requires
        p.account_id == k.account_id,
        p.collection == k.collection,
        p.field == k.field,
    ensures
        key_bytes(p.spec_subspace(), p.spec_fields(), flags).is_prefix_of(
            key_bytes(k.spec_subspace(), k.spec_fields(), flags),
        ),
        key_bytes(p.spec_subspace(), p.spec_fields(), flags).len() < key_bytes(
            k.spec_subspace(),
            k.spec_fields(),
            flags,
        ).len(),
{
    let pf = p.spec_fields();
    let kf = k.spec_fields();
    let head = pf[0].bytes() + pf[1].bytes() + pf[2].bytes();
    assert(encode_fields(kf) =~= head + (kf[3].bytes() + kf[4].bytes()));
    assert(encode_fields(pf) == head);
    assert(key_bytes(p.spec_subspace(), pf, flags).is_prefix_of(
        key_bytes(k.spec_subspace(), kf, flags),
    ));
}

/// Size hint: the size hint of a value class is the length of its key
/// without the subspace byte, for every account, collection and document, so
/// the key is at least the hint long and at most one byte longer; with the
/// subspace byte it is one byte longer still.
pub proof fn lemma_size_hint(c: ValueClass, account_id: u32, collection: u8, document_id: u32)
    ensures
        ({
            let fields = c.fields(account_id, collection, document_id);
            let n = key_bytes(c.spec_subspace(collection), fields, 0).len();
            &&& n == c.size_hint()
            &&& c.size_hint() <= n <= c.size_hint() + 1
            &&& key_bytes(c.spec_subspace(collection), fields, WITH_SUBSPACE).len() == n + 1
        }),
{
    lemma_flags();
    c.lemma_key_len(account_id, collection, document_id);
}

/// Report round trip: the key of a DMARC or TLS report event, serialized
/// without its subspace byte, is what `ReportEvent::deserialize` accepts, and
/// every field it reads back is the event's own.
pub proof fn lemma_report_round_trip(
    e: ReportEvent,
    tls: bool,
    account_id: u32,
    collection: u8,
    document_id: u32,
)
    ensures
        ({
            let c = if tls {
                ValueClass::Queue(QueueClass::TlsReportEvent(e))
            } else {
                ValueClass::Queue(QueueClass::DmarcReportEvent(e))
            };
            let key = key_bytes(
                c.spec_subspace(collection),
                c.fields(account_id, collection, document_id),
                0,
            );
            &&& key.len() >= 25
            &&& valid_utf8(key.subrange(9, key.len() - 16))
            &&& be64_value(key.subrange(1, 9)) == e.due
            &&& decode_utf8(key.subrange(9, key.len() - 16)) == e.domain@
            &&& be64_value(key.subrange(key.len() - 16, key.len() - 8)) == e.policy_hash
            &&& be64_value(key.subrange(key.len() - 8, key.len() as int)) == e.seq_id
        }),
{
    lemma_flags();
    let c = if tls {
        ValueClass::Queue(QueueClass::TlsReportEvent(e))
    } else {
        ValueClass::Queue(QueueClass::DmarcReportEvent(e))
    };
    let key = encode_fields(c.fields(account_id, collection, document_id));
    let d = e.domain_bytes();
    let n = d.len() as int;
    let variant: u8 = if tls {
        2
    } else {
        1
    };
    assert(key =~= seq![variant] + be64(e.due) + d + be64(e.policy_hash) + be64(e.seq_id));
    assert(key.len() == n + 25);
    assert(key.subrange(1, 9) =~= be64(e.due));
    assert(key.subrange(9, key.len() - 16) =~= d);
    assert(key.subrange(key.len() - 16, key.len() - 8) =~= be64(e.policy_hash));
    assert(key.subrange(key.len() - 8, key.len() as int) =~= be64(e.seq_id));
    lemma_be64_round_trip(e.due);
    lemma_be64_round_trip(e.policy_hash);
    lemma_be64_round_trip(e.seq_id);
    encode_utf8_valid_utf8(e.domain@);
    encode_utf8_decode_utf8(e.domain@);
}

/// The variant of a value class, down to the variant of the class it wraps.
pub open spec fn variant_of(c: ValueClass) -> (int, int) {
    match c {
        ValueClass::Property(_) => (0, 0),
        ValueClass::Acl(_) => (1, 0),
        ValueClass::InMemory(m) => (2, if m is Key { 0 } else { 1 }),
        ValueClass::FtsIndex(_) => (3, 0),
        ValueClass::TaskQueue(t) => (4, match t {
            TaskQueueClass::IndexEmail { .. } => 0,
            TaskQueueClass::BayesTrain { .. } => 1,
            TaskQueueClass::SendAlarm { .. } => 2,
            TaskQueueClass::SendImip { .. } => 3,
        }),
        ValueClass::Directory(d) => (5, match d {
            DirectoryClass::NameToId(_) => 0,
            DirectoryClass::EmailToId(_) => 1,
            DirectoryClass::Index { .. } => 2,
            DirectoryClass::MemberOf { .. } => 3,
            DirectoryClass::Members { .. } => 4,
            DirectoryClass::Principal(_) => 5,
            DirectoryClass::UsedQuota(_) => 6,
        }),
        ValueClass::Blob(b) => (6, match b {
            BlobOp::Reserve { .. } => 0,
            BlobOp::Commit { .. } => 1,
            BlobOp::Link { .. } => 2,
            BlobOp::LinkId { .. } => 3,
        }),
        ValueClass::Config(_) => (7, 0),
        ValueClass::Queue(q) => (8, match q {
            QueueClass::Message(_) => 0,
            QueueClass::MessageEvent(_) => 1,
            QueueClass::DmarcReportHeader(_) => 2,
            QueueClass::DmarcReportEvent(_) => 3,
            QueueClass::TlsReportHeader(_) => 4,
            QueueClass::TlsReportEvent(_) => 5,
            QueueClass::QuotaCount(_) => 6,
            QueueClass::QuotaSize(_) => 7,
        }),
        ValueClass::Report(r) => (9, match r {
            ReportClass::Tls { .. } => 0,
            ReportClass::Dmarc { .. } => 1,
            ReportClass::Arf { .. } => 2,
        }),
        ValueClass::Telemetry(t) => (10, match t {
            TelemetryClass::Span { .. } => 0,
            TelemetryClass::Metric { .. } => 1,
            TelemetryClass::Index { .. } => 2,
        }),
        ValueClass::Any(_) => (11, 0),
        ValueClass::DocumentId => (12, 0),
        ValueClass::ChangeId => (13, 0),
    }
}

/// Counter classification by variant: apart from property records, two
/// records of one variant are both counters or both not, in any collections.
pub proof fn lemma_counter_by_variant(a: ValueClass, b: ValueClass, ca: u8, cb: u8)
    requires
        variant_of(a) == variant_of(b),
        !(a is Property),
    ensures
        a.spec_is_counter(ca) == b.spec_is_counter(cb),
{
}

/// Counter classification of properties: property 84 of collection 1 is the
/// one property record that holds a counter. Every counter lives in the
/// counter, quota or in-memory counter subspace.
pub proof fn lemma_counter_subspace(c: ValueClass, collection: u8)
    ensures
        c is Property ==> (c.spec_is_counter(collection) <==> c->Property_0 == 84 && collection
            == 1),
        c.spec_is_counter(collection) ==> c.spec_subspace(collection) == SUBSPACE_COUNTER
            || c.spec_subspace(collection) == SUBSPACE_QUOTA || c.spec_subspace(collection)
            == SUBSPACE_IN_MEMORY_COUNTER,
{
}

/// The key of a queue event, without its subspace byte.
pub open spec fn event_key(e: QueueEvent) -> Seq<u8> {
    encode_fields(QueueClass::MessageEvent(e).fields())
}

/// Due-time scan: every queue event key lies at or after the all-zero key,
/// and it lies at or before the largest key with deadline `t` exactly when
/// its deadline is at most `t`.
pub proof fn lemma_due_scan(e: QueueEvent, t: u64)
    ensures
        lex_le(filled(24, 0), event_key(e)),
        e.due <= t <==> lex_le(event_key(e), be64(t) + filled(16, 0xff)),
{
    let rest = be64(e.queue_id) + e.queue_name@;
    let upper = be64(t) + filled(16, 0xff);
    let key = event_key(e);
    assert(key =~= be64(e.due) + rest);
    lemma_lex_le_min(key);
    lemma_lex_le_max(rest);
    if e.due < t {
        lemma_be64_order(e.due, t);
        lemma_lex_append(be64(e.due), rest, be64(t), filled(16, 0xff));
    } else if e.due == t {
        if rest != filled(16, 0xff) {
            lemma_lex_common_head(be64(t), rest, filled(16, 0xff));
        }
    } else {
        lemma_be64_order(t, e.due);
        lemma_lex_append(be64(t), filled(16, 0xff), be64(e.due), rest);
        lemma_lex_irreflexive(upper);
        if lex_lt(key, upper) {
            lemma_lex_transitive(upper, key, upper);
        }
    }
}

/// Due-time order: a scan meets queue events in order of their deadlines.
pub proof fn lemma_due_order(a: QueueEvent, b: QueueEvent)
    requires
        lex_le(event_key(a), event_key(b)),
    ensures
        a.due <= b.due,
{
    if a.due > b.due {
        let ka = event_key(a);
        let kb = event_key(b);
        assert(ka =~= be64(a.due) + (be64(a.queue_id) + a.queue_name@));
        assert(kb =~= be64(b.due) + (be64(b.queue_id) + b.queue_name@));
        lemma_be64_order(b.due, a.due);
        lemma_lex_append(
            be64(b.due),
            be64(b.queue_id) + b.queue_name@,
            be64(a.due),
            be64(a.queue_id) + a.queue_name@,
        );
        lemma_lex_irreflexive(ka);
        if lex_lt(ka, kb) {
            lemma_lex_transitive(ka, kb, ka);
        }
    }
}

/// Payload hiding: a payload row of an iMIP task leads with eight `0xff`
/// bytes where other rows lead with their deadline, so it sorts after every
/// key that leads with a deadline below `u64::MAX`.
pub proof fn lemma_payload_hidden(
    due: u64,
    account_id: u32,
    document_id: u32,
    t: u64,
    rest: Seq<u8>,
)
    requires
        t < u64::MAX,
    ensures
        ({
            let payload = encode_fields(
                TaskQueueClass::SendImip { due, is_payload: true }.fields(account_id, document_id),
            );
            let plain = encode_fields(
                TaskQueueClass::SendImip { due, is_payload: false }.fields(account_id, document_id),
            );
            &&& payload.take(8) == filled(8, 0xff)
            &&& plain.take(8) == be64(due)
            &&& lex_lt(be64(t) + rest, payload)
        }),
{
    let payload = encode_fields(
        TaskQueueClass::SendImip { due, is_payload: true }.fields(account_id, document_id),
    );
    let plain = encode_fields(
        TaskQueueClass::SendImip { due, is_payload: false }.fields(account_id, document_id),
    );
    let tail = seq![5u8] + crate::encoding::be32(account_id) + crate::encoding::be32(document_id)
        + be64(due);
    assert(payload =~= be64(u64::MAX) + crate::encoding::be32(account_id) + seq![5u8]
        + crate::encoding::be32(document_id) + be64(due));
    lemma_be64_max();
    assert(payload.take(8) =~= be64(u64::MAX));
    assert(plain.take(8) =~= be64(due));
    let after = payload.subrange(8, payload.len() as int);
    assert(payload =~= be64(u64::MAX) + after);
    lemma_be64_order(t, u64::MAX);
    lemma_lex_append(be64(t), rest, be64(u64::MAX), after);
}

/// Tag discriminator: with field ids below `0x80`, the field byte of a text
/// tag has its high bit set and that of an id tag has it clear, so no text
/// tag shares a key with an id tag.
pub proof fn lemma_tag_marker(
    account_id: u32,
    collection: u8,
    document_id: u32,
    id_field: u8,
    id: u32,
    text_field: u8,
    text: Vec<u8>,
)
    requires
        id_field < 0x80,
        text_field < 0x80,
    ensures
        ({
            let by_id = encode_fields(
                BitmapClass::Tag { field: id_field, value: TagValue::Id(id) }.fields(
                    account_id,
                    collection,
                    document_id,
                ),
            );
            let by_text = encode_fields(
                BitmapClass::Tag { field: text_field, value: TagValue::Text(text) }.fields(
                    account_id,
                    collection,
                    document_id,
                ),
            );
            &&& by_id[5] == id_field
            &&& by_text[5] == text_field | BM_MARKER
            &&& by_id[5] < 0x80 <= by_text[5]
            &&& by_id != by_text
        }),
{
    assert((text_field | 0x80u8) >= 0x80u8) by (bit_vector);
    let by_id = encode_fields(
        BitmapClass::Tag { field: id_field, value: TagValue::Id(id) }.fields(
            account_id,
            collection,
            document_id,
        ),
    );
    let by_text = encode_fields(
        BitmapClass::Tag { field: text_field, value: TagValue::Text(text) }.fields(
            account_id,
            collection,
            document_id,
        ),
    );
    let head = crate::encoding::be32(account_id) + seq![collection];
    assert(by_id =~= head + seq![id_field] + leb128(id as nat) + crate::encoding::be32(
        document_id,
    ));
    assert(by_text =~= head + seq![text_field | BM_MARKER] + text@ + crate::encoding::be32(
        document_id,
    ));
    assert(by_id[5] == id_field);
    assert(by_text[5] == text_field | BM_MARKER);
}

} // verus!
