//! Subspace tags: the single byte that partitions the keyspace by record kind,
//! and the widths of the fixed-size key components.

use vstd::prelude::*;

verus! {

pub const SUBSPACE_ACL: u8 = 97; // 'a'
pub const SUBSPACE_BITMAP_ID: u8 = 98; // 'b'
pub const SUBSPACE_BITMAP_TAG: u8 = 99; // 'c'
pub const SUBSPACE_BITMAP_TEXT: u8 = 118; // 'v'
pub const SUBSPACE_DIRECTORY: u8 = 100; // 'd'
pub const SUBSPACE_TASK_QUEUE: u8 = 102; // 'f'
pub const SUBSPACE_INDEXES: u8 = 105; // 'i'
pub const SUBSPACE_BLOB_RESERVE: u8 = 106; // 'j'
pub const SUBSPACE_BLOB_LINK: u8 = 107; // 'k'
pub const SUBSPACE_LOGS: u8 = 108; // 'l'
pub const SUBSPACE_IN_MEMORY_COUNTER: u8 = 109; // 'm'
pub const SUBSPACE_IN_MEMORY_VALUE: u8 = 110; // 'n'
pub const SUBSPACE_COUNTER: u8 = 111; // 'o'
pub const SUBSPACE_PROPERTY: u8 = 112; // 'p'
pub const SUBSPACE_SETTINGS: u8 = 115; // 's'
pub const SUBSPACE_QUEUE_MESSAGE: u8 = 101; // 'e'
pub const SUBSPACE_QUEUE_EVENT: u8 = 113; // 'q'
pub const SUBSPACE_QUOTA: u8 = 117; // 'u'
pub const SUBSPACE_REPORT_OUT: u8 = 104; // 'h'
pub const SUBSPACE_REPORT_IN: u8 = 114; // 'r'
pub const SUBSPACE_FTS_INDEX: u8 = 103; // 'g'
pub const SUBSPACE_TELEMETRY_SPAN: u8 = 121; // 'y'
pub const SUBSPACE_TELEMETRY_INDEX: u8 = 119; // 'w'
pub const SUBSPACE_TELEMETRY_METRIC: u8 = 120; // 'x'

pub const U16_LEN: usize = 2;
pub const U32_LEN: usize = 4;
pub const U64_LEN: usize = 8;

/// Length of a blob's content hash.
pub const BLOB_HASH_LEN: usize = 32;

/// Every subspace tag, once.
pub open spec fn all_subspaces() -> Seq<u8> {
    seq![
        SUBSPACE_ACL,
        SUBSPACE_BITMAP_ID,
        SUBSPACE_BITMAP_TAG,
        SUBSPACE_BITMAP_TEXT,
        SUBSPACE_DIRECTORY,
        SUBSPACE_TASK_QUEUE,
        SUBSPACE_INDEXES,
        SUBSPACE_BLOB_RESERVE,
        SUBSPACE_BLOB_LINK,
        SUBSPACE_LOGS,
        SUBSPACE_IN_MEMORY_COUNTER,
        SUBSPACE_IN_MEMORY_VALUE,
        SUBSPACE_COUNTER,
        SUBSPACE_PROPERTY,
        SUBSPACE_SETTINGS,
        SUBSPACE_QUEUE_MESSAGE,
        SUBSPACE_QUEUE_EVENT,
        SUBSPACE_QUOTA,
        SUBSPACE_REPORT_OUT,
        SUBSPACE_REPORT_IN,
        SUBSPACE_FTS_INDEX,
        SUBSPACE_TELEMETRY_SPAN,
        SUBSPACE_TELEMETRY_INDEX,
        SUBSPACE_TELEMETRY_METRIC,
    ]
}

/// No two record kinds share a subspace tag.
pub proof fn lemma_subspaces_distinct()
    ensures
        all_subspaces().no_duplicates(),
{
    let s = all_subspaces();
    assert forall|i: int, j: int| 0 <= i < s.len() && 0 <= j < s.len() && i != j implies s[i]
        != s[j] by {
        assert(s[i] == all_subspaces()[i]);
    }
}

} // verus!
