//! Key layer of a mail store: typed record identifiers encoded as ordered byte
//! keys, partitioned by a one-byte subspace.
//!
//! Every encoder states the exact bytes it produces as the encoding of a tuple
//! of typed fields (`layout`); the order, prefix, size and round-trip
//! properties of the keys are proved in `laws`.

pub mod subspace;
pub mod encoding;
pub mod layout;
pub mod serializer;
pub mod classes;
pub mod bitmap;
pub mod keys;
pub mod report;
pub mod laws;

pub use bitmap::{BitmapClass, TagValue};
pub use classes::{
    AnyClass, BitmapHash, BlobHash, BlobOp, DirectoryClass, InMemoryClass, QueueClass, QueueEvent,
    ReportClass, ReportEvent, TaskQueueClass, TelemetryClass, ValueClass,
};
pub use keys::{AnyKey, BitmapKey, IndexKey, IndexKeyPrefix, Key, LogKey, ValueKey};
pub use layout::WITH_SUBSPACE;
pub use report::{DeserializeBigEndian, Error, ReadSite};
pub use serializer::{KeySerialize, KeySerializer};
