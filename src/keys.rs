//! The keys handed to the store: each names its subspace and serializes to the
//! bytes of its fields, optionally led by the subspace byte.

use vstd::prelude::*;
use crate::bitmap::BitmapClass;
use crate::classes::{BlobOp, DirectoryClass, ValueClass};
use crate::layout::{encode_fields, key_bytes, Field, WITH_SUBSPACE};
use crate::serializer::KeySerializer;
use crate::subspace::{SUBSPACE_INDEXES, SUBSPACE_LOGS, U32_LEN, U64_LEN};

verus! {

broadcast use crate::layout::lemma_encode_fields_small;

/// A record key: what a storage adapter needs to address it.
pub trait Key {
    /// The subspace the key lives in.
    spec fn spec_subspace(&self) -> u8;

    /// The key-forming fields, in the order they are written.
    spec fn spec_fields(&self) -> Seq<Field>;

    /// The subspace the key lives in.
    fn subspace(&self) -> (r: u8)
        ensures
            r == self.spec_subspace(),
    ;

    /// The key's bytes: the subspace byte when `flags` holds `WITH_SUBSPACE`,
    /// then the fields.
    fn serialize(&self, flags: u32) -> (r: Vec<u8>)
        ensures
            r@ == key_bytes(self.spec_subspace(), self.spec_fields(), flags),
    ;
}

/// The key of a value record of a document.
#[derive(Debug, Clone, PartialEq, Eq, Hash)]
pub struct ValueKey {
    pub account_id: u32,
    pub collection: u8,
    pub document_id: u32,
    pub class: ValueClass,
}

/// The key of a bitmap of a collection.
#[derive(Debug, Clone, PartialEq, Eq, Hash)]
pub struct BitmapKey {
    pub account_id: u32,
    pub collection: u8,
    pub document_id: u32,
    pub class: BitmapClass,
}

/// The key of an index entry: a document under an indexed value of a field.
#[derive(Debug, Clone, PartialEq, Eq, Hash)]
pub struct IndexKey {
    pub account_id: u32,
    pub collection: u8,
    pub document_id: u32,
    pub field: u8,
    pub key: Vec<u8>,
}

/// The start of every index key of one field of a collection.
#[derive(Debug, Clone, Copy, PartialEq, Eq, Hash)]
pub struct IndexKeyPrefix {
    pub account_id: u32,
    pub collection: u8,
    pub field: u8,
}

/// The key of a change-log entry.
#[derive(Debug, Clone, Copy, PartialEq, Eq, Hash)]
pub struct LogKey {
    pub account_id: u32,
    pub collection: u8,
    pub change_id: u64,
}

/// A raw key in a subspace chosen by the caller.
#[derive(Debug, Clone, PartialEq, Eq, Hash)]
pub struct AnyKey {
    pub subspace: u8,
    pub key: Vec<u8>,
}

impl ValueKey {
    /// The key of property `field` of a document.
    pub fn property(account_id: u32, collection: u8, document_id: u32, field: u8) -> (r: ValueKey)
        ensures
            r == (ValueKey {
                account_id,
                collection,
                document_id,
                class: ValueClass::Property(field),
            }),
    {
        ValueKey { account_id, collection, document_id, class: ValueClass::Property(field) }
    }

    /// The same key for another document.
    pub fn with_document_id(self, document_id: u32) -> (r: Self)
        ensures
            r == (ValueKey { document_id, ..self }),
    {
        ValueKey { document_id, ..self }
    }

    /// Whether the value under this key is an atomic counter.
    pub fn is_counter(&self) -> (r: bool)
        ensures
            r == self.class.spec_is_counter(self.collection),
    {
        self.class.is_counter(self.collection)
    }
}

impl Key for ValueKey {
    open spec fn spec_subspace(&self) -> u8 {
        self.class.spec_subspace(self.collection)
    }

    open spec fn spec_fields(&self) -> Seq<Field> {
        self.class.fields(self.account_id, self.collection, self.document_id)
    }

    fn subspace(&self) -> (r: u8) {
        self.class.subspace(self.collection)
    }

    fn serialize(&self, flags: u32) -> (r: Vec<u8>) {
        self.class.serialize(self.account_id, self.collection, self.document_id, flags)
    }
}

impl Key for BitmapKey {
    open spec fn spec_subspace(&self) -> u8 {
        self.class.spec_subspace()
    }

    open spec fn spec_fields(&self) -> Seq<Field> {
        self.class.fields(self.account_id, self.collection, self.document_id)
    }

    fn subspace(&self) -> (r: u8) {
        self.class.subspace()
    }

    fn serialize(&self, flags: u32) -> (r: Vec<u8>) {
        self.class.serialize(self.account_id, self.collection, self.document_id, flags)
    }
}

impl IndexKeyPrefix {
    /// The length of the prefix without the subspace byte.
    pub fn len() -> (r: usize)
        ensures
            r == 6,
    {
        U32_LEN + 2
    }
}

impl Key for IndexKeyPrefix {
    open spec fn spec_subspace(&self) -> u8 {
        SUBSPACE_INDEXES
    }

    open spec fn spec_fields(&self) -> Seq<Field> {
        seq![Field::Int(self.account_id), Field::Byte(self.collection), Field::Byte(self.field)]
    }

    fn subspace(&self) -> (r: u8) {
        SUBSPACE_INDEXES
    }

    fn serialize(&self, flags: u32) -> (r: Vec<u8>) {
        let s = if (flags & WITH_SUBSPACE) != 0 {
            KeySerializer::new(IndexKeyPrefix::len() + 1).write(SUBSPACE_INDEXES)
        } else {
            KeySerializer::new(IndexKeyPrefix::len())
        };
        let ghost pre = s.buf@;
        let r = s.write(self.account_id).write(self.collection).write(self.field).finalize();
        assert(r@ =~= pre + encode_fields(self.spec_fields()));
        assert(key_bytes(SUBSPACE_INDEXES, self.spec_fields(), flags) =~= pre + encode_fields(
            self.spec_fields(),
        ));
        r
    }
}

impl Key for LogKey {
    open spec fn spec_subspace(&self) -> u8 {
        SUBSPACE_LOGS
    }

    open spec fn spec_fields(&self) -> Seq<Field> {
        seq![
            Field::Int(self.account_id),
            Field::Byte(self.collection),
            Field::Long(self.change_id),
        ]
    }

    fn subspace(&self) -> (r: u8) {
        SUBSPACE_LOGS
    }

    fn serialize(&self, flags: u32) -> (r: Vec<u8>) {
        let s = if (flags & WITH_SUBSPACE) != 0 {
            KeySerializer::new(U32_LEN + U64_LEN + 2).write(SUBSPACE_LOGS)
        } else {
            KeySerializer::new(U32_LEN + U64_LEN + 1)
        };
        let ghost pre = s.buf@;
        let r = s.write(self.account_id).write(self.collection).write(self.change_id).finalize();
        assert(r@ =~= pre + encode_fields(self.spec_fields()));
        assert(key_bytes(SUBSPACE_LOGS, self.spec_fields(), flags) =~= pre + encode_fields(
            self.spec_fields(),
        ));
        r
    }
}

impl Key for IndexKey {
    open spec fn spec_subspace(&self) -> u8 {
        SUBSPACE_INDEXES
    }

    open spec fn spec_fields(&self) -> Seq<Field> {
        seq![
            Field::Int(self.account_id),
            Field::Byte(self.collection),
            Field::Byte(self.field),
            Field::Bytes(self.key@),
            Field::Int(self.document_id),
        ]
    }

    fn subspace(&self) -> (r: u8) {
        SUBSPACE_INDEXES
    }

    fn serialize(&self, flags: u32) -> (r: Vec<u8>) {
        let key: &[u8] = self.key.as_slice();
        let s = if (flags & WITH_SUBSPACE) != 0 {
            KeySerializer::new(key.len().saturating_add(U32_LEN * 2 + 3)).write(SUBSPACE_INDEXES)
        } else {
            KeySerializer::new(key.len().saturating_add(U32_LEN * 2 + 2))
        };
        let ghost pre = s.buf@;
        let r = s.write(self.account_id).write(self.collection).write(self.field).write(key).write(
            self.document_id,
        ).finalize();
        assert(r@ =~= pre + encode_fields(self.spec_fields()));
        assert(key_bytes(SUBSPACE_INDEXES, self.spec_fields(), flags) =~= pre + encode_fields(
            self.spec_fields(),
        ));
        r
    }
}

impl Key for AnyKey {
    open spec fn spec_subspace(&self) -> u8 {
        self.subspace
    }

    open spec fn spec_fields(&self) -> Seq<Field> {
        seq![Field::Bytes(self.key@)]
    }

    fn subspace(&self) -> (r: u8) {
        self.subspace
    }

    fn serialize(&self, flags: u32) -> (r: Vec<u8>) {
        let key: &[u8] = self.key.as_slice();
        let s = if (flags & WITH_SUBSPACE) != 0 {
            KeySerializer::new(key.len().saturating_add(1)).write(self.subspace)
        } else {
            KeySerializer::new(key.len())
        };
        let ghost pre = s.buf@;
        let r = s.write(key).finalize();
        assert(r@ =~= pre + encode_fields(self.spec_fields()));
        assert(key_bytes(self.subspace, self.spec_fields(), flags) =~= pre + encode_fields(
            self.spec_fields(),
        ));
        r
    }
}

impl From<ValueClass> for ValueKey {
    /// A key of the class alone, with zero account, collection and document.
    fn from(class: ValueClass) -> (r: Self) {
        ValueKey { account_id: 0, collection: 0, document_id: 0, class }
    }
}

impl vstd::std_specs::convert::FromSpecImpl<ValueClass> for ValueKey {
    open spec fn obeys_from_spec() -> bool {
        true
    }

    open spec fn from_spec(class: ValueClass) -> ValueKey {
        ValueKey { account_id: 0, collection: 0, document_id: 0, class }
    }
}

impl From<DirectoryClass> for ValueKey {
    /// A key of a directory record, with zero account, collection and document.
    fn from(value: DirectoryClass) -> (r: Self) {
        ValueKey { account_id: 0, collection: 0, document_id: 0, class: ValueClass::Directory(value) }
    }
}

impl vstd::std_specs::convert::FromSpecImpl<DirectoryClass> for ValueKey {
    open spec fn obeys_from_spec() -> bool {
        true
    }

    open spec fn from_spec(value: DirectoryClass) -> ValueKey {
        ValueKey { account_id: 0, collection: 0, document_id: 0, class: ValueClass::Directory(value) }
    }
}

impl From<DirectoryClass> for ValueClass {
    fn from(value: DirectoryClass) -> (r: Self) {
        ValueClass::Directory(value)
    }
}

impl vstd::std_specs::convert::FromSpecImpl<DirectoryClass> for ValueClass {
    open spec fn obeys_from_spec() -> bool {
        true
    }

    open spec fn from_spec(value: DirectoryClass) -> ValueClass {
        ValueClass::Directory(value)
    }
}

impl From<BlobOp> for ValueClass {
    fn from(value: BlobOp) -> (r: Self) {
        ValueClass::Blob(value)
    }
}

impl vstd::std_specs::convert::FromSpecImpl<BlobOp> for ValueClass {
    open spec fn obeys_from_spec() -> bool {
        true
    }

    open spec fn from_spec(value: BlobOp) -> ValueClass {
        ValueClass::Blob(value)
    }
}

} // verus!
