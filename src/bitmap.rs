//! Bitmap classes: the keys of the per-collection document bitmaps, of tag
//! bitmaps and of text-token bitmaps.

use vstd::prelude::*;
use crate::classes::BitmapHash;
use crate::encoding::leb128;
use crate::layout::{encode_fields, key_bytes, lemma_encode_fields_concat, Field, WITH_SUBSPACE};
use crate::serializer::KeySerializer;
use crate::subspace::{SUBSPACE_BITMAP_ID, SUBSPACE_BITMAP_TAG, SUBSPACE_BITMAP_TEXT, U32_LEN};

verus! {

broadcast use crate::layout::lemma_encode_fields_small;

/// The high bit of a tag's field byte: set for a text tag, clear for an id tag.
pub const BM_MARKER: u8 = 0x80;

/// The value a tag bitmap is keyed by.
#[derive(Debug, Clone, PartialEq, Eq, Hash)]
pub enum TagValue {
    Id(u32),
    Text(Vec<u8>),
}

/// The kinds of bitmap.
#[derive(Debug, Clone, PartialEq, Eq, Hash)]
pub enum BitmapClass {
    DocumentIds,
    Tag { field: u8, value: TagValue },
    Text { field: u8, token: BitmapHash },
}

impl BitmapClass {
    /// The fields of the key of this bitmap, in the order they are written.
    pub open spec fn fields(self, account_id: u32, collection: u8, document_id: u32) -> Seq<Field> {
        match self {
            BitmapClass::DocumentIds => seq![
                Field::Int(account_id),
                Field::Byte(collection),
                Field::Int(document_id),
            ],
            BitmapClass::Tag { field, value: TagValue::Id(id) } => seq![
                Field::Int(account_id),
                Field::Byte(collection),
                Field::Byte(field),
                Field::Bytes(leb128(id as nat)),
                Field::Int(document_id),
            ],
            BitmapClass::Tag { field, value: TagValue::Text(text) } => seq![
                Field::Int(account_id),
                Field::Byte(collection),
                Field::Byte(field | BM_MARKER),
                Field::Bytes(text@),
                Field::Int(document_id),
            ],
            BitmapClass::Text { field, token } => seq![Field::Int(account_id)] + token.fields()
                + seq![Field::Byte(collection), Field::Byte(field), Field::Int(document_id)],
        }
    }

    /// The subspace of this bitmap's key.
    pub open spec fn spec_subspace(self) -> u8 {
        match self {
            BitmapClass::DocumentIds => SUBSPACE_BITMAP_ID,
            BitmapClass::Tag { .. } => SUBSPACE_BITMAP_TAG,
            BitmapClass::Text { .. } => SUBSPACE_BITMAP_TEXT,
        }
    }

    /// The subspace of this bitmap's key.
    pub fn subspace(&self) -> (r: u8)
        ensures
            r == self.spec_subspace(),
    {
        match self {
            BitmapClass::DocumentIds => SUBSPACE_BITMAP_ID,
            BitmapClass::Tag { .. } => SUBSPACE_BITMAP_TAG,
            BitmapClass::Text { .. } => SUBSPACE_BITMAP_TEXT,
        }
    }

    /// The key of this bitmap: the subspace byte when `flags` asks for it, then
    /// the bitmap's fields.
    pub fn serialize(&self, account_id: u32, collection: u8, document_id: u32, flags: u32) -> (r:
        Vec<u8>)
        ensures
            r@ == key_bytes(
                self.spec_subspace(),
                self.fields(account_id, collection, document_id),
                flags,
            ),
    {
        let with_subspace = (flags & WITH_SUBSPACE) != 0;
        let ghost fields = self.fields(account_id, collection, document_id);
        let ghost pre: Seq<u8> = if with_subspace {
            seq![self.spec_subspace()]
        } else {
            Seq::empty()
        };
        let serializer = match self {
            BitmapClass::DocumentIds => {
                let s = if with_subspace {
                    KeySerializer::new(U32_LEN + 2).write(SUBSPACE_BITMAP_ID)
                } else {
                    KeySerializer::new(U32_LEN + 1)
                };
                s.write(account_id).write(collection)
            },
            BitmapClass::Tag { field, value } => match value {
                TagValue::Id(id) => {
                    let s = if with_subspace {
                        KeySerializer::new((U32_LEN * 2) + 4).write(SUBSPACE_BITMAP_TAG)
                    } else {
                        KeySerializer::new((U32_LEN * 2) + 3)
                    };
                    s.write(account_id).write(collection).write(*field).write_leb128(*id as u64)
                },
                TagValue::Text(text) => {
                    let s = if with_subspace {
                        KeySerializer::new(text.len().saturating_add(U32_LEN + 4)).write(
                            SUBSPACE_BITMAP_TAG,
                        )
                    } else {
                        KeySerializer::new(text.len().saturating_add(U32_LEN + 3))
                    };
                    s.write(account_id).write(collection).write(*field | BM_MARKER).write::<
                        &[u8],
                    >(text.as_slice())
                },
            },
            BitmapClass::Text { field, token } => {
                let s = if with_subspace {
                    KeySerializer::new(U32_LEN + 16 + 3 + 1).write(SUBSPACE_BITMAP_TEXT)
                } else {
                    KeySerializer::new(U32_LEN + 16 + 3)
                };
                let ghost start = s.buf@;
                let s = token.write_into(s.write(account_id)).write(collection).write(*field);
                proof {
                    let head = seq![Field::Int(account_id)];
                    let tail = seq![Field::Byte(collection), Field::Byte(*field)];
                    lemma_encode_fields_concat(head, token.fields());
                    lemma_encode_fields_concat(head + token.fields(), tail);
                    assert(s.buf@ =~= start + encode_fields(head + token.fields() + tail));
                }
                s
            },
        };
        let r = serializer.write(document_id).finalize();
        proof {
            match self {
                BitmapClass::Text { field, token } => {
                    let head = seq![Field::Int(account_id)] + token.fields() + seq![
                        Field::Byte(collection),
                        Field::Byte(*field),
                    ];
                    lemma_encode_fields_concat(head, seq![Field::Int(document_id)]);
                    assert(fields =~= head + seq![Field::Int(document_id)]);
                },
                _ => {},
            }
        }
        assert(r@ =~= pre + encode_fields(fields));
        assert(key_bytes(self.spec_subspace(), fields, flags) =~= pre + encode_fields(fields));
        r
    }
}

} // verus!
