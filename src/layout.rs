//! The abstract layout of a key: a tuple of typed fields, each with a fixed
//! byte encoding, optionally led by a subspace byte.

use vstd::prelude::*;
use crate::encoding::{
    be16, be32, be64, lex_lt, lemma_be16_order, lemma_be32_order, lemma_be64_order,
    lemma_lex_append, lemma_lex_common_head, lemma_lex_first_difference,
};

verus! {

/// The flag that asks `serialize` to lead the key with its subspace byte.
pub const WITH_SUBSPACE: u32 = 1;

/// Whether `flags` asks for the leading subspace byte.
pub open spec fn with_subspace(flags: u32) -> bool {
    flags & WITH_SUBSPACE != 0
}

/// `WITH_SUBSPACE` asks for the subspace byte; no flags ask for none.
pub proof fn lemma_flags()
    ensures
        with_subspace(WITH_SUBSPACE),
        !with_subspace(0),
{
    assert(1u32 & 1u32 != 0u32) by (bit_vector);
    assert(0u32 & 1u32 == 0u32) by (bit_vector);
}

/// One key-forming field, as it is written: integers big-endian, byte strings raw.
pub enum Field {
    Byte(u8),
    Word(u16),
    Int(u32),
    Long(u64),
    Bytes(Seq<u8>),
}

impl Field {
    /// The bytes that stand for this field in a key.
    pub open spec fn bytes(self) -> Seq<u8> {
        match self {
            Field::Byte(b) => seq![b],
            Field::Word(w) => be16(w),
            Field::Int(i) => be32(i),
            Field::Long(l) => be64(l),
            Field::Bytes(s) => s,
        }
    }
}

/// The fields' bytes, one after the other.
pub open spec fn encode_fields(fields: Seq<Field>) -> Seq<u8>
    decreases fields.len(),
{
    if fields.len() == 0 {
        Seq::empty()
    } else {
        fields[0].bytes() + encode_fields(fields.drop_first())
    }
}

/// The serialized key: the subspace byte when `flags` asks for it, then the fields.
pub open spec fn key_bytes(subspace: u8, fields: Seq<Field>, flags: u32) -> Seq<u8> {
    if with_subspace(flags) {
        seq![subspace] + encode_fields(fields)
    } else {
        encode_fields(fields)
    }
}

/// One more field appends its bytes.
pub broadcast proof fn lemma_encode_fields_push(fields: Seq<Field>, f: Field)
    ensures
        #[trigger] encode_fields(fields.push(f)) == encode_fields(fields) + f.bytes(),
    decreases fields.len(),
{
    if fields.len() == 0 {
        assert(fields.push(f).drop_first() =~= Seq::<Field>::empty());
        assert(fields.push(f)[0] == f);
        assert(encode_fields(Seq::<Field>::empty()) =~= Seq::<u8>::empty());
        assert(fields =~= Seq::<Field>::empty());
        assert(encode_fields(fields.push(f)) =~= encode_fields(fields) + f.bytes());
    } else {
        assert(fields.push(f).drop_first() =~= fields.drop_first().push(f));
        lemma_encode_fields_push(fields.drop_first(), f);
        assert(encode_fields(fields.push(f)) =~= encode_fields(fields) + f.bytes());
    }
}

/// The bytes of a short field tuple, spelled out.
pub broadcast proof fn lemma_encode_fields_small(fields: Seq<Field>)
    ensures
        fields.len() == 0 ==> #[trigger] encode_fields(fields) == Seq::<u8>::empty(),
        fields.len() == 1 ==> encode_fields(fields) == fields[0].bytes(),
        fields.len() == 2 ==> encode_fields(fields) == fields[0].bytes() + fields[1].bytes(),
        fields.len() == 3 ==> encode_fields(fields) == fields[0].bytes() + fields[1].bytes()
            + fields[2].bytes(),
        fields.len() == 4 ==> encode_fields(fields) == fields[0].bytes() + fields[1].bytes()
            + fields[2].bytes() + fields[3].bytes(),
        fields.len() == 5 ==> encode_fields(fields) == fields[0].bytes() + fields[1].bytes()
            + fields[2].bytes() + fields[3].bytes() + fields[4].bytes(),
        fields.len() == 6 ==> encode_fields(fields) == fields[0].bytes() + fields[1].bytes()
            + fields[2].bytes() + fields[3].bytes() + fields[4].bytes() + fields[5].bytes(),
    decreases fields.len(),
{
    if fields.len() > 0 {
        let rest = fields.drop_first();
        lemma_encode_fields_small(rest);
        let b = |i: int| fields[i].bytes();
        assert(encode_fields(fields) == b(0) + encode_fields(rest));
        if fields.len() == 1 {
            assert(b(0) + encode_fields(rest) =~= b(0));
        } else if fields.len() == 2 {
            assert(rest[0] == fields[1]);
        } else if fields.len() == 3 {
            assert(rest[0] == fields[1] && rest[1] == fields[2]);
            assert(b(0) + (b(1) + b(2)) =~= b(0) + b(1) + b(2));
        } else if fields.len() == 4 {
            assert(rest[0] == fields[1] && rest[1] == fields[2] && rest[2] == fields[3]);
            assert(b(0) + (b(1) + b(2) + b(3)) =~= b(0) + b(1) + b(2) + b(3));
        } else if fields.len() == 5 {
            assert(rest[0] == fields[1] && rest[1] == fields[2] && rest[2] == fields[3] && rest[3]
                == fields[4]);
            assert(b(0) + (b(1) + b(2) + b(3) + b(4)) =~= b(0) + b(1) + b(2) + b(3) + b(4));
        } else if fields.len() == 6 {
            assert(rest[0] == fields[1] && rest[1] == fields[2] && rest[2] == fields[3] && rest[3]
                == fields[4] && rest[4] == fields[5]);
            assert(b(0) + (b(1) + b(2) + b(3) + b(4) + b(5)) =~= b(0) + b(1) + b(2) + b(3) + b(4)
                + b(5));
        }
    }
}

/// The bytes of two field tuples in a row are the bytes of their concatenation.
pub proof fn lemma_encode_fields_concat(a: Seq<Field>, b: Seq<Field>)
    ensures
        encode_fields(a + b) == encode_fields(a) + encode_fields(b),
    decreases b.len(),
{
    if b.len() == 0 {
        assert(a + b =~= a);
        assert(encode_fields(a) + encode_fields(b) =~= encode_fields(a));
    } else {
        let init = b.drop_last();
        let f = b.last();
        assert(b =~= init.push(f));
        assert(a + b =~= (a + init).push(f));
        lemma_encode_fields_concat(a, init);
        lemma_encode_fields_push(a + init, f);
        lemma_encode_fields_push(init, f);
        assert(encode_fields(a + b) =~= encode_fields(a) + encode_fields(b));
    }
}

/// Order of single fields of one kind: integers by value, byte strings
/// lexicographically.
pub open spec fn field_lt(a: Field, b: Field) -> bool {
    match (a, b) {
        (Field::Byte(x), Field::Byte(y)) => x < y,
        (Field::Word(x), Field::Word(y)) => x < y,
        (Field::Int(x), Field::Int(y)) => x < y,
        (Field::Long(x), Field::Long(y)) => x < y,
        (Field::Bytes(x), Field::Bytes(y)) => lex_lt(x, y),
        _ => false,
    }
}

/// Lexicographic order of field tuples, field by field in declared order.
pub open spec fn fields_lt(a: Seq<Field>, b: Seq<Field>) -> bool
    decreases a.len(),
{
    a.len() > 0 && b.len() > 0 && (field_lt(a[0], b[0]) || (a[0] == b[0] && fields_lt(
        a.drop_first(),
        b.drop_first(),
    )))
}

/// Two fields of one kind; byte strings of one length unless they come last.
pub open spec fn same_kind(a: Field, b: Field, last: bool) -> bool {
    match (a, b) {
        (Field::Byte(_), Field::Byte(_)) => true,
        (Field::Word(_), Field::Word(_)) => true,
        (Field::Int(_), Field::Int(_)) => true,
        (Field::Long(_), Field::Long(_)) => true,
        (Field::Bytes(x), Field::Bytes(y)) => last || x.len() == y.len(),
        _ => false,
    }
}

/// Two field tuples of one layout: as many fields, of the same kinds, with
/// byte strings of one length in every position but the last.
pub open spec fn same_layout(a: Seq<Field>, b: Seq<Field>) -> bool
    decreases a.len(),
{
    a.len() == b.len() && (a.len() > 0 ==> same_kind(a[0], b[0], a.len() == 1) && same_layout(
        a.drop_first(),
        b.drop_first(),
    ))
}

/// The encoding of a single field preserves its order.
pub proof fn lemma_field_order(a: Field, b: Field)
    requires
        field_lt(a, b),
    ensures
        lex_lt(a.bytes(), b.bytes()),
{
    match (a, b) {
        (Field::Byte(x), Field::Byte(y)) => {
            lemma_lex_first_difference(a.bytes(), b.bytes(), 0);
        },
        (Field::Word(x), Field::Word(y)) => {
            lemma_be16_order(x, y);
        },
        (Field::Int(x), Field::Int(y)) => {
            lemma_be32_order(x, y);
        },
        (Field::Long(x), Field::Long(y)) => {
            lemma_be64_order(x, y);
        },
        _ => {},
    }
}

/// Field tuples of one layout sort in byte order as they sort field by field.
pub proof fn lemma_fields_order(a: Seq<Field>, b: Seq<Field>)
    requires
        same_layout(a, b),
        fields_lt(a, b),
    ensures
        lex_lt(encode_fields(a), encode_fields(b)),
    decreases a.len(),
{
    let x = a[0];
    let y = b[0];
    let ra = encode_fields(a.drop_first());
    let rb = encode_fields(b.drop_first());
    if field_lt(x, y) {
        lemma_field_order(x, y);
        if x.bytes().len() == y.bytes().len() {
            lemma_lex_append(x.bytes(), ra, y.bytes(), rb);
        } else {
            assert(a.drop_first().len() == 0);
            assert(x.bytes() + ra =~= x.bytes());
            assert(y.bytes() + rb =~= y.bytes());
        }
    } else {
        lemma_fields_order(a.drop_first(), b.drop_first());
        lemma_lex_common_head(x.bytes(), ra, rb);
    }
}

} // verus!
