//! Byte encodings used by the keys: big-endian integers, LEB128, and the
//! lexicographic order of byte strings.

use vstd::prelude::*;

verus! {

/// Big-endian bytes of a 16-bit integer.
pub open spec fn be16(x: u16) -> Seq<u8> {
    seq![(x >> 8u16) as u8, x as u8]
}

/// Big-endian bytes of a 32-bit integer.
pub open spec fn be32(x: u32) -> Seq<u8> {
    seq![(x >> 24u32) as u8, (x >> 16u32) as u8, (x >> 8u32) as u8, x as u8]
}

/// Big-endian bytes of a 64-bit integer.
pub open spec fn be64(x: u64) -> Seq<u8> {
    seq![
        (x >> 56u64) as u8,
        (x >> 48u64) as u8,
        (x >> 40u64) as u8,
        (x >> 32u64) as u8,
        (x >> 24u64) as u8,
        (x >> 16u64) as u8,
        (x >> 8u64) as u8,
        x as u8,
    ]
}

/// The integer that two bytes spell in big-endian order.
pub open spec fn be16_value(s: Seq<u8>) -> u16 {
    ((s[0] as u16) << 8u16) | (s[1] as u16)
}

/// The integer that four bytes spell in big-endian order.
pub open spec fn be32_value(s: Seq<u8>) -> u32 {
    ((s[0] as u32) << 24u32) | ((s[1] as u32) << 16u32) | ((s[2] as u32) << 8u32) | (s[3] as u32)
}

/// The integer that eight bytes spell in big-endian order.
pub open spec fn be64_value(s: Seq<u8>) -> u64 {
    ((s[0] as u64) << 56u64) | ((s[1] as u64) << 48u64) | ((s[2] as u64) << 40u64) | ((
    s[3] as u64) << 32u64) | ((s[4] as u64) << 24u64) | ((s[5] as u64) << 16u64) | ((
    s[6] as u64) << 8u64) | (s[7] as u64)
}

/// Unsigned LEB128: seven bits per byte, the least significant group first,
/// the high bit set on every byte but the last.
pub open spec fn leb128(x: nat) -> Seq<u8>
    decreases x,
{
    if x < 0x80 {
        seq![x as u8]
    } else {
        seq![(x % 0x80 + 0x80) as u8] + leb128(x / 0x80)
    }
}

/// The length of a LEB128 encoding by the size of the value: one byte for
/// each started group of seven bits.
pub proof fn lemma_leb128_len(x: nat)
    ensures
        leb128(x).len() >= 1,
        leb128(x).len() <= 1 <==> x < 0x80,
        leb128(x).len() <= 2 <==> x < 0x4000,
        leb128(x).len() <= 3 <==> x < 0x20_0000,
        leb128(x).len() <= 4 <==> x < 0x1000_0000,
        leb128(x).len() <= 5 <==> x < 0x8_0000_0000,
        leb128(x).len() <= 6 <==> x < 0x400_0000_0000,
        leb128(x).len() <= 7 <==> x < 0x2_0000_0000_0000,
        leb128(x).len() <= 8 <==> x < 0x100_0000_0000_0000,
        leb128(x).len() <= 9 <==> x < 0x8000_0000_0000_0000,
        leb128(x).len() <= 10 <==> x < 0x40_0000_0000_0000_0000,
    decreases x,
{
    if x >= 0x80 {
        lemma_leb128_len(x / 0x80);
        assert(leb128(x).len() == 1 + leb128(x / 0x80).len());
    }
}

/// The number of bytes `push_leb128` appends for `x`.
pub fn leb128_len(x: u64) -> (r: usize)
    ensures
        r == leb128(x as nat).len(),
        1 <= r <= 10,
{
    proof {
        lemma_leb128_len(x as nat);
    }
    if x < 0x80 {
        1
    } else if x < 0x4000 {
        2
    } else if x < 0x20_0000 {
        3
    } else if x < 0x1000_0000 {
        4
    } else if x < 0x8_0000_0000 {
        5
    } else if x < 0x400_0000_0000 {
        6
    } else if x < 0x2_0000_0000_0000 {
        7
    } else if x < 0x100_0000_0000_0000 {
        8
    } else if x < 0x8000_0000_0000_0000 {
        9
    } else {
        10
    }
}

/// `a` sorts strictly before `b`, comparing byte by byte; a proper prefix sorts first.
pub open spec fn lex_lt(a: Seq<u8>, b: Seq<u8>) -> bool
    decreases a.len(),
{
    if a.len() == 0 {
        b.len() > 0
    } else if b.len() == 0 {
        false
    } else {
        a[0] < b[0] || (a[0] == b[0] && lex_lt(a.drop_first(), b.drop_first()))
    }
}

/// `a` sorts before `b` or equals it.
pub open spec fn lex_le(a: Seq<u8>, b: Seq<u8>) -> bool {
    a == b || lex_lt(a, b)
}

/// The first position where two byte strings differ decides their order.
pub proof fn lemma_lex_first_difference(a: Seq<u8>, b: Seq<u8>, i: int)
    requires
        0 <= i < a.len(),
        i < b.len(),
        forall|j: int| 0 <= j < i ==> a[j] == b[j],
        a[i] < b[i],
    ensures
        lex_lt(a, b),
    decreases i,
{
    if i > 0 {
        assert(a[0] == b[0]);
        lemma_lex_first_difference(a.drop_first(), b.drop_first(), i - 1);
    }
}

/// Order between heads of equal length decides the order of what they start.
pub proof fn lemma_lex_append(a1: Seq<u8>, a2: Seq<u8>, b1: Seq<u8>, b2: Seq<u8>)
    requires
        a1.len() == b1.len(),
        lex_lt(a1, b1),
    ensures
        lex_lt(a1 + a2, b1 + b2),
    decreases a1.len(),
{
    assert((a1 + a2).drop_first() =~= a1.drop_first() + a2);
    assert((b1 + b2).drop_first() =~= b1.drop_first() + b2);
    if a1[0] == b1[0] {
        lemma_lex_append(a1.drop_first(), a2, b1.drop_first(), b2);
    }
}

/// A common head leaves the order of the tails unchanged.
pub proof fn lemma_lex_common_head(p: Seq<u8>, a: Seq<u8>, b: Seq<u8>)
    requires
        lex_lt(a, b),
    ensures
        lex_lt(p + a, p + b),
    decreases p.len(),
{
    if p.len() == 0 {
        assert(p + a =~= a);
        assert(p + b =~= b);
    } else {
        assert((p + a).drop_first() =~= p.drop_first() + a);
        assert((p + b).drop_first() =~= p.drop_first() + b);
        lemma_lex_common_head(p.drop_first(), a, b);
    }
}

/// The order is transitive.
pub proof fn lemma_lex_transitive(a: Seq<u8>, b: Seq<u8>, c: Seq<u8>)
    requires
        lex_lt(a, b),
        lex_lt(b, c),
    ensures
        lex_lt(a, c),
    decreases a.len(),
{
    if a.len() > 0 && a[0] == b[0] && b[0] == c[0] {
        lemma_lex_transitive(a.drop_first(), b.drop_first(), c.drop_first());
    }
}

/// No byte string sorts before itself.
pub proof fn lemma_lex_irreflexive(a: Seq<u8>)
    ensures
        !lex_lt(a, a),
    decreases a.len(),
{
    if a.len() > 0 {
        lemma_lex_irreflexive(a.drop_first());
    }
}

/// `n` copies of byte `b`.
pub open spec fn filled(n: nat, b: u8) -> Seq<u8> {
    Seq::new(n, |i: int| b)
}

/// Nothing sorts after a run of `0xff` bytes of the same length.
pub proof fn lemma_lex_le_max(s: Seq<u8>)
    ensures
        lex_le(s, filled(s.len(), 0xff)),
    decreases s.len(),
{
    let m = filled(s.len(), 0xff);
    if s.len() == 0 {
        assert(s =~= m);
    } else if s[0] == 0xff {
        lemma_lex_le_max(s.drop_first());
        assert(m.drop_first() =~= filled((s.len() - 1) as nat, 0xff));
        if s.drop_first() == m.drop_first() {
            assert forall|i: int| 0 <= i < s.len() implies s[i] == m[i] by {
                if i > 0 {
                    assert(s[i] == s.drop_first()[i - 1]);
                    assert(m[i] == m.drop_first()[i - 1]);
                }
            }
            assert(s =~= m);
        }
    }
}

/// Nothing sorts before a run of zero bytes of the same length.
pub proof fn lemma_lex_le_min(s: Seq<u8>)
    ensures
        lex_le(filled(s.len(), 0), s),
    decreases s.len(),
{
    let m = filled(s.len(), 0);
    if s.len() == 0 {
        assert(s =~= m);
    } else if s[0] == 0 {
        lemma_lex_le_min(s.drop_first());
        assert(m.drop_first() =~= filled((s.len() - 1) as nat, 0));
        if s.drop_first() == m.drop_first() {
            assert forall|i: int| 0 <= i < s.len() implies s[i] == m[i] by {
                if i > 0 {
                    assert(s[i] == s.drop_first()[i - 1]);
                    assert(m[i] == m.drop_first()[i - 1]);
                }
            }
            assert(s =~= m);
        }
    }
}

/// The largest 64-bit integer is eight `0xff` bytes.
pub proof fn lemma_be64_max()
    ensures
        be64(u64::MAX) == filled(8, 0xff),
{
    let x = u64::MAX;
    assert((x >> 56u64) as u8 == 0xff && (x >> 48u64) as u8 == 0xff && (x >> 40u64) as u8 == 0xff
        && (x >> 32u64) as u8 == 0xff && (x >> 24u64) as u8 == 0xff && (x >> 16u64) as u8 == 0xff
        && (x >> 8u64) as u8 == 0xff && x as u8 == 0xff) by (bit_vector)
        requires
            x == 0xffff_ffff_ffff_ffffu64,
    ;
    assert(be64(u64::MAX) =~= filled(8, 0xff));
}

/// Big-endian encoding preserves the order of 16-bit integers.
pub proof fn lemma_be16_order(x: u16, y: u16)
    requires
        x < y,
    ensures
        lex_lt(be16(x), be16(y)),
{
    let hx = (x >> 8u16) as u8;
    let hy = (y >> 8u16) as u8;
    assert(hx < hy || (hx == hy && (x as u8) < (y as u8))) by (bit_vector)
        requires
            x < y,
            hx == (x >> 8u16) as u8,
            hy == (y >> 8u16) as u8,
    ;
    if hx < hy {
        lemma_lex_first_difference(be16(x), be16(y), 0);
    } else {
        lemma_lex_first_difference(be16(x), be16(y), 1);
    }
}

/// Four big-endian bytes are the bytes of the two halves.
pub proof fn lemma_be32_halves(x: u32)
    ensures
        be32(x) == be16((x >> 16u32) as u16) + be16(x as u16),
{
    let h = (x >> 16u32) as u16;
    let l = x as u16;
    assert((h >> 8u16) as u8 == (x >> 24u32) as u8 && h as u8 == (x >> 16u32) as u8 && (l
        >> 8u16) as u8 == (x >> 8u32) as u8 && l as u8 == x as u8) by (bit_vector)
        requires
            h == (x >> 16u32) as u16,
            l == x as u16,
    ;
    assert(be32(x) =~= be16(h) + be16(l));
}

/// Eight big-endian bytes are the bytes of the two halves.
pub proof fn lemma_be64_halves(x: u64)
    ensures
        be64(x) == be32((x >> 32u64) as u32) + be32(x as u32),
{
    let h = (x >> 32u64) as u32;
    let l = x as u32;
    assert((h >> 24u32) as u8 == (x >> 56u64) as u8 && (h >> 16u32) as u8 == (x >> 48u64) as u8
        && (h >> 8u32) as u8 == (x >> 40u64) as u8 && h as u8 == (x >> 32u64) as u8 && (l
        >> 24u32) as u8 == (x >> 24u64) as u8 && (l >> 16u32) as u8 == (x >> 16u64) as u8 && (l
        >> 8u32) as u8 == (x >> 8u64) as u8 && l as u8 == x as u8) by (bit_vector)
        requires
            h == (x >> 32u64) as u32,
            l == x as u32,
    ;
    assert(be64(x) =~= be32(h) + be32(l));
}

/// Big-endian encoding preserves the order of 32-bit integers.
pub proof fn lemma_be32_order(x: u32, y: u32)
    requires
        x < y,
    ensures
        lex_lt(be32(x), be32(y)),
{
    let hx = (x >> 16u32) as u16;
    let hy = (y >> 16u32) as u16;
    let lx = x as u16;
    let ly = y as u16;
    assert(hx < hy || (hx == hy && lx < ly)) by (bit_vector)
        requires
            x < y,
            hx == (x >> 16u32) as u16,
            hy == (y >> 16u32) as u16,
            lx == x as u16,
            ly == y as u16,
    ;
    lemma_be32_halves(x);
    lemma_be32_halves(y);
    if hx < hy {
        lemma_be16_order(hx, hy);
        lemma_lex_append(be16(hx), be16(lx), be16(hy), be16(ly));
    } else {
        lemma_be16_order(lx, ly);
        lemma_lex_common_head(be16(hx), be16(lx), be16(ly));
    }
}

/// Big-endian encoding preserves the order of 64-bit integers.
pub proof fn lemma_be64_order(x: u64, y: u64)
    requires
        x < y,
    ensures
        lex_lt(be64(x), be64(y)),
{
    let hx = (x >> 32u64) as u32;
    let hy = (y >> 32u64) as u32;
    let lx = x as u32;
    let ly = y as u32;
    assert(hx < hy || (hx == hy && lx < ly)) by (bit_vector)
        requires
            x < y,
            hx == (x >> 32u64) as u32,
            hy == (y >> 32u64) as u32,
            lx == x as u32,
            ly == y as u32,
    ;
    lemma_be64_halves(x);
    lemma_be64_halves(y);
    if hx < hy {
        lemma_be32_order(hx, hy);
        lemma_lex_append(be32(hx), be32(lx), be32(hy), be32(ly));
    } else {
        lemma_be32_order(lx, ly);
        lemma_lex_common_head(be32(hx), be32(lx), be32(ly));
    }
}

/// Reading two big-endian bytes gives back the integer that wrote them.
pub proof fn lemma_be16_round_trip(x: u16)
    ensures
        be16_value(be16(x)) == x,
{
    assert(x == ((((x >> 8u16) as u8) as u16) << 8u16) | ((x as u8) as u16)) by (bit_vector);
}

/// Reading four big-endian bytes gives back the integer that wrote them.
pub proof fn lemma_be32_round_trip(x: u32)
    ensures
        be32_value(be32(x)) == x,
{
    assert(x == ((((x >> 24u32) as u8) as u32) << 24u32) | ((((x >> 16u32) as u8) as u32)
        << 16u32) | ((((x >> 8u32) as u8) as u32) << 8u32) | ((x as u8) as u32)) by (bit_vector);
}

/// Reading eight big-endian bytes gives back the integer that wrote them.
pub proof fn lemma_be64_round_trip(x: u64)
    ensures
        be64_value(be64(x)) == x,
{
    assert(x == ((((x >> 56u64) as u8) as u64) << 56u64) | ((((x >> 48u64) as u8) as u64)
        << 48u64) | ((((x >> 40u64) as u8) as u64) << 40u64) | ((((x >> 32u64) as u8) as u64)
        << 32u64) | ((((x >> 24u64) as u8) as u64) << 24u64) | ((((x >> 16u64) as u8) as u64)
        << 16u64) | ((((x >> 8u64) as u8) as u64) << 8u64) | ((x as u8) as u64)) by (bit_vector);
}

/// Appends the big-endian bytes of `x`.
pub fn push_be16(buf: &mut Vec<u8>, x: u16)
    ensures
        final(buf)@ == old(buf)@ + be16(x),
{
    buf.push((x >> 8u16) as u8);
    buf.push(x as u8);
    assert(buf@ =~= old(buf)@ + be16(x));
}

/// Appends the big-endian bytes of `x`.
pub fn push_be32(buf: &mut Vec<u8>, x: u32)
    ensures
        final(buf)@ == old(buf)@ + be32(x),
{
    buf.push((x >> 24u32) as u8);
    buf.push((x >> 16u32) as u8);
    buf.push((x >> 8u32) as u8);
    buf.push(x as u8);
    assert(buf@ =~= old(buf)@ + be32(x));
}

/// Appends the big-endian bytes of `x`.
pub fn push_be64(buf: &mut Vec<u8>, x: u64)
    ensures
        final(buf)@ == old(buf)@ + be64(x),
{
    buf.push((x >> 56u64) as u8);
    buf.push((x >> 48u64) as u8);
    buf.push((x >> 40u64) as u8);
    buf.push((x >> 32u64) as u8);
    buf.push((x >> 24u64) as u8);
    buf.push((x >> 16u64) as u8);
    buf.push((x >> 8u64) as u8);
    buf.push(x as u8);
    assert(buf@ =~= old(buf)@ + be64(x));
}

/// Appends the LEB128 bytes of `x`.
pub fn push_leb128(buf: &mut Vec<u8>, x: u64)
    ensures
        final(buf)@ == old(buf)@ + leb128(x as nat),
{
    let mut v: u64 = x;
    while v >= 0x80
        invariant
            buf@ + leb128(v as nat) == old(buf)@ + leb128(x as nat),
        decreases v,
    {
        let byte: u8 = ((v & 0x7f) | 0x80) as u8;
        let next: u64 = v >> 7u64;
        assert(byte == (v % 0x80 + 0x80) as u8 && next == v / 0x80 && next < v) by (bit_vector)
            requires
                v >= 0x80,
                byte == ((v & 0x7f) | 0x80) as u8,
                next == v >> 7u64,
        ;
        let ghost before = buf@;
        buf.push(byte);
        assert(leb128(v as nat) == seq![byte] + leb128(next as nat));
        assert(buf@ + leb128(next as nat) =~= before + (seq![byte] + leb128(next as nat)));
        v = next;
    }
    buf.push(v as u8);
    assert(leb128(v as nat) == seq![v as u8]);
    assert(buf@ =~= old(buf)@ + leb128(x as nat));
}

} // verus!
