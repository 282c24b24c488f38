//! An append-only key builder with typed writers.

use vstd::prelude::*;
use vstd::utf8::encode_utf8;
use crate::encoding::{be16, be32, be64, leb128, push_be16, push_be32, push_be64, push_leb128};

verus! {

/// A value that can be appended to a key.
pub trait KeySerialize {
    /// The bytes that `serialize` appends.
    spec fn key_bytes(&self) -> Seq<u8>;

    /// Appends this value's bytes to `buf`.
    fn serialize(&self, buf: &mut Vec<u8>)
        ensures
            final(buf)@ == old(buf)@ + self.key_bytes(),
    ;
}

impl KeySerialize for u8 {
    open spec fn key_bytes(&self) -> Seq<u8> {
        seq![*self]
    }

    fn serialize(&self, buf: &mut Vec<u8>) {
        buf.push(*self);
        assert(buf@ =~= old(buf)@ + seq![*self]);
    }
}

impl KeySerialize for u16 {
    open spec fn key_bytes(&self) -> Seq<u8> {
        be16(*self)
    }

    fn serialize(&self, buf: &mut Vec<u8>) {
        push_be16(buf, *self);
    }
}

impl KeySerialize for u32 {
    open spec fn key_bytes(&self) -> Seq<u8> {
        be32(*self)
    }

    fn serialize(&self, buf: &mut Vec<u8>) {
        push_be32(buf, *self);
    }
}

impl KeySerialize for u64 {
    open spec fn key_bytes(&self) -> Seq<u8> {
        be64(*self)
    }

    fn serialize(&self, buf: &mut Vec<u8>) {
        push_be64(buf, *self);
    }
}

impl<'a> KeySerialize for &'a [u8] {
    open spec fn key_bytes(&self) -> Seq<u8> {
        self@
    }

    fn serialize(&self, buf: &mut Vec<u8>) {
        buf.extend_from_slice(*self);
        assert(buf@ =~= old(buf)@ + self@);
    }
}

impl<'a> KeySerialize for &'a str {
    open spec fn key_bytes(&self) -> Seq<u8> {
        encode_utf8(self@)
    }

    fn serialize(&self, buf: &mut Vec<u8>) {
        let bytes: &[u8] = self.as_bytes();
        buf.extend_from_slice(bytes);
        assert(buf@ =~= old(buf)@ + encode_utf8(self@));
    }
}

impl<'a> KeySerialize for &'a String {
    open spec fn key_bytes(&self) -> Seq<u8> {
        encode_utf8(self@)
    }

    fn serialize(&self, buf: &mut Vec<u8>) {
        let bytes: &[u8] = self.as_str().as_bytes();
        buf.extend_from_slice(bytes);
        assert(buf@ =~= old(buf)@ + encode_utf8(self@));
    }
}

/// Accumulates the bytes of a key.
pub struct KeySerializer {
    pub buf: Vec<u8>,
}

impl KeySerializer {
    /// An empty key, with room for `capacity` bytes.
    pub fn new(capacity: usize) -> (r: Self)
        ensures
            r.buf@ == Seq::<u8>::empty(),
    {
        KeySerializer { buf: Vec::with_capacity(capacity) }
    }

    /// Appends `value`.
    pub fn write<T: KeySerialize>(self, value: T) -> (r: Self)
        ensures
            r.buf@ == self.buf@ + value.key_bytes(),
    {
        let mut s = self;
        value.serialize(&mut s.buf);
        s
    }

    /// Appends `value` in LEB128.
    pub fn write_leb128(self, value: u64) -> (r: Self)
        ensures
            r.buf@ == self.buf@ + leb128(value as nat),
    {
        let mut s = self;
        push_leb128(&mut s.buf, value);
        s
    }

    /// The bytes written so far.
    pub fn finalize(self) -> (r: Vec<u8>)
        ensures
            r@ == self.buf@,
    {
        self.buf
    }
}

} // verus!
