//! Reading keys back: big-endian integer readers over byte slices, and the
//! decoder of report-event keys.

use vstd::prelude::*;
use vstd::slice::{slice_subrange, slice_to_vec};
use vstd::utf8::{decode_utf8, valid_utf8};
use crate::classes::ReportEvent;
use crate::encoding::{be16_value, be32_value, be64_value};
use crate::subspace::{U16_LEN, U32_LEN, U64_LEN};

verus! {

/// The read that found a key ill-formed.
#[derive(Debug, Clone, Copy, PartialEq, Eq, Hash)]
pub enum ReadSite {
    BigEndianU16,
    BigEndianU32,
    BigEndianU64,
    ReportDomain,
}

/// A failure to read a key back.
#[derive(Debug, Clone, PartialEq, Eq, Hash)]
pub enum Error {
    /// The bytes are too short, misaligned or not well-formed; `key` holds them.
    DataCorruption { site: ReadSite, key: Vec<u8> },
}

impl Error {
    /// The bytes that could not be read.
    pub open spec fn bytes(self) -> Seq<u8> {
        match self {
            Error::DataCorruption { key, .. } => key@,
        }
    }
}

/// Relies on `std::str::from_utf8`: it accepts exactly the well-formed UTF-8
/// byte strings, and the string it returns spells the characters they encode.
#[verifier::external_body]
fn utf8_str(bytes: &[u8]) -> (r: Option<&str>)
    ensures
        r is Some <==> valid_utf8(bytes@),
        r matches Some(s) ==> s@ == decode_utf8(bytes@),
{
    std::str::from_utf8(bytes).ok()
}

/// Positional big-endian readers.
pub trait DeserializeBigEndian: View<V = Seq<u8>> {
    /// The two bytes at `index`, big-endian.
    fn deserialize_be_u16(&self, index: usize) -> (r: Result<u16, Error>)
        ensures
            r is Ok <==> index + 2 <= self@.len(),
            r matches Ok(v) ==> v == be16_value(self@.subrange(index as int, index + 2)),
            r matches Err(e) ==> e.bytes() == self@,
    ;

    /// The four bytes at `index`, big-endian.
    fn deserialize_be_u32(&self, index: usize) -> (r: Result<u32, Error>)
        ensures
            r is Ok <==> index + 4 <= self@.len(),
            r matches Ok(v) ==> v == be32_value(self@.subrange(index as int, index + 4)),
            r matches Err(e) ==> e.bytes() == self@,
    ;

    /// The eight bytes at `index`, big-endian.
    fn deserialize_be_u64(&self, index: usize) -> (r: Result<u64, Error>)
        ensures
            r is Ok <==> index + 8 <= self@.len(),
            r matches Ok(v) ==> v == be64_value(self@.subrange(index as int, index + 8)),
            r matches Err(e) ==> e.bytes() == self@,
    ;
}

impl<'a> DeserializeBigEndian for &'a [u8] {
    fn deserialize_be_u16(&self, index: usize) -> (r: Result<u16, Error>) {
        let len = self.len();
        match index.checked_add(U16_LEN) {
            Some(end) if end <= len => {
                let b = slice_subrange(*self, index, end);
                Ok(((b[0] as u16) << 8u16) | (b[1] as u16))
            },
            _ => Err(Error::DataCorruption { site: ReadSite::BigEndianU16, key: slice_to_vec(*self) }),
        }
    }

    fn deserialize_be_u32(&self, index: usize) -> (r: Result<u32, Error>) {
        let len = self.len();
        match index.checked_add(U32_LEN) {
            Some(end) if end <= len => {
                let b = slice_subrange(*self, index, end);
                Ok(((b[0] as u32) << 24u32) | ((b[1] as u32) << 16u32) | ((b[2] as u32) << 8u32) | (
                b[3] as u32))
            },
            _ => Err(Error::DataCorruption { site: ReadSite::BigEndianU32, key: slice_to_vec(*self) }),
        }
    }

    fn deserialize_be_u64(&self, index: usize) -> (r: Result<u64, Error>) {
        let len = self.len();
        match index.checked_add(U64_LEN) {
            Some(end) if end <= len => {
                let b = slice_subrange(*self, index, end);
                Ok(((b[0] as u64) << 56u64) | ((b[1] as u64) << 48u64) | ((b[2] as u64) << 40u64)
                    | ((b[3] as u64) << 32u64) | ((b[4] as u64) << 24u64) | ((b[5] as u64)
                    << 16u64) | ((b[6] as u64) << 8u64) | (b[7] as u64))
            },
            _ => Err(Error::DataCorruption { site: ReadSite::BigEndianU64, key: slice_to_vec(*self) }),
        }
    }
}

impl ReportEvent {
    /// Reads a report event back from its key as `DmarcReportEvent` or
    /// `TlsReportEvent` writes it, without the subspace byte: a variant byte,
    /// `due`, the domain, `policy_hash` and `seq_id`.
    pub fn deserialize(key: &[u8]) -> (r: Result<ReportEvent, Error>)
        ensures
            r is Ok <==> key@.len() >= 25 && valid_utf8(key@.subrange(9, key@.len() - 16)),
            r matches Ok(e) ==> {
                &&& e.due == be64_value(key@.subrange(1, 9))
                &&& e.domain@ == decode_utf8(key@.subrange(9, key@.len() - 16))
                &&& e.policy_hash == be64_value(key@.subrange(key@.len() - 16, key@.len() - 8))
                &&& e.seq_id == be64_value(key@.subrange(key@.len() - 8, key@.len() as int))
            },
            r matches Err(e) ==> e.bytes() == key@,
    {
        let due = match key.deserialize_be_u64(1) {
            Ok(v) => v,
            Err(e) => return Err(e),
        };
        if key.len() < U64_LEN * 3 + 1 {
            return Err(Error::DataCorruption { site: ReadSite::BigEndianU64, key: slice_to_vec(key) });
        }
        let policy_hash = match key.deserialize_be_u64(key.len() - U64_LEN * 2) {
            Ok(v) => v,
            Err(e) => return Err(e),
        };
        let seq_id = match key.deserialize_be_u64(key.len() - U64_LEN) {
            Ok(v) => v,
            Err(e) => return Err(e),
        };
        let start = U64_LEN + 1;
        let end = key.len() - U64_LEN * 2;
        match utf8_str(slice_subrange(key, start, end)) {
            Some(domain) => Ok(ReportEvent { due, policy_hash, seq_id, domain: domain.to_owned() }),
            None => Err(Error::DataCorruption { site: ReadSite::ReportDomain, key: slice_to_vec(key) }),
        }
    }
}

} // verus!
