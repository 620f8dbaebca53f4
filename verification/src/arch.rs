//! Addresses of the target architecture, as the protocol carries them.

use vstd::prelude::*;

verus! {

/// The width of the target architecture's address type.
#[derive(Debug, Clone, Copy, PartialEq, Eq)]
pub enum AddrWidth {
    Bits8,
    Bits16,
    Bits32,
    Bits64,
}

/// One past the largest address of the given width.
pub open spec fn addr_limit(width: AddrWidth) -> nat {
    match width {
        AddrWidth::Bits8 => 0x100,
        AddrWidth::Bits16 => 0x1_0000,
        AddrWidth::Bits32 => 0x1_0000_0000,
        AddrWidth::Bits64 => 0x1_0000_0000_0000_0000,
    }
}

/// The value of a big-endian byte string.
pub open spec fn be_value(s: Seq<u8>) -> nat
    decreases s.len(),
{
    if s.len() == 0 {
        0
    } else {
        be_value(s.drop_last()) * 256 + s.last() as nat
    }
}

/// The address that big-endian `bytes` stand for, where it fits the width.
pub open spec fn parse_be_addr(bytes: Seq<u8>, width: AddrWidth) -> Option<u64> {
    if be_value(bytes) < addr_limit(width) {
        Some(be_value(bytes) as u64)
    } else {
        None
    }
}

/// A prefix of a byte string never has a larger value than the whole.
pub proof fn lemma_be_value_prefix_le(s: Seq<u8>, k: int)
    requires
        0 <= k <= s.len(),
    ensures
        be_value(s.take(k)) <= be_value(s),
    decreases s.len() - k,
{
    if k < s.len() {
        lemma_be_value_prefix_le(s, k + 1);
        assert(s.take(k + 1).drop_last() =~= s.take(k));
    } else {
        assert(s.take(k) =~= s);
    }
}

/// Reads an address of the given width from big-endian bytes. Leading
/// bytes beyond the width are accepted where they are zero; `None` where
/// the value does not fit.
pub fn addr_from_be_bytes(bytes: &[u8], width: AddrWidth) -> (r: Option<u64>)
    ensures
        r == parse_be_addr(bytes@, width),
{
    let limit: u128 = match width {
        AddrWidth::Bits8 => 0x100,
        AddrWidth::Bits16 => 0x1_0000,
        AddrWidth::Bits32 => 0x1_0000_0000,
        AddrWidth::Bits64 => 0x1_0000_0000_0000_0000,
    };
    let mut acc: u128 = 0;
    let mut i: usize = 0;
    while i < bytes.len()
        invariant
            i <= bytes@.len(),
            limit == addr_limit(width),
            acc == be_value(bytes@.take(i as int)),
            acc < limit,
        decreases bytes@.len() - i,
    {
        assert(bytes@.take(i as int + 1).drop_last() =~= bytes@.take(i as int));
        let next: u128 = acc * 256 + bytes[i] as u128;
        if next >= limit {
            proof {
                lemma_be_value_prefix_le(bytes@, i as int + 1);
            }
            return None;
        }
        acc = next;
        i = i + 1;
    }
    assert(bytes@.take(i as int) =~= bytes@);
    Some(acc as u64)
}

/// `num_traits::NumCast::from` into `u8`: the value, where it fits.
#[verifier::external_body]
fn num_cast_u8(n: usize) -> (r: Option<u8>)
    ensures
        r == (if n <= u8::MAX {
            Some(n as u8)
        } else {
            None::<u8>
        }),
{
    <u8 as num_traits::NumCast>::from(n)
}

/// `num_traits::NumCast::from` into `u16`: the value, where it fits.
#[verifier::external_body]
fn num_cast_u16(n: usize) -> (r: Option<u16>)
    ensures
        r == (if n <= u16::MAX {
            Some(n as u16)
        } else {
            None::<u16>
        }),
{
    <u16 as num_traits::NumCast>::from(n)
}

/// `num_traits::NumCast::from` into `u32`: the value, where it fits.
#[verifier::external_body]
fn num_cast_u32(n: usize) -> (r: Option<u32>)
    ensures
        r == (if n <= u32::MAX {
            Some(n as u32)
        } else {
            None::<u32>
        }),
{
    <u32 as num_traits::NumCast>::from(n)
}

/// `num_traits::NumCast::from` into `u64`: the value (a `usize` always fits).
#[verifier::external_body]
fn num_cast_u64(n: usize) -> (r: Option<u64>)
    ensures
        r == Some(n as u64),
{
    <u64 as num_traits::NumCast>::from(n)
}

/// Converts a byte offset into the address type of the given width.
pub fn offset_to_addr(n: usize, width: AddrWidth) -> (r: Option<u64>)
    ensures
        r == (if n < addr_limit(width) {
            Some(n as u64)
        } else {
            None::<u64>
        }),
{
    match width {
        AddrWidth::Bits8 => match num_cast_u8(n) {
            Some(v) => Some(v as u64),
            None => None,
        },
        AddrWidth::Bits16 => match num_cast_u16(n) {
            Some(v) => Some(v as u64),
            None => None,
        },
        AddrWidth::Bits32 => match num_cast_u32(n) {
            Some(v) => Some(v as u64),
            None => None,
        },
        AddrWidth::Bits64 => num_cast_u64(n),
    }
}

} // verus!
