//! Fixed-width integers as bytes, in either byte order.
//!
//! The protocol writes most integers least significant byte first and
//! addresses and ports most significant byte first.  This module says, over
//! sequences of bytes, what both orders mean, and reads and writes the widths
//! that the messages use.

use byteorder::{BigEndian, ByteOrder, LittleEndian};
use vstd::prelude::*;
use vstd::utf8::*;

verus! {

/// 256 to the power `len`: how many values `len` bytes can spell.
pub open spec fn radix(len: nat) -> nat
    decreases len,
{
    if len == 0 {
        1
    } else {
        256 * radix((len - 1) as nat)
    }
}

/// The number that `bytes` spell, least significant byte first.
pub open spec fn le_value(bytes: Seq<u8>) -> nat
    decreases bytes.len(),
{
    if bytes.len() == 0 {
        0
    } else {
        bytes[0] as nat + 256 * le_value(bytes.drop_first())
    }
}

/// The `len` low bytes of `n`, least significant byte first.
pub open spec fn le_bytes(n: nat, len: nat) -> Seq<u8>
    decreases len,
{
    if len == 0 {
        Seq::empty()
    } else {
        seq![(n % 256) as u8] + le_bytes(n / 256, (len - 1) as nat)
    }
}

/// The number that `bytes` spell, most significant byte first.
pub open spec fn be_value(bytes: Seq<u8>) -> nat {
    le_value(bytes.reverse())
}

/// The `len` low bytes of `n`, most significant byte first.
pub open spec fn be_bytes(n: nat, len: nat) -> Seq<u8> {
    le_bytes(n, len).reverse()
}

/// The two's complement pattern of `n` in `len` bytes, as a natural number.
pub open spec fn unsigned(n: int, len: nat) -> nat {
    if n >= 0 {
        n as nat
    } else {
        (n + radix(len)) as nat
    }
}

/// The signed number whose two's complement pattern in `len` bytes is `u`.
pub open spec fn signed(u: nat, len: nat) -> int {
    if 2 * u < radix(len) {
        u as int
    } else {
        u - radix(len)
    }
}

/// The values of `radix` at the widths that the protocol uses.
pub proof fn lemma_radix_values()
    ensures
        radix(0) == 1,
        radix(1) == 0x100,
        radix(2) == 0x1_0000,
        radix(4) == 0x1_0000_0000,
        radix(8) == 0x1_0000_0000_0000_0000,
        radix(16) == 0x1_0000_0000_0000_0000_0000_0000_0000_0000,
{
    assert(radix(1) == 0x100) by {
        reveal_with_fuel(radix, 2);
    }
    assert(radix(2) == 0x1_0000);
    assert(radix(3) == 0x100_0000);
    assert(radix(4) == 0x1_0000_0000);
    assert(radix(5) == 0x100_0000_0000);
    assert(radix(6) == 0x1_0000_0000_0000);
    assert(radix(7) == 0x100_0000_0000_0000);
    assert(radix(8) == 0x1_0000_0000_0000_0000);
    assert(radix(9) == 0x100_0000_0000_0000_0000);
    assert(radix(10) == 0x1_0000_0000_0000_0000_0000);
    assert(radix(11) == 0x100_0000_0000_0000_0000_0000);
    assert(radix(12) == 0x1_0000_0000_0000_0000_0000_0000);
    assert(radix(13) == 0x100_0000_0000_0000_0000_0000_0000);
    assert(radix(14) == 0x1_0000_0000_0000_0000_0000_0000_0000);
    assert(radix(15) == 0x100_0000_0000_0000_0000_0000_0000_0000);
    assert(radix(16) == 0x1_0000_0000_0000_0000_0000_0000_0000_0000);
}

/// `le_bytes(n, len)` has `len` bytes.
pub proof fn lemma_le_bytes_len(n: nat, len: nat)
    ensures
        le_bytes(n, len).len() == len,
    decreases len,
{
    if len > 0 {
        lemma_le_bytes_len(n / 256, (len - 1) as nat);
    }
}

/// Writing a number that fits in `len` bytes and reading it back gives the
/// number.
pub proof fn lemma_le_value_of_bytes(n: nat, len: nat)
    requires
        n < radix(len),
    ensures
        le_value(le_bytes(n, len)) == n,
    decreases len,
{
    if len > 0 {
        let rest = le_bytes(n / 256, (len - 1) as nat);
        lemma_le_bytes_len(n / 256, (len - 1) as nat);
        lemma_le_value_of_bytes(n / 256, (len - 1) as nat);
        assert(le_bytes(n, len).drop_first() =~= rest);
    }
}

/// What `len` bytes spell is below `radix(len)`.
pub proof fn lemma_le_value_bound(bytes: Seq<u8>)
    ensures
        le_value(bytes) < radix(bytes.len()),
    decreases bytes.len(),
{
    if bytes.len() > 0 {
        lemma_le_value_bound(bytes.drop_first());
    }
}

/// Reading bytes and writing the number back in as many bytes gives the
/// bytes.
pub proof fn lemma_le_bytes_of_value(bytes: Seq<u8>)
    ensures
        le_bytes(le_value(bytes), bytes.len()) == bytes,
    decreases bytes.len(),
{
    if bytes.len() > 0 {
        let rest = bytes.drop_first();
        lemma_le_bytes_of_value(rest);
        let n = le_value(bytes);
        assert(n % 256 == bytes[0] as nat);
        assert(n / 256 == le_value(rest));
        assert(le_bytes(n, bytes.len()) =~= bytes);
    }
}

/// Reading bytes most significant byte first and writing the number back
/// in as many bytes gives the bytes, and the number fits them.
pub proof fn lemma_be_bytes_of_value(bytes: Seq<u8>)
    ensures
        be_value(bytes) < radix(bytes.len()),
        be_bytes(be_value(bytes), bytes.len()) == bytes,
{
    lemma_le_value_bound(bytes.reverse());
    lemma_le_bytes_of_value(bytes.reverse());
    assert(bytes.reverse().reverse() =~= bytes);
}

/// Writing a number that fits in `len` bytes most significant byte first
/// and reading it back gives the number.
pub proof fn lemma_be_round_trip(n: nat, len: nat)
    requires
        n < radix(len),
    ensures
        be_bytes(n, len).len() == len,
        be_value(be_bytes(n, len)) == n,
{
    lemma_le_bytes_len(n, len);
    lemma_le_value_of_bytes(n, len);
    assert(le_bytes(n, len).reverse().reverse() =~= le_bytes(n, len));
}

/// A signed number that fits in `len` bytes survives the way through its
/// two's complement pattern.
pub proof fn lemma_signed_of_unsigned(n: int, len: nat)
    requires
        len > 0,
        -(radix(len) as int) <= 2 * n < radix(len),
    ensures
        unsigned(n, len) < radix(len),
        signed(unsigned(n, len), len) == n,
{
}

/// The bytes of a number are its lowest byte and the bytes of the rest.
pub proof fn lemma_le_bytes_step(n: nat, len: nat, low: u8, rest: nat)
    requires
        len > 0,
        n == rest * 256 + low,
    ensures
        le_bytes(n, len) == seq![low] + le_bytes(rest, (len - 1) as nat),
{
    assert(n % 256 == low as nat && n / 256 == rest);
}

/// Four bytes hold a number modulo `radix(4)`: a number and what is left of
/// it below `radix(4)` have the same four low bytes.
pub proof fn lemma_le_bytes_of_low_part(n: nat)
    ensures
        le_bytes(n % 0x1_0000_0000, 4) == le_bytes(n, 4),
{
    let high = n / 0x1_0000_0000;
    let low = n % 0x1_0000_0000;
    let low1 = low / 256;
    let low2 = low1 / 256;
    let low3 = low2 / 256;
    let b0 = (low % 256) as u8;
    let b1 = (low1 % 256) as u8;
    let b2 = (low2 % 256) as u8;
    let b3 = low3 as u8;
    assert(n == high * 0x1_0000_0000 + low);
    lemma_le_bytes_step(n, 4, b0, high * 0x100_0000 + low1);
    lemma_le_bytes_step(high * 0x100_0000 + low1, 3, b1, high * 0x1_0000 + low2);
    lemma_le_bytes_step(high * 0x1_0000 + low2, 2, b2, high * 0x100 + low3);
    lemma_le_bytes_step(high * 0x100 + low3, 1, b3, high);
    lemma_le_bytes_step(low, 4, b0, low1);
    lemma_le_bytes_step(low1, 3, b1, low2);
    lemma_le_bytes_step(low2, 2, b2, low3);
    lemma_le_bytes_step(low3, 1, b3, 0);
    assert(le_bytes(high, 0) =~= le_bytes(0, 0));
}

/// The `len` bytes of `data` that start at `at`.
pub open spec fn window(data: Seq<u8>, at: int, len: int) -> Seq<u8> {
    data.subrange(at, at + len)
}

/// `ByteOrder::read_u16` of byteorder's `BigEndian`: the number that the first
/// two bytes of `buf` spell, most significant byte first. It panics on fewer
/// bytes; the wrapper takes exactly two.
#[verifier::external_body]
fn read_u16_be(buf: &[u8]) -> (n: u16)
    requires
        buf@.len() == 2,
    ensures
        n == be_value(buf@),
{
    BigEndian::read_u16(buf)
}

/// `ByteOrder::read_u128` of byteorder's `BigEndian`: the number that the
/// first sixteen bytes of `buf` spell, most significant byte first. It panics
/// on fewer bytes; the wrapper takes exactly sixteen.
#[verifier::external_body]
fn read_u128_be(buf: &[u8]) -> (n: u128)
    requires
        buf@.len() == 16,
    ensures
        n == be_value(buf@),
{
    BigEndian::read_u128(buf)
}

/// `ByteOrder::read_u32` of byteorder's `LittleEndian`: the number that the
/// first four bytes of `buf` spell, least significant byte first. It panics on
/// fewer bytes; the wrapper takes exactly four.
#[verifier::external_body]
fn read_u32_le(buf: &[u8]) -> (n: u32)
    requires
        buf@.len() == 4,
    ensures
        n == le_value(buf@),
{
    LittleEndian::read_u32(buf)
}

/// `ByteOrder::read_i32` of byteorder's `LittleEndian`: the first four bytes
/// of `buf`, least significant byte first, taken as a two's complement
/// pattern. It panics on fewer bytes; the wrapper takes exactly four.
#[verifier::external_body]
fn read_i32_le(buf: &[u8]) -> (n: i32)
    requires
        buf@.len() == 4,
    ensures
        n == signed(le_value(buf@), 4),
{
    LittleEndian::read_i32(buf)
}

/// `ByteOrder::read_u64` of byteorder's `LittleEndian`: the number that the
/// first eight bytes of `buf` spell, least significant byte first. It panics
/// on fewer bytes; the wrapper takes exactly eight.
#[verifier::external_body]
fn read_u64_le(buf: &[u8]) -> (n: u64)
    requires
        buf@.len() == 8,
    ensures
        n == le_value(buf@),
{
    LittleEndian::read_u64(buf)
}

/// `ByteOrder::read_i64` of byteorder's `LittleEndian`: the first eight bytes
/// of `buf`, least significant byte first, taken as a two's complement
/// pattern. It panics on fewer bytes; the wrapper takes exactly eight.
#[verifier::external_body]
fn read_i64_le(buf: &[u8]) -> (n: i64)
    requires
        buf@.len() == 8,
    ensures
        n == signed(le_value(buf@), 8),
{
    LittleEndian::read_i64(buf)
}

/// `ByteOrder::write_u16` of byteorder's `BigEndian`: it fills the first two
/// bytes of a buffer with `n`, most significant byte first. The wrapper hands
/// it a buffer of two bytes and returns the buffer.
#[verifier::external_body]
fn write_u16_be(n: u16) -> (out: [u8; 2])
    ensures
        out@ == be_bytes(n as nat, 2),
{
    let mut out = [0u8; 2];
    BigEndian::write_u16(&mut out, n);
    out
}

/// `ByteOrder::write_u128` of byteorder's `BigEndian`: it fills the first
/// sixteen bytes of a buffer with `n`, most significant byte first. The
/// wrapper hands it a buffer of sixteen bytes and returns the buffer.
#[verifier::external_body]
fn write_u128_be(n: u128) -> (out: [u8; 16])
    ensures
        out@ == be_bytes(n as nat, 16),
{
    let mut out = [0u8; 16];
    BigEndian::write_u128(&mut out, n);
    out
}

/// `ByteOrder::write_u32` of byteorder's `LittleEndian`: it fills the first
/// four bytes of a buffer with `n`, least significant byte first. The wrapper
/// hands it a buffer of four bytes and returns the buffer.
#[verifier::external_body]
fn write_u32_le(n: u32) -> (out: [u8; 4])
    ensures
        out@ == le_bytes(n as nat, 4),
{
    let mut out = [0u8; 4];
    LittleEndian::write_u32(&mut out, n);
    out
}

/// `ByteOrder::write_i32` of byteorder's `LittleEndian`: it fills the first
/// four bytes of a buffer with the two's complement pattern of `n`, least
/// significant byte first. The wrapper hands it a buffer of four bytes and
/// returns the buffer.
#[verifier::external_body]
fn write_i32_le(n: i32) -> (out: [u8; 4])
    ensures
        out@ == le_bytes(unsigned(n as int, 4), 4),
{
    let mut out = [0u8; 4];
    LittleEndian::write_i32(&mut out, n);
    out
}

/// `ByteOrder::write_u64` of byteorder's `LittleEndian`: it fills the first
/// eight bytes of a buffer with `n`, least significant byte first. The wrapper
/// hands it a buffer of eight bytes and returns the buffer.
#[verifier::external_body]
fn write_u64_le(n: u64) -> (out: [u8; 8])
    ensures
        out@ == le_bytes(n as nat, 8),
{
    let mut out = [0u8; 8];
    LittleEndian::write_u64(&mut out, n);
    out
}

/// `ByteOrder::write_i64` of byteorder's `LittleEndian`: it fills the first
/// eight bytes of a buffer with the two's complement pattern of `n`, least
/// significant byte first. The wrapper hands it a buffer of eight bytes and
/// returns the buffer.
#[verifier::external_body]
fn write_i64_le(n: i64) -> (out: [u8; 8])
    ensures
        out@ == le_bytes(unsigned(n as int, 8), 8),
{
    let mut out = [0u8; 8];
    LittleEndian::write_i64(&mut out, n);
    out
}

/// The number that sixteen bytes spell, most significant byte first.
pub fn u128_from_be_bytes(bytes: &[u8; 16]) -> (n: u128)
    ensures
        n == be_value(bytes@),
{
    read_u128_be(bytes.as_slice())
}

/// Takes the next `n` bytes of `data` at `pos` and moves `pos` past them, or
/// leaves `pos` where it is when fewer than `n` bytes are left.
pub fn take<'a>(data: &'a [u8], pos: &mut usize, n: usize) -> (r: Option<&'a [u8]>)
    ensures
        r is Some <==> *old(pos) + n <= data@.len(),
        r matches Some(bytes) ==> bytes@ == window(data@, *old(pos) as int, n as int),
        *final(pos) == (if r is Some {
            *old(pos) + n
        } else {
            *old(pos) as int
        }),
{
    let start = *pos;
    if start > data.len() || data.len() - start < n {
        return None;
    }
    *pos = start + n;
    Some(&data[start..start + n])
}

/// Appends `bytes` to `buf`.
pub fn put_bytes(buf: &mut Vec<u8>, bytes: &[u8])
    ensures
        final(buf)@ == old(buf)@ + bytes@,
{
    let mut i: usize = 0;
    while i < bytes.len()
        invariant
            i <= bytes@.len(),
            buf@ == old(buf)@ + bytes@.subrange(0, i as int),
        decreases bytes@.len() - i,
    {
        buf.push(bytes[i]);
        i += 1;
    }
    assert(bytes@.subrange(0, i as int) =~= bytes@);
}

/// Reads one byte at `pos` and moves `pos` past it; `None`, with `pos`
/// unmoved, when no byte is left.
pub fn get_u8(data: &[u8], pos: &mut usize) -> (r: Option<u8>)
    ensures
        r is Some <==> *old(pos) < data@.len(),
        r matches Some(n) ==> n == data@[*old(pos) as int],
        *final(pos) == (if r is Some {
            *old(pos) + 1
        } else {
            *old(pos) as int
        }),
{
    match take(data, pos, 1) {
        Some(bytes) => Some(bytes[0]),
        None => None,
    }
}

/// Reads a `u16`, most significant byte first, at `pos` and moves `pos` past it; `None`, with `pos`
/// unmoved, when fewer than 2 bytes are left.
pub fn get_u16_be(data: &[u8], pos: &mut usize) -> (r: Option<u16>)
    ensures
        r is Some <==> *old(pos) + 2 <= data@.len(),
        r matches Some(n) ==> n == be_value(window(data@, *old(pos) as int, 2)),
        *final(pos) == (if r is Some {
            *old(pos) + 2
        } else {
            *old(pos) as int
        }),
{
    match take(data, pos, 2) {
        Some(bytes) => Some(read_u16_be(bytes)),
        None => None,
    }
}

/// Reads a `u128`, most significant byte first, at `pos` and moves `pos` past it; `None`, with `pos`
/// unmoved, when fewer than 16 bytes are left.
pub fn get_u128_be(data: &[u8], pos: &mut usize) -> (r: Option<u128>)
    ensures
        r is Some <==> *old(pos) + 16 <= data@.len(),
        r matches Some(n) ==> n == be_value(window(data@, *old(pos) as int, 16)),
        *final(pos) == (if r is Some {
            *old(pos) + 16
        } else {
            *old(pos) as int
        }),
{
    match take(data, pos, 16) {
        Some(bytes) => Some(read_u128_be(bytes)),
        None => None,
    }
}

/// Reads a `u32`, least significant byte first, at `pos` and moves `pos` past it; `None`, with `pos`
/// unmoved, when fewer than 4 bytes are left.
pub fn get_u32_le(data: &[u8], pos: &mut usize) -> (r: Option<u32>)
    ensures
        r is Some <==> *old(pos) + 4 <= data@.len(),
        r matches Some(n) ==> n == le_value(window(data@, *old(pos) as int, 4)),
        *final(pos) == (if r is Some {
            *old(pos) + 4
        } else {
            *old(pos) as int
        }),
{
    match take(data, pos, 4) {
        Some(bytes) => Some(read_u32_le(bytes)),
        None => None,
    }
}

/// Reads an `i32` in two's complement, least significant byte first, at `pos` and moves `pos` past it; `None`, with `pos`
/// unmoved, when fewer than 4 bytes are left.
pub fn get_i32_le(data: &[u8], pos: &mut usize) -> (r: Option<i32>)
    ensures
        r is Some <==> *old(pos) + 4 <= data@.len(),
        r matches Some(n) ==> n == signed(le_value(window(data@, *old(pos) as int, 4)), 4),
        *final(pos) == (if r is Some {
            *old(pos) + 4
        } else {
            *old(pos) as int
        }),
{
    match take(data, pos, 4) {
        Some(bytes) => Some(read_i32_le(bytes)),
        None => None,
    }
}

/// Reads a `u64`, least significant byte first, at `pos` and moves `pos` past it; `None`, with `pos`
/// unmoved, when fewer than 8 bytes are left.
pub fn get_u64_le(data: &[u8], pos: &mut usize) -> (r: Option<u64>)
    ensures
        r is Some <==> *old(pos) + 8 <= data@.len(),
        r matches Some(n) ==> n == le_value(window(data@, *old(pos) as int, 8)),
        *final(pos) == (if r is Some {
            *old(pos) + 8
        } else {
            *old(pos) as int
        }),
{
    match take(data, pos, 8) {
        Some(bytes) => Some(read_u64_le(bytes)),
        None => None,
    }
}

/// Reads an `i64` in two's complement, least significant byte first, at `pos` and moves `pos` past it; `None`, with `pos`
/// unmoved, when fewer than 8 bytes are left.
pub fn get_i64_le(data: &[u8], pos: &mut usize) -> (r: Option<i64>)
    ensures
        r is Some <==> *old(pos) + 8 <= data@.len(),
        r matches Some(n) ==> n == signed(le_value(window(data@, *old(pos) as int, 8)), 8),
        *final(pos) == (if r is Some {
            *old(pos) + 8
        } else {
            *old(pos) as int
        }),
{
    match take(data, pos, 8) {
        Some(bytes) => Some(read_i64_le(bytes)),
        None => None,
    }
}

/// Appends the two bytes of `n`, most significant first, to `buf`.
pub fn put_u16_be(buf: &mut Vec<u8>, n: u16)
    ensures
        final(buf)@ == old(buf)@ + be_bytes(n as nat, 2),
{
    let bytes = write_u16_be(n);
    put_bytes(buf, bytes.as_slice());
}

/// Appends the sixteen bytes of `n`, most significant first, to `buf`.
pub fn put_u128_be(buf: &mut Vec<u8>, n: u128)
    ensures
        final(buf)@ == old(buf)@ + be_bytes(n as nat, 16),
{
    let bytes = write_u128_be(n);
    put_bytes(buf, bytes.as_slice());
}

/// Appends the four bytes of `n`, least significant first, to `buf`.
pub fn put_u32_le(buf: &mut Vec<u8>, n: u32)
    ensures
        final(buf)@ == old(buf)@ + le_bytes(n as nat, 4),
{
    let bytes = write_u32_le(n);
    put_bytes(buf, bytes.as_slice());
}

/// Appends the four bytes of `n` in two's complement, least significant first, to `buf`.
pub fn put_i32_le(buf: &mut Vec<u8>, n: i32)
    ensures
        final(buf)@ == old(buf)@ + le_bytes(unsigned(n as int, 4), 4),
{
    let bytes = write_i32_le(n);
    put_bytes(buf, bytes.as_slice());
}

/// Appends the eight bytes of `n`, least significant first, to `buf`.
pub fn put_u64_le(buf: &mut Vec<u8>, n: u64)
    ensures
        final(buf)@ == old(buf)@ + le_bytes(n as nat, 8),
{
    let bytes = write_u64_le(n);
    put_bytes(buf, bytes.as_slice());
}

/// Appends the eight bytes of `n` in two's complement, least significant first, to `buf`.
pub fn put_i64_le(buf: &mut Vec<u8>, n: i64)
    ensures
        final(buf)@ == old(buf)@ + le_bytes(unsigned(n as int, 8), 8),
{
    let bytes = write_i64_le(n);
    put_bytes(buf, bytes.as_slice());
}

/// Whether `a` and `b` hold the same bytes.
pub fn same_bytes(a: &[u8], b: &[u8]) -> (same: bool)
    ensures
        same == (a@ == b@),
{
    if a.len() != b.len() {
        return false;
    }
    let mut i: usize = 0;
    while i < a.len()
        invariant
            a@.len() == b@.len(),
            i <= a@.len(),
            a@.subrange(0, i as int) == b@.subrange(0, i as int),
        decreases a@.len() - i,
    {
        if a[i] != b[i] {
            assert(a@[i as int] != b@[i as int]);
            return false;
        }
        assert(a@.subrange(0, i + 1) =~= a@.subrange(0, i as int).push(a@[i as int]));
        assert(b@.subrange(0, i + 1) =~= b@.subrange(0, i as int).push(b@[i as int]));
        i += 1;
    }
    assert(a@.subrange(0, i as int) =~= a@);
    assert(b@.subrange(0, i as int) =~= b@);
    true
}

/// `String::from_utf8` of std: the string that `bytes` encode, and `None`
/// exactly when they are not UTF-8.
#[verifier::external_body]
pub(crate) fn string_from_utf8(bytes: Vec<u8>) -> (r: Option<String>)
    ensures
        r is Some <==> valid_utf8(bytes@),
        r matches Some(text) ==> text@ == decode_utf8(bytes@),
{
    match String::from_utf8(bytes) {
        Ok(text) => Some(text),
        Err(_) => None,
    }
}

} // verus!
