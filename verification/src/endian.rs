//! Little-endian integers: what their bytes are, and the calls that convert.

use byteorder::{ByteOrder, LittleEndian};
use vstd::arithmetic::div_mod::lemma_fundamental_div_mod_converse;
use vstd::prelude::*;

verus! {

/// The two bytes of `n`, least significant first.
pub open spec fn u16_le(n: u16) -> Seq<u8> {
    seq![(n % 256) as u8, (n / 256) as u8]
}

/// The four bytes of `n`, least significant first.
pub open spec fn u32_le(n: u32) -> Seq<u8> {
    seq![
        (n % 256) as u8,
        (n / 256 % 256) as u8,
        (n / 65536 % 256) as u8,
        (n / 16777216) as u8,
    ]
}

/// The number that the first two bytes of `s` hold, least significant first.
pub open spec fn u16_from_le(s: Seq<u8>) -> u16
    recommends
        s.len() >= 2,
{
    (s[0] + 256 * s[1]) as u16
}

/// The number that the first four bytes of `s` hold, least significant first.
pub open spec fn u32_from_le(s: Seq<u8>) -> u32
    recommends
        s.len() >= 4,
{
    (s[0] + 256 * s[1] + 65536 * s[2] + 16777216 * s[3]) as u32
}

/// Reading back the bytes of a number gives the number.
pub proof fn lemma_u16_le_value(n: u16)
    ensures
        u16_le(n).len() == 2,
        u16_from_le(u16_le(n)) == n,
{
}

/// Reading back the bytes of a number gives the number.
pub proof fn lemma_u32_le_value(n: u32)
    ensures
        u32_le(n).len() == 4,
        u32_from_le(u32_le(n)) == n,
{
}

/// Two bytes are the bytes of the number they hold.
pub proof fn lemma_u16_le_bytes(s: Seq<u8>)
    requires
        s.len() == 2,
    ensures
        u16_le(u16_from_le(s)) == s,
{
    assert(u16_le(u16_from_le(s)) =~= s);
}

/// Four bytes are the bytes of the number they hold.
pub proof fn lemma_u32_le_bytes(s: Seq<u8>)
    requires
        s.len() == 4,
    ensures
        u32_le(u32_from_le(s)) == s,
{
    let (b0, b1, b2, b3) = (s[0] as int, s[1] as int, s[2] as int, s[3] as int);
    let n = u32_from_le(s) as int;
    assert(n == b0 + 256 * b1 + 65536 * b2 + 16777216 * b3);
    lemma_fundamental_div_mod_converse(n, 256, b1 + 256 * b2 + 65536 * b3, b0);
    lemma_fundamental_div_mod_converse(n / 256, 256, b2 + 256 * b3, b1);
    lemma_fundamental_div_mod_converse(n, 65536, b2 + 256 * b3, b0 + 256 * b1);
    lemma_fundamental_div_mod_converse(n / 65536, 256, b3, b2);
    lemma_fundamental_div_mod_converse(n, 16777216, b3, b0 + 256 * b1 + 65536 * b2);
    assert(u32_le(u32_from_le(s)) =~= s);
}

/// `byteorder::LittleEndian::read_u16`: the number held by the first two bytes
/// of `buf`, least significant first. The call panics on a shorter buffer.
#[verifier::external_body]
pub(crate) fn read_u16_le(buf: &[u8]) -> (n: u16)
    requires
        buf@.len() >= 2,
    ensures
        n == u16_from_le(buf@),
{
    LittleEndian::read_u16(buf)
}

/// `byteorder::LittleEndian::read_u32`: the number held by the first four bytes
/// of `buf`, least significant first. The call panics on a shorter buffer.
#[verifier::external_body]
pub(crate) fn read_u32_le(buf: &[u8]) -> (n: u32)
    requires
        buf@.len() >= 4,
    ensures
        n == u32_from_le(buf@),
{
    LittleEndian::read_u32(buf)
}

/// `byteorder::LittleEndian::write_u16` on a buffer of two bytes: they become
/// the bytes of `n`, least significant first.
#[verifier::external_body]
fn write_u16_le(n: u16) -> (buf: [u8; 2])
    ensures
        buf@ == u16_le(n),
{
    let mut buf = [0u8; 2];
    LittleEndian::write_u16(&mut buf, n);
    buf
}

/// `byteorder::LittleEndian::write_u32` on a buffer of four bytes: they become
/// the bytes of `n`, least significant first.
#[verifier::external_body]
fn write_u32_le(n: u32) -> (buf: [u8; 4])
    ensures
        buf@ == u32_le(n),
{
    let mut buf = [0u8; 4];
    LittleEndian::write_u32(&mut buf, n);
    buf
}

/// Appends the two bytes of `n` to `out`.
pub fn put_u16(out: &mut Vec<u8>, n: u16)
    ensures
        final(out)@ == old(out)@ + u16_le(n),
{
    let buf = write_u16_le(n);
    out.extend_from_slice(buf.as_slice());
}

/// Appends the four bytes of `n` to `out`.
pub fn put_u32(out: &mut Vec<u8>, n: u32)
    ensures
        final(out)@ == old(out)@ + u32_le(n),
{
    let buf = write_u32_le(n);
    out.extend_from_slice(buf.as_slice());
}

} // verus!
