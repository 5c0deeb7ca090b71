//! Fixed-width fields shared by both wire dialects.
//!
//! Every integer outside a variable-length integer travels in network byte
//! order: most significant byte first.

use crate::{truncated, truncated_error, Error, ErrorView};
use vstd::prelude::*;
use vstd::utf8::{decode_utf8, valid_utf8};

verus! {

/// 256 to the power `n`.
pub open spec fn pow256(n: nat) -> int
    decreases n,
{
    if n == 0 {
        1
    } else {
        256 * pow256((n - 1) as nat)
    }
}

/// The `width` low-order bytes of `v`, most significant first.
pub open spec fn be_bytes(v: nat, width: nat) -> Seq<u8>
    decreases width,
{
    if width == 0 {
        Seq::empty()
    } else {
        be_bytes(v / 256, (width - 1) as nat).push((v % 256) as u8)
    }
}

/// The number that `bytes` spell, most significant byte first.
pub open spec fn be_value(bytes: Seq<u8>) -> nat
    decreases bytes.len(),
{
    if bytes.len() == 0 {
        0
    } else {
        256 * be_value(bytes.drop_last()) + bytes.last() as nat
    }
}

/// The bytes of `bytes` from position `pos` on: none where `pos` is past the
/// end.
pub open spec fn behind(bytes: Seq<u8>, pos: int) -> Seq<u8> {
    if 0 <= pos <= bytes.len() {
        bytes.skip(pos)
    } else {
        Seq::empty()
    }
}

/// What reading a `width`-byte integer from the front of `bytes` gives: the
/// value and `width`, unless the input ends first.
pub open spec fn parse_be(bytes: Seq<u8>, width: nat) -> Result<(nat, nat), ErrorView> {
    if bytes.len() < width {
        Err(truncated())
    } else {
        Ok((be_value(bytes.take(width as int)), width))
    }
}

/// What taking `count` bytes from the front of `bytes` gives.
pub open spec fn parse_exact(bytes: Seq<u8>, count: nat) -> Result<Seq<u8>, ErrorView> {
    if bytes.len() < count {
        Err(truncated())
    } else {
        Ok(bytes.take(count as int))
    }
}

pub proof fn lemma_pow256_values()
    ensures
        pow256(0) == 1,
        pow256(1) == 0x100,
        pow256(2) == 0x1_0000,
        pow256(8) == 0x1_0000_0000_0000_0000,
{
    reveal_with_fuel(pow256, 9);
}

/// `width` bytes spell a number below `pow256(width)`.
pub proof fn lemma_be_value_bound(bytes: Seq<u8>)
    ensures
        be_value(bytes) < pow256(bytes.len()),
    decreases bytes.len(),
{
    if bytes.len() > 0 {
        lemma_be_value_bound(bytes.drop_last());
    }
}

/// A number that fits in `width` bytes is read back from them unchanged.
pub proof fn lemma_be_round_trip(v: nat, width: nat)
    requires
        v < pow256(width),
    ensures
        be_bytes(v, width).len() == width,
        be_value(be_bytes(v, width)) == v,
    decreases width,
{
    if width > 0 {
        let high = be_bytes(v / 256, (width - 1) as nat);
        lemma_be_round_trip(v / 256, (width - 1) as nat);
        assert(be_bytes(v, width).drop_last() =~= high);
    }
}

/// The written length does not depend on the value.
pub proof fn lemma_be_len(v: nat, width: nat)
    ensures
        be_bytes(v, width).len() == width,
    decreases width,
{
    if width > 0 {
        lemma_be_len(v / 256, (width - 1) as nat);
    }
}

fn write_be(buf: &mut Vec<u8>, v: u64, width: usize)
    ensures
        final(buf)@ == old(buf)@ + be_bytes(v as nat, width as nat),
    decreases width,
{
    if width > 0 {
        write_be(buf, v / 256, width - 1);
        let ghost high = buf@;
        buf.push((v % 256) as u8);
        assert(buf@ =~= old(buf)@ + be_bytes(v as nat, width as nat));
    } else {
        assert(buf@ =~= old(buf)@ + be_bytes(v as nat, 0));
    }
}

/// Appends `v` as two bytes.
pub fn write_u16(buf: &mut Vec<u8>, v: u16)
    ensures
        final(buf)@ == old(buf)@ + be_bytes(v as nat, 2),
{
    write_be(buf, v as u64, 2);
}

/// Appends `v` as eight bytes.
pub fn write_u64(buf: &mut Vec<u8>, v: u64)
    ensures
        final(buf)@ == old(buf)@ + be_bytes(v as nat, 8),
{
    write_be(buf, v, 8);
}

/// Appends `bytes` to `buf`.
pub fn extend(buf: &mut Vec<u8>, bytes: &[u8])
    ensures
        final(buf)@ == old(buf)@ + bytes@,
{
    let mut i: usize = 0;
    while i < bytes.len()
        invariant
            i <= bytes.len(),
            buf@ == old(buf)@ + bytes@.take(i as int),
        decreases bytes.len() - i,
    {
        buf.push(bytes[i]);
        i = i + 1;
        assert(buf@ =~= old(buf)@ + bytes@.take(i as int));
    }
    assert(bytes@.take(i as int) =~= bytes@);
}

fn read_be(buf: &[u8], pos: usize, width: usize) -> (r: Result<(u64, usize), Error>)
    requires
        0 < width <= 8,
    ensures
        match parse_be(behind(buf@, pos as int), width as nat) {
            Ok((value, taken)) => r == Ok::<(u64, usize), Error>((value as u64, (pos + width) as usize))
                && pos + width <= buf.len() && value < pow256(width as nat),
            Err(e) => r matches Err(f) && f@ == e,
        },
{
    if pos > buf.len() || buf.len() - pos < width {
        return Err(truncated_error());
    }
    let ghost field = buf@.skip(pos as int).take(width as int);
    let mut acc: u64 = 0;
    let mut i: usize = 0;
    while i < width
        invariant
            i <= width <= 8,
            pos + width <= buf.len(),
            field == buf@.skip(pos as int).take(width as int),
            acc == be_value(field.take(i as int)),
        decreases width - i,
    {
        proof {
            lemma_be_value_bound(field.take(i as int));
            lemma_pow256_le(i as nat, 7);
            lemma_pow256_values();
            reveal_with_fuel(pow256, 8);
            assert(field.take(i + 1).drop_last() =~= field.take(i as int));
            assert(field.take(i + 1).last() == buf@[pos + i]);
        }
        acc = acc * 256 + buf[pos + i] as u64;
        i = i + 1;
    }
    proof {
        assert(field.take(width as int) =~= field);
        lemma_be_value_bound(field);
    }
    Ok((acc, pos + width))
}

proof fn lemma_pow256_le(a: nat, b: nat)
    requires
        a <= b,
    ensures
        0 < pow256(a) <= pow256(b),
    decreases b,
{
    if a < b {
        lemma_pow256_le(a, (b - 1) as nat);
    } else if b > 0 {
        lemma_pow256_le((a - 1) as nat, (b - 1) as nat);
    }
}

/// Reads the byte at `buf[pos]`.
pub fn read_u8(buf: &[u8], pos: usize) -> (r: Result<(u8, usize), Error>)
    ensures
        match parse_be(behind(buf@, pos as int), 1) {
            Ok((value, _)) => r == Ok::<(u8, usize), Error>((value as u8, (pos + 1) as usize)) && pos
                < buf.len() && value == buf@[pos as int],
            Err(e) => r matches Err(f) && f@ == e,
        },
{
    if pos >= buf.len() {
        return Err(truncated_error());
    }
    proof {
        let one = behind(buf@, pos as int).take(1);
        assert(one.drop_last() =~= Seq::<u8>::empty());
        assert(be_value(one.drop_last()) == 0);
        assert(one.last() == buf@[pos as int]);
    }
    Ok((buf[pos], pos + 1))
}

/// Reads the two-byte integer that starts at `buf[pos]`.
pub fn read_u16(buf: &[u8], pos: usize) -> (r: Result<(u16, usize), Error>)
    ensures
        match parse_be(behind(buf@, pos as int), 2) {
            Ok((value, _)) => r == Ok::<(u16, usize), Error>((value as u16, (pos + 2) as usize))
                && pos + 2 <= buf.len() && value <= u16::MAX,
            Err(e) => r matches Err(f) && f@ == e,
        },
{
    proof {
        lemma_pow256_values();
    }
    match read_be(buf, pos, 2) {
        Ok((value, next)) => Ok((value as u16, next)),
        Err(e) => Err(e),
    }
}

/// Reads the eight-byte integer that starts at `buf[pos]`.
pub fn read_u64(buf: &[u8], pos: usize) -> (r: Result<(u64, usize), Error>)
    ensures
        match parse_be(behind(buf@, pos as int), 8) {
            Ok((value, _)) => r == Ok::<(u64, usize), Error>((value as u64, (pos + 8) as usize))
                && pos + 8 <= buf.len() && value <= u64::MAX,
            Err(e) => r matches Err(f) && f@ == e,
        },
{
    proof {
        lemma_pow256_values();
    }
    read_be(buf, pos, 8)
}

/// Copies the `count` bytes that start at `buf[pos]`.
pub fn read_exact(buf: &[u8], pos: usize, count: usize) -> (r: Result<(Vec<u8>, usize), Error>)
    ensures
        match parse_exact(behind(buf@, pos as int), count as nat) {
            Ok(bytes) => r matches Ok((copy, next)) && copy@ == bytes && next == pos + count,
            Err(e) => r matches Err(f) && f@ == e,
        },
{
    if pos > buf.len() {
        if count == 0 {
            let nothing: Vec<u8> = Vec::new();
            assert(nothing@ =~= behind(buf@, pos as int).take(0));
            return Ok((nothing, pos));
        }
        return Err(truncated_error());
    }
    if buf.len() - pos < count {
        return Err(truncated_error());
    }
    let mut copy: Vec<u8> = Vec::new();
    let mut i: usize = 0;
    while i < count
        invariant
            i <= count,
            pos + count <= buf.len(),
            copy@ == buf@.skip(pos as int).take(i as int),
        decreases count - i,
    {
        copy.push(buf[pos + i]);
        i = i + 1;
        assert(copy@ =~= buf@.skip(pos as int).take(i as int));
    }
    Ok((copy, pos + count))
}

/// Turns bytes into text.
///
/// Calls `String::from_utf8` of the standard library. The text is there
/// exactly when the bytes are well-formed UTF-8, and then holds the characters
/// that they encode.
#[verifier::external_body]
pub(crate) fn string_from_utf8(bytes: Vec<u8>) -> (r: Option<String>)
    ensures
        r is Some <==> valid_utf8(bytes@),
        r matches Some(text) ==> text@ == decode_utf8(bytes@),
{
    String::from_utf8(bytes).ok()
}

} // verus!
