//! Variable-length integers of the Java Edition wire format.
//!
//! A signed 32-bit value is taken as an unsigned one and written in base 128,
//! least significant digit first. Every byte but the last has its high bit
//! set. No value needs more than five bytes.

use crate::wire::behind;
use crate::{truncated, truncated_error, Error, ErrorView};
use vstd::prelude::*;

verus! {

/// The most bytes one variable-length integer occupies.
pub const MAX_VARINT_LEN: usize = 5;

/// The unsigned 32-bit number with the same bits as `value`.
pub open spec fn to_unsigned(value: i32) -> int {
    if value >= 0 {
        value as int
    } else {
        value + 0x1_0000_0000
    }
}

/// The signed 32-bit number with the same bits as the unsigned `bits`.
pub open spec fn to_signed(bits: int) -> i32 {
    if bits < 0x8000_0000 {
        bits as i32
    } else {
        (bits - 0x1_0000_0000) as i32
    }
}

/// 128 to the power `n`.
pub open spec fn pow128(n: nat) -> int
    decreases n,
{
    if n == 0 {
        1
    } else {
        128 * pow128((n - 1) as nat)
    }
}

/// The number whose base-128 digits, least significant first, are the low
/// seven bits of each byte.
pub open spec fn base128_value(bytes: Seq<u8>) -> int
    decreases bytes.len(),
{
    if bytes.len() == 0 {
        0
    } else {
        base128_value(bytes.drop_last()) + pow128((bytes.len() - 1) as nat) * (bytes.last() % 128)
    }
}

/// How many bytes at the front of `bytes` have the continuation bit.
pub open spec fn continuation_run(bytes: Seq<u8>) -> nat
    decreases bytes.len(),
{
    if bytes.len() == 0 || bytes[0] < 128 {
        0
    } else {
        1 + continuation_run(bytes.skip(1))
    }
}

/// The bytes that spell the non-negative number `v` in base 128.
pub open spec fn encode_base128(v: int) -> Seq<u8>
    decreases v,
{
    if v < 128 {
        seq![v as u8]
    } else {
        seq![(v % 128 + 128) as u8] + encode_base128(v / 128)
    }
}

/// The wire form of `value`.
pub open spec fn encode_varint(value: i32) -> Seq<u8> {
    encode_base128(to_unsigned(value))
}

/// What reading one variable-length integer from the front of `bytes` gives:
/// the value and the number of bytes it took, or the reason it failed.
///
/// Five leading bytes with the continuation bit are too many. Input that ends
/// inside the integer is truncated. Bits beyond the thirty-second are dropped.
pub open spec fn decode_varint(bytes: Seq<u8>) -> Result<(i32, nat), ErrorView> {
    let run = continuation_run(bytes);
    if run >= 5 {
        Err(ErrorView::InvalidVarInt)
    } else if run >= bytes.len() {
        Err(truncated())
    } else {
        Ok((to_signed(base128_value(bytes.take((run + 1) as int)) % 0x1_0000_0000), (run + 1) as nat))
    }
}

proof fn lemma_pow128_values()
    ensures
        pow128(0) == 1,
        pow128(1) == 0x80,
        pow128(2) == 0x4000,
        pow128(3) == 0x20_0000,
        pow128(4) == 0x1000_0000,
        pow128(5) == 0x8_0000_0000,
{
    reveal_with_fuel(pow128, 6);
}

proof fn lemma_digit_bits(v: u32)
    by (bit_vector)
    ensures
        v & 0x7f == v % 128,
        v >> 7 == v / 128,
        (v & 0x7f) | 0x80 == v % 128 + 128,
{
}

proof fn lemma_byte_bits(b: u8)
    by (bit_vector)
    ensures
        b & 0x7f == b % 128,
        b & 0x80 == 0 <==> b < 128,
{
}

proof fn lemma_accumulate_bits(acc: u32, digit: u32)
    by (bit_vector)
    requires
        digit < 128,
    ensures
        acc < 0x1 ==> acc | (digit << 0) == acc + digit,
        acc < 0x80 ==> acc | (digit << 7) == acc + 0x80 * digit,
        acc < 0x4000 ==> acc | (digit << 14) == acc + 0x4000 * digit,
        acc < 0x20_0000 ==> acc | (digit << 21) == acc + 0x20_0000 * digit,
        acc < 0x1000_0000 ==> acc | (digit << 28) == (acc + 0x1000_0000 * digit) % 0x1_0000_0000,
{
}

proof fn lemma_unsigned_bits(value: i32)
    by (bit_vector)
    ensures
        value >= 0 ==> (value as u32) as i64 == value as i64,
        value < 0 ==> (value as u32) as i64 == value as i64 + 0x1_0000_0000,
{
}

proof fn lemma_signed_bits(bits: u32)
    by (bit_vector)
    ensures
        bits < 0x8000_0000 ==> (bits as i32) as i64 == bits as i64,
        bits >= 0x8000_0000 ==> (bits as i32) as i64 == bits as i64 - 0x1_0000_0000,
{
}

/// Every byte of `bytes` has the continuation bit.
pub open spec fn all_continue(bytes: Seq<u8>) -> bool {
    forall|i: int| 0 <= i < bytes.len() ==> bytes[i] >= 128
}

/// A run of continuation bytes is counted in full, and ends at the first byte
/// without the bit.
proof fn lemma_continuation_run(head: Seq<u8>, tail: Seq<u8>)
    requires
        all_continue(head),
    ensures
        continuation_run(head + tail) == head.len() + continuation_run(tail),
    decreases head.len(),
{
    if head.len() == 0 {
        assert(head + tail =~= tail);
    } else {
        let rest = head.skip(1);
        assert((head + tail).skip(1) =~= rest + tail);
        assert(forall|i: int| 0 <= i < rest.len() ==> rest[i] == head[i + 1]);
        lemma_continuation_run(rest, tail);
        assert((head + tail)[0] == head[0]);
    }
}

/// The digits of `n` bytes spell a number from zero up to, not including,
/// `pow128(n)`.
proof fn lemma_value_bound(bytes: Seq<u8>)
    ensures
        0 <= base128_value(bytes) < pow128(bytes.len()),
    decreases bytes.len(),
{
    if bytes.len() > 0 {
        lemma_value_bound(bytes.drop_last());
        let p = pow128((bytes.len() - 1) as nat);
        let d = (bytes.last() % 128) as int;
        assert(0 <= p * d <= p * 127) by (nonlinear_arith)
            requires
                0 <= d <= 127,
                0 < p,
        ;
    }
}

/// Putting a byte in front multiplies the rest by 128.
proof fn lemma_value_front(first: u8, rest: Seq<u8>)
    ensures
        base128_value(seq![first] + rest) == first % 128 + 128 * base128_value(rest),
    decreases rest.len(),
{
    let all = seq![first] + rest;
    if rest.len() == 0 {
        assert(all.drop_last() =~= Seq::<u8>::empty());
        assert(base128_value(all.drop_last()) == 0);
        assert(pow128(0) == 1);
        assert(all.last() == first);
        assert(base128_value(all) == 0 + 1 * (first % 128));
    } else {
        let inner = rest.drop_last();
        assert(all.drop_last() =~= seq![first] + inner);
        lemma_value_front(first, inner);
        let p = pow128((rest.len() - 1) as nat);
        let d = (rest.last() % 128) as int;
        assert(all.last() == rest.last());
        assert(all.len() - 1 == rest.len());
        assert(pow128(rest.len()) == 128 * p);
        assert((128 * p) * d == 128 * (p * d)) by (nonlinear_arith);
        assert(base128_value(all) == base128_value(seq![first] + inner) + (128 * p) * d);
        assert(base128_value(rest) == base128_value(inner) + p * d);
    }
}

/// The wire form of a number below `pow128(n)`: it has at most `n` bytes, all
/// but the last carry the continuation bit whatever follows, and its digits
/// spell the number.
proof fn lemma_encode_base128(v: int, n: nat, tail: Seq<u8>)
    requires
        0 <= v < pow128(n),
        n >= 1,
    ensures
        1 <= encode_base128(v).len() <= n,
        continuation_run(encode_base128(v) + tail) == encode_base128(v).len() - 1,
        base128_value(encode_base128(v)) == v,
        n >= 2 && v >= pow128((n - 1) as nat) ==> encode_base128(v).len() == n,
    decreases n,
{
    let bytes = encode_base128(v);
    if v < 128 {
        assert(bytes =~= seq![v as u8]);
        assert(bytes.drop_last() =~= Seq::<u8>::empty());
        assert(base128_value(bytes.drop_last()) == 0);
        assert(pow128(0) == 1);
        assert((bytes + tail)[0] == v as u8);
        if n >= 2 {
            lemma_pow128_at_least((n - 1) as nat);
        }
    } else {
        let first = (v % 128 + 128) as u8;
        let rest = encode_base128(v / 128);
        assert(pow128(1) == 128) by {
            reveal_with_fuel(pow128, 2);
        }
        assert(pow128(n) == 128 * pow128((n - 1) as nat));
        lemma_encode_base128(v / 128, (n - 1) as nat, tail);
        assert(bytes =~= seq![first] + rest);
        assert((bytes + tail).skip(1) =~= rest + tail);
        assert((bytes + tail)[0] == first);
        lemma_value_front(first, rest);
        assert(first % 128 == v % 128);
        if n >= 3 && v >= pow128((n - 1) as nat) {
            assert(pow128((n - 1) as nat) == 128 * pow128((n - 2) as nat));
        }
    }
}

/// Bytes after the one that ends an integer change nothing, and neither do
/// bytes after a run that is already too long.
proof fn lemma_run_prefix(head: Seq<u8>, tail: Seq<u8>)
    ensures
        continuation_run(head + tail) >= continuation_run(head),
        continuation_run(head) < head.len() ==> continuation_run(head + tail) == continuation_run(
            head,
        ),
    decreases head.len(),
{
    if head.len() > 0 {
        assert((head + tail)[0] == head[0]);
        if head[0] >= 128 {
            assert((head + tail).skip(1) =~= head.skip(1) + tail);
            lemma_run_prefix(head.skip(1), tail);
        }
    }
}

/// What was read from a prefix stays read when more bytes follow, and an
/// integer that is too long stays too long.
pub proof fn lemma_decode_prefix(head: Seq<u8>, tail: Seq<u8>)
    ensures
        decode_varint(head) is Ok ==> decode_varint(head + tail) == decode_varint(head),
        decode_varint(head) == Err::<(i32, nat), ErrorView>(ErrorView::InvalidVarInt)
            ==> decode_varint(head + tail) == decode_varint(head),
{
    lemma_run_prefix(head, tail);
    let run = continuation_run(head);
    if run < 5 && run < head.len() {
        assert((head + tail).take((run + 1) as int) =~= head.take((run + 1) as int));
    }
}

proof fn lemma_pow128_at_least(n: nat)
    requires
        n >= 1,
    ensures
        128 <= pow128(n),
    decreases n,
{
    if n == 1 {
        reveal_with_fuel(pow128, 2);
    } else {
        lemma_pow128_at_least((n - 1) as nat);
    }
}

/// Appends the wire form of `value` to `buf`.
pub fn write_varint(buf: &mut Vec<u8>, value: i32)
    ensures
        final(buf)@ == old(buf)@ + encode_varint(value),
{
    let mut rest: u32 = value as u32;
    proof {
        lemma_unsigned_bits(value);
    }
    while rest >= 0x80
        invariant
            buf@ + encode_base128(rest as int) == old(buf)@ + encode_varint(value),
        decreases rest,
    {
        proof {
            lemma_digit_bits(rest);
        }
        let ghost before = buf@;
        let ghost prev = rest;
        buf.push(((rest & 0x7f) | 0x80) as u8);
        rest = rest >> 7;
        assert(buf@ + encode_base128(rest as int) =~= before + encode_base128(prev as int));
    }
    let ghost before = buf@;
    buf.push(rest as u8);
    assert(buf@ =~= before + encode_base128(rest as int));
}

/// Reads one variable-length integer a byte at a time.
///
/// A value of this type has taken fewer than five bytes, every one of them
/// with the continuation bit.
pub struct VarIntReader {
    acc: u32,
    count: u8,
    seen: Ghost<Seq<u8>>,
}

/// Where a [`VarIntReader`] stands after one more byte.
pub enum VarIntStep {
    /// The integer goes on: hand the next byte to this reader.
    More(VarIntReader),
    /// The byte ended the integer, which has this value.
    Done(i32),
    /// The fifth byte still had the continuation bit.
    TooLong,
}

impl VarIntReader {
    #[verifier::type_invariant]
    spec fn well_formed(self) -> bool {
        &&& self.count < 5
        &&& self.seen@.len() == self.count
        &&& all_continue(self.seen@)
        &&& self.acc == base128_value(self.seen@)
    }

    /// The bytes taken so far.
    pub closed spec fn consumed(self) -> Seq<u8> {
        self.seen@
    }

    /// A reader that has taken nothing.
    pub fn new() -> (reader: Self)
        ensures
            reader.consumed() == Seq::<u8>::empty(),
    {
        VarIntReader { acc: 0, count: 0, seen: Ghost(Seq::empty()) }
    }

    /// Takes `byte` as the next byte of the integer.
    ///
    /// The outcome is what decoding all bytes taken so far, `byte` included,
    /// gives: a value, too many bytes, or the need for more.
    pub fn push(self, byte: u8) -> (step: VarIntStep)
        ensures
            match decode_varint(self.consumed().push(byte)) {
                Ok((value, _)) => step == VarIntStep::Done(value),
                Err(ErrorView::InvalidVarInt) => step == VarIntStep::TooLong,
                Err(_) => step matches VarIntStep::More(next) && next.consumed()
                    == self.consumed().push(byte),
            },
    {
        let ghost seen = self.seen@;
        let ghost all = seen.push(byte);
        let digit: u32 = (byte & 0x7f) as u32;
        proof {
            use_type_invariant(&self);
        }
        let shift: u32 = 7 * (self.count as u32);
        let acc = self.acc | (digit << shift);
        proof {
            lemma_byte_bits(byte);
            lemma_pow128_values();
            lemma_value_bound(seen);
            lemma_accumulate_bits(self.acc, digit);
            lemma_signed_bits(acc);
            assert(all.drop_last() =~= seen);
            assert(all.last() == byte);
            assert(all =~= seen + seq![byte]);
            lemma_continuation_run(seen, seq![byte]);
            assert(seq![byte].skip(1) =~= Seq::<u8>::empty());
            assert(all.take(all.len() as int) =~= all);
            let sum = base128_value(seen) + pow128(seen.len()) * (byte % 128);
            assert(base128_value(all) == sum);
            if self.count == 0 {
                assert(sum == self.acc + digit);
            } else if self.count == 1 {
                assert(sum == self.acc + 0x80 * digit);
            } else if self.count == 2 {
                assert(sum == self.acc + 0x4000 * digit);
            } else if self.count == 3 {
                assert(sum == self.acc + 0x20_0000 * digit);
            } else {
                assert(sum == self.acc + 0x1000_0000 * digit);
            }
            assert(acc == sum % 0x1_0000_0000);
            assert(self.count < 4 ==> acc == sum);
        }
        if byte & 0x80 == 0 {
            proof {
                assert(continuation_run(all) == seen.len());
                assert(decode_varint(all) == Ok::<(i32, nat), ErrorView>(
                    (to_signed(acc as int), all.len()),
                ));
            }
            VarIntStep::Done(
                #[verifier::truncate]
                (acc as i32),
            )
        } else if self.count == 4 {
            proof {
                assert(seq![byte][0] == byte);
                assert(continuation_run(seq![byte].skip(1)) == 0);
                assert(continuation_run(seq![byte]) == 1);
                assert(continuation_run(all) == 5);
            }
            VarIntStep::TooLong
        } else {
            proof {
                assert(seq![byte][0] == byte);
                assert(continuation_run(seq![byte].skip(1)) == 0);
                assert(continuation_run(seq![byte]) == 1);
                assert(continuation_run(all) == all.len());
            }
            VarIntStep::More(VarIntReader { acc, count: self.count + 1, seen: Ghost(all) })
        }
    }
}

/// Reads one variable-length integer that starts at `buf[pos]`.
///
/// Returns the value and the position after it, as [`decode_varint`] gives
/// them for the bytes from `pos` on.
pub fn read_varint(buf: &[u8], pos: usize) -> (r: Result<(i32, usize), Error>)
    ensures
        match decode_varint(behind(buf@, pos as int)) {
            Ok((value, taken)) => r == Ok::<(i32, usize), Error>((value, (pos + taken) as usize))
                && pos + taken <= buf.len(),
            Err(e) => r matches Err(f) && f@ == e,
        },
{
    if pos > buf.len() {
        return Err(truncated_error());
    }
    let ghost input = buf@.skip(pos as int);
    let mut reader = VarIntReader::new();
    let mut at: usize = pos;
    loop
        invariant
            pos <= at <= buf.len(),
            input == buf@.skip(pos as int),
            reader.consumed() == buf@.subrange(pos as int, at as int),
        decreases buf.len() - at,
    {
        proof {
            use_type_invariant(&reader);
        }
        if at >= buf.len() {
            proof {
                assert(input =~= reader.consumed());
                lemma_continuation_run(input, Seq::empty());
                assert(input + Seq::<u8>::empty() =~= input);
            }
            return Err(truncated_error());
        }
        let byte = buf[at];
        proof {
            let head = reader.consumed().push(byte);
            let tail = buf@.skip(at + 1);
            assert(head + tail =~= input);
            assert(head =~= buf@.subrange(pos as int, at + 1));
            lemma_decode_prefix(head, tail);
            assert(head =~= reader.consumed() + seq![byte]);
            lemma_continuation_run(reader.consumed(), seq![byte]);
        }
        match reader.push(byte) {
            VarIntStep::Done(value) => {
                return Ok((value, at + 1));
            },
            VarIntStep::TooLong => {
                return Err(Error::InvalidVarInt);
            },
            VarIntStep::More(next) => {
                reader = next;
                at = at + 1;
            },
        }
    }
}

/// Reading back what was written gives the value that was written, for every
/// value and whatever follows it.
pub proof fn lemma_varint_round_trip(value: i32, tail: Seq<u8>)
    ensures
        decode_varint(encode_varint(value) + tail) == Ok::<(i32, nat), ErrorView>(
            (value, encode_varint(value).len()),
        ),
        1 <= encode_varint(value).len() <= 5,
{
    let bits = to_unsigned(value);
    let bytes = encode_varint(value);
    lemma_pow128_values();
    lemma_encode_base128(bits, 5, tail);
    assert((bytes + tail).take(bytes.len() as int) =~= bytes);
}

/// A negative value takes all five bytes.
pub proof fn lemma_negative_takes_five(value: i32)
    requires
        value < 0,
    ensures
        encode_varint(value).len() == 5,
{
    lemma_pow128_values();
    lemma_encode_base128(to_unsigned(value), 5, Seq::empty());
}

/// Five bytes that all carry the continuation bit are no integer.
pub proof fn lemma_five_continuations_rejected(bytes: Seq<u8>)
    requires
        bytes.len() >= 5,
        forall|i: int| 0 <= i < 5 ==> bytes[i] >= 128,
    ensures
        decode_varint(bytes) == Err::<(i32, nat), ErrorView>(ErrorView::InvalidVarInt),
{
    let head = bytes.take(5);
    let tail = bytes.skip(5);
    assert(head + tail =~= bytes);
    lemma_continuation_run(head, tail);
}

} // verus!
