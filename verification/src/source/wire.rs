//! Integers and strings as the replication protocol writes them: integers
//! in network byte order, strings ended by a zero byte. Each reader states
//! what it reads as a function of the bytes that remain.

use crate::text::position;
use vstd::prelude::*;

verus! {

/// Why a payload could not be decoded.
#[derive(Debug, Clone, Copy, PartialEq, Eq, Structural)]
pub enum ParseError {
    /// The payload ends before the message does.
    Truncated,
    /// The byte before a tuple is none of the markers allowed there.
    BadMarker,
    /// A column value is of a kind other than null, unchanged or text.
    BadColumnKind,
    /// The length of a text value is negative.
    BadLength,
    /// A tuple's number of columns differs from that of its relation.
    ProtocolMismatch,
}

/// 256 to the power `n`.
pub open spec fn pow256(n: nat) -> nat
    decreases n,
{
    if n == 0 {
        1
    } else {
        256 * pow256((n - 1) as nat)
    }
}

/// The number that bytes spell in network byte order.
pub open spec fn be_value(s: Seq<u8>) -> nat
    decreases s.len(),
{
    if s.len() == 0 {
        0
    } else {
        be_value(s.drop_last()) * 256 + s.last() as nat
    }
}

/// The `n` bytes that spell `v` in network byte order.
pub open spec fn be_bytes(v: nat, n: nat) -> Seq<u8>
    decreases n,
{
    if n == 0 {
        Seq::empty()
    } else {
        be_bytes(v / 256, (n - 1) as nat).push((v % 256) as u8)
    }
}

pub proof fn lemma_pow256_values()
    ensures
        pow256(0) == 1,
        pow256(1) == 0x100,
        pow256(2) == 0x1_0000,
        pow256(4) == 0x1_0000_0000,
        pow256(8) == 0x1_0000_0000_0000_0000,
{
    reveal_with_fuel(pow256, 9);
}

/// `n` bytes spell a number below 256 to the `n`.
pub proof fn lemma_be_value_bound(s: Seq<u8>)
    ensures
        be_value(s) < pow256(s.len()),
    decreases s.len(),
{
    if s.len() > 0 {
        lemma_be_value_bound(s.drop_last());
    }
}

/// Writing a number that fits in `n` bytes and reading it back gives the
/// number.
pub proof fn lemma_be_round_trip(v: nat, n: nat)
    requires
        v < pow256(n),
    ensures
        be_bytes(v, n).len() == n,
        be_value(be_bytes(v, n)) == v,
    decreases n,
{
    if n > 0 {
        lemma_be_round_trip(v / 256, (n - 1) as nat);
        assert(be_bytes(v, n).drop_last() == be_bytes(v / 256, (n - 1) as nat));
    }
}

/// The signed number that a 32-bit pattern stands for.
pub open spec fn signed32(v: nat) -> int {
    if v >= 0x8000_0000 {
        v - 0x1_0000_0000
    } else {
        v as int
    }
}

/// The 32-bit pattern of a signed number.
pub open spec fn unsigned32(x: int) -> nat {
    if x < 0 {
        (x + 0x1_0000_0000) as nat
    } else {
        x as nat
    }
}

/// One byte and what follows it.
pub open spec fn take_u8(s: Seq<u8>) -> Result<(u8, Seq<u8>), ParseError> {
    if s.len() < 1 {
        Err(ParseError::Truncated)
    } else {
        Ok((s[0], s.skip(1)))
    }
}

/// A 16-bit number and what follows it.
pub open spec fn take_u16(s: Seq<u8>) -> Result<(u16, Seq<u8>), ParseError> {
    if s.len() < 2 {
        Err(ParseError::Truncated)
    } else {
        Ok((be_value(s.take(2)) as u16, s.skip(2)))
    }
}

/// A 32-bit number and what follows it.
pub open spec fn take_u32(s: Seq<u8>) -> Result<(u32, Seq<u8>), ParseError> {
    if s.len() < 4 {
        Err(ParseError::Truncated)
    } else {
        Ok((be_value(s.take(4)) as u32, s.skip(4)))
    }
}

/// A signed 32-bit number and what follows it.
pub open spec fn take_i32(s: Seq<u8>) -> Result<(i32, Seq<u8>), ParseError> {
    if s.len() < 4 {
        Err(ParseError::Truncated)
    } else {
        Ok((signed32(be_value(s.take(4))) as i32, s.skip(4)))
    }
}

/// A 64-bit number and what follows it.
pub open spec fn take_u64(s: Seq<u8>) -> Result<(u64, Seq<u8>), ParseError> {
    if s.len() < 8 {
        Err(ParseError::Truncated)
    } else {
        Ok((be_value(s.take(8)) as u64, s.skip(8)))
    }
}

/// The bytes before the first zero byte, and what follows that byte.
pub open spec fn take_cstr(s: Seq<u8>) -> Result<(Seq<u8>, Seq<u8>), ParseError> {
    let p = position(s, 0u8);
    if 0 <= p < s.len() {
        Ok((s.take(p), s.skip(p + 1)))
    } else {
        Err(ParseError::Truncated)
    }
}

/// `n` bytes and what follows them.
pub open spec fn take_bytes(s: Seq<u8>, n: nat) -> Result<(Seq<u8>, Seq<u8>), ParseError> {
    if s.len() < n {
        Err(ParseError::Truncated)
    } else {
        Ok((s.take(n as int), s.skip(n as int)))
    }
}

/// Whether the outcome `r` of a reader that began at `pos` is what the
/// grammar gives for the bytes from `pos` on: the same value, and a new
/// position from which the rest of the grammar's bytes remain.
pub open spec fn reads<T>(
    data: Seq<u8>,
    expected: Result<(T, Seq<u8>), ParseError>,
    r: Result<(T, usize), ParseError>,
) -> bool {
    match expected {
        Ok((value, rest)) => r matches Ok((v, p)) && v == value && p <= data.len() && data.skip(
            p as int,
        ) == rest,
        Err(e) => r == Err::<(T, usize), ParseError>(e),
    }
}

/// Reads the `n` bytes at `pos` as one number in network byte order.
pub fn read_be(data: &[u8], pos: usize, n: usize) -> (r: u64)
    requires
        n <= 8,
        pos + n <= data.len(),
    ensures
        r == be_value(data@.subrange(pos as int, pos + n)),
        r < pow256(n as nat),
{
    let ghost field = data@.subrange(pos as int, pos + n);
    let mut acc: u64 = 0;
    let mut i: usize = 0;
    proof {
        lemma_pow256_values();
    }
    while i < n
        invariant
            i <= n <= 8,
            pos + n <= data.len(),
            field == data@.subrange(pos as int, pos + n),
            acc == be_value(field.take(i as int)),
            acc < pow256(i as nat),
            pow256(8) == 0x1_0000_0000_0000_0000,
        decreases n - i,
    {
        proof {
            assert(field.take(i + 1).drop_last() == field.take(i as int));
            lemma_pow256_monotonic((i + 1) as nat, 8);
        }
        acc = acc * 256 + data[pos + i] as u64;
        i += 1;
    }
    assert(field.take(n as int) == field);
    acc
}

/// A larger exponent gives a power that is not smaller.
pub proof fn lemma_pow256_monotonic(a: nat, b: nat)
    requires
        a <= b,
    ensures
        pow256(a) <= pow256(b),
        pow256(a) >= 1,
    decreases b,
{
    if a < b {
        lemma_pow256_monotonic(a, (b - 1) as nat);
    } else if a > 0 {
        lemma_pow256_monotonic((a - 1) as nat, (a - 1) as nat);
    }
}

/// Reads one byte at `pos`.
pub fn read_u8(data: &[u8], pos: usize) -> (r: Result<(u8, usize), ParseError>)
    requires
        pos <= data.len(),
    ensures
        reads(data@, take_u8(data@.skip(pos as int)), r),
{
    if data.len() - pos < 1 {
        return Err(ParseError::Truncated);
    }
    assert(data@.skip(pos as int).skip(1) == data@.skip(pos + 1));
    Ok((data[pos], pos + 1))
}

/// Reads a 16-bit number at `pos`.
pub fn read_u16(data: &[u8], pos: usize) -> (r: Result<(u16, usize), ParseError>)
    requires
        pos <= data.len(),
    ensures
        reads(data@, take_u16(data@.skip(pos as int)), r),
{
    if data.len() - pos < 2 {
        return Err(ParseError::Truncated);
    }
    proof {
        assert(data@.skip(pos as int).take(2) == data@.subrange(pos as int, pos + 2));
        assert(data@.skip(pos as int).skip(2) == data@.skip(pos + 2));
    }
    Ok((read_be(data, pos, 2) as u16, pos + 2))
}

/// Reads a 32-bit number at `pos`.
pub fn read_u32(data: &[u8], pos: usize) -> (r: Result<(u32, usize), ParseError>)
    requires
        pos <= data.len(),
    ensures
        reads(data@, take_u32(data@.skip(pos as int)), r),
{
    if data.len() - pos < 4 {
        return Err(ParseError::Truncated);
    }
    proof {
        assert(data@.skip(pos as int).take(4) == data@.subrange(pos as int, pos + 4));
        assert(data@.skip(pos as int).skip(4) == data@.skip(pos + 4));
    }
    Ok((read_be(data, pos, 4) as u32, pos + 4))
}

/// Reads a signed 32-bit number at `pos`.
pub fn read_i32(data: &[u8], pos: usize) -> (r: Result<(i32, usize), ParseError>)
    requires
        pos <= data.len(),
    ensures
        reads(data@, take_i32(data@.skip(pos as int)), r),
{
    if data.len() - pos < 4 {
        return Err(ParseError::Truncated);
    }
    proof {
        lemma_pow256_values();
        assert(data@.skip(pos as int).take(4) == data@.subrange(pos as int, pos + 4));
        assert(data@.skip(pos as int).skip(4) == data@.skip(pos + 4));
    }
    let v: u64 = read_be(data, pos, 4);
    let x: i32 = if v >= 0x8000_0000 {
        let low: i32 = (v - 0x8000_0000) as i32;
        low + i32::MIN
    } else {
        v as i32
    };
    Ok((x, pos + 4))
}

/// Reads a 64-bit number at `pos`.
pub fn read_u64(data: &[u8], pos: usize) -> (r: Result<(u64, usize), ParseError>)
    requires
        pos <= data.len(),
    ensures
        reads(data@, take_u64(data@.skip(pos as int)), r),
{
    if data.len() - pos < 8 {
        return Err(ParseError::Truncated);
    }
    proof {
        assert(data@.skip(pos as int).take(8) == data@.subrange(pos as int, pos + 8));
        assert(data@.skip(pos as int).skip(8) == data@.skip(pos + 8));
    }
    Ok((read_be(data, pos, 8), pos + 8))
}

/// The bytes `data[from..to]`.
pub fn copy_range(data: &[u8], from: usize, to: usize) -> (r: Vec<u8>)
    requires
        from <= to <= data.len(),
    ensures
        r@ == data@.subrange(from as int, to as int),
{
    let mut out: Vec<u8> = Vec::new();
    let mut i: usize = from;
    while i < to
        invariant
            from <= i <= to <= data.len(),
            out@ == data@.subrange(from as int, i as int),
        decreases to - i,
    {
        out.push(data[i]);
        i += 1;
    }
    out
}

/// Reads the bytes of a zero-ended string at `pos`.
pub fn read_cstr(data: &[u8], pos: usize) -> (r: Result<(Vec<u8>, usize), ParseError>)
    requires
        pos <= data.len(),
    ensures
        match take_cstr(data@.skip(pos as int)) {
            Ok((value, rest)) => r matches Ok((v, p)) && v@ == value && p <= data.len()
                && data@.skip(p as int) == rest,
            Err(e) => r matches Err(x) && x == e,
        },
{
    let ghost rest = data@.skip(pos as int);
    let mut i: usize = pos;
    while i < data.len() && data[i] != 0
        invariant
            pos <= i <= data.len(),
            rest == data@.skip(pos as int),
            forall|j: int| 0 <= j < i - pos ==> rest[j] != 0u8,
        decreases data.len() - i,
    {
        i += 1;
    }
    proof {
        crate::text::lemma_position_is(rest, 0u8, i - pos);
    }
    if i >= data.len() {
        return Err(ParseError::Truncated);
    }
    Ok((copy_range(data, pos, i), i + 1))
}

/// Reads `n` bytes at `pos`.
pub fn read_bytes(data: &[u8], pos: usize, n: usize) -> (r: Result<(Vec<u8>, usize), ParseError>)
    requires
        pos <= data.len(),
    ensures
        match take_bytes(data@.skip(pos as int), n as nat) {
            Ok((value, rest)) => r matches Ok((v, p)) && v@ == value && p <= data.len()
                && data@.skip(p as int) == rest,
            Err(e) => r matches Err(x) && x == e,
        },
{
    if data.len() - pos < n {
        return Err(ParseError::Truncated);
    }
    Ok((copy_range(data, pos, pos + n), pos + n))
}

} // verus!
