//! The byte-level building blocks of the wire format: single bytes, 32-bit
//! little-endian words (how a 32-bit float travels) and LEB128 variable-length
//! integers (how unsigned integers and enum tags travel), with the exact
//! acceptance rules of the decoder.
use vstd::prelude::*;

verus! {

/// Why a byte string could not be decoded.
#[derive(Debug, Clone, Copy, PartialEq, Eq, Structural)]
pub enum ProtoError {
    /// The input ended in the middle of a value.
    UnexpectedEnd,
    /// A variable-length integer does not fit in 32 bits.
    BadVarint,
    /// An enum tag names no variant.
    UnknownVariant,
}

/// The LEB128 encoding of a 32-bit value: seven bits per byte, least
/// significant group first, the high bit set on every byte but the last.
#[verifier::opaque]
pub open spec fn varint(v: u32) -> Seq<u8> {
    if v < 0x80 {
        seq![v as u8]
    } else if v < 0x4000 {
        seq![(v % 128 + 128) as u8, (v / 0x80) as u8]
    } else if v < 0x20_0000 {
        seq![(v % 128 + 128) as u8, ((v / 0x80) % 128 + 128) as u8, (v / 0x4000) as u8]
    } else if v < 0x1000_0000 {
        seq![
            (v % 128 + 128) as u8,
            ((v / 0x80) % 128 + 128) as u8,
            ((v / 0x4000) % 128 + 128) as u8,
            (v / 0x20_0000) as u8,
        ]
    } else {
        seq![
            (v % 128 + 128) as u8,
            ((v / 0x80) % 128 + 128) as u8,
            ((v / 0x4000) % 128 + 128) as u8,
            ((v / 0x20_0000) % 128 + 128) as u8,
            (v / 0x1000_0000) as u8,
        ]
    }
}

/// The four little-endian bytes of a 32-bit word.
pub open spec fn le32(v: u32) -> Seq<u8> {
    seq![(v % 256) as u8, ((v / 0x100) % 256) as u8, ((v / 0x1_0000) % 256) as u8, (v / 0x100_0000) as u8]
}

/// Reads one byte at `pos`: the byte and the position after it.
pub open spec fn parse_u8(b: Seq<u8>, pos: int) -> Result<(u8, int), ProtoError> {
    if 0 <= pos < b.len() {
        Ok((b[pos], pos + 1))
    } else {
        Err(ProtoError::UnexpectedEnd)
    }
}

/// Reads a little-endian 32-bit word at `pos`.
pub open spec fn parse_le32(b: Seq<u8>, pos: int) -> Result<(u32, int), ProtoError> {
    if 0 <= pos && pos + 4 <= b.len() {
        Ok(((b[pos] + b[pos + 1] * 0x100 + b[pos + 2] * 0x1_0000 + b[pos + 3] * 0x100_0000) as u32, pos + 4))
    } else {
        Err(ProtoError::UnexpectedEnd)
    }
}

/// Reads a variable-length 32-bit integer at `pos`. At most five bytes are
/// read; the fifth must end the value and carry at most four bits. Groups may
/// be redundant (a zero group with the high bit set is accepted).
pub open spec fn parse_varint(b: Seq<u8>, pos: int) -> Result<(u32, int), ProtoError> {
    if !(0 <= pos < b.len()) {
        Err(ProtoError::UnexpectedEnd)
    } else if b[pos] < 128 {
        Ok((b[pos] as u32, pos + 1))
    } else if pos + 1 >= b.len() {
        Err(ProtoError::UnexpectedEnd)
    } else if b[pos + 1] < 128 {
        Ok(((b[pos] - 128 + b[pos + 1] * 0x80) as u32, pos + 2))
    } else if pos + 2 >= b.len() {
        Err(ProtoError::UnexpectedEnd)
    } else if b[pos + 2] < 128 {
        Ok(((b[pos] - 128 + (b[pos + 1] - 128) * 0x80 + b[pos + 2] * 0x4000) as u32, pos + 3))
    } else if pos + 3 >= b.len() {
        Err(ProtoError::UnexpectedEnd)
    } else if b[pos + 3] < 128 {
        Ok(((b[pos] - 128 + (b[pos + 1] - 128) * 0x80 + (b[pos + 2] - 128) * 0x4000 + b[pos + 3]
            * 0x20_0000) as u32, pos + 4))
    } else if pos + 4 >= b.len() {
        Err(ProtoError::UnexpectedEnd)
    } else if b[pos + 4] < 16 {
        Ok(((b[pos] - 128 + (b[pos + 1] - 128) * 0x80 + (b[pos + 2] - 128) * 0x4000 + (b[pos + 3]
            - 128) * 0x20_0000 + b[pos + 4] * 0x1000_0000) as u32, pos + 5))
    } else {
        Err(ProtoError::BadVarint)
    }
}

/// Appends the variable-length encoding of `v`.
pub fn push_varint(out: &mut Vec<u8>, v: u32)
    ensures
        final(out)@ == old(out)@ + varint(v),
{
    reveal(varint);
    if v < 0x80 {
        out.push(v as u8);
    } else if v < 0x4000 {
        out.push((v % 128 + 128) as u8);
        out.push((v / 0x80) as u8);
    } else if v < 0x20_0000 {
        out.push((v % 128 + 128) as u8);
        out.push(((v / 0x80) % 128 + 128) as u8);
        out.push((v / 0x4000) as u8);
    } else if v < 0x1000_0000 {
        out.push((v % 128 + 128) as u8);
        out.push(((v / 0x80) % 128 + 128) as u8);
        out.push(((v / 0x4000) % 128 + 128) as u8);
        out.push((v / 0x20_0000) as u8);
    } else {
        out.push((v % 128 + 128) as u8);
        out.push(((v / 0x80) % 128 + 128) as u8);
        out.push(((v / 0x4000) % 128 + 128) as u8);
        out.push(((v / 0x20_0000) % 128 + 128) as u8);
        out.push((v / 0x1000_0000) as u8);
    }
    assert(final(out)@ =~= old(out)@ + varint(v));
}

/// Appends the four little-endian bytes of `v`.
pub fn push_le32(out: &mut Vec<u8>, v: u32)
    ensures
        final(out)@ == old(out)@ + le32(v),
{
    out.push((v % 256) as u8);
    out.push(((v / 0x100) % 256) as u8);
    out.push(((v / 0x1_0000) % 256) as u8);
    out.push((v / 0x100_0000) as u8);
    assert(final(out)@ =~= old(out)@ + le32(v));
}

/// Reads one byte at `pos`.
pub fn read_u8(b: &[u8], pos: usize) -> (r: Result<(u8, usize), ProtoError>)
    ensures
        match r {
            Ok((v, p)) => parse_u8(b@, pos as int) == Ok::<(u8, int), ProtoError>((v, p as int)),
            Err(e) => parse_u8(b@, pos as int) == Err::<(u8, int), ProtoError>(e),
        },
{
    if pos < b.len() {
        Ok((b[pos], pos + 1))
    } else {
        Err(ProtoError::UnexpectedEnd)
    }
}

/// Reads a little-endian 32-bit word at `pos`.
pub fn read_le32(b: &[u8], pos: usize) -> (r: Result<(u32, usize), ProtoError>)
    ensures
        match r {
            Ok((v, p)) => parse_le32(b@, pos as int) == Ok::<(u32, int), ProtoError>((v, p as int)),
            Err(e) => parse_le32(b@, pos as int) == Err::<(u32, int), ProtoError>(e),
        },
{
    if pos <= b.len() && b.len() - pos >= 4 {
        let v: u32 = b[pos] as u32 + b[pos + 1] as u32 * 0x100 + b[pos + 2] as u32 * 0x1_0000 + b[pos
            + 3] as u32 * 0x100_0000;
        Ok((v, pos + 4))
    } else {
        Err(ProtoError::UnexpectedEnd)
    }
}

/// Reads a variable-length 32-bit integer at `pos`.
pub fn read_varint(b: &[u8], pos: usize) -> (r: Result<(u32, usize), ProtoError>)
    ensures
        match r {
            Ok((v, p)) => parse_varint(b@, pos as int) == Ok::<(u32, int), ProtoError>((v, p as int)),
            Err(e) => parse_varint(b@, pos as int) == Err::<(u32, int), ProtoError>(e),
        },
{
    let n = b.len();
    if pos >= n {
        return Err(ProtoError::UnexpectedEnd);
    }
    let b0 = b[pos] as u32;
    if b0 < 128 {
        return Ok((b0, pos + 1));
    }
    if pos + 1 >= n {
        return Err(ProtoError::UnexpectedEnd);
    }
    let b1 = b[pos + 1] as u32;
    if b1 < 128 {
        return Ok((b0 - 128 + b1 * 0x80, pos + 2));
    }
    if pos + 2 >= n {
        return Err(ProtoError::UnexpectedEnd);
    }
    let b2 = b[pos + 2] as u32;
    if b2 < 128 {
        return Ok((b0 - 128 + (b1 - 128) * 0x80 + b2 * 0x4000, pos + 3));
    }
    if pos + 3 >= n {
        return Err(ProtoError::UnexpectedEnd);
    }
    let b3 = b[pos + 3] as u32;
    if b3 < 128 {
        return Ok((b0 - 128 + (b1 - 128) * 0x80 + (b2 - 128) * 0x4000 + b3 * 0x20_0000, pos + 4));
    }
    if pos + 4 >= n {
        return Err(ProtoError::UnexpectedEnd);
    }
    let b4 = b[pos + 4] as u32;
    if b4 < 16 {
        Ok((b0 - 128 + (b1 - 128) * 0x80 + (b2 - 128) * 0x4000 + (b3 - 128) * 0x20_0000 + b4
            * 0x1000_0000, pos + 5))
    } else {
        Err(ProtoError::BadVarint)
    }
}

proof fn lemma_varint_digits(v: u32)
    ensures
        v < 0x4000 ==> v == v % 128 + (v / 0x80) * 0x80,
        v < 0x20_0000 ==> v == v % 128 + ((v / 0x80) % 128) * 0x80 + (v / 0x4000) * 0x4000,
        v < 0x1000_0000 ==> v == v % 128 + ((v / 0x80) % 128) * 0x80 + ((v / 0x4000) % 128) * 0x4000
            + (v / 0x20_0000) * 0x20_0000,
        v == v % 128 + ((v / 0x80) % 128) * 0x80 + ((v / 0x4000) % 128) * 0x4000 + ((v / 0x20_0000)
            % 128) * 0x20_0000 + (v / 0x1000_0000) * 0x1000_0000,
        v >= 0x80 ==> v / 0x80 >= 1,
        v >= 0x4000 ==> v / 0x4000 >= 1,
        v >= 0x20_0000 ==> v / 0x20_0000 >= 1,
        v >= 0x1000_0000 ==> v / 0x1000_0000 >= 1,
        v / 0x1000_0000 < 16,
        v < 0x4000 ==> v / 0x80 < 128,
        v < 0x20_0000 ==> v / 0x4000 < 128,
        v < 0x1000_0000 ==> v / 0x20_0000 < 128,
{
    assert(v < 0x4000 ==> v == v % 128 + (v / 0x80) * 0x80) by (bit_vector);
    assert(v < 0x20_0000 ==> v == v % 128 + ((v / 0x80) % 128) * 0x80 + (v / 0x4000) * 0x4000) by (bit_vector);
    assert(v < 0x1000_0000 ==> v == v % 128 + ((v / 0x80) % 128) * 0x80 + ((v / 0x4000) % 128) * 0x4000
        + (v / 0x20_0000) * 0x20_0000) by (bit_vector);
    assert(v == v % 128 + ((v / 0x80) % 128) * 0x80 + ((v / 0x4000) % 128) * 0x4000 + ((v / 0x20_0000)
        % 128) * 0x20_0000 + (v / 0x1000_0000) * 0x1000_0000) by (bit_vector);
}

/// Reading a variable-length integer where one was written gives it back and
/// stops right after it, whatever precedes or follows.
#[verifier::rlimit(40)]
pub proof fn lemma_varint_round_trip(pre: Seq<u8>, v: u32, post: Seq<u8>)
    ensures
        parse_varint(pre + varint(v) + post, pre.len() as int) == Ok::<(u32, int), ProtoError>(
            (v, pre.len() + varint(v).len() as int),
        ),
{
    reveal(varint);
    let b = pre + varint(v) + post;
    let p = pre.len() as int;
    let e = varint(v);
    lemma_varint_digits(v);
    assert forall|i: int| 0 <= i < e.len() implies b[p + i] == e[i] by {
        assert(b[p + i] == (pre + e)[p + i]);
    }
    if v < 0x80 {
        assert(b[p] == e[0]);
    } else if v < 0x4000 {
        assert(b[p] == e[0] && b[p + 1] == e[1]);
        assert(e[0] - 128 == v % 128);
    } else if v < 0x20_0000 {
        assert(b[p] == e[0] && b[p + 1] == e[1] && b[p + 2] == e[2]);
        assert(e[0] - 128 == v % 128 && e[1] - 128 == (v / 0x80) % 128);
    } else if v < 0x1000_0000 {
        assert(b[p] == e[0] && b[p + 1] == e[1] && b[p + 2] == e[2] && b[p + 3] == e[3]);
        assert(e[0] - 128 == v % 128 && e[1] - 128 == (v / 0x80) % 128 && e[2] - 128 == (v / 0x4000) % 128);
    } else {
        assert(b[p] == e[0] && b[p + 1] == e[1] && b[p + 2] == e[2] && b[p + 3] == e[3] && b[p + 4] == e[4]);
        assert(e[0] - 128 == v % 128 && e[1] - 128 == (v / 0x80) % 128 && e[2] - 128 == (v / 0x4000) % 128
            && e[3] - 128 == (v / 0x20_0000) % 128);
    }
}

/// A value below 128 takes a single byte: itself.
pub proof fn lemma_varint_small(v: u32)
    requires
        v < 0x80,
    ensures
        varint(v) == seq![v as u8],
{
    reveal(varint);
}

/// Reading a 32-bit word where one was written gives it back.
pub proof fn lemma_le32_round_trip(pre: Seq<u8>, v: u32, post: Seq<u8>)
    ensures
        parse_le32(pre + le32(v) + post, pre.len() as int) == Ok::<(u32, int), ProtoError>(
            (v, pre.len() + 4int),
        ),
{
    let b = pre + le32(v) + post;
    let p = pre.len() as int;
    let e = le32(v);
    assert forall|i: int| 0 <= i < 4 implies b[p + i] == e[i] by {
        assert(b[p + i] == (pre + e)[p + i]);
    }
    assert(b[p] == e[0] && b[p + 1] == e[1] && b[p + 2] == e[2] && b[p + 3] == e[3]);
}

/// Reading a byte where one was written gives it back.
pub proof fn lemma_u8_round_trip(pre: Seq<u8>, v: u8, post: Seq<u8>)
    ensures
        parse_u8(pre + seq![v] + post, pre.len() as int) == Ok::<(u8, int), ProtoError>((v, pre.len() + 1int)),
{
    let b = pre + seq![v] + post;
    assert(b[pre.len() as int] == (pre + seq![v])[pre.len() as int]);
}

} // verus!
