//! Byte cursor reads over the input buffer.
//!
//! Every read is a pure function of the buffer, a cursor position and the
//! selected byte order: it returns the decoded value together with the
//! position just past the consumed bytes, or an error when fewer bytes
//! remain than the read consumes. The byte order is selected once, from the
//! magic cookie, and threaded through all subsequent reads.

use vstd::prelude::*;

use crate::CineonError;

verus! {

use vstd::slice::slice_subrange;
use vstd::utf8::{decode_utf8, valid_utf8};

/// Byte-order strategy, selected once from the magic cookie.
#[derive(Debug, Clone, Copy, PartialEq, Eq, Structural)]
pub enum Endian {
    /// Most significant byte first
    Big,
    /// Least significant byte first
    Little,
}

/// The unsigned 32-bit value held by the four bytes at `at`, read in byte
/// order `e`.
pub open spec fn spec_u32_at(b: Seq<u8>, at: int, e: Endian) -> u32 {
    match e {
        Endian::Big => ((b[at] as int) * 0x100_0000 + (b[at + 1] as int) * 0x1_0000 + (b[at + 2]
            as int) * 0x100 + (b[at + 3] as int)) as u32,
        Endian::Little => ((b[at + 3] as int) * 0x100_0000 + (b[at + 2] as int) * 0x1_0000 + (b[at
            + 1] as int) * 0x100 + (b[at] as int)) as u32,
    }
}

/// The unsigned 16-bit value held by the two bytes at `at`, read in byte
/// order `e`.
pub open spec fn spec_u16_at(b: Seq<u8>, at: int, e: Endian) -> u16 {
    match e {
        Endian::Big => ((b[at] as int) * 0x100 + (b[at + 1] as int)) as u16,
        Endian::Little => ((b[at + 1] as int) * 0x100 + (b[at] as int)) as u16,
    }
}

/// The signed 32-bit value held by the four bytes at `at`: the unsigned
/// value reinterpreted in two's complement.
pub open spec fn spec_i32_at(b: Seq<u8>, at: int, e: Endian) -> i32 {
    let v = spec_u32_at(b, at, e);
    if v < 0x8000_0000 {
        v as i32
    } else {
        ((v as int) - 0x1_0000_0000) as i32
    }
}

/// `b` with its trailing zero bytes removed.
pub open spec fn trim_zeros(b: Seq<u8>) -> Seq<u8>
    decreases b.len(),
{
    if b.len() > 0 && b.last() == 0 {
        trim_zeros(b.drop_last())
    } else {
        b
    }
}

/// A text field's content survives its zero padding: a byte sequence that
/// does not end in a zero byte keeps exactly its bytes once any run of
/// trailing zeros is appended and trimmed again.
pub proof fn lemma_trailing_zeros_trimmed(t: Seq<u8>, zeros: Seq<u8>)
    requires
        t.len() == 0 || t.last() != 0,
        forall|i: int| 0 <= i < zeros.len() ==> zeros[i] == 0,
    ensures
        trim_zeros(t + zeros) == t,
    decreases zeros.len(),
{
    if zeros.len() == 0 {
        assert(t + zeros =~= t);
    } else {
        let shorter = zeros.drop_last();
        assert((t + zeros).last() == 0);
        assert((t + zeros).drop_last() =~= t + shorter);
        lemma_trailing_zeros_trimmed(t, shorter);
    }
}

/// Whether the `n` bytes at `at` decode as text: valid UTF-8 once the
/// trailing zero padding is removed. Opaque: reveal it to reason about the
/// bytes themselves.
#[verifier::opaque]
pub open spec fn text_ok(b: Seq<u8>, at: int, n: int) -> bool {
    valid_utf8(trim_zeros(b.subrange(at, at + n)))
}

/// The characters that the `n` bytes at `at` decode to, after the trailing
/// zero padding is removed. Opaque: reveal it to reason about the bytes
/// themselves.
#[verifier::opaque]
pub open spec fn spec_text(b: Seq<u8>, at: int, n: int) -> Seq<char> {
    decode_utf8(trim_zeros(b.subrange(at, at + n)))
}

/// A fixed-width text field that holds some content followed by zero
/// padding decodes to exactly the content's characters, and decodes
/// successfully exactly when the content is valid UTF-8.
pub proof fn lemma_text_field_trimmed(b: Seq<u8>, at: int, n: int, t: Seq<u8>)
    requires
        0 <= at,
        t.len() <= n,
        at + n <= b.len(),
        t.len() == 0 || t.last() != 0,
        b.subrange(at, at + t.len()) == t,
        forall|i: int| at + t.len() <= i < at + n ==> b[i] == 0,
    ensures
        text_ok(b, at, n) == valid_utf8(t),
        spec_text(b, at, n) == decode_utf8(t),
{
    reveal(text_ok);
    reveal(spec_text);
    let zeros = b.subrange(at + t.len(), at + n);
    assert(b.subrange(at, at + n) =~= t + zeros);
    lemma_trailing_zeros_trimmed(t, zeros);
}

/// Whether `b` starts with the magic cookie in big-endian byte order.
pub open spec fn magic_big(b: Seq<u8>) -> bool {
    b.len() >= 4 && b[0] == 0x80 && b[1] == 0x2a && b[2] == 0x5f && b[3] == 0xd7
}

/// Whether `b` starts with the magic cookie in little-endian byte order.
pub open spec fn magic_little(b: Seq<u8>) -> bool {
    b.len() >= 4 && b[0] == 0xd7 && b[1] == 0x5f && b[2] == 0x2a && b[3] == 0x80
}

/// Whether `b` starts with the magic cookie in either byte order.
pub open spec fn magic_ok(b: Seq<u8>) -> bool {
    magic_big(b) || magic_little(b)
}

/// The byte order that the magic cookie declares. Meaningful only when
/// `magic_ok(b)` holds.
pub open spec fn spec_endian(b: Seq<u8>) -> Endian {
    if magic_big(b) {
        Endian::Big
    } else {
        Endian::Little
    }
}

/// Validates the magic cookie and selects the byte order it declares.
pub fn check_magick(input: &[u8]) -> (r: Result<Endian, CineonError>)
    ensures
        magic_ok(input@) ==> r == Ok::<Endian, CineonError>(spec_endian(input@)),
        !magic_ok(input@) ==> r == Err::<Endian, CineonError>(CineonError::NotCineonImage),
{
    if input.len() < 4 {
        return Err(CineonError::NotCineonImage);
    }
    if input[0] == 0x80 && input[1] == 0x2a && input[2] == 0x5f && input[3] == 0xd7 {
        Ok(Endian::Big)
    } else if input[0] == 0xd7 && input[1] == 0x5f && input[2] == 0x2a && input[3] == 0x80 {
        Ok(Endian::Little)
    } else {
        Err(CineonError::NotCineonImage)
    }
}

impl Endian {
    /// Consumes one byte.
    pub fn read_u8(self, input: &[u8], pos: usize) -> (r: Result<(u8, usize), CineonError>)
        requires
            pos <= input@.len(),
        ensures
            pos + 1 <= input@.len() ==> (r matches Ok(v) && v.0 == input@[pos as int] && v.1 == pos
                + 1),
            pos + 1 > input@.len() ==> (r matches Err(err) && err == CineonError::ParserError),
    {
        if input.len() - pos < 1 {
            return Err(CineonError::ParserError);
        }
        Ok((input[pos], pos + 1))
    }

    /// Consumes two consecutive bytes.
    pub fn read_u8_pair(self, input: &[u8], pos: usize) -> (r: Result<
        ((u8, u8), usize),
        CineonError,
    >)
        requires
            pos <= input@.len(),
        ensures
            pos + 2 <= input@.len() ==> (r matches Ok(v) && v.0.0 == input@[pos as int] && v.0.1
                == input@[pos + 1] && v.1 == pos + 2),
            pos + 2 > input@.len() ==> (r matches Err(err) && err == CineonError::ParserError),
    {
        if input.len() - pos < 2 {
            return Err(CineonError::ParserError);
        }
        Ok(((input[pos], input[pos + 1]), pos + 2))
    }

    /// Consumes two bytes as an unsigned 16-bit value in this byte order.
    pub fn read_u16(self, input: &[u8], pos: usize) -> (r: Result<(u16, usize), CineonError>)
        requires
            pos <= input@.len(),
        ensures
            pos + 2 <= input@.len() ==> (r matches Ok(v) && v.0 == spec_u16_at(
                input@,
                pos as int,
                self,
            ) && v.1 == pos + 2),
            pos + 2 > input@.len() ==> (r matches Err(err) && err == CineonError::ParserError),
    {
        if input.len() - pos < 2 {
            return Err(CineonError::ParserError);
        }
        let b0 = input[pos] as u16;
        let b1 = input[pos + 1] as u16;
        let v: u16 = match self {
            Endian::Big => b0 * 0x100 + b1,
            Endian::Little => b1 * 0x100 + b0,
        };
        Ok((v, pos + 2))
    }

    /// Consumes four bytes as an unsigned 32-bit value in this byte order.
    pub fn read_u32(self, input: &[u8], pos: usize) -> (r: Result<(u32, usize), CineonError>)
        requires
            pos <= input@.len(),
        ensures
            pos + 4 <= input@.len() ==> (r matches Ok(v) && v.0 == spec_u32_at(
                input@,
                pos as int,
                self,
            ) && v.1 == pos + 4),
            pos + 4 > input@.len() ==> (r matches Err(err) && err == CineonError::ParserError),
    {
        if input.len() - pos < 4 {
            return Err(CineonError::ParserError);
        }
        let b0 = input[pos] as u32;
        let b1 = input[pos + 1] as u32;
        let b2 = input[pos + 2] as u32;
        let b3 = input[pos + 3] as u32;
        let v: u32 = match self {
            Endian::Big => b0 * 0x100_0000 + b1 * 0x1_0000 + b2 * 0x100 + b3,
            Endian::Little => b3 * 0x100_0000 + b2 * 0x1_0000 + b1 * 0x100 + b0,
        };
        Ok((v, pos + 4))
    }

    /// Consumes four bytes as a signed 32-bit value in this byte order.
    pub fn read_i32(self, input: &[u8], pos: usize) -> (r: Result<(i32, usize), CineonError>)
        requires
            pos <= input@.len(),
        ensures
            pos + 4 <= input@.len() ==> (r matches Ok(v) && v.0 == spec_i32_at(
                input@,
                pos as int,
                self,
            ) && v.1 == pos + 4),
            pos + 4 > input@.len() ==> (r matches Err(err) && err == CineonError::ParserError),
    {
        let (v, p) = self.read_u32(input, pos)?;
        let s: i32 = if v < 0x8000_0000 {
            v as i32
        } else {
            ((v - 0x8000_0000) as i32) + i32::MIN
        };
        Ok((s, p))
    }

    /// Consumes four bytes as the bit pattern of a 32-bit float in this
    /// byte order. The bits are returned uninterpreted.
    pub fn read_f32_bits(self, input: &[u8], pos: usize) -> (r: Result<(u32, usize), CineonError>)
        requires
            pos <= input@.len(),
        ensures
            pos + 4 <= input@.len() ==> (r matches Ok(v) && v.0 == spec_u32_at(
                input@,
                pos as int,
                self,
            ) && v.1 == pos + 4),
            pos + 4 > input@.len() ==> (r matches Err(err) && err == CineonError::ParserError),
    {
        self.read_u32(input, pos)
    }

    /// Consumes eight bytes as two consecutive 32-bit float bit patterns in
    /// this byte order.
    pub fn read_f32_bits_pair(self, input: &[u8], pos: usize) -> (r: Result<
        ((u32, u32), usize),
        CineonError,
    >)
        requires
            pos <= input@.len(),
        ensures
            pos + 8 <= input@.len() ==> (r matches Ok(v) && v.0.0 == spec_u32_at(
                input@,
                pos as int,
                self,
            ) && v.0.1 == spec_u32_at(input@, pos + 4, self) && v.1 == pos + 8),
            pos + 8 > input@.len() ==> (r matches Err(err) && err == CineonError::ParserError),
    {
        if input.len() - pos < 8 {
            return Err(CineonError::ParserError);
        }
        let (x, p) = self.read_u32(input, pos)?;
        let (y, p2) = self.read_u32(input, p)?;
        Ok(((x, y), p2))
    }
}

/// Skips `n` bytes without interpreting them.
pub fn read_bytes(input: &[u8], pos: usize, n: usize) -> (r: Result<usize, CineonError>)
    requires
        pos <= input@.len(),
    ensures
        pos + n <= input@.len() ==> (r matches Ok(p2) && p2 == pos + n),
        pos + n > input@.len() ==> (r matches Err(err) && err == CineonError::ParserError),
{
    if input.len() - pos < n {
        return Err(CineonError::ParserError);
    }
    Ok(pos + n)
}

/// Relies on `std::str::from_utf8`: it returns `Ok` exactly when the bytes
/// are valid UTF-8, and the resulting string's characters are the bytes'
/// UTF-8 decoding.
#[verifier::external_body]
fn utf8_to_string(bytes: &[u8]) -> (r: Option<String>)
    ensures
        r matches Some(s) ==> valid_utf8(bytes@) && s@ == decode_utf8(bytes@),
        r is None ==> !valid_utf8(bytes@),
{
    match std::str::from_utf8(bytes) {
        Ok(s) => Some(s.to_owned()),
        Err(_) => None,
    }
}

/// Consumes `n` bytes as a fixed-width text field: trims the trailing zero
/// padding and decodes the rest as UTF-8.
pub fn read_string(input: &[u8], pos: usize, n: usize) -> (r: Result<(String, usize), CineonError>)
    requires
        pos <= input@.len(),
    ensures
        pos + n > input@.len() ==> (r matches Err(err) && err == CineonError::ParserError),
        pos + n <= input@.len() && !text_ok(input@, pos as int, n as int) ==> (r matches Err(err)
            && err == CineonError::StringConversion),
        pos + n <= input@.len() && text_ok(input@, pos as int, n as int) ==> (r matches Ok(v)
            && v.0@ == spec_text(input@, pos as int, n as int) && v.1 == pos + n),
{
    proof {
        reveal(text_ok);
        reveal(spec_text);
    }
    if input.len() - pos < n {
        return Err(CineonError::ParserError);
    }
    let ghost full = input@.subrange(pos as int, pos + n);
    let mut end: usize = pos + n;
    while end > pos && input[end - 1] == 0
        invariant
            pos <= end <= pos + n <= input@.len(),
            trim_zeros(input@.subrange(pos as int, end as int)) == trim_zeros(full),
            full == input@.subrange(pos as int, pos + n),
        decreases end,
    {
        proof {
            let cur = input@.subrange(pos as int, end as int);
            assert(cur.last() == input@[end - 1]);
            assert(cur.drop_last() =~= input@.subrange(pos as int, end - 1));
        }
        end = end - 1;
    }
    proof {
        let cur = input@.subrange(pos as int, end as int);
        if end > pos {
            assert(cur.last() == input@[end - 1]);
        }
        assert(trim_zeros(cur) == cur);
    }
    let field = slice_subrange(input, pos, end);
    match utf8_to_string(field) {
        Some(s) => Ok((s, pos + n)),
        None => Err(CineonError::StringConversion),
    }
}

} // verus!
