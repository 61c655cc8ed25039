//! Byte-level primitives shared by the record codec and the instruction
//! decoder: little-endian integers, one-byte boolean flags, and fixed-width
//! zero-padded text fields.
//!
//! The wire convention is positional and versionless.  A text field of
//! capacity `cap` stores the text truncated to `cap` bytes followed by zero
//! padding; reading it back strips every trailing zero byte.  A flag byte
//! must be 0 or 1; any other value is rejected.

use vstd::bytes::{spec_u64_from_le_bytes, spec_u64_to_le_bytes, u64_from_le_bytes, u64_to_le_bytes};
use vstd::prelude::*;
use vstd::slice::{slice_subrange, slice_to_vec};

verus! {

/// Errors of the record codec and the instruction decoder.
#[derive(Clone, Copy, Debug, PartialEq, Eq, Structural)]
pub enum DecodeError {
    /// The input buffer is shorter than the record's fixed length.
    TooShort,
    /// A one-byte flag field held a value other than 0 or 1.
    InvalidFlag,
    /// The instruction opcode is unknown or its payload is too short.
    Malformed,
}

/// A run of `n` zero bytes.
pub open spec fn zero_padding(n: int) -> Seq<u8> {
    Seq::new(n as nat, |i: int| 0u8)
}

/// A text field padded with zero bytes up to capacity `cap`.
pub open spec fn spec_pad(text: Seq<u8>, cap: int) -> Seq<u8>
    recommends
        text.len() <= cap,
{
    text + zero_padding(cap - text.len())
}

/// The text with every trailing zero byte removed.
pub open spec fn spec_strip(s: Seq<u8>) -> Seq<u8>
    decreases s.len(),
{
    if s.len() == 0 {
        s
    } else if s.last() == 0 {
        spec_strip(s.drop_last())
    } else {
        s
    }
}

/// Text that can round-trip through a fixed-width field of capacity `cap`:
/// it fits, and it carries no trailing zero byte of its own.
pub open spec fn text_wf(text: Seq<u8>, cap: int) -> bool {
    &&& text.len() <= cap
    &&& text.len() > 0 ==> text.last() != 0
}

/// Stripping the padding recovers exactly the well-formed text.
pub proof fn lemma_strip_pad(text: Seq<u8>, cap: int)
    requires
        text_wf(text, cap),
    ensures
        spec_pad(text, cap).len() == cap,
        spec_strip(spec_pad(text, cap)) == text,
    decreases cap - text.len(),
{
    let padded = spec_pad(text, cap);
    if text.len() == cap {
        assert(padded =~= text);
    } else {
        assert(padded.last() == 0);
        assert(padded.drop_last() =~= spec_pad(text, cap - 1));
        lemma_strip_pad(text, cap - 1);
    }
}

/// A stripped field is itself well-formed text for any capacity it fits.
pub proof fn lemma_strip_wf(s: Seq<u8>)
    ensures
        spec_strip(s).len() <= s.len(),
        text_wf(spec_strip(s), s.len() as int),
    decreases s.len(),
{
    if s.len() > 0 && s.last() == 0 {
        lemma_strip_wf(s.drop_last());
    }
}

/// Appends the little-endian encoding of `x`.
pub fn write_u64_le(dst: &mut Vec<u8>, x: u64)
    ensures
        final(dst)@ == old(dst)@ + spec_u64_to_le_bytes(x),
{
    let mut bytes = u64_to_le_bytes(x);
    dst.append(&mut bytes);
}

/// Appends `src` unchanged.
pub fn write_bytes(dst: &mut Vec<u8>, src: &[u8])
    ensures
        final(dst)@ == old(dst)@ + src@,
{
    let n = src.len();
    let mut i: usize = 0;
    while i < n
        invariant
            i <= n,
            n == src@.len(),
            dst@ == old(dst)@ + src@.take(i as int),
        decreases n - i,
    {
        dst.push(src[i]);
        assert(src@.take(i as int).push(src@[i as int]) =~= src@.take(i + 1 as int));
        i = i + 1;
    }
    assert(src@.take(n as int) =~= src@);
}

/// Appends `text` followed by zero padding, `cap` bytes in all.
pub fn write_text(dst: &mut Vec<u8>, text: &[u8], cap: usize)
    requires
        text@.len() <= cap,
    ensures
        final(dst)@ == old(dst)@ + spec_pad(text@, cap as int),
{
    write_bytes(dst, text);
    let mut i: usize = text.len();
    while i < cap
        invariant
            text@.len() <= i <= cap,
            dst@ == old(dst)@ + text@ + zero_padding(i - text@.len()),
        decreases cap - i,
    {
        dst.push(0u8);
        assert(zero_padding(i - text@.len()).push(0u8) =~= zero_padding(i + 1 - text@.len()));
        i = i + 1;
    }
}

/// Reads the little-endian integer stored at `off`.
pub fn read_u64_le(src: &[u8], off: usize) -> (x: u64)
    requires
        off + 8 <= src@.len(),
    ensures
        x == spec_u64_from_le_bytes(src@.subrange(off as int, off as int + 8)),
{
    let _len = src.len();
    u64_from_le_bytes(slice_subrange(src, off, off + 8))
}

/// Copies the `n` bytes stored at `off`.
pub fn read_bytes(src: &[u8], off: usize, n: usize) -> (v: Vec<u8>)
    requires
        off + n <= src@.len(),
    ensures
        v@ == src@.subrange(off as int, off as int + n),
{
    let _len = src.len();
    slice_to_vec(slice_subrange(src, off, off + n))
}

/// Reads the text field of capacity `cap` stored at `off`, stripping the
/// trailing zero padding.
pub fn read_text(src: &[u8], off: usize, cap: usize) -> (v: Vec<u8>)
    requires
        off + cap <= src@.len(),
    ensures
        v@ == spec_strip(src@.subrange(off as int, off as int + cap)),
{
    let ghost field = src@.subrange(off as int, off as int + cap);
    let n = src.len();
    let mut end: usize = cap;
    while end > 0 && src[off + end - 1] == 0
        invariant
            off + cap <= src@.len(),
            n == src@.len(),
            end <= cap,
            spec_strip(field) == spec_strip(src@.subrange(off as int, off as int + end as int)),
        decreases end,
    {
        proof {
            let cur = src@.subrange(off as int, off as int + end as int);
            assert(cur.last() == 0);
            assert(cur.drop_last() =~= src@.subrange(off as int, off as int + end - 1));
        }
        end = end - 1;
    }
    proof {
        let cur = src@.subrange(off as int, off as int + end as int);
        if end == 0 {
            assert(spec_strip(cur) =~= cur);
        }
        assert(spec_strip(field) == cur);
    }
    read_bytes(src, off, end)
}

/// Reads a one-byte boolean flag, rejecting any byte other than 0 or 1.
pub fn read_flag(src: &[u8], off: usize) -> (r: Result<bool, DecodeError>)
    requires
        off < src@.len(),
    ensures
        match r {
            Ok(b) => src@[off as int] == if b { 1u8 } else { 0u8 },
            Err(e) => {
                &&& e == DecodeError::InvalidFlag
                &&& src@[off as int] != 0
                &&& src@[off as int] != 1
            },
        },
{
    let b = src[off];
    if b == 0 {
        Ok(false)
    } else if b == 1 {
        Ok(true)
    } else {
        Err(DecodeError::InvalidFlag)
    }
}

} // verus!
