//! Field-level wire codecs shared by every record layout.
//!
//! Fixed-size fields (keys, counters, the timestamp, the disambiguator)
//! occupy their natural little-endian width.  A text field is a four-byte
//! little-endian byte length followed by the UTF-8 bytes of the text; a
//! reader refuses a declared length above the field's byte budget, a
//! truncated buffer, and bytes that are not valid UTF-8.

use vstd::prelude::*;
use vstd::bytes::*;
use vstd::utf8::*;
use vstd::slice::slice_subrange;
use vstd::string::StrSliceExecFns;
use crate::errors::ErrorCode;
use crate::records::BYTES_PER_CHAR;

verus! {

broadcast use vstd::array::group_array_axioms;

/// Two's-complement reading of a signed word as an unsigned one.
pub open spec fn spec_i64_to_u64(x: i64) -> u64 {
    if x >= 0 {
        x as u64
    } else {
        (x + 0x1_0000_0000_0000_0000) as u64
    }
}

/// Two's-complement reading of an unsigned word as a signed one.
pub open spec fn spec_u64_to_i64(u: u64) -> i64 {
    if u <= i64::MAX as u64 {
        u as i64
    } else {
        (u - 0x1_0000_0000_0000_0000) as i64
    }
}

/// The two's-complement readings invert each other.
pub proof fn lemma_i64_u64_round_trip(x: i64, u: u64)
    ensures
        spec_u64_to_i64(spec_i64_to_u64(x)) == x,
        spec_i64_to_u64(spec_u64_to_i64(u)) == u,
{
}

/// Exec form of [`spec_i64_to_u64`].
pub fn i64_to_u64(x: i64) -> (r: u64)
    ensures
        r == spec_i64_to_u64(x),
{
    if x >= 0 {
        x as u64
    } else {
        let y: u64 = (x - i64::MIN) as u64;
        y + 0x8000_0000_0000_0000u64
    }
}

/// Exec form of [`spec_u64_to_i64`].
pub fn u64_to_i64(u: u64) -> (r: i64)
    ensures
        r == spec_u64_to_i64(u),
{
    if u <= 0x7fff_ffff_ffff_ffffu64 {
        u as i64
    } else {
        let y: i64 = (u - 0x8000_0000_0000_0000u64) as i64;
        y + i64::MIN
    }
}

/// Wire form of a text field: little-endian byte length, then UTF-8 bytes.
pub open spec fn spec_encode_text(s: Seq<char>) -> Seq<u8> {
    spec_u32_to_le_bytes(encode_utf8(s).len() as u32) + encode_utf8(s)
}

/// Reads a text field at `off`.  `None` stands for a truncated buffer, a
/// declared length above `max_bytes`, or bytes that are not valid UTF-8;
/// otherwise the text and the offset just past the field are returned.
pub open spec fn spec_decode_text_at(data: Seq<u8>, off: int, max_bytes: int) -> Option<
    (Seq<char>, int),
> {
    if off + 4 > data.len() {
        None
    } else {
        let n = spec_u32_from_le_bytes(data.subrange(off, off + 4)) as int;
        if n > max_bytes {
            None
        } else if off + 4 + n > data.len() {
            None
        } else if !valid_utf8(data.subrange(off + 4, off + 4 + n)) {
            None
        } else {
            Some((decode_utf8(data.subrange(off + 4, off + 4 + n)), off + 4 + n))
        }
    }
}

/// A sequence of characters encodes to at least one and at most
/// [`BYTES_PER_CHAR`] bytes per character.
pub proof fn lemma_encode_utf8_len(s: Seq<char>)
    ensures
        s.len() <= encode_utf8(s).len() <= BYTES_PER_CHAR * s.len(),
    decreases s.len(),
{
    if s.len() == 0 {
    } else {
        lemma_encode_utf8_len(s.drop_first());
        assert(1 <= encode_scalar(s[0] as u32).len() <= 4);
    }
}

/// Reading a text field that was written by [`spec_encode_text`] gives the
/// text back and stops exactly at its end.
pub proof fn lemma_decode_text_of_encode(pre: Seq<u8>, s: Seq<char>, suf: Seq<u8>, max_bytes: int)
    requires
        encode_utf8(s).len() <= max_bytes <= 0xffff_ffff,
    ensures
        spec_decode_text_at(pre + spec_encode_text(s) + suf, pre.len() as int, max_bytes) == Some(
            (s, pre.len() + spec_encode_text(s).len() as int),
        ),
        spec_encode_text(s).len() == 4 + encode_utf8(s).len(),
{
    broadcast use {encode_utf8_valid_utf8, encode_utf8_decode_utf8};

    lemma_auto_spec_u32_to_from_le_bytes();
    let data = pre + spec_encode_text(s) + suf;
    let off = pre.len() as int;
    let enc = encode_utf8(s);
    let n = enc.len() as u32;
    assert(data.subrange(off, off + 4) =~= spec_u32_to_le_bytes(n));
    assert(spec_u32_from_le_bytes(data.subrange(off, off + 4)) == n);
    assert(data.subrange(off + 4, off + 4 + n) =~= enc);
}

/// Reading a text field succeeds only on the exact image of
/// [`spec_encode_text`]: the consumed bytes re-encode to themselves.
pub proof fn lemma_encode_text_of_decode(data: Seq<u8>, off: int, max_bytes: int, s: Seq<char>, end: int)
    requires
        0 <= off,
        max_bytes <= 0xffff_ffff,
        spec_decode_text_at(data, off, max_bytes) == Some((s, end)),
    ensures
        data.subrange(off, end) == spec_encode_text(s),
        encode_utf8(s).len() == end - off - 4 <= max_bytes,
        off + 4 <= end <= data.len(),
{
    broadcast use {encode_utf8_valid_utf8, decode_utf8_encode_utf8};

    lemma_auto_spec_u32_to_from_le_bytes();
    assert(off + 4 <= data.len());
    let n = spec_u32_from_le_bytes(data.subrange(off, off + 4)) as int;
    assert(n <= max_bytes);
    assert(off + 4 + n <= data.len());
    let seg = data.subrange(off + 4, off + 4 + n);
    assert(valid_utf8(seg));
    assert(s == decode_utf8(seg));
    assert(end == off + 4 + n);
    assert(encode_utf8(s) == seg);
    assert(data.subrange(off, end) =~= data.subrange(off, off + 4) + seg);
    assert(spec_u32_to_le_bytes(spec_u32_from_le_bytes(data.subrange(off, off + 4)))
        == data.subrange(off, off + 4));
    assert(seg.len() as u32 == spec_u32_from_le_bytes(data.subrange(off, off + 4)));
}

/// Relies on `String::from_utf8` of std: it succeeds exactly on valid UTF-8
/// input, and then returns the string whose UTF-8 encoding the input is.
#[verifier::external_body]
fn string_from_utf8(bytes: Vec<u8>) -> (r: Option<String>)
    ensures
        r matches Some(s) ==> valid_utf8(bytes@) && s@ == decode_utf8(bytes@),
        r is None ==> !valid_utf8(bytes@),
{
    String::from_utf8(bytes).ok()
}

/// Appends the wire form of a text field to `out`.
pub fn push_text(out: &mut Vec<u8>, s: &str)
    requires
        encode_utf8(s@).len() <= 0xffff_ffff,
    ensures
        final(out)@ == old(out)@ + spec_encode_text(s@),
{
    let bytes = s.as_bytes_vec();
    let n: u32 = bytes.len() as u32;
    let mut pre = u32_to_le_bytes(n);
    out.append(&mut pre);
    let mut body = bytes;
    out.append(&mut body);
}

/// Reads a text field at `off`, exactly as [`spec_decode_text_at`] does.
pub fn read_text_at(data: &[u8], off: usize, max_bytes: usize) -> (r: Result<
    (String, usize),
    ErrorCode,
>)
    ensures
        match r {
            Ok((s, end)) => spec_decode_text_at(data@, off as int, max_bytes as int) == Some(
                (s@, end as int),
            ),
            Err(e) => {
                &&& spec_decode_text_at(data@, off as int, max_bytes as int) is None
                &&& e == ErrorCode::LayoutError
            },
        },
{
    if off > data.len() || data.len() - off < 4 {
        return Err(ErrorCode::LayoutError);
    }
    let n32 = u32_from_le_bytes(slice_subrange(data, off, off + 4));
    let n = n32 as usize;
    if n > max_bytes {
        return Err(ErrorCode::LayoutError);
    }
    if data.len() - (off + 4) < n {
        return Err(ErrorCode::LayoutError);
    }
    let seg = slice_subrange(data, off + 4, off + 4 + n);
    let seg_vec = vstd::slice::slice_to_vec(seg);
    match string_from_utf8(seg_vec) {
        Some(s) => Ok((s, off + 4 + n)),
        None => Err(ErrorCode::LayoutError),
    }
}

/// Appends a little-endian counter field to `out`.
pub fn push_u32_le(out: &mut Vec<u8>, x: u32)
    ensures
        final(out)@ == old(out)@ + spec_u32_to_le_bytes(x),
{
    let mut b = u32_to_le_bytes(x);
    out.append(&mut b);
}

/// Appends a little-endian tag or word field to `out`.
pub fn push_u64_le(out: &mut Vec<u8>, x: u64)
    ensures
        final(out)@ == old(out)@ + spec_u64_to_le_bytes(x),
{
    let mut b = u64_to_le_bytes(x);
    out.append(&mut b);
}

/// Appends a key field to `out`.
pub fn push_key(out: &mut Vec<u8>, k: &[u8; 32])
    ensures
        final(out)@ == old(out)@ + k@,
{
    out.extend_from_slice(k.as_slice());
}

/// Reads a little-endian counter field at `off`.
pub fn read_u32_at(data: &[u8], off: usize) -> (x: u32)
    requires
        off + 4 <= data@.len(),
    ensures
        x == spec_u32_from_le_bytes(data@.subrange(off as int, off as int + 4)),
{
    let l = data.len();
    proof {
        assert(off + 4 <= l);
    }
    u32_from_le_bytes(slice_subrange(data, off, off + 4))
}

/// Reads a little-endian tag or word field at `off`.
pub fn read_u64_at(data: &[u8], off: usize) -> (x: u64)
    requires
        off + 8 <= data@.len(),
    ensures
        x == spec_u64_from_le_bytes(data@.subrange(off as int, off as int + 8)),
{
    let l = data.len();
    proof {
        assert(off + 8 <= l);
    }
    u64_from_le_bytes(slice_subrange(data, off, off + 8))
}

/// Reads a key field at `off`.
pub fn read_key_at(data: &[u8], off: usize) -> (r: [u8; 32])
    requires
        off + 32 <= data@.len(),
    ensures
        r@ == data@.subrange(off as int, off as int + 32),
{
    let l = data.len();
    let mut r: [u8; 32] = [0u8; 32];
    let mut i: usize = 0;
    while i < 32
        invariant
            off + 32 <= l == data@.len(),
            i <= 32,
            forall|j: int| 0 <= j < i ==> r@[j] == data@[off + j],
        decreases 32 - i,
    {
        r[i] = data[off + i];
        i = i + 1;
    }
    proof {
        assert(r@ =~= data@.subrange(off as int, off as int + 32));
    }
    r
}

/// Structural equality of two keys.
pub fn key_eq(a: &[u8; 32], b: &[u8; 32]) -> (r: bool)
    ensures
        r == (a@ == b@),
{
    let mut i: usize = 0;
    while i < 32
        invariant
            i <= 32,
            forall|j: int| 0 <= j < i ==> a@[j] == b@[j],
        decreases 32 - i,
    {
        if a[i] != b[i] {
            return false;
        }
        i = i + 1;
    }
    proof {
        assert(a@ =~= b@);
    }
    true
}

} // verus!
