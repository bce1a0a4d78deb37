//! Canonical deterministic binary encoding: little-endian integers,
//! length-prefixed variable fields, tag-dispatched sum types.
//!
//! Each scalar shape has a spec-level encoder `enc_*`, a spec-level decoder
//! `dec_*` over an absolute position, an executable writer `put_*` and reader
//! `read_*`, and a lemma showing the decoder inverts the encoder.

use vstd::bytes::*;
use vstd::prelude::*;
use vstd::slice::slice_subrange;

verus! {

// ── Spec encoders ────────────────────────────────────────────────────────────

pub open spec fn enc_u8(x: u8) -> Seq<u8> {
    seq![x]
}

pub open spec fn enc_u16(x: u16) -> Seq<u8> {
    spec_u16_to_le_bytes(x)
}

pub open spec fn enc_u32(x: u32) -> Seq<u8> {
    spec_u32_to_le_bytes(x)
}

pub open spec fn enc_u64(x: u64) -> Seq<u8> {
    spec_u64_to_le_bytes(x)
}

pub open spec fn enc_u128(x: u128) -> Seq<u8> {
    spec_u128_to_le_bytes(x)
}

pub open spec fn enc_i64(x: i64) -> Seq<u8> {
    spec_u64_to_le_bytes(x as u64)
}

pub open spec fn enc_bool(x: bool) -> Seq<u8> {
    if x {
        seq![1u8]
    } else {
        seq![0u8]
    }
}

/// Length-prefixed raw bytes.
pub open spec fn enc_bytes(s: Seq<u8>) -> Seq<u8> {
    enc_u64(s.len() as u64) + s
}

/// A string as its length-prefixed UTF-8 bytes.
pub open spec fn enc_str(s: Seq<char>) -> Seq<u8> {
    enc_bytes(vstd::utf8::encode_utf8(s))
}

// ── Spec decoders (absolute position; result carries the next position) ─────

pub open spec fn dec_u8(b: Seq<u8>, i: int) -> Option<(u8, int)> {
    if 0 <= i && i + 1 <= b.len() {
        Some((b[i], i + 1))
    } else {
        None
    }
}

pub open spec fn dec_u16(b: Seq<u8>, i: int) -> Option<(u16, int)> {
    if 0 <= i && i + 2 <= b.len() {
        Some((spec_u16_from_le_bytes(b.subrange(i, i + 2)), i + 2))
    } else {
        None
    }
}

pub open spec fn dec_u32(b: Seq<u8>, i: int) -> Option<(u32, int)> {
    if 0 <= i && i + 4 <= b.len() {
        Some((spec_u32_from_le_bytes(b.subrange(i, i + 4)), i + 4))
    } else {
        None
    }
}

pub open spec fn dec_u64(b: Seq<u8>, i: int) -> Option<(u64, int)> {
    if 0 <= i && i + 8 <= b.len() {
        Some((spec_u64_from_le_bytes(b.subrange(i, i + 8)), i + 8))
    } else {
        None
    }
}

pub open spec fn dec_u128(b: Seq<u8>, i: int) -> Option<(u128, int)> {
    if 0 <= i && i + 16 <= b.len() {
        Some((spec_u128_from_le_bytes(b.subrange(i, i + 16)), i + 16))
    } else {
        None
    }
}

pub open spec fn dec_i64(b: Seq<u8>, i: int) -> Option<(i64, int)> {
    match dec_u64(b, i) {
        Some((x, j)) => Some((x as i64, j)),
        None => None,
    }
}

pub open spec fn dec_bool(b: Seq<u8>, i: int) -> Option<(bool, int)> {
    match dec_u8(b, i) {
        Some((x, j)) => if x == 1 {
            Some((true, j))
        } else if x == 0 {
            Some((false, j))
        } else {
            None
        },
        None => None,
    }
}

pub open spec fn dec_bytes(b: Seq<u8>, i: int) -> Option<(Seq<u8>, int)> {
    match dec_u64(b, i) {
        Some((n, j)) => if j + n <= b.len() {
            Some((b.subrange(j, j + n), j + n))
        } else {
            None
        },
        None => None,
    }
}

pub open spec fn dec_str(b: Seq<u8>, i: int) -> Option<(Seq<char>, int)> {
    match dec_bytes(b, i) {
        Some((raw, j)) => if vstd::utf8::valid_utf8(raw) {
            Some((vstd::utf8::decode_utf8(raw), j))
        } else {
            None
        },
        None => None,
    }
}

// ── Round-trip lemmas for the scalar shapes ──────────────────────────────────

pub proof fn lemma_dec_u8(b: Seq<u8>, i: int, x: u8)
    requires
        0 <= i,
        i + 1 <= b.len(),
        b.subrange(i, i + 1) == enc_u8(x),
    ensures
        dec_u8(b, i) == Some((x, i + 1)),
{
    assert(b[i] == enc_u8(x)[0]);
}

pub proof fn lemma_dec_u16(b: Seq<u8>, i: int, x: u16)
    requires
        0 <= i,
        i + 2 <= b.len(),
        b.subrange(i, i + 2) == enc_u16(x),
    ensures
        dec_u16(b, i) == Some((x, i + 2)),
{
    lemma_auto_spec_u16_to_from_le_bytes();
    assert(spec_u16_to_le_bytes(x).len() == 2);
}

pub proof fn lemma_dec_u32(b: Seq<u8>, i: int, x: u32)
    requires
        0 <= i,
        i + 4 <= b.len(),
        b.subrange(i, i + 4) == enc_u32(x),
    ensures
        dec_u32(b, i) == Some((x, i + 4)),
{
    lemma_auto_spec_u32_to_from_le_bytes();
    assert(spec_u32_to_le_bytes(x).len() == 4);
}

pub proof fn lemma_dec_u64(b: Seq<u8>, i: int, x: u64)
    requires
        0 <= i,
        i + 8 <= b.len(),
        b.subrange(i, i + 8) == enc_u64(x),
    ensures
        dec_u64(b, i) == Some((x, i + 8)),
{
    lemma_auto_spec_u64_to_from_le_bytes();
}

pub proof fn lemma_dec_u128(b: Seq<u8>, i: int, x: u128)
    requires
        0 <= i,
        i + 16 <= b.len(),
        b.subrange(i, i + 16) == enc_u128(x),
    ensures
        dec_u128(b, i) == Some((x, i + 16)),
{
    lemma_auto_spec_u128_to_from_le_bytes();
    assert(spec_u128_to_le_bytes(x).len() == 16);
}

pub proof fn lemma_dec_i64(b: Seq<u8>, i: int, x: i64)
    requires
        0 <= i,
        i + 8 <= b.len(),
        b.subrange(i, i + 8) == enc_i64(x),
    ensures
        dec_i64(b, i) == Some((x, i + 8)),
{
    lemma_dec_u64(b, i, x as u64);
    assert((x as u64) as i64 == x) by (bit_vector);
}

pub proof fn lemma_dec_bool(b: Seq<u8>, i: int, x: bool)
    requires
        0 <= i,
        i + 1 <= b.len(),
        b.subrange(i, i + 1) == enc_bool(x),
    ensures
        dec_bool(b, i) == Some((x, i + 1)),
{
    assert(b[i] == enc_bool(x)[0]);
}

pub proof fn lemma_dec_bytes(b: Seq<u8>, i: int, s: Seq<u8>)
    requires
        0 <= i,
        s.len() <= u64::MAX,
        i + enc_bytes(s).len() <= b.len(),
        b.subrange(i, i + enc_bytes(s).len()) == enc_bytes(s),
    ensures
        dec_bytes(b, i) == Some((s, i + enc_bytes(s).len())),
{
    lemma_auto_spec_u64_to_from_le_bytes();
    assert(spec_u64_to_le_bytes(s.len() as u64).len() == 8);
    let e = enc_bytes(s);
    assert(e == enc_u64(s.len() as u64) + s);
    assert(b.subrange(i, i + 8) =~= e.subrange(0, 8));
    assert(e.subrange(0, 8) =~= enc_u64(s.len() as u64));
    lemma_dec_u64(b, i, s.len() as u64);
    assert(b.subrange(i + 8, i + 8 + s.len()) =~= e.subrange(8, 8 + s.len() as int));
    assert(e.subrange(8, 8 + s.len() as int) =~= s);
}

pub proof fn lemma_dec_str(b: Seq<u8>, i: int, s: Seq<char>)
    requires
        0 <= i,
        vstd::utf8::encode_utf8(s).len() <= u64::MAX,
        i + enc_str(s).len() <= b.len(),
        b.subrange(i, i + enc_str(s).len()) == enc_str(s),
    ensures
        dec_str(b, i) == Some((s, i + enc_str(s).len())),
{
    broadcast use vstd::utf8::encode_utf8_valid_utf8;
    broadcast use vstd::utf8::encode_utf8_decode_utf8;

    let raw = vstd::utf8::encode_utf8(s);
    lemma_dec_bytes(b, i, raw);
}

// ── Executable writers ───────────────────────────────────────────────────────

pub fn put_u8(out: &mut Vec<u8>, x: u8)
    ensures
        final(out)@ == old(out)@ + enc_u8(x),
{
    out.push(x);
    assert(out@ =~= old(out)@ + enc_u8(x));
}

pub fn put_u16(out: &mut Vec<u8>, x: u16)
    ensures
        final(out)@ == old(out)@ + enc_u16(x),
{
    let b = u16_to_le_bytes(x);
    append_bytes(out, b.as_slice());
}

pub fn put_u32(out: &mut Vec<u8>, x: u32)
    ensures
        final(out)@ == old(out)@ + enc_u32(x),
{
    let b = u32_to_le_bytes(x);
    append_bytes(out, b.as_slice());
}

pub fn put_u64(out: &mut Vec<u8>, x: u64)
    ensures
        final(out)@ == old(out)@ + enc_u64(x),
{
    let b = u64_to_le_bytes(x);
    append_bytes(out, b.as_slice());
}

pub fn put_u128(out: &mut Vec<u8>, x: u128)
    ensures
        final(out)@ == old(out)@ + enc_u128(x),
{
    let b = u128_to_le_bytes(x);
    append_bytes(out, b.as_slice());
}

pub fn put_i64(out: &mut Vec<u8>, x: i64)
    ensures
        final(out)@ == old(out)@ + enc_i64(x),
{
    put_u64(out, x as u64);
}

pub fn put_bool(out: &mut Vec<u8>, x: bool)
    ensures
        final(out)@ == old(out)@ + enc_bool(x),
{
    if x {
        put_u8(out, 1);
    } else {
        put_u8(out, 0);
    }
}

/// Append raw bytes (no length prefix).
pub fn append_bytes(out: &mut Vec<u8>, b: &[u8])
    ensures
        final(out)@ == old(out)@ + b@,
{
    let n: usize = b.len();
    let mut i: usize = 0;
    while i < n
        invariant
            n == b@.len(),
            i <= n,
            out@ == old(out)@ + b@.subrange(0, i as int),
        decreases n - i,
    {
        out.push(b[i]);
        assert(out@ =~= old(out)@ + b@.subrange(0, (i + 1) as int));
        i += 1;
    }
    assert(out@ =~= old(out)@ + b@);
}

/// Append length-prefixed bytes.
pub fn put_bytes(out: &mut Vec<u8>, b: &[u8])
    ensures
        final(out)@ == old(out)@ + enc_bytes(b@),
{
    put_u64(out, b.len() as u64);
    append_bytes(out, b);
    assert(out@ =~= old(out)@ + enc_bytes(b@));
}

/// Append a length-prefixed string (UTF-8 bytes).
pub fn put_str(out: &mut Vec<u8>, s: &str)
    ensures
        final(out)@ == old(out)@ + enc_str(s@),
{
    let b = vstd::string::StrSliceExecFns::as_bytes_vec(s);
    put_bytes(out, b.as_slice());
}

// ── Executable readers ───────────────────────────────────────────────────────

pub fn read_u8(b: &[u8], pos: usize) -> (r: Option<(u8, usize)>)
    requires
        pos <= b@.len(),
    ensures
        match r {
            Some((x, j)) => dec_u8(b@, pos as int) == Some((x, j as int)) && pos < j <= b@.len(),
            None => dec_u8(b@, pos as int) is None,
        },
{
    if pos < b.len() {
        Some((b[pos], pos + 1))
    } else {
        None
    }
}

pub fn read_u16(b: &[u8], pos: usize) -> (r: Option<(u16, usize)>)
    requires
        pos <= b@.len(),
    ensures
        match r {
            Some((x, j)) => dec_u16(b@, pos as int) == Some((x, j as int)) && pos < j <= b@.len(),
            None => dec_u16(b@, pos as int) is None,
        },
{
    if b.len() - pos >= 2 {
        let sub = slice_subrange(b, pos, pos + 2);
        Some((u16_from_le_bytes(sub), pos + 2))
    } else {
        None
    }
}

pub fn read_u32(b: &[u8], pos: usize) -> (r: Option<(u32, usize)>)
    requires
        pos <= b@.len(),
    ensures
        match r {
            Some((x, j)) => dec_u32(b@, pos as int) == Some((x, j as int)) && pos < j <= b@.len(),
            None => dec_u32(b@, pos as int) is None,
        },
{
    if b.len() - pos >= 4 {
        let sub = slice_subrange(b, pos, pos + 4);
        Some((u32_from_le_bytes(sub), pos + 4))
    } else {
        None
    }
}

pub fn read_u64(b: &[u8], pos: usize) -> (r: Option<(u64, usize)>)
    requires
        pos <= b@.len(),
    ensures
        match r {
            Some((x, j)) => dec_u64(b@, pos as int) == Some((x, j as int)) && pos < j <= b@.len(),
            None => dec_u64(b@, pos as int) is None,
        },
{
    if b.len() - pos >= 8 {
        let sub = slice_subrange(b, pos, pos + 8);
        Some((u64_from_le_bytes(sub), pos + 8))
    } else {
        None
    }
}

pub fn read_u128(b: &[u8], pos: usize) -> (r: Option<(u128, usize)>)
    requires
        pos <= b@.len(),
    ensures
        match r {
            Some((x, j)) => dec_u128(b@, pos as int) == Some((x, j as int)) && pos < j <= b@.len(),
            None => dec_u128(b@, pos as int) is None,
        },
{
    if b.len() - pos >= 16 {
        let sub = slice_subrange(b, pos, pos + 16);
        Some((u128_from_le_bytes(sub), pos + 16))
    } else {
        None
    }
}

pub fn read_i64(b: &[u8], pos: usize) -> (r: Option<(i64, usize)>)
    requires
        pos <= b@.len(),
    ensures
        match r {
            Some((x, j)) => dec_i64(b@, pos as int) == Some((x, j as int)) && pos < j <= b@.len(),
            None => dec_i64(b@, pos as int) is None,
        },
{
    match read_u64(b, pos) {
        Some((x, j)) => Some((x as i64, j)),
        None => None,
    }
}

pub fn read_bool(b: &[u8], pos: usize) -> (r: Option<(bool, usize)>)
    requires
        pos <= b@.len(),
    ensures
        match r {
            Some((x, j)) => dec_bool(b@, pos as int) == Some((x, j as int)) && pos < j <= b@.len(),
            None => dec_bool(b@, pos as int) is None,
        },
{
    match read_u8(b, pos) {
        Some((x, j)) => if x == 1 {
            Some((true, j))
        } else if x == 0 {
            Some((false, j))
        } else {
            None
        },
        None => None,
    }
}

pub fn read_bytes(b: &[u8], pos: usize) -> (r: Option<(Vec<u8>, usize)>)
    requires
        pos <= b@.len(),
    ensures
        match r {
            Some((v, j)) => dec_bytes(b@, pos as int) == Some((v@, j as int)) && pos < j
                <= b@.len(),
            None => dec_bytes(b@, pos as int) is None,
        },
{
    match read_u64(b, pos) {
        Some((n, j)) => {
            if n <= (b.len() - j) as u64 {
                let nn = n as usize;
                let sub = slice_subrange(b, j, j + nn);
                let mut v: Vec<u8> = Vec::new();
                append_bytes(&mut v, sub);
                assert(v@ =~= b@.subrange(j as int, j + n as int));
                Some((v, j + nn))
            } else {
                None
            }
        },
        None => None,
    }
}

/// Read a length-prefixed UTF-8 string.
pub fn read_str(b: &[u8], pos: usize) -> (r: Option<(String, usize)>)
    requires
        pos <= b@.len(),
    ensures
        match r {
            Some((s, j)) => dec_str(b@, pos as int) == Some((s@, j as int)) && pos < j <= b@.len(),
            None => dec_str(b@, pos as int) is None,
        },
{
    match read_bytes(b, pos) {
        Some((raw, j)) => match bytes_to_string(raw) {
            Some(s) => Some((s, j)),
            None => None,
        },
        None => None,
    }
}

/// Relies on String::from_utf8: it succeeds exactly on valid UTF-8 input and
/// returns the unique string whose encoding is that input.
#[verifier::external_body]
pub(crate) fn bytes_to_string(v: Vec<u8>) -> (r: Option<String>)
    ensures
        match r {
            Some(s) => vstd::utf8::valid_utf8(v@) && s@ == vstd::utf8::decode_utf8(v@),
            None => !vstd::utf8::valid_utf8(v@),
        },
{
    match String::from_utf8(v) {
        Ok(s) => Some(s),
        Err(_) => None,
    }
}

} // verus!
