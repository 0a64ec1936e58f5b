//! Field encodings of the message payload.
//!
//! Every field of a message is written and read by `bincode`'s default
//! functions (fixed-width little-endian integers, a `u64` length before a
//! string or a byte sequence). This module holds the trusted items that make
//! those calls, the specification of each field's encoding, and verified
//! readers and writers that work at a position inside a buffer.

use vstd::prelude::*;
use vstd::bytes::*;
use vstd::utf8::*;
use vstd::string::*;
use vstd::slice::slice_subrange;

verus! {

broadcast use vstd::seq_lib::group_seq_properties;

// ---------------------------------------------------------------------------
// Specification of the field encodings. Each one prepends the field's bytes
// to the bytes that follow it (`rest`).

pub open spec fn enc_u8(v: u8, rest: Seq<u8>) -> Seq<u8> {
    seq![v] + rest
}

pub open spec fn enc_i8(v: i8, rest: Seq<u8>) -> Seq<u8> {
    seq![v as u8] + rest
}

pub open spec fn enc_u16(v: u16, rest: Seq<u8>) -> Seq<u8> {
    spec_u16_to_le_bytes(v) + rest
}

pub open spec fn enc_i16(v: i16, rest: Seq<u8>) -> Seq<u8> {
    spec_u16_to_le_bytes(v as u16) + rest
}

pub open spec fn enc_u32(v: u32, rest: Seq<u8>) -> Seq<u8> {
    spec_u32_to_le_bytes(v) + rest
}

pub open spec fn enc_u64(v: u64, rest: Seq<u8>) -> Seq<u8> {
    spec_u64_to_le_bytes(v) + rest
}

/// The bytes of a byte-sequence field: its length as a `u64`, then the bytes.
pub open spec fn bytes_field_of(b: Seq<u8>) -> Seq<u8> {
    spec_u64_to_le_bytes(b.len() as u64) + b
}

pub open spec fn enc_bytes(b: Seq<u8>, rest: Seq<u8>) -> Seq<u8> {
    bytes_field_of(b) + rest
}

/// A string is written as the byte sequence of its UTF-8 encoding.
pub open spec fn enc_str(s: Seq<char>, rest: Seq<u8>) -> Seq<u8> {
    bytes_field_of(encode_utf8(s)) + rest
}

// ---------------------------------------------------------------------------
// Specification of the field parsers: the value and the bytes that remain.

pub open spec fn parse_u8(s: Seq<u8>) -> Option<(u8, Seq<u8>)> {
    if s.len() >= 1 { Some((s[0], s.skip(1))) } else { None }
}

pub open spec fn parse_i8(s: Seq<u8>) -> Option<(i8, Seq<u8>)> {
    if s.len() >= 1 { Some((s[0] as i8, s.skip(1))) } else { None }
}

pub open spec fn parse_u16(s: Seq<u8>) -> Option<(u16, Seq<u8>)> {
    if s.len() >= 2 { Some((spec_u16_from_le_bytes(s.take(2)), s.skip(2))) } else { None }
}

pub open spec fn parse_i16(s: Seq<u8>) -> Option<(i16, Seq<u8>)> {
    if s.len() >= 2 { Some((spec_u16_from_le_bytes(s.take(2)) as i16, s.skip(2))) } else { None }
}

pub open spec fn parse_u32(s: Seq<u8>) -> Option<(u32, Seq<u8>)> {
    if s.len() >= 4 { Some((spec_u32_from_le_bytes(s.take(4)), s.skip(4))) } else { None }
}

pub open spec fn parse_u64(s: Seq<u8>) -> Option<(u64, Seq<u8>)> {
    if s.len() >= 8 { Some((spec_u64_from_le_bytes(s.take(8)), s.skip(8))) } else { None }
}

/// Whether `s` starts with a length and at least that many bytes after it.
pub open spec fn has_bytes_field(s: Seq<u8>) -> bool {
    s.len() >= 8 && spec_u64_from_le_bytes(s.take(8)) <= s.len() - 8
}

/// The bytes of the byte-sequence field at the start of `s`.
pub open spec fn bytes_field(s: Seq<u8>) -> Seq<u8> {
    s.subrange(8, 8 + spec_u64_from_le_bytes(s.take(8)))
}

pub open spec fn parse_bytes(s: Seq<u8>) -> Option<(Seq<u8>, Seq<u8>)> {
    if has_bytes_field(s) {
        Some((bytes_field(s), s.skip(8 + spec_u64_from_le_bytes(s.take(8)))))
    } else {
        None
    }
}

pub open spec fn parse_str(s: Seq<u8>) -> Option<(Seq<char>, Seq<u8>)> {
    if has_bytes_field(s) && valid_utf8(bytes_field(s)) {
        Some((decode_utf8(bytes_field(s)), s.skip(8 + spec_u64_from_le_bytes(s.take(8)))))
    } else {
        None
    }
}


// ---------------------------------------------------------------------------
// Each parser gives back exactly what its encoder wrote.

pub proof fn lemma_u8_roundtrip(v: u8, rest: Seq<u8>)
    ensures
        parse_u8(enc_u8(v, rest)) == Some((v, rest)),
{
    assert(enc_u8(v, rest).skip(1) =~= rest);
}

pub proof fn lemma_i8_roundtrip(v: i8, rest: Seq<u8>)
    ensures
        parse_i8(enc_i8(v, rest)) == Some((v, rest)),
{
    assert(enc_i8(v, rest).skip(1) =~= rest);
    assert((v as u8) as i8 == v) by (bit_vector);
}

pub proof fn lemma_u16_roundtrip(v: u16, rest: Seq<u8>)
    ensures
        parse_u16(enc_u16(v, rest)) == Some((v, rest)),
{
    lemma_auto_spec_u16_to_from_le_bytes();
    let s = enc_u16(v, rest);
    assert(s.take(2) =~= spec_u16_to_le_bytes(v));
    assert(s.skip(2) =~= rest);
}

pub proof fn lemma_i16_roundtrip(v: i16, rest: Seq<u8>)
    ensures
        parse_i16(enc_i16(v, rest)) == Some((v, rest)),
{
    lemma_auto_spec_u16_to_from_le_bytes();
    let s = enc_i16(v, rest);
    assert(s.take(2) =~= spec_u16_to_le_bytes(v as u16));
    assert(s.skip(2) =~= rest);
    assert((v as u16) as i16 == v) by (bit_vector);
}

pub proof fn lemma_u32_roundtrip(v: u32, rest: Seq<u8>)
    ensures
        parse_u32(enc_u32(v, rest)) == Some((v, rest)),
{
    lemma_auto_spec_u32_to_from_le_bytes();
    let s = enc_u32(v, rest);
    assert(s.take(4) =~= spec_u32_to_le_bytes(v));
    assert(s.skip(4) =~= rest);
}

pub proof fn lemma_u64_roundtrip(v: u64, rest: Seq<u8>)
    ensures
        parse_u64(enc_u64(v, rest)) == Some((v, rest)),
{
    lemma_auto_spec_u64_to_from_le_bytes();
    let s = enc_u64(v, rest);
    assert(s.take(8) =~= spec_u64_to_le_bytes(v));
    assert(s.skip(8) =~= rest);
}

pub proof fn lemma_bytes_roundtrip(b: Seq<u8>, rest: Seq<u8>)
    requires
        b.len() <= u64::MAX,
    ensures
        parse_bytes(enc_bytes(b, rest)) == Some((b, rest)),
{
    lemma_auto_spec_u64_to_from_le_bytes();
    let s = enc_bytes(b, rest);
    assert(s.take(8) =~= spec_u64_to_le_bytes(b.len() as u64));
    assert(bytes_field(s) =~= b);
    assert(s.skip(8 + b.len() as int) =~= rest);
}

pub proof fn lemma_str_roundtrip(c: Seq<char>, rest: Seq<u8>)
    requires
        encode_utf8(c).len() <= u64::MAX,
    ensures
        parse_str(enc_str(c, rest)) == Some((c, rest)),
{
    lemma_auto_spec_u64_to_from_le_bytes();
    let b = encode_utf8(c);
    let s = enc_str(c, rest);
    assert(s.take(8) =~= spec_u64_to_le_bytes(b.len() as u64));
    assert(bytes_field(s) =~= b);
    assert(s.skip(8 + b.len() as int) =~= rest);
    encode_utf8_valid_utf8(c);
    encode_utf8_decode_utf8(c);
}

// ---------------------------------------------------------------------------
// Each parser accepts only what its encoder writes: a parsed field and the
// remaining bytes put back together give the input.

pub proof fn lemma_u8_canonical(s: Seq<u8>)
    ensures
        parse_u8(s) matches Some((v, r)) ==> s == enc_u8(v, r),
{
    if s.len() >= 1 {
        assert(s =~= enc_u8(s[0], s.skip(1)));
    }
}

pub proof fn lemma_i8_canonical(s: Seq<u8>)
    ensures
        parse_i8(s) matches Some((v, r)) ==> s == enc_i8(v, r),
{
    if s.len() >= 1 {
        let b = s[0];
        assert((b as i8) as u8 == b) by (bit_vector);
        assert(s =~= enc_i8(s[0] as i8, s.skip(1)));
    }
}

pub proof fn lemma_u16_canonical(s: Seq<u8>)
    ensures
        parse_u16(s) matches Some((v, r)) ==> s == enc_u16(v, r),
{
    if s.len() >= 2 {
        lemma_auto_spec_u16_to_from_le_bytes();
        assert(s.take(2).len() == 2);
        assert(s =~= s.take(2) + s.skip(2));
    }
}

pub proof fn lemma_i16_canonical(s: Seq<u8>)
    ensures
        parse_i16(s) matches Some((v, r)) ==> s == enc_i16(v, r),
{
    if s.len() >= 2 {
        lemma_auto_spec_u16_to_from_le_bytes();
        let x = spec_u16_from_le_bytes(s.take(2));
        assert((x as i16) as u16 == x) by (bit_vector);
        assert(s.take(2).len() == 2);
        assert(s =~= s.take(2) + s.skip(2));
    }
}

pub proof fn lemma_u32_canonical(s: Seq<u8>)
    ensures
        parse_u32(s) matches Some((v, r)) ==> s == enc_u32(v, r),
{
    if s.len() >= 4 {
        lemma_auto_spec_u32_to_from_le_bytes();
        assert(s.take(4).len() == 4);
        assert(s =~= s.take(4) + s.skip(4));
    }
}

pub proof fn lemma_u64_canonical(s: Seq<u8>)
    ensures
        parse_u64(s) matches Some((v, r)) ==> s == enc_u64(v, r),
{
    if s.len() >= 8 {
        lemma_auto_spec_u64_to_from_le_bytes();
        assert(s.take(8).len() == 8);
        assert(spec_u64_to_le_bytes(spec_u64_from_le_bytes(s.take(8))) == s.take(8));
        assert(s =~= s.take(8) + s.skip(8));
    }
}

pub proof fn lemma_bytes_canonical(s: Seq<u8>)
    ensures
        parse_bytes(s) matches Some((v, r)) ==> s == enc_bytes(v, r),
{
    if has_bytes_field(s) {
        lemma_auto_spec_u64_to_from_le_bytes();
        let n = spec_u64_from_le_bytes(s.take(8));
        assert(s.take(8).len() == 8);
        assert(spec_u64_to_le_bytes(n) == s.take(8));
        assert(bytes_field(s).len() == n);
        assert(s =~= s.take(8) + (bytes_field(s) + s.skip(8 + n)));
    }
}

pub proof fn lemma_str_canonical(s: Seq<u8>)
    ensures
        parse_str(s) matches Some((v, r)) ==> s == enc_str(v, r),
{
    if has_bytes_field(s) && valid_utf8(bytes_field(s)) {
        lemma_bytes_canonical(s);
        decode_utf8_encode_utf8(bytes_field(s));
    }
}

// ---------------------------------------------------------------------------
// Readers and writers of single fields.

/// Reads a `u8` at `pos`; gives the value and the position after it.
pub fn read_u8(data: &[u8], pos: usize) -> (r: Option<(u8, usize)>)
    requires
        pos <= data@.len(),
    ensures
        match r {
            Some((v, next)) => pos <= next <= data@.len() && parse_u8(data@.skip(pos as int)) == Some(
                (v, data@.skip(next as int)),
            ),
            None => parse_u8(data@.skip(pos as int)) is None,
        },
{
    let rest = slice_subrange(data, pos, data.len());
    assert(rest@ =~= data@.skip(pos as int));
    match bincode_get_u8(rest) {
        Some(v) => {
            assert(data@.skip(pos as int).skip(1) =~= data@.skip(pos + 1));
            Some((v, pos + 1))
        },
        None => None,
    }
}

/// Appends the encoding of a `u8`.
pub fn write_u8(out: &mut Vec<u8>, v: u8)
    ensures
        final(out)@ == old(out)@ + seq![v],
{
    let mut b = bincode_put_u8(v);
    out.append(&mut b);
}

/// Reads a `i8` at `pos`; gives the value and the position after it.
pub fn read_i8(data: &[u8], pos: usize) -> (r: Option<(i8, usize)>)
    requires
        pos <= data@.len(),
    ensures
        match r {
            Some((v, next)) => pos <= next <= data@.len() && parse_i8(data@.skip(pos as int)) == Some(
                (v, data@.skip(next as int)),
            ),
            None => parse_i8(data@.skip(pos as int)) is None,
        },
{
    let rest = slice_subrange(data, pos, data.len());
    assert(rest@ =~= data@.skip(pos as int));
    match bincode_get_i8(rest) {
        Some(v) => {
            assert(data@.skip(pos as int).skip(1) =~= data@.skip(pos + 1));
            Some((v, pos + 1))
        },
        None => None,
    }
}

/// Appends the encoding of a `i8`.
pub fn write_i8(out: &mut Vec<u8>, v: i8)
    ensures
        final(out)@ == old(out)@ + seq![v as u8],
{
    let mut b = bincode_put_i8(v);
    out.append(&mut b);
}

/// Reads a `u16` at `pos`; gives the value and the position after it.
pub fn read_u16(data: &[u8], pos: usize) -> (r: Option<(u16, usize)>)
    requires
        pos <= data@.len(),
    ensures
        match r {
            Some((v, next)) => pos <= next <= data@.len() && parse_u16(data@.skip(pos as int)) == Some(
                (v, data@.skip(next as int)),
            ),
            None => parse_u16(data@.skip(pos as int)) is None,
        },
{
    let rest = slice_subrange(data, pos, data.len());
    assert(rest@ =~= data@.skip(pos as int));
    match bincode_get_u16(rest) {
        Some(v) => {
            assert(data@.skip(pos as int).skip(2) =~= data@.skip(pos + 2));
            Some((v, pos + 2))
        },
        None => None,
    }
}

/// Appends the encoding of a `u16`.
pub fn write_u16(out: &mut Vec<u8>, v: u16)
    ensures
        final(out)@ == old(out)@ + spec_u16_to_le_bytes(v),
{
    let mut b = bincode_put_u16(v);
    out.append(&mut b);
}

/// Reads a `i16` at `pos`; gives the value and the position after it.
pub fn read_i16(data: &[u8], pos: usize) -> (r: Option<(i16, usize)>)
    requires
        pos <= data@.len(),
    ensures
        match r {
            Some((v, next)) => pos <= next <= data@.len() && parse_i16(data@.skip(pos as int)) == Some(
                (v, data@.skip(next as int)),
            ),
            None => parse_i16(data@.skip(pos as int)) is None,
        },
{
    let rest = slice_subrange(data, pos, data.len());
    assert(rest@ =~= data@.skip(pos as int));
    match bincode_get_i16(rest) {
        Some(v) => {
            assert(data@.skip(pos as int).skip(2) =~= data@.skip(pos + 2));
            Some((v, pos + 2))
        },
        None => None,
    }
}

/// Appends the encoding of a `i16`.
pub fn write_i16(out: &mut Vec<u8>, v: i16)
    ensures
        final(out)@ == old(out)@ + spec_u16_to_le_bytes(v as u16),
{
    let mut b = bincode_put_i16(v);
    out.append(&mut b);
}

/// Reads a `u32` at `pos`; gives the value and the position after it.
pub fn read_u32(data: &[u8], pos: usize) -> (r: Option<(u32, usize)>)
    requires
        pos <= data@.len(),
    ensures
        match r {
            Some((v, next)) => pos <= next <= data@.len() && parse_u32(data@.skip(pos as int)) == Some(
                (v, data@.skip(next as int)),
            ),
            None => parse_u32(data@.skip(pos as int)) is None,
        },
{
    let rest = slice_subrange(data, pos, data.len());
    assert(rest@ =~= data@.skip(pos as int));
    match bincode_get_u32(rest) {
        Some(v) => {
            assert(data@.skip(pos as int).skip(4) =~= data@.skip(pos + 4));
            Some((v, pos + 4))
        },
        None => None,
    }
}

/// Appends the encoding of a `u32`.
pub fn write_u32(out: &mut Vec<u8>, v: u32)
    ensures
        final(out)@ == old(out)@ + spec_u32_to_le_bytes(v),
{
    let mut b = bincode_put_u32(v);
    out.append(&mut b);
}

/// Reads a `u64` at `pos`; gives the value and the position after it.
pub fn read_u64(data: &[u8], pos: usize) -> (r: Option<(u64, usize)>)
    requires
        pos <= data@.len(),
    ensures
        match r {
            Some((v, next)) => pos <= next <= data@.len() && parse_u64(data@.skip(pos as int)) == Some(
                (v, data@.skip(next as int)),
            ),
            None => parse_u64(data@.skip(pos as int)) is None,
        },
{
    let rest = slice_subrange(data, pos, data.len());
    assert(rest@ =~= data@.skip(pos as int));
    match bincode_get_u64(rest) {
        Some(v) => {
            assert(data@.skip(pos as int).skip(8) =~= data@.skip(pos + 8));
            Some((v, pos + 8))
        },
        None => None,
    }
}

/// Appends the encoding of a `u64`.
pub fn write_u64(out: &mut Vec<u8>, v: u64)
    ensures
        final(out)@ == old(out)@ + spec_u64_to_le_bytes(v),
{
    let mut b = bincode_put_u64(v);
    out.append(&mut b);
}

/// Reads a byte-sequence field at `pos`.
pub fn read_bytes(data: &[u8], pos: usize) -> (r: Option<(Vec<u8>, usize)>)
    requires
        pos <= data@.len(),
    ensures
        match r {
            Some((v, next)) => pos <= next <= data@.len() && parse_bytes(data@.skip(pos as int))
                == Some((v@, data@.skip(next as int))),
            None => parse_bytes(data@.skip(pos as int)) is None,
        },
{
    let rest = slice_subrange(data, pos, data.len());
    assert(rest@ =~= data@.skip(pos as int));
    match bincode_get_byte_vec(rest) {
        Some(v) => {
            let n = v.len();
            assert(data@.skip(pos as int).skip(8 + n) =~= data@.skip(pos + 8 + n));
            Some((v, pos + 8 + n))
        },
        None => None,
    }
}

/// Reads a string field at `pos`.
pub fn read_string(data: &[u8], pos: usize) -> (r: Option<(String, usize)>)
    requires
        pos <= data@.len(),
    ensures
        match r {
            Some((v, next)) => pos <= next <= data@.len() && parse_str(data@.skip(pos as int))
                == Some((v@, data@.skip(next as int))),
            None => parse_str(data@.skip(pos as int)) is None,
        },
{
    let rest = slice_subrange(data, pos, data.len());
    assert(rest@ =~= data@.skip(pos as int));
    match bincode_get_string(rest) {
        Some(v) => {
            let n = v.as_str().as_bytes().len();
            proof {
                decode_utf8_encode_utf8(bytes_field(rest@));
            }
            assert(data@.skip(pos as int).skip(8 + n) =~= data@.skip(pos + 8 + n));
            Some((v, pos + 8 + n))
        },
        None => None,
    }
}

/// Appends the encoding of a byte sequence.
pub fn write_bytes(out: &mut Vec<u8>, v: &[u8])
    ensures
        final(out)@ == old(out)@ + bytes_field_of(v@),
        v@.len() <= u64::MAX,
{
    let n = v.len();
    let mut b = bincode_put_bytes(v);
    out.append(&mut b);
}

/// Appends the encoding of a string.
pub fn write_str(out: &mut Vec<u8>, v: &str)
    ensures
        final(out)@ == old(out)@ + bytes_field_of(encode_utf8(v@)),
        encode_utf8(v@).len() <= u64::MAX,
{
    let n = v.as_bytes().len();
    let mut b = bincode_put_str(v);
    out.append(&mut b);
}

// ---------------------------------------------------------------------------
// Trusted items: bincode's default `serialize` and `deserialize` on one field.
// bincode 1.3 (`DefaultOptions::new().with_fixint_encoding()
// .allow_trailing_bytes()`) writes integers in fixed width, little endian;
// `i8` and `i16` as the bits of `u8` and `u16`; a `str` or a slice of bytes as
// its length in a `u64` followed by the bytes. Reading allows trailing bytes,
// fails when the input is too short, and for a `String` fails when the bytes
// are not UTF-8.

/// `bincode::serialize` of a `u8`: the byte itself.
#[verifier::external_body]
fn bincode_put_u8(v: u8) -> (out: Vec<u8>)
    ensures
        out@ == seq![v],
{
    bincode::serialize(&v).unwrap_or_default()
}

/// `bincode::serialize` of an `i8`: the byte of `v as u8`.
#[verifier::external_body]
fn bincode_put_i8(v: i8) -> (out: Vec<u8>)
    ensures
        out@ == seq![v as u8],
{
    bincode::serialize(&v).unwrap_or_default()
}

/// `bincode::serialize` of a `u16`: its two little-endian bytes.
#[verifier::external_body]
fn bincode_put_u16(v: u16) -> (out: Vec<u8>)
    ensures
        out@ == spec_u16_to_le_bytes(v),
{
    bincode::serialize(&v).unwrap_or_default()
}

/// `bincode::serialize` of an `i16`: the two little-endian bytes of `v as u16`.
#[verifier::external_body]
fn bincode_put_i16(v: i16) -> (out: Vec<u8>)
    ensures
        out@ == spec_u16_to_le_bytes(v as u16),
{
    bincode::serialize(&v).unwrap_or_default()
}

/// `bincode::serialize` of a `u32`: its four little-endian bytes.
#[verifier::external_body]
fn bincode_put_u32(v: u32) -> (out: Vec<u8>)
    ensures
        out@ == spec_u32_to_le_bytes(v),
{
    bincode::serialize(&v).unwrap_or_default()
}

/// `bincode::serialize` of a `u64`: its eight little-endian bytes.
#[verifier::external_body]
fn bincode_put_u64(v: u64) -> (out: Vec<u8>)
    ensures
        out@ == spec_u64_to_le_bytes(v),
{
    bincode::serialize(&v).unwrap_or_default()
}

/// `bincode::serialize` of a `str`: the length of its UTF-8 bytes as a `u64`,
/// then those bytes.
#[verifier::external_body]
fn bincode_put_str(v: &str) -> (out: Vec<u8>)
    ensures
        out@ == bytes_field_of(v.spec_bytes()),
{
    bincode::serialize(v).unwrap_or_default()
}

/// `bincode::serialize` of a slice of bytes: its length as a `u64`, then the
/// bytes.
#[verifier::external_body]
fn bincode_put_bytes(v: &[u8]) -> (out: Vec<u8>)
    ensures
        out@ == bytes_field_of(v@),
{
    bincode::serialize(v).unwrap_or_default()
}

/// `bincode::deserialize::<u8>`: the first byte, if there is one.
#[verifier::external_body]
fn bincode_get_u8(bytes: &[u8]) -> (out: Option<u8>)
    ensures
        out is Some <==> bytes@.len() >= 1,
        out matches Some(v) ==> v == bytes@[0],
{
    bincode::deserialize::<u8>(bytes).ok()
}

/// `bincode::deserialize::<i8>`: the first byte read as an `i8`.
#[verifier::external_body]
fn bincode_get_i8(bytes: &[u8]) -> (out: Option<i8>)
    ensures
        out is Some <==> bytes@.len() >= 1,
        out matches Some(v) ==> v == bytes@[0] as i8,
{
    bincode::deserialize::<i8>(bytes).ok()
}

/// `bincode::deserialize::<u16>`: the first two bytes, little endian.
#[verifier::external_body]
fn bincode_get_u16(bytes: &[u8]) -> (out: Option<u16>)
    ensures
        out is Some <==> bytes@.len() >= 2,
        out matches Some(v) ==> v == spec_u16_from_le_bytes(bytes@.take(2)),
{
    bincode::deserialize::<u16>(bytes).ok()
}

/// `bincode::deserialize::<i16>`: the first two bytes, little endian, read as
/// a `u16` and then as an `i16`.
#[verifier::external_body]
fn bincode_get_i16(bytes: &[u8]) -> (out: Option<i16>)
    ensures
        out is Some <==> bytes@.len() >= 2,
        out matches Some(v) ==> v == spec_u16_from_le_bytes(bytes@.take(2)) as i16,
{
    bincode::deserialize::<i16>(bytes).ok()
}

/// `bincode::deserialize::<u32>`: the first four bytes, little endian.
#[verifier::external_body]
fn bincode_get_u32(bytes: &[u8]) -> (out: Option<u32>)
    ensures
        out is Some <==> bytes@.len() >= 4,
        out matches Some(v) ==> v == spec_u32_from_le_bytes(bytes@.take(4)),
{
    bincode::deserialize::<u32>(bytes).ok()
}

/// `bincode::deserialize::<u64>`: the first eight bytes, little endian.
#[verifier::external_body]
fn bincode_get_u64(bytes: &[u8]) -> (out: Option<u64>)
    ensures
        out is Some <==> bytes@.len() >= 8,
        out matches Some(v) ==> v == spec_u64_from_le_bytes(bytes@.take(8)),
{
    bincode::deserialize::<u64>(bytes).ok()
}

/// `bincode::deserialize::<Vec<u8>>`: a `u64` length and that many bytes.
#[verifier::external_body]
fn bincode_get_byte_vec(bytes: &[u8]) -> (out: Option<Vec<u8>>)
    ensures
        out is Some <==> has_bytes_field(bytes@),
        out matches Some(v) ==> v@ == bytes_field(bytes@),
{
    bincode::deserialize::<Vec<u8>>(bytes).ok()
}

/// `bincode::deserialize::<String>`: a `u64` length and that many bytes,
/// which must be UTF-8.
#[verifier::external_body]
fn bincode_get_string(bytes: &[u8]) -> (out: Option<String>)
    ensures
        out is Some <==> (has_bytes_field(bytes@) && valid_utf8(bytes_field(bytes@))),
        out matches Some(v) ==> v@ == decode_utf8(bytes_field(bytes@)),
{
    bincode::deserialize::<String>(bytes).ok()
}

} // verus!
