//! The Fr32 padding scheme: every 254 bits of raw data become one 256-bit
//! element on disk. Sizes are mapped with the `fr32` crate, whose results are
//! stated here exactly.
use vstd::arithmetic::div_mod::{lemma_div_is_ordered, lemma_fundamental_div_mod, lemma_fundamental_div_mod_converse};
use std::io::Read;
use vstd::prelude::*;

verus! {

/// Largest byte count (exclusive) that the size conversions accept.
pub const MAX_CODEC_BYTES: u64 = 0x1_0000_0000_0000;

/// Bit length of the padded stream that holds `raw_bits` bits of raw data.
pub open spec fn padded_bits(raw_bits: nat) -> nat {
    (raw_bits / 254) * 256 + raw_bits % 254
}

/// Bit length of raw data held by a padded stream of `bits` bits.
pub open spec fn unpadded_bits(bits: nat) -> nat {
    (bits / 256) * 254 + bits % 256
}

/// Padded size in bytes of `u` raw bytes: the padded bit length rounded up.
pub open spec fn padded_len(u: nat) -> nat {
    (padded_bits(8 * u) + 7) / 8
}

/// Raw size in bytes held by `p` padded bytes: the raw bit length rounded down.
pub open spec fn unpadded_len(p: nat) -> nat {
    unpadded_bits(8 * p) / 8
}

/// Whether a byte count lies in the range that the size conversions accept.
pub open spec fn in_codec_range(n: nat) -> bool {
    n < MAX_CODEC_BYTES
}

/// The padded bit length is the raw bit length plus two bits per full element.
proof fn lemma_padded_bits_shape(b: nat)
    ensures
        padded_bits(b) == b + 2 * (b / 254),
{
    lemma_fundamental_div_mod(b as int, 254);
}

/// Unpadding recovers the raw size exactly: `unpad(pad(u)) == u` for every `u`.
pub proof fn lemma_unpad_pad(u: nat)
    ensures
        unpadded_len(padded_len(u)) == u,
{
    let b = 8 * u;
    let q = b / 254;
    let r = b % 254;
    lemma_fundamental_div_mod(b as int, 254);
    assert(r == 2 * (4 * u - 127 * q)) by (nonlinear_arith)
        requires
            b == 254 * q + r,
            b == 8 * u,
    ;
    assert(r <= 252);
    let bits = padded_bits(b);
    assert(bits == 256 * q + r);
    let p = padded_len(u);
    lemma_fundamental_div_mod((bits + 7) as int, 8);
    let e = 8 * p - bits;
    assert(0 <= e <= 7);
    if r + e < 256 {
        lemma_fundamental_div_mod_converse((8 * p) as int, 256, q as int, (r + e) as int);
        assert(unpadded_bits(8 * p) == 8 * u + e);
        lemma_fundamental_div_mod_converse((8 * u + e) as int, 8, u as int, e as int);
    } else {
        lemma_fundamental_div_mod_converse((8 * p) as int, 256, (q + 1) as int, (r + e - 256) as int);
        assert(unpadded_bits(8 * p) == 8 * u + e - 2);
        lemma_fundamental_div_mod_converse((8 * u + e - 2) as int, 8, u as int, (e - 2) as int);
    }
}

/// Padding never shrinks as the raw size grows.
pub proof fn lemma_padded_len_monotonic(u1: nat, u2: nat)
    requires
        u1 <= u2,
    ensures
        padded_len(u1) <= padded_len(u2),
{
    lemma_padded_bits_shape(8 * u1);
    lemma_padded_bits_shape(8 * u2);
    lemma_div_is_ordered((8 * u1) as int, (8 * u2) as int, 254);
    lemma_div_is_ordered((padded_bits(8 * u1) + 7) as int, (padded_bits(8 * u2) + 7) as int, 8);
}

/// Re-padding what a padded length holds never needs more than that length.
pub proof fn lemma_pad_unpad_le(p: nat)
    ensures
        padded_len(unpadded_len(p)) <= p,
{
    let b = 8 * p;
    let q = b / 256;
    let r = b % 256;
    lemma_fundamental_div_mod(b as int, 256);
    assert(r % 8 == 0) by {
        lemma_fundamental_div_mod_converse(r as int, 8, (p - 32 * q) as int, 0);
    }
    assert(r <= 248);
    let raw = unpadded_bits(b);
    assert(raw == 254 * q + r);
    let u = unpadded_len(p);
    lemma_fundamental_div_mod(raw as int, 8);
    assert(8 * u <= raw);
    lemma_div_is_ordered((8 * u) as int, raw as int, 254);
    lemma_fundamental_div_mod_converse(raw as int, 254, q as int, r as int);
    lemma_padded_bits_shape(8 * u);
    assert(padded_bits(8 * u) <= 8 * p);
    lemma_div_is_ordered((padded_bits(8 * u) + 7) as int, (8 * p + 7) as int, 8);
    lemma_fundamental_div_mod_converse((8 * p + 7) as int, 8, p as int, 7);
}

/// Padding never shrinks data.
pub proof fn lemma_padded_len_ge(u: nat)
    ensures
        u <= padded_len(u),
{
    lemma_padded_bits_shape(8 * u);
    lemma_div_is_ordered((8 * u + 7) as int, (padded_bits(8 * u) + 7) as int, 8);
    lemma_fundamental_div_mod_converse((8 * u + 7) as int, 8, u as int, 7);
}

/// A padded stream never holds more raw bytes than its own length.
pub proof fn lemma_unpadded_len_le(p: nat)
    ensures
        unpadded_len(p) <= p,
{
    lemma_fundamental_div_mod((8 * p) as int, 256);
    lemma_div_is_ordered(unpadded_bits(8 * p) as int, (8 * p) as int, 8);
    lemma_fundamental_div_mod_converse((8 * p) as int, 8, p as int, 0);
}

/// Relies on fr32::to_padded_bytes: `(8u / 254) * 256 + 8u % 254` bits, rounded
/// up to whole bytes. The float arithmetic inside is exact below `MAX_CODEC_BYTES`.
#[verifier::external_body]
fn fr32_padded_bytes(u: u64) -> (r: u64)
    requires
        in_codec_range(u as nat),
    ensures
        r as nat == padded_len(u as nat),
{
    fr32::to_padded_bytes(u as usize) as u64
}

/// Relies on fr32::to_unpadded_bytes: `(8p / 256) * 254 + 8p % 256` bits,
/// rounded down to whole bytes. The float arithmetic inside is exact below
/// `MAX_CODEC_BYTES`.
#[verifier::external_body]
fn fr32_unpadded_bytes(p: u64) -> (r: u64)
    requires
        in_codec_range(p as nat),
    ensures
        r as nat == unpadded_len(p as nat),
{
    fr32::to_unpadded_bytes(p)
}

/// Padded size in bytes of `u` raw bytes.
pub fn padded_bytes(u: u64) -> (r: u64)
    requires
        in_codec_range(u as nat),
    ensures
        r as nat == padded_len(u as nat),
{
    fr32_padded_bytes(u)
}

/// Raw size in bytes held by `p` padded bytes.
pub fn unpadded_bytes(p: u64) -> (r: u64)
    requires
        in_codec_range(p as nat),
    ensures
        r as nat == unpadded_len(p as nat),
{
    fr32_unpadded_bytes(p)
}

/// What the Fr32 padding reader yields for a raw byte stream: whole padded
/// elements, the bits past the data left at zero.
pub uninterp spec fn fr32_padded_stream(raw: Seq<u8>) -> Seq<u8>;

/// The first `len` raw bytes that a padded byte stream holds.
pub uninterp spec fn fr32_raw_prefix(padded: Seq<u8>, len: nat) -> Seq<u8>;

/// Relies on fr32::Fr32Reader: reading it to the end over an in-memory source
/// cannot fail, pads the whole input into 32-byte elements (one per 254 raw
/// bits begun, so at least the padded size of the input), and the padded size
/// of the input, read back with fr32::write_unpadded, gives the input again.
#[verifier::external_body]
fn fr32_pad_stream(raw: &Vec<u8>) -> (r: Result<Vec<u8>, String>)
    ensures
        r is Ok,
        r matches Ok(v) ==> v@ == fr32_padded_stream(raw@),
        r matches Ok(v) ==> v@.len() >= padded_len(raw@.len()),
        r matches Ok(v) ==> fr32_raw_prefix(v@.subrange(0, padded_len(raw@.len()) as int), raw@.len())
            == raw@,
{
    let mut out = Vec::new();
    fr32::Fr32Reader::new(std::io::Cursor::new(raw.as_slice()))
        .read_to_end(&mut out)
        .map(|_| out)
        .map_err(|e| format!("{:?}", e))
}

/// Relies on fr32::write_unpadded: it writes exactly the first `len` raw bytes
/// held by `padded` into the target. It refuses only a `len` beyond what the
/// stream holds, and writing into a `Vec` cannot fail.
#[verifier::external_body]
fn fr32_unpad_stream(padded: &Vec<u8>, len: u64) -> (r: Result<Vec<u8>, String>)
    requires
        len as nat <= unpadded_len(padded@.len()),
    ensures
        r is Ok,
        r matches Ok(v) ==> v@ == fr32_raw_prefix(padded@, len as nat),
        r matches Ok(v) ==> v@.len() == len,
{
    let mut out = Vec::new();
    fr32::write_unpadded(padded.as_slice(), &mut out, 0, len as usize)
        .map(|_| out)
        .map_err(|e| format!("{:?}", e))
}

/// Pads a raw byte stream into whole padded elements.
pub fn pad_stream(raw: &Vec<u8>) -> (r: Vec<u8>)
    ensures
        r@ == fr32_padded_stream(raw@),
        r@.len() >= padded_len(raw@.len()),
        fr32_raw_prefix(r@.subrange(0, padded_len(raw@.len()) as int), raw@.len()) == raw@,
{
    match fr32_pad_stream(raw) {
        Ok(v) => v,
        Err(_) => Vec::new(),
    }
}

/// The first `len` raw bytes held by a padded stream.
pub fn unpad_stream(padded: &Vec<u8>, len: u64) -> (r: Vec<u8>)
    requires
        len as nat <= unpadded_len(padded@.len()),
    ensures
        r@ == fr32_raw_prefix(padded@, len as nat),
        r@.len() == len,
{
    match fr32_unpad_stream(padded, len) {
        Ok(v) => v,
        Err(_) => Vec::new(),
    }
}

/// Cuts a padded element stream down to the padded size of `raw_len` raw
/// bytes, the size that the data occupies on disk. `None` where the stream
/// is shorter than that.
pub fn padded_prefix(stream: &Vec<u8>, raw_len: u64) -> (r: Option<Vec<u8>>)
    requires
        in_codec_range(raw_len as nat),
    ensures
        stream@.len() >= padded_len(raw_len as nat) <==> r is Some,
        r matches Some(v) ==> v@ == stream@.subrange(0, padded_len(raw_len as nat) as int),
{
    let n = padded_bytes(raw_len);
    if (stream.len() as u64) < n {
        return None;
    }
    let mut out: Vec<u8> = Vec::new();
    let mut i: usize = 0;
    while i < n as usize
        invariant
            n as nat == padded_len(raw_len as nat),
            n <= stream@.len(),
            i <= n,
            out@ == stream@.subrange(0, i as int),
        decreases n - i,
    {
        out.push(stream[i]);
        i = i + 1;
        assert(out@ =~= stream@.subrange(0, i as int));
    }
    assert(out@ =~= stream@.subrange(0, n as int));
    Some(out)
}

} // verus!
