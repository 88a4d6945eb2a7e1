//! Definite-length block framing: `#9`, nine decimal digits giving the
//! payload length, the payload, and an eight-byte trailer.
//!
//! The trailer stands where the device's format keeps a checksum. This
//! protocol variant always sends the placeholder `ffffffff` and never checks
//! the trailer of a received block; real integrity checking is not part of
//! the wire format the device expects.
use vstd::prelude::*;
use crate::error::MauiError;

verus! {

/// Number of bytes before the payload: `#`, `9` and nine digits.
pub const HEADER_LEN: usize = 11;

/// Number of bytes after the payload.
pub const TRAILER_LEN: usize = 8;

/// Payloads must be shorter than this to fit the nine-digit length field.
pub const MAX_PAYLOAD: usize = 1_000_000_000;

/// ASCII code of `0`.
pub const ZERO: u8 = 48;

/// ASCII code of `#`.
pub const HASH: u8 = 35;

/// ASCII code of `9`.
pub const NINE: u8 = 57;

/// ASCII code of `f`.
pub const LOWER_F: u8 = 102;

/// The last `width` decimal digits of `n`, as ASCII, most significant first.
pub open spec fn digits_of(n: nat, width: nat) -> Seq<u8>
    decreases width,
{
    if width == 0 {
        Seq::empty()
    } else {
        digits_of(n / 10, (width - 1) as nat).push((ZERO + n % 10) as u8)
    }
}

/// The value of a sequence of ASCII decimal digits.
pub open spec fn value_of(d: Seq<u8>) -> nat
    decreases d.len(),
{
    if d.len() == 0 {
        0
    } else {
        value_of(d.drop_last()) * 10 + (d.last() - ZERO) as nat
    }
}

/// The block header: `#9` and the length zero-padded to nine digits.
pub open spec fn header_of(len: nat) -> Seq<u8> {
    seq![HASH, NINE] + digits_of(len, 9)
}

/// The fixed trailer `ffffffff`.
pub open spec fn trailer() -> Seq<u8> {
    Seq::new(8, |i: int| LOWER_F)
}

/// The framed form of a payload.
pub open spec fn framed(payload: Seq<u8>) -> Seq<u8> {
    header_of(payload.len()) + payload + trailer()
}

/// Whether a received block can be unframed: long enough to hold a header
/// and a trailer, and starting with `#9`.
pub open spec fn is_block(wire: Seq<u8>) -> bool {
    &&& wire.len() >= HEADER_LEN + TRAILER_LEN
    &&& wire[0] == HASH
    &&& wire[1] == NINE
}

/// What lies between the header and the trailer of a block.
pub open spec fn unframed(wire: Seq<u8>) -> Seq<u8> {
    wire.subrange(HEADER_LEN as int, wire.len() - TRAILER_LEN)
}

/// Appends the last `width` decimal digits of `n` to `out`.
fn push_digits(out: &mut Vec<u8>, n: u64, width: usize)
    ensures
        final(out)@ == old(out)@ + digits_of(n as nat, width as nat),
    decreases width,
{
    if width > 0 {
        push_digits(out, n / 10, width - 1);
        out.push(ZERO + (n % 10) as u8);
    }
}

/// `header_of(declared)` followed by `payload` and the trailer.
fn frame(payload: &[u8], declared: usize) -> (r: Vec<u8>)
    requires
        declared < MAX_PAYLOAD,
    ensures
        r@ == header_of(declared as nat) + payload@ + trailer(),
{
    let mut out: Vec<u8> = Vec::new();
    out.push(HASH);
    out.push(NINE);
    push_digits(&mut out, declared as u64, 9);
    assert(out@ == header_of(declared as nat));
    let mut i: usize = 0;
    while i < payload.len()
        invariant
            i <= payload@.len(),
            out@ == header_of(declared as nat) + payload@.subrange(0, i as int),
        decreases payload@.len() - i,
    {
        out.push(payload[i]);
        assert(payload@.subrange(0, i + 1) == payload@.subrange(0, i as int).push(payload@[i as int]));
        i = i + 1;
    }
    assert(payload@.subrange(0, payload@.len() as int) == payload@);
    let mut k: usize = 0;
    while k < TRAILER_LEN
        invariant
            k <= TRAILER_LEN,
            out@ == header_of(declared as nat) + payload@ + Seq::new(k as nat, |j: int| LOWER_F),
        decreases TRAILER_LEN - k,
    {
        out.push(LOWER_F);
        assert(Seq::new((k + 1) as nat, |j: int| LOWER_F) == Seq::new(k as nat, |j: int| LOWER_F).push(LOWER_F));
        k = k + 1;
    }
    out
}

/// Frames `payload` as a definite-length block with the `ffffffff` trailer.
///
/// Fails with `Encoding` when the length does not fit in nine digits.
pub fn encode_block(payload: &[u8]) -> (r: Result<Vec<u8>, MauiError>)
    ensures
        payload@.len() < MAX_PAYLOAD ==> r == Ok::<Vec<u8>, MauiError>(r->Ok_0) && r->Ok_0@ == framed(payload@),
        payload@.len() >= MAX_PAYLOAD ==> r == Err::<Vec<u8>, MauiError>(MauiError::Encoding),
{
    if payload.len() >= MAX_PAYLOAD {
        return Err(MauiError::Encoding);
    }
    Ok(frame(payload, payload.len()))
}

/// The block the device expects for contents sent to it: the trailer token
/// is appended to the contents first, so the length field counts the
/// contents and the eight trailer bytes.
pub open spec fn upload_framed(contents: Seq<u8>) -> Seq<u8> {
    header_of((contents.len() + TRAILER_LEN) as nat) + contents + trailer()
}

/// Frames contents sent to the device: appends the `ffffffff` token and
/// frames the result, so the length field is the contents' length plus
/// eight.
///
/// Fails with `Encoding` when that length does not fit in nine digits.
pub fn encode_upload_block(contents: &[u8]) -> (r: Result<Vec<u8>, MauiError>)
    ensures
        contents@.len() + TRAILER_LEN < MAX_PAYLOAD ==> r == Ok::<Vec<u8>, MauiError>(r->Ok_0) && r->Ok_0@
            == upload_framed(contents@),
        contents@.len() + TRAILER_LEN >= MAX_PAYLOAD ==> r == Err::<Vec<u8>, MauiError>(MauiError::Encoding),
{
    if contents.len() >= MAX_PAYLOAD - TRAILER_LEN {
        return Err(MauiError::Encoding);
    }
    Ok(frame(contents, contents.len() + TRAILER_LEN))
}

/// Takes the payload out of a received block: drops the eleven header bytes
/// and the eight trailer bytes.
///
/// Fails with `Decoding` when the block is shorter than nineteen bytes or
/// does not start with `#9`. The length digits and the trailer are not checked.
pub fn decode_block(wire: &[u8]) -> (r: Result<Vec<u8>, MauiError>)
    ensures
        is_block(wire@) ==> r == Ok::<Vec<u8>, MauiError>(r->Ok_0) && r->Ok_0@ == unframed(wire@),
        !is_block(wire@) ==> r == Err::<Vec<u8>, MauiError>(MauiError::Decoding),
{
    if wire.len() < HEADER_LEN + TRAILER_LEN || wire[0] != HASH || wire[1] != NINE {
        return Err(MauiError::Decoding);
    }
    let end: usize = wire.len() - TRAILER_LEN;
    let mut out: Vec<u8> = Vec::new();
    let mut i: usize = HEADER_LEN;
    while i < end
        invariant
            HEADER_LEN <= i <= end,
            end == wire@.len() - TRAILER_LEN,
            out@ == wire@.subrange(HEADER_LEN as int, i as int),
        decreases end - i,
    {
        out.push(wire[i]);
        assert(wire@.subrange(HEADER_LEN as int, i + 1) == wire@.subrange(HEADER_LEN as int, i as int).push(wire@[i as int]));
        i = i + 1;
    }
    Ok(out)
}

proof fn lemma_digits_len(n: nat, width: nat)
    ensures
        digits_of(n, width).len() == width,
    decreases width,
{
    if width > 0 {
        lemma_digits_len(n / 10, (width - 1) as nat);
    }
}

/// Ten to the power `width`.
pub open spec fn pow10(width: nat) -> nat
    decreases width,
{
    if width == 0 {
        1
    } else {
        10 * pow10((width - 1) as nat)
    }
}

/// The length field of a block reads back as the payload length: the digits
/// of `n` padded to `width` spell `n` whenever `n < 10^width`.
pub proof fn lemma_digits_value(n: nat, width: nat)
    requires
        n < pow10(width),
    ensures
        value_of(digits_of(n, width)) == n,
    decreases width,
{
    if width > 0 {
        lemma_digits_value(n / 10, (width - 1) as nat);
        let d = digits_of(n, width);
        assert(d.drop_last() == digits_of(n / 10, (width - 1) as nat));
        assert(d.last() == (ZERO + n % 10) as u8);
        assert((n / 10) * 10 + n % 10 == n);
    }
}

/// Decoding a framed payload gives the payload back, for every payload that
/// fits the length field.
pub proof fn lemma_round_trip(payload: Seq<u8>)
    requires
        payload.len() < MAX_PAYLOAD,
    ensures
        is_block(framed(payload)),
        unframed(framed(payload)) == payload,
        value_of(framed(payload).subrange(2, HEADER_LEN as int)) == payload.len(),
{
    lemma_digits_len(payload.len(), 9);
    reveal_with_fuel(pow10, 10);
    assert(pow10(9) == MAX_PAYLOAD);
    lemma_digits_value(payload.len(), 9);
    let w = framed(payload);
    assert(w.len() == 11 + payload.len() + 8);
    assert(w[0] == HASH);
    assert(w[1] == NINE);
    assert(unframed(w) =~= payload);
    assert(w.subrange(2, HEADER_LEN as int) =~= digits_of(payload.len(), 9));
}

/// Anything shorter than a header and a trailer is no block, so decoding
/// refuses it with `Decoding`.
pub proof fn lemma_short_wire_rejected(wire: Seq<u8>)
    requires
        wire.len() < HEADER_LEN + TRAILER_LEN,
    ensures
        !is_block(wire),
{
}

/// A block framed for the device holds its contents between header and
/// trailer, and its length field reads as the contents' length plus eight.
pub proof fn lemma_upload_round_trip(contents: Seq<u8>)
    requires
        contents.len() + TRAILER_LEN < MAX_PAYLOAD,
    ensures
        is_block(upload_framed(contents)),
        unframed(upload_framed(contents)) == contents,
        value_of(upload_framed(contents).subrange(2, HEADER_LEN as int)) == contents.len() + TRAILER_LEN,
{
    let declared = (contents.len() + TRAILER_LEN) as nat;
    lemma_digits_len(declared, 9);
    reveal_with_fuel(pow10, 10);
    assert(pow10(9) == MAX_PAYLOAD);
    lemma_digits_value(declared, 9);
    let w = upload_framed(contents);
    assert(w[0] == HASH);
    assert(w[1] == NINE);
    assert(unframed(w) =~= contents);
    assert(w.subrange(2, HEADER_LEN as int) =~= digits_of(declared, 9));
}

} // verus!
