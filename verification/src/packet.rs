//! The reject-side data the controller consumes: the error codes it reacts
//! to, the reject signal itself, and the fixed sixteen-byte detail payload
//! that an amount-too-large reject may carry.

use vstd::prelude::*;

verus! {

/// The protocol error code of a reject, reduced to what this controller
/// distinguishes: the two codes it reacts to, and everything else.
#[derive(Clone, Copy, Debug, PartialEq, Eq, Structural)]
pub enum ErrorCode {
    /// The network path lacked the capacity to carry the prepared amount.
    InsufficientLiquidity,
    /// A single packet exceeded a per-packet ceiling somewhere on the path.
    AmountTooLarge,
    /// Any other code: the controller gives it no special treatment.
    Other,
}

/// A reject outcome: a code plus an opaque byte payload, meaningful only for
/// [`ErrorCode::AmountTooLarge`].
#[derive(Debug)]
pub struct RejectSignal {
    pub code: ErrorCode,
    pub data: Vec<u8>,
}

/// The detail payload of an amount-too-large reject: how much of the
/// prepared amount the receiver says it got, and the receiver's own ceiling.
/// On the wire each field is an unsigned 64-bit big-endian integer.
#[derive(Clone, Copy, Debug, PartialEq, Eq, Structural)]
pub struct MaxPacketAmountDetails {
    pub amount_received: u64,
    pub max_amount: u64,
}

/// Decoding failure for [`MaxPacketAmountDetails`].
#[derive(Clone, Copy, Debug, PartialEq, Eq, Structural)]
pub enum ParseError {
    /// The input holds fewer bytes than the fixed sixteen-byte layout.
    UnexpectedEnd,
}

/// The big-endian value of the eight bytes of `s` starting at index `i`.
pub open spec fn spec_be_u64(s: Seq<u8>, i: int) -> u64
    recommends
        0 <= i,
        i + 8 <= s.len(),
{
    ((s[i] as u64) << 56) | ((s[i + 1] as u64) << 48) | ((s[i + 2] as u64) << 40)
        | ((s[i + 3] as u64) << 32) | ((s[i + 4] as u64) << 24) | ((s[i + 5] as u64) << 16)
        | ((s[i + 6] as u64) << 8) | (s[i + 7] as u64)
}

/// The eight big-endian bytes of `x`, most significant first.
pub open spec fn spec_u64_be_bytes(x: u64) -> Seq<u8> {
    seq![
        (x >> 56) as u8,
        (x >> 48) as u8,
        (x >> 40) as u8,
        (x >> 32) as u8,
        (x >> 24) as u8,
        (x >> 16) as u8,
        (x >> 8) as u8,
        x as u8,
    ]
}

/// What decoding a payload yields: the two fields read big-endian from the
/// first sixteen bytes (trailing bytes are ignored), or nothing when the
/// input is shorter than that.
pub open spec fn spec_parse_details(data: Seq<u8>) -> Option<MaxPacketAmountDetails> {
    if data.len() >= 16 {
        Some(MaxPacketAmountDetails {
            amount_received: spec_be_u64(data, 0),
            max_amount: spec_be_u64(data, 8),
        })
    } else {
        None
    }
}

/// The sixteen-byte encoding of a details value: both fields big-endian,
/// `amount_received` first.
pub open spec fn spec_encode_details(d: MaxPacketAmountDetails) -> Seq<u8> {
    spec_u64_be_bytes(d.amount_received) + spec_u64_be_bytes(d.max_amount)
}

/// Reads the eight bytes of `bytes` starting at `start` as a big-endian
/// unsigned 64-bit integer.
fn read_be_u64(bytes: &[u8], start: usize) -> (r: u64)
    requires
        start + 8 <= bytes@.len(),
    ensures
        r == spec_be_u64(bytes@, start as int),
{
    ((bytes[start] as u64) << 56u64) | ((bytes[start + 1] as u64) << 48u64)
        | ((bytes[start + 2] as u64) << 40u64) | ((bytes[start + 3] as u64) << 32u64)
        | ((bytes[start + 4] as u64) << 24u64) | ((bytes[start + 5] as u64) << 16u64)
        | ((bytes[start + 6] as u64) << 8u64) | (bytes[start + 7] as u64)
}

/// Appends the eight big-endian bytes of `x` to `out`.
fn write_be_u64(out: &mut Vec<u8>, x: u64)
    ensures
        final(out)@ == old(out)@ + spec_u64_be_bytes(x),
{
    out.push((x >> 56u64) as u8);
    out.push((x >> 48u64) as u8);
    out.push((x >> 40u64) as u8);
    out.push((x >> 32u64) as u8);
    out.push((x >> 24u64) as u8);
    out.push((x >> 16u64) as u8);
    out.push((x >> 8u64) as u8);
    out.push(x as u8);
    proof {
        assert(out@ =~= old(out)@ + spec_u64_be_bytes(x));
    }
}

impl MaxPacketAmountDetails {
    /// Packs the two fields of the detail payload.
    pub fn new(amount_received: u64, max_amount: u64) -> (r: Self)
        ensures
            r.amount_received == amount_received,
            r.max_amount == max_amount,
    {
        MaxPacketAmountDetails { amount_received, max_amount }
    }

    /// Decodes the fixed sixteen-byte layout.  Input shorter than sixteen
    /// bytes is rejected cleanly; trailing bytes are ignored.
    pub fn from_bytes(bytes: &[u8]) -> (r: Result<Self, ParseError>)
        ensures
            (r is Ok) <==> bytes@.len() >= 16,
            r is Ok ==> Some(r.unwrap()) == spec_parse_details(bytes@),
            r is Err ==> r == Result::<Self, ParseError>::Err(ParseError::UnexpectedEnd),
    {
        if bytes.len() < 16 {
            return Err(ParseError::UnexpectedEnd);
        }
        let amount_received: u64 = read_be_u64(bytes, 0);
        let max_amount: u64 = read_be_u64(bytes, 8);
        Ok(MaxPacketAmountDetails { amount_received, max_amount })
    }

    /// Encodes the value into its fixed sixteen-byte layout.
    pub fn to_bytes(&self) -> (r: Vec<u8>)
        ensures
            r@ == spec_encode_details(*self),
            r@.len() == 16,
    {
        let mut out: Vec<u8> = Vec::new();
        write_be_u64(&mut out, self.amount_received);
        write_be_u64(&mut out, self.max_amount);
        out
    }
}

/// Recomposing the eight big-endian bytes of `x` gives back `x`.
proof fn lemma_be_u64_recompose(x: u64)
    ensures
        spec_be_u64(spec_u64_be_bytes(x), 0) == x,
{
    assert(((((x >> 56) as u8) as u64) << 56) | ((((x >> 48) as u8) as u64) << 48)
        | ((((x >> 40) as u8) as u64) << 40) | ((((x >> 32) as u8) as u64) << 32)
        | ((((x >> 24) as u8) as u64) << 24) | ((((x >> 16) as u8) as u64) << 16)
        | ((((x >> 8) as u8) as u64) << 8) | ((x as u8) as u64) == x) by (bit_vector);
}

/// Law: the encode/decode pair is exact — decoding the encoding of any
/// details value gives back that value.
pub proof fn lemma_details_round_trip(d: MaxPacketAmountDetails)
    ensures
        spec_parse_details(spec_encode_details(d)) == Some(d),
{
    lemma_be_u64_recompose(d.amount_received);
    lemma_be_u64_recompose(d.max_amount);
    let enc = spec_encode_details(d);
    assert(enc.subrange(0, 8) =~= spec_u64_be_bytes(d.amount_received));
    assert(enc.subrange(8, 16) =~= spec_u64_be_bytes(d.max_amount));
    assert(spec_be_u64(enc, 0) == d.amount_received);
    assert(spec_be_u64(enc, 8) == d.max_amount);
}

/// Taking apart the big-endian value of eight bytes gives back those bytes.
proof fn lemma_be_u64_decompose(s: Seq<u8>, i: int)
    requires
        0 <= i,
        i + 8 <= s.len(),
    ensures
        spec_u64_be_bytes(spec_be_u64(s, i)) =~= s.subrange(i, i + 8),
{
    let b0 = s[i];
    let b1 = s[i + 1];
    let b2 = s[i + 2];
    let b3 = s[i + 3];
    let b4 = s[i + 4];
    let b5 = s[i + 5];
    let b6 = s[i + 6];
    let b7 = s[i + 7];
    let x = spec_be_u64(s, i);
    assert((x >> 56) as u8 == b0 && (x >> 48) as u8 == b1 && (x >> 40) as u8 == b2 && (x >> 32)
        as u8 == b3 && (x >> 24) as u8 == b4 && (x >> 16) as u8 == b5 && (x >> 8) as u8 == b6 && x
        as u8 == b7) by (bit_vector)
        requires
            x == ((b0 as u64) << 56) | ((b1 as u64) << 48) | ((b2 as u64) << 40) | ((b3 as u64)
                << 32) | ((b4 as u64) << 24) | ((b5 as u64) << 16) | ((b6 as u64) << 8) | (
            b7 as u64),
    ;
}

/// Law: the encode/decode pair is exact in the other direction too — a
/// sixteen-byte payload decodes, and its decoding re-encodes to the very
/// same bytes.
pub proof fn lemma_details_reencode(data: Seq<u8>)
    requires
        data.len() == 16,
    ensures
        spec_parse_details(data) is Some,
        spec_encode_details(spec_parse_details(data).unwrap()) == data,
{
    lemma_be_u64_decompose(data, 0);
    lemma_be_u64_decompose(data, 8);
    assert(spec_encode_details(spec_parse_details(data).unwrap()) =~= data);
}

} // verus!
