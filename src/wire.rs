//! The fixed 8-byte pointer/length record that a guest's entry point hands
//! back: `ptr` as a little-endian `u32` at byte 0, `len` at byte 4.

use vstd::prelude::*;

verus! {

/// Size in bytes of an encoded [`HandleResult`].
pub const RECORD_SIZE: usize = 8;

/// Where a guest's output payload lies in its linear memory.
#[derive(Clone, Copy, Debug, PartialEq, Eq, Structural)]
pub struct HandleResult {
    pub ptr: u32,
    pub len: u32,
}

/// The value of the four bytes at `at`, least significant first.
pub open spec fn le_u32(b: Seq<u8>, at: int) -> int {
    b[at] as int + 256 * b[at + 1] as int + 65536 * b[at + 2] as int + 16777216 * b[at + 3] as int
}

/// The four little-endian bytes of `v`.
pub open spec fn le_bytes(v: u32) -> Seq<u8> {
    seq![(v % 256) as u8, ((v / 256) % 256) as u8, ((v / 65536) % 256) as u8, (v / 16777216) as u8]
}

/// The record that eight bytes describe.
pub open spec fn record_of(b: Seq<u8>) -> HandleResult {
    HandleResult { ptr: le_u32(b, 0) as u32, len: le_u32(b, 4) as u32 }
}

/// The eight bytes that describe a record.
pub open spec fn record_bytes(r: HandleResult) -> Seq<u8> {
    le_bytes(r.ptr) + le_bytes(r.len)
}

proof fn lemma_le_u32_bound(b: Seq<u8>, at: int)
    requires
        0 <= at,
        at + 4 <= b.len(),
    ensures
        0 <= le_u32(b, at) <= u32::MAX,
{
}

proof fn lemma_le_bytes_value(v: u32)
    ensures
        le_u32(le_bytes(v), 0) == v,
{
    let b = le_bytes(v);
    assert(b[0] == v % 256 && b[1] == (v / 256) % 256 && b[2] == (v / 65536) % 256 && b[3] == v / 16777216);
    assert(v as int == v % 256 + 256 * ((v / 256) % 256) + 65536 * ((v / 65536) % 256) + 16777216 * (v / 16777216)) by (nonlinear_arith);
}

proof fn lemma_le_u32_determines_bytes(b: Seq<u8>, at: int)
    requires
        0 <= at,
        at + 4 <= b.len(),
    ensures
        le_bytes(le_u32(b, at) as u32) == b.subrange(at, at + 4),
{
    let v = le_u32(b, at);
    let (b0, b1, b2, b3) = (b[at] as int, b[at + 1] as int, b[at + 2] as int, b[at + 3] as int);
    assert(v % 256 == b0 && (v / 256) % 256 == b1 && (v / 65536) % 256 == b2 && v / 16777216 == b3) by (nonlinear_arith)
        requires
            v == b0 + 256 * b1 + 65536 * b2 + 16777216 * b3,
            0 <= b0 < 256, 0 <= b1 < 256, 0 <= b2 < 256, 0 <= b3 < 256,
    ;
    assert(le_bytes(v as u32) =~= b.subrange(at, at + 4));
}

/// Reads the little-endian `u32` at `at`, byte by byte, whatever the host's
/// own byte order.
pub fn read_u32_le(b: &[u8], at: usize) -> (r: u32)
    requires
        at + 4 <= b@.len(),
    ensures
        r as int == le_u32(b@, at as int),
{
    let v: u32 = b[at] as u32 + 256 * (b[at + 1] as u32) + 65536 * (b[at + 2] as u32) + 16777216 * (b[at + 3] as u32);
    v
}

/// Decodes a pointer/length record; a slice of any length but
/// [`RECORD_SIZE`] is rejected.
pub fn decode_pointer_record(bytes: &[u8]) -> (r: Option<HandleResult>)
    ensures
        r is Some <==> bytes@.len() == 8,
        r is Some ==> r->Some_0 == record_of(bytes@),
{
    if bytes.len() != RECORD_SIZE {
        return None;
    }
    let ptr = read_u32_le(bytes, 0);
    let len = read_u32_le(bytes, 4);
    Some(HandleResult { ptr, len })
}

/// Appends the little-endian bytes of `v`.
fn push_u32_le(out: &mut Vec<u8>, v: u32)
    ensures
        final(out)@ == old(out)@ + le_bytes(v),
{
    out.push((v % 256) as u8);
    out.push(((v / 256) % 256) as u8);
    out.push(((v / 65536) % 256) as u8);
    out.push((v / 16777216) as u8);
    assert(final(out)@ =~= old(out)@ + le_bytes(v));
}

/// Encodes a record in the layout that [`decode_pointer_record`] reads.
pub fn encode_pointer_record(r: &HandleResult) -> (out: Vec<u8>)
    ensures
        out@ == record_bytes(*r),
        out@.len() == 8,
{
    let mut out: Vec<u8> = Vec::new();
    push_u32_le(&mut out, r.ptr);
    push_u32_le(&mut out, r.len);
    assert(out@ =~= record_bytes(*r));
    out
}

/// Decoding the encoding of a record gives the record back.
pub proof fn lemma_record_round_trip(r: HandleResult)
    ensures
        record_bytes(r).len() == 8,
        record_of(record_bytes(r)) == r,
{
    let b = record_bytes(r);
    lemma_le_bytes_value(r.ptr);
    lemma_le_bytes_value(r.len);
    assert(b.subrange(0, 4) =~= le_bytes(r.ptr));
    assert(b.subrange(4, 8) =~= le_bytes(r.len));
    assert(le_u32(b, 0) == le_u32(le_bytes(r.ptr), 0));
    assert(le_u32(b, 4) == le_u32(le_bytes(r.len), 0));
}

/// Every 8-byte sequence decodes, and two that decode to the same record are
/// the same bytes: the encoding of what one decodes to is that sequence.
pub proof fn lemma_record_decode_injective(a: Seq<u8>, b: Seq<u8>)
    requires
        a.len() == 8,
        b.len() == 8,
    ensures
        record_bytes(record_of(a)) == a,
        record_of(a) == record_of(b) ==> a == b,
{
    lemma_le_u32_bound(a, 0);
    lemma_le_u32_bound(a, 4);
    lemma_le_u32_determines_bytes(a, 0);
    lemma_le_u32_determines_bytes(a, 4);
    lemma_le_u32_bound(b, 0);
    lemma_le_u32_bound(b, 4);
    lemma_le_u32_determines_bytes(b, 0);
    lemma_le_u32_determines_bytes(b, 4);
    assert(record_bytes(record_of(a)) =~= a.subrange(0, 4) + a.subrange(4, 8));
    assert(a =~= a.subrange(0, 4) + a.subrange(4, 8));
    assert(record_bytes(record_of(b)) =~= b.subrange(0, 4) + b.subrange(4, 8));
    assert(b =~= b.subrange(0, 4) + b.subrange(4, 8));
}

} // verus!
