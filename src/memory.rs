//! Bounds-checked reads and writes of a guest's linear memory. Every region
//! is checked against the memory's current size before a byte is touched.

use vstd::prelude::*;
use crate::errors::ContractError;
use crate::wire::{HandleResult, RECORD_SIZE, decode_pointer_record, record_of};

verus! {

/// Where the host writes the input payload before calling the entry point.
pub const INPUT_BASE: u32 = 0;

/// Whether `len` bytes at `offset` lie inside a memory of `size` bytes.
pub open spec fn in_bounds(size: nat, offset: nat, len: nat) -> bool {
    offset + len <= size
}

/// The error for a region that does not fit.
pub open spec fn out_of_bounds(size: nat, offset: nat, len: nat) -> ContractError {
    ContractError::InvalidMemoryAccess { offset: offset as u64, len: len as u64, memory_size: size as u64 }
}

/// What reading `len` bytes at `offset` of `mem` yields.
pub open spec fn region(mem: Seq<u8>, offset: nat, len: nat) -> Result<Seq<u8>, ContractError> {
    if in_bounds(mem.len(), offset, len) {
        Ok(mem.subrange(offset as int, (offset + len) as int))
    } else {
        Err(out_of_bounds(mem.len(), offset, len))
    }
}

/// What decoding the output at `at` yields: the record there, then the
/// payload it describes, each checked against the memory's size.
pub open spec fn output_at(mem: Seq<u8>, at: nat) -> Result<Seq<u8>, ContractError> {
    if !in_bounds(mem.len(), at, 8) {
        Err(out_of_bounds(mem.len(), at, 8))
    } else {
        let rec = record_of(mem.subrange(at as int, (at + 8) as int));
        region(mem, rec.ptr as nat, rec.len as nat)
    }
}

/// A result whose payload is a byte vector, seen as a sequence.
pub open spec fn bytes_result(r: Result<Vec<u8>, ContractError>) -> Result<Seq<u8>, ContractError> {
    match r {
        Ok(v) => Ok(v@),
        Err(e) => Err(e),
    }
}

/// Copies `len` bytes at `offset` out of `mem`, or fails with
/// `InvalidMemoryAccess` where they do not all lie inside it.
pub fn read_region(mem: &[u8], offset: u64, len: u64) -> (r: Result<Vec<u8>, ContractError>)
    ensures
        bytes_result(r) == region(mem@, offset as nat, len as nat),
{
    let size = mem.len() as u64;
    if offset > size || len > size - offset {
        return Err(ContractError::InvalidMemoryAccess { offset, len, memory_size: size });
    }
    let start = offset as usize;
    let end = (offset + len) as usize;
    let mut out: Vec<u8> = Vec::with_capacity(len as usize);
    let mut i: usize = start;
    while i < end
        invariant
            start <= i <= end,
            end <= mem@.len(),
            out@ == mem@.subrange(start as int, i as int),
        decreases end - i,
    {
        out.push(mem[i]);
        i = i + 1;
        assert(out@ =~= mem@.subrange(start as int, i as int));
    }
    Ok(out)
}

/// Reads the pointer/length record at `output_ptr` and then the payload it
/// describes. Neither read reaches past the end of `mem`.
pub fn read_output(mem: &[u8], output_ptr: u32) -> (r: Result<Vec<u8>, ContractError>)
    ensures
        bytes_result(r) == output_at(mem@, output_ptr as nat),
{
    let record_bytes = match read_region(mem, output_ptr as u64, RECORD_SIZE as u64) {
        Ok(b) => b,
        Err(e) => return Err(e),
    };
    let rec: HandleResult = match decode_pointer_record(record_bytes.as_slice()) {
        Some(rec) => rec,
        None => return Err(ContractError::MalformedRecord { len: record_bytes.len() as u64 }),
    };
    read_region(mem, rec.ptr as u64, rec.len as u64)
}

/// Checks that an input payload of `input_len` bytes fits at
/// [`INPUT_BASE`] in a memory of `memory_size` bytes, and returns the
/// entry point's two arguments: the base offset and the length.
pub fn place_input(memory_size: u64, input_len: u64) -> (r: Result<(u32, u32), ContractError>)
    ensures
        in_bounds(memory_size as nat, 0, input_len as nat) && input_len <= i32::MAX ==> r == Ok::<
            (u32, u32),
            ContractError,
        >((INPUT_BASE, input_len as u32)),
        !(in_bounds(memory_size as nat, 0, input_len as nat) && input_len <= i32::MAX) ==> r == Err::<
            (u32, u32),
            ContractError,
        >(out_of_bounds(memory_size as nat, 0, input_len as nat)),
{
    if input_len > memory_size || input_len > i32::MAX as u64 {
        return Err(ContractError::InvalidMemoryAccess { offset: 0, len: input_len, memory_size });
    }
    Ok((INPUT_BASE, input_len as u32))
}

/// Decoding an output never yields bytes from outside the memory: where it
/// succeeds, both the record and the payload it describes lie inside `mem`
/// and the payload is exactly the bytes there; where either range reaches
/// past the end, the result is `InvalidMemoryAccess` for that range.
pub proof fn lemma_output_within_memory(mem: Seq<u8>, at: nat)
    ensures
        ({
            let rec = record_of(mem.subrange(at as int, (at + 8) as int));
            &&& !in_bounds(mem.len(), at, 8) ==> output_at(mem, at) == Err::<Seq<u8>, ContractError>(
                out_of_bounds(mem.len(), at, 8),
            )
            &&& in_bounds(mem.len(), at, 8) && !in_bounds(mem.len(), rec.ptr as nat, rec.len as nat)
                ==> output_at(mem, at) == Err::<Seq<u8>, ContractError>(
                out_of_bounds(mem.len(), rec.ptr as nat, rec.len as nat),
            )
            &&& output_at(mem, at) is Ok ==> in_bounds(mem.len(), at, 8) && in_bounds(
                mem.len(),
                rec.ptr as nat,
                rec.len as nat,
            ) && output_at(mem, at)->Ok_0 == mem.subrange(rec.ptr as int, rec.ptr + rec.len)
        }),
{
}

} // verus!
