use contract_runner::memory::{place_input, read_output, read_region, INPUT_BASE};
use contract_runner::wire::{decode_pointer_record, encode_pointer_record, read_u32_le, HandleResult};
use contract_runner::errors::ContractError;

#[test]
fn record_decodes_little_endian() {
    let bytes = [69u8, 0, 0, 0, 120, 0, 0, 0];
    assert_eq!(decode_pointer_record(&bytes), Some(HandleResult { ptr: 69, len: 120 }));
}

#[test]
fn record_encodes_little_endian() {
    let bytes = encode_pointer_record(&HandleResult { ptr: 69, len: 120 });
    assert_eq!(bytes, vec![69u8, 0, 0, 0, 120, 0, 0, 0]);
    let bytes = encode_pointer_record(&HandleResult { ptr: 0x0102_0304, len: 0xA0B0_C0D0 });
    assert_eq!(bytes, vec![0x04u8, 0x03, 0x02, 0x01, 0xD0, 0xC0, 0xB0, 0xA0]);
}

#[test]
fn record_round_trips() {
    for (ptr, len) in [(0u32, 0u32), (1, u32::MAX), (u32::MAX, 1), (65536, 255), (0xDEAD_BEEF, 0x1234_5678)] {
        let r = HandleResult { ptr, len };
        assert_eq!(decode_pointer_record(&encode_pointer_record(&r)), Some(r));
    }
}

#[test]
fn record_rejects_other_lengths() {
    assert_eq!(decode_pointer_record(&[]), None);
    assert_eq!(decode_pointer_record(&[1u8, 2, 3, 4, 5, 6, 7]), None);
    assert_eq!(decode_pointer_record(&[1u8, 2, 3, 4, 5, 6, 7, 8, 9]), None);
}

#[test]
fn u32_read_ignores_host_order() {
    let bytes = [0xFFu8, 0x78, 0x56, 0x34, 0x12];
    assert_eq!(read_u32_le(&bytes, 1), 0x1234_5678);
}

#[test]
fn region_inside_memory_is_copied() {
    let mem: Vec<u8> = (0u8..16).collect();
    assert_eq!(read_region(&mem, 4, 3), Ok(vec![4u8, 5, 6]));
    assert_eq!(read_region(&mem, 16, 0), Ok(vec![]));
    assert_eq!(read_region(&mem, 10, 6), Ok(vec![10u8, 11, 12, 13, 14, 15]));
}

#[test]
fn region_past_the_end_is_refused() {
    let mem: Vec<u8> = (0u8..16).collect();
    assert_eq!(
        read_region(&mem, 10, 7),
        Err(ContractError::InvalidMemoryAccess { offset: 10, len: 7, memory_size: 16 })
    );
    assert_eq!(
        read_region(&mem, 17, 0),
        Err(ContractError::InvalidMemoryAccess { offset: 17, len: 0, memory_size: 16 })
    );
    assert_eq!(
        read_region(&mem, 8, u64::MAX),
        Err(ContractError::InvalidMemoryAccess { offset: 8, len: u64::MAX, memory_size: 16 })
    );
}

fn memory_with_output(size: usize, payload_at: usize, payload: &[u8], record_at: usize, len: u32) -> Vec<u8> {
    let mut mem = vec![0u8; size];
    mem[payload_at..payload_at + payload.len()].copy_from_slice(payload);
    let record = encode_pointer_record(&HandleResult { ptr: payload_at as u32, len });
    mem[record_at..record_at + 8].copy_from_slice(&record);
    mem
}

#[test]
fn output_is_read_through_its_record() {
    let mem = memory_with_output(64, 10, b"hello", 40, 5);
    assert_eq!(read_output(&mem, 40), Ok(b"hello".to_vec()));
}

#[test]
fn output_record_past_the_end_is_refused() {
    let mem = memory_with_output(64, 10, b"hello", 40, 5);
    assert_eq!(
        read_output(&mem, 57),
        Err(ContractError::InvalidMemoryAccess { offset: 57, len: 8, memory_size: 64 })
    );
    assert_eq!(
        read_output(&mem, u32::MAX),
        Err(ContractError::InvalidMemoryAccess { offset: u32::MAX as u64, len: 8, memory_size: 64 })
    );
}

#[test]
fn output_payload_past_the_end_is_refused() {
    let mem = memory_with_output(64, 60, b"abcd", 40, 5);
    assert_eq!(
        read_output(&mem, 40),
        Err(ContractError::InvalidMemoryAccess { offset: 60, len: 5, memory_size: 64 })
    );
    let mem = memory_with_output(64, 0, b"", 40, 0);
    let mut bad = mem.clone();
    bad[40..48].copy_from_slice(&encode_pointer_record(&HandleResult { ptr: 69, len: 120 }));
    assert_eq!(
        read_output(&bad, 40),
        Err(ContractError::InvalidMemoryAccess { offset: 69, len: 120, memory_size: 64 })
    );
    assert_eq!(read_output(&mem, 40), Ok(vec![]));
}

#[test]
fn input_is_placed_at_the_base() {
    assert_eq!(place_input(65536, 16), Ok((INPUT_BASE, 16)));
    assert_eq!(place_input(16, 16), Ok((0, 16)));
    assert_eq!(place_input(0, 0), Ok((0, 0)));
}

#[test]
fn input_too_long_is_refused() {
    assert_eq!(
        place_input(16, 17),
        Err(ContractError::InvalidMemoryAccess { offset: 0, len: 17, memory_size: 16 })
    );
    let big = i32::MAX as u64 + 1;
    assert_eq!(
        place_input(u64::MAX, big),
        Err(ContractError::InvalidMemoryAccess { offset: 0, len: big, memory_size: u64::MAX })
    );
}
