use extab::{decode_extab, ExAction, ExActionData, ExtabDecodeError};

/// Builds a minimal table: zero header, no PC ranges, then the given action
/// records after the terminator.
fn table_with_actions(actions: &[u8]) -> Vec<u8> {
    let mut buf = vec![0u8, 0, 0, 0, 0, 0, 0, 0];
    buf.extend_from_slice(actions);
    buf
}

/// Builds one action record: type byte, param byte, payload.
fn record(tag: u8, param: u8, payload: &[u8]) -> Vec<u8> {
    let mut r = vec![tag, param];
    r.extend_from_slice(payload);
    r
}

#[test]
fn short_buffers_fail_with_exact_length() {
    for len in 0..8usize {
        let buf = vec![0u8; len];
        let err = decode_extab(&buf).unwrap_err();
        assert_eq!(err, ExtabDecodeError::ArrayTooSmall(len as u32));
    }
}

#[test]
fn eight_byte_table_with_nonzero_terminator_fails() {
    let buf = [0u8, 0, 0, 0, 0, 0, 0, 1];
    let err = decode_extab(&buf).unwrap_err();
    assert_eq!(err, ExtabDecodeError::InvalidSmallTableTerminator);
}

#[test]
fn eight_byte_table_with_zero_terminator_is_empty() {
    let buf = [0u8; 8];
    let table = decode_extab(&buf).unwrap();
    assert!(table.pc_actions.is_empty());
    assert!(table.exception_actions.is_empty());
    assert!(table.relocations.is_empty());
}

#[test]
fn header_words_are_big_endian() {
    let buf = [0x12u8, 0x34, 0x56, 0x78, 0, 0, 0, 0];
    let table = decode_extab(&buf).unwrap();
    assert_eq!(table.flag_val, 0x1234);
    assert_eq!(table.et_field, 0x5678);
}

#[test]
fn flag_bits_are_expanded() {
    // bit 1, bit 3, bit 4, bit 5 set; fpr count 5; gpr count 9.
    let flags: u16 = (1 << 1) | (1 << 3) | (1 << 4) | (1 << 5) | (5 << 6) | (9 << 11);
    let buf = [(flags >> 8) as u8, flags as u8, 0, 0, 0, 0, 0, 0];
    let table = decode_extab(&buf).unwrap();
    assert!(table.has_elf_vector);
    assert!(table.large_frame);
    assert!(table.has_frame_pointer);
    assert!(table.saved_cr);
    assert_eq!(table.fpr_save_range, 5);
    assert_eq!(table.gpr_save_range, 9);
}

#[test]
fn pc_range_loop_stops_at_terminator_and_consumes_it() {
    // One PC range, a zero terminator, then further nonzero action bytes: the
    // terminator is peeked during the loop and consumed exactly once.
    let mut buf = vec![0u8, 0, 0, 0];
    buf.extend_from_slice(&[0x00, 0x00, 0x01, 0x00, 0x00, 0x02, 0x00, 0x18]); // range
    buf.extend_from_slice(&[0, 0, 0, 0]); // terminator
    buf.extend_from_slice(&record(2, 0, &[0x00, 0x08, 0x12, 0x34, 0x56, 0x78])); // DestroyLocal
    let table = decode_extab(&buf).unwrap();
    assert_eq!(table.pc_actions.len(), 1);
    assert_eq!(table.pc_actions[0].start_pc, 0x100);
    assert_eq!(table.pc_actions[0].end_pc, 0x100 + 4 * 2);
    assert_eq!(table.pc_actions[0].action_offset, 0x18);
    assert_eq!(table.exception_actions.len(), 1);
    // The first action starts right after the terminator: 4 + 8 + 4.
    assert_eq!(table.exception_actions[0].action_offset, 16);
}

#[test]
fn end_pc_wraps_modulo_32_bits() {
    let mut buf = vec![0u8, 0, 0, 0];
    buf.extend_from_slice(&[0xFF, 0xFF, 0xFF, 0xFC, 0x00, 0x02, 0x00, 0x00]);
    buf.extend_from_slice(&[0, 0, 0, 0]);
    let table = decode_extab(&buf).unwrap();
    assert_eq!(table.pc_actions[0].start_pc, 0xFFFF_FFFC);
    assert_eq!(table.pc_actions[0].end_pc, 4);
}

#[test]
fn unknown_action_tag_fails_with_tag_and_offset() {
    let buf = table_with_actions(&[17, 0]);
    let err = decode_extab(&buf).unwrap_err();
    assert_eq!(err, ExtabDecodeError::InvalidActionValue(17, 8));
}

#[test]
fn unknown_action_tag_aborts_before_later_records() {
    // A valid record, then tag 0x7F at the next boundary: the error carries
    // the second record's offset.
    let mut actions = record(0, 0, &[]); // EndOfList, 2 bytes
    actions.extend_from_slice(&[0x7F, 0]);
    let buf = table_with_actions(&actions);
    let err = decode_extab(&buf).unwrap_err();
    assert_eq!(err, ExtabDecodeError::InvalidActionValue(0x7F, 10));
}

#[test]
fn end_bit_is_taken_from_the_type_byte() {
    let buf = table_with_actions(&record(0x80, 0, &[]));
    let table = decode_extab(&buf).unwrap();
    assert_eq!(table.exception_actions.len(), 1);
    assert!(table.exception_actions[0].has_end_bit);
    assert_eq!(table.exception_actions[0].action_type, ExAction::EndOfList);
}

#[test]
fn truncated_pc_range_fails() {
    // Nonzero peek at the range position, but fewer than 8 bytes remain.
    let buf = [0u8, 0, 0, 0, 0, 0, 0, 1, 0];
    let err = decode_extab(&buf).unwrap_err();
    assert_eq!(err, ExtabDecodeError::TruncatedBuffer);
}

#[test]
fn truncated_action_payload_fails() {
    // DestroyLocal wants 6 payload bytes; none remain.
    let buf = table_with_actions(&[2, 0]);
    let err = decode_extab(&buf).unwrap_err();
    assert_eq!(err, ExtabDecodeError::TruncatedBuffer);
}

#[test]
fn truncated_action_param_fails() {
    // A lone valid tag byte at the end: the parameter byte is missing.
    let buf = table_with_actions(&[2]);
    let err = decode_extab(&buf).unwrap_err();
    assert_eq!(err, ExtabDecodeError::TruncatedBuffer);
}

#[test]
fn destroy_local_relocation_offset_is_record_offset_plus_4() {
    // Record begins at absolute offset 8; its relocation sits at 8 + 2 + 2.
    let buf = table_with_actions(&record(2, 0, &[0x00, 0x08, 0x12, 0x34, 0x56, 0x78]));
    let table = decode_extab(&buf).unwrap();
    assert_eq!(table.relocations.len(), 1);
    assert_eq!(table.relocations[0].offset, 8 + 4);
    assert_eq!(table.relocations[0].address, 0x1234_5678);
}

#[test]
fn one_relocation_per_dtor_record_in_order() {
    let mut actions = record(2, 0, &[0x00, 0x08, 0xAA, 0x00, 0x00, 0x01]); // DestroyLocal at 8
    actions.extend_from_slice(&record(12, 0, &[0u8; 10])); // CatchBlock at 16: no dtor
    actions.extend_from_slice(&record(10, 0, &[0x00, 0x04, 0xBB, 0x00, 0x00, 0x02])); // DeletePointer at 28
    let buf = table_with_actions(&actions);
    let table = decode_extab(&buf).unwrap();
    assert_eq!(table.exception_actions.len(), 3);
    assert_eq!(table.relocations.len(), 2);
    assert_eq!(table.relocations[0].offset, 8 + 2 + 2);
    assert_eq!(table.relocations[0].address, 0xAA00_0001);
    assert_eq!(table.relocations[1].offset, 28 + 2 + 2);
    assert_eq!(table.relocations[1].address, 0xBB00_0002);
}

#[test]
fn specification_record_consumes_exactly_10_plus_4n_bytes() {
    // count = 3: payload is 10 + 12 = 22 bytes; the next record must start
    // right after, at 8 + 2 + 22 = 32.
    let mut payload = vec![0x00u8, 0x03]; // count
    payload.extend_from_slice(&[0x00, 0x00, 0x10, 0x00]); // pc_offset
    payload.extend_from_slice(&[0x00, 0x00, 0x20, 0x00]); // cinfo_ref
    payload.extend_from_slice(&[0, 0, 0, 1, 0, 0, 0, 2, 0, 0, 0, 3]); // 3 spec words
    let mut actions = record(15, 0, &payload);
    actions.extend_from_slice(&record(0, 0, &[]));
    let buf = table_with_actions(&actions);
    let table = decode_extab(&buf).unwrap();
    assert_eq!(table.exception_actions.len(), 2);
    assert_eq!(table.exception_actions[0].bytes.len(), 22);
    assert_eq!(table.exception_actions[1].action_offset, 32);
    match table.exception_actions[0].get_exaction_data() {
        ExActionData::Specification { specs, pc_offset, cinfo_ref, spec_values } => {
            assert_eq!(specs, 3);
            assert_eq!(pc_offset, 0x1000);
            assert_eq!(cinfo_ref, 0x2000);
            assert_eq!(spec_values, vec![1, 2, 3]);
        }
        other => panic!("wrong variant: {:?}", other),
    }
}

#[test]
fn truncated_specification_count_fails() {
    // A Specification record whose 16-bit count cannot be peeked.
    let buf = table_with_actions(&[15, 0, 0]);
    let err = decode_extab(&buf).unwrap_err();
    assert_eq!(err, ExtabDecodeError::TruncatedBuffer);
}

#[test]
fn cursor_peek_leaves_offset_unchanged() {
    let data = [0x12u8, 0x34, 0x56, 0x78];
    let mut off = 0usize;
    let peeked = extab::cursor::read_uint16(&data, &mut off, false).unwrap();
    assert_eq!(peeked, 0x1234);
    assert_eq!(off, 0);
    let read = extab::cursor::read_uint32(&data, &mut off, true).unwrap();
    assert_eq!(read, 0x1234_5678);
    assert_eq!(off, 4);
    let err = extab::cursor::read_byte(&data, &mut off, true).unwrap_err();
    assert_eq!(err, ExtabDecodeError::TruncatedBuffer);
    assert_eq!(off, 4);
}
