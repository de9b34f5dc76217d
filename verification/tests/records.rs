use extab::{decode_extab, ExAction, ExActionData, ExceptionAction, PCAction};

/// Decodes a table holding exactly one action record with the given type,
/// parameter and payload, and returns that record.
fn decode_one(tag: u8, param: u8, payload: &[u8]) -> ExceptionAction {
    let mut buf = vec![0u8, 0, 0, 0, 0, 0, 0, 0];
    buf.push(tag);
    buf.push(param);
    buf.extend_from_slice(payload);
    let table = decode_extab(&buf).unwrap();
    assert_eq!(table.exception_actions.len(), 1);
    let action = table.exception_actions[0].clone();
    assert_eq!(action.action_offset, 8);
    assert_eq!(action.action_param, param);
    assert_eq!(action.bytes.len(), payload.len());
    action
}

#[test]
fn tag_roundtrip_covers_all_seventeen_actions() {
    for tag in 0..=16i32 {
        let kind = ExAction::from_int(tag).unwrap();
        assert_eq!(kind.to_int(), tag);
    }
    assert!(ExAction::from_int(17).is_none());
    assert!(ExAction::from_int(-1).is_none());
    assert!(ExAction::from_int(0x7F).is_none());
}

#[test]
fn dtor_reference_marks_exactly_the_destroy_and_delete_kinds() {
    let with_dtor = [2u8, 3, 4, 5, 6, 7, 8, 9, 10, 11];
    for tag in 0..=16u8 {
        let mut a = ExceptionAction::new();
        a.action_type = ExAction::from_int(tag as i32).unwrap();
        assert_eq!(a.has_dtor_ref(), with_dtor.contains(&tag));
    }
}

#[test]
fn end_of_list_decodes_empty() {
    let a = decode_one(0, 0, &[]);
    assert!(matches!(a.get_exaction_data(), ExActionData::EndOfList));
    assert!(a.get_dtor_relocation().is_none());
}

#[test]
fn branch_decodes_target_offset() {
    let a = decode_one(1, 0, &[0x01, 0x40]);
    match a.get_exaction_data() {
        ExActionData::Branch { target_offset } => assert_eq!(target_offset, 0x140),
        other => panic!("wrong variant: {:?}", other),
    }
    assert!(a.get_dtor_relocation().is_none());
}

#[test]
fn destroy_local_decodes_fields() {
    let a = decode_one(2, 0, &[0x00, 0x10, 0xDE, 0xAD, 0xBE, 0xEF]);
    match a.get_exaction_data() {
        ExActionData::DestroyLocal { local_offset, dtor_address } => {
            assert_eq!(local_offset, 0x10);
            assert_eq!(dtor_address, 0xDEAD_BEEF);
        }
        other => panic!("wrong variant: {:?}", other),
    }
    assert_eq!(a.get_dtor_relocation(), Some((2, 0xDEAD_BEEF)));
}

#[test]
fn destroy_local_cond_decodes_fields() {
    let a = decode_one(3, 1, &[0x00, 0x05, 0x00, 0x20, 0x00, 0x07, 0x11, 0x22, 0x33, 0x44]);
    match a.get_exaction_data() {
        ExActionData::DestroyLocalCond { condition, local_offset, unk4, dtor_address } => {
            assert_eq!(condition, 5);
            assert_eq!(local_offset, 0x20);
            assert_eq!(unk4, 7);
            assert_eq!(dtor_address, 0x1122_3344);
        }
        other => panic!("wrong variant: {:?}", other),
    }
    assert_eq!(a.get_dtor_relocation(), Some((6, 0x1122_3344)));
}

#[test]
fn destroy_local_pointer_decodes_fields() {
    let a = decode_one(4, 0x80, &[0x00, 0x1C, 0x00, 0x00, 0x00, 0x99]);
    match a.get_exaction_data() {
        ExActionData::DestroyLocalPointer { local_pointer, dtor_address } => {
            assert_eq!(local_pointer, 0x1C);
            assert_eq!(dtor_address, 0x99);
        }
        other => panic!("wrong variant: {:?}", other),
    }
    assert_eq!(a.get_dtor_relocation(), Some((2, 0x99)));
}

#[test]
fn destroy_local_array_decodes_fields() {
    let a = decode_one(5, 0, &[0x00, 0x30, 0x00, 0x04, 0x00, 0x0C, 0x00, 0x00, 0x00, 0x01]);
    match a.get_exaction_data() {
        ExActionData::DestroyLocalArray { local_array, elements, element_size, dtor_address } => {
            assert_eq!(local_array, 0x30);
            assert_eq!(elements, 4);
            assert_eq!(element_size, 12);
            assert_eq!(dtor_address, 1);
        }
        other => panic!("wrong variant: {:?}", other),
    }
    assert_eq!(a.get_dtor_relocation(), Some((6, 1)));
}

#[test]
fn destroy_base_decodes_fields() {
    let a = decode_one(6, 0, &[0x00, 0x08, 0x00, 0x00, 0x00, 0x40, 0x00, 0x00, 0x11, 0x00]);
    match a.get_exaction_data() {
        ExActionData::DestroyBase { object_pointer, member_offset, dtor_address } => {
            assert_eq!(object_pointer, 8);
            assert_eq!(member_offset, 0x40);
            assert_eq!(dtor_address, 0x1100);
        }
        other => panic!("wrong variant: {:?}", other),
    }
    assert_eq!(a.get_dtor_relocation(), Some((6, 0x1100)));
}

#[test]
fn destroy_member_decodes_fields() {
    let a = decode_one(7, 0, &[0x00, 0x09, 0x00, 0x00, 0x00, 0x44, 0x00, 0x00, 0x12, 0x00]);
    match a.get_exaction_data() {
        ExActionData::DestroyMember { object_pointer, member_offset, dtor_address } => {
            assert_eq!(object_pointer, 9);
            assert_eq!(member_offset, 0x44);
            assert_eq!(dtor_address, 0x1200);
        }
        other => panic!("wrong variant: {:?}", other),
    }
    assert_eq!(a.get_dtor_relocation(), Some((6, 0x1200)));
}

#[test]
fn destroy_member_cond_decodes_fields() {
    let a = decode_one(
        8,
        0,
        &[0x00, 0x02, 0x00, 0x0A, 0x00, 0x00, 0x00, 0x48, 0x00, 0x03, 0x00, 0x00, 0x13, 0x00],
    );
    match a.get_exaction_data() {
        ExActionData::DestroyMemberCond {
            condition,
            object_pointer,
            member_offset,
            unk8,
            dtor_address,
        } => {
            assert_eq!(condition, 2);
            assert_eq!(object_pointer, 0x0A);
            assert_eq!(member_offset, 0x48);
            assert_eq!(unk8, 3);
            assert_eq!(dtor_address, 0x1300);
        }
        other => panic!("wrong variant: {:?}", other),
    }
    assert_eq!(a.get_dtor_relocation(), Some((10, 0x1300)));
}

#[test]
fn destroy_member_array_decodes_fields() {
    let a = decode_one(
        9,
        0,
        &[
            0x00, 0x0B, 0x00, 0x00, 0x00, 0x4C, 0x00, 0x00, 0x00, 0x06, 0x00, 0x00, 0x00, 0x10,
            0x00, 0x00, 0x14, 0x00,
        ],
    );
    match a.get_exaction_data() {
        ExActionData::DestroyMemberArray {
            object_pointer,
            member_offset,
            elements,
            element_size,
            dtor_address,
        } => {
            assert_eq!(object_pointer, 0x0B);
            assert_eq!(member_offset, 0x4C);
            assert_eq!(elements, 6);
            assert_eq!(element_size, 16);
            assert_eq!(dtor_address, 0x1400);
        }
        other => panic!("wrong variant: {:?}", other),
    }
    assert_eq!(a.get_dtor_relocation(), Some((14, 0x1400)));
}

#[test]
fn delete_pointer_decodes_fields() {
    let a = decode_one(10, 0, &[0x00, 0x0C, 0x00, 0x00, 0x15, 0x00]);
    match a.get_exaction_data() {
        ExActionData::DeletePointer { object_pointer, dtor_address } => {
            assert_eq!(object_pointer, 0x0C);
            assert_eq!(dtor_address, 0x1500);
        }
        other => panic!("wrong variant: {:?}", other),
    }
    assert_eq!(a.get_dtor_relocation(), Some((2, 0x1500)));
}

#[test]
fn delete_pointer_cond_decodes_fields() {
    let a = decode_one(11, 0, &[0x00, 0x04, 0x00, 0x0D, 0x00, 0x05, 0x00, 0x00, 0x16, 0x00]);
    match a.get_exaction_data() {
        ExActionData::DeletePointerCond { condition, object_pointer, unk4, dtor_address } => {
            assert_eq!(condition, 4);
            assert_eq!(object_pointer, 0x0D);
            assert_eq!(unk4, 5);
            assert_eq!(dtor_address, 0x1600);
        }
        other => panic!("wrong variant: {:?}", other),
    }
    assert_eq!(a.get_dtor_relocation(), Some((6, 0x1600)));
}

#[test]
fn catch_block_decodes_fields() {
    let a = decode_one(12, 0, &[0x00, 0x01, 0x00, 0x00, 0x17, 0x00, 0x00, 0x60, 0x00, 0x24]);
    match a.get_exaction_data() {
        ExActionData::CatchBlock { unk0, catch_type, catch_pc_offset, cinfo_ref } => {
            assert_eq!(unk0, 1);
            assert_eq!(catch_type, 0x1700);
            assert_eq!(catch_pc_offset, 0x60);
            assert_eq!(cinfo_ref, 0x24);
        }
        other => panic!("wrong variant: {:?}", other),
    }
    assert!(a.get_dtor_relocation().is_none());
}

#[test]
fn active_catch_block_decodes_fields() {
    let a = decode_one(13, 0, &[0x00, 0x28]);
    match a.get_exaction_data() {
        ExActionData::ActiveCatchBlock { cinfo_ref } => assert_eq!(cinfo_ref, 0x28),
        other => panic!("wrong variant: {:?}", other),
    }
    assert!(a.get_dtor_relocation().is_none());
}

#[test]
fn terminate_decodes_empty() {
    let a = decode_one(14, 0, &[]);
    assert!(matches!(a.get_exaction_data(), ExActionData::Terminate));
    assert!(a.get_dtor_relocation().is_none());
}

#[test]
fn specification_with_zero_count_decodes_empty_list() {
    let a = decode_one(
        15,
        0,
        &[0x00, 0x00, 0x00, 0x00, 0x00, 0x70, 0x00, 0x00, 0x00, 0x2C],
    );
    match a.get_exaction_data() {
        ExActionData::Specification { specs, pc_offset, cinfo_ref, spec_values } => {
            assert_eq!(specs, 0);
            assert_eq!(pc_offset, 0x70);
            assert_eq!(cinfo_ref, 0x2C);
            assert!(spec_values.is_empty());
        }
        other => panic!("wrong variant: {:?}", other),
    }
    assert!(a.get_dtor_relocation().is_none());
}

#[test]
fn catch_block_32_decodes_fields() {
    let a = decode_one(
        16,
        0,
        &[0x00, 0x02, 0x00, 0x00, 0x18, 0x00, 0x00, 0x00, 0x00, 0x64, 0x00, 0x00, 0x00, 0x30],
    );
    match a.get_exaction_data() {
        ExActionData::CatchBlock32 { unk0, catch_type, catch_pc_offset, cinfo_ref } => {
            assert_eq!(unk0, 2);
            assert_eq!(catch_type, 0x1800);
            assert_eq!(catch_pc_offset, 0x64);
            assert_eq!(cinfo_ref, 0x30);
        }
        other => panic!("wrong variant: {:?}", other),
    }
    assert!(a.get_dtor_relocation().is_none());
}

#[test]
fn new_records_are_empty_end_of_list() {
    let a = ExceptionAction::new();
    assert_eq!(a.action_offset, 0);
    assert_eq!(a.action_type, ExAction::EndOfList);
    assert_eq!(a.action_param, 0);
    assert!(!a.has_end_bit);
    assert!(a.bytes.is_empty());
    let d = ExceptionAction::default();
    assert_eq!(d.action_offset, 0);
    assert!(d.bytes.is_empty());
}

#[test]
fn new_pc_action_is_zeroed() {
    let p = PCAction::new();
    assert_eq!(p.start_pc, 0);
    assert_eq!(p.end_pc, 0);
    assert_eq!(p.action_offset, 0);
    assert_eq!(PCAction::default(), PCAction::new());
}
