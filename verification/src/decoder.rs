//! The decoder: turns a raw exception-table byte buffer into an
//! `ExceptionTableData`, or a `ExtabDecodeError` for malformed input.
//!
//! The meaning of a buffer is fixed by the spec functions `spec_pc_entries`,
//! `spec_action_records` and `spec_decode_extab`: they define, byte for byte,
//! which tables decode and to what. `decode_extab` is proved to return exactly
//! what `spec_decode_extab` says, for every input buffer.

use vstd::prelude::*;

use crate::action::{
    spec_action_from_tag, spec_dtor_offset, spec_fixed_payload_size, ExAction,
};
use crate::cursor::{be16, be32, read_byte, read_uint16, read_uint32};
use crate::error::ExtabDecodeError;
use crate::record::ExceptionAction;
use crate::table::{ExceptionTableData, PCAction, Relocation};

verus! {

/// Ghost mirror of one decoded action record: what the decoder stores in an
/// `ExceptionAction`, with the payload as a byte sequence.
pub ghost struct ActionModel {
    /// Absolute byte offset of the record in the input buffer.
    pub offset: int,
    pub kind: ExAction,
    pub param: u8,
    pub end_bit: bool,
    pub payload: Seq<u8>,
}

/// The ghost mirror of a decoded `ExceptionAction`.
pub open spec fn action_model_of(a: ExceptionAction) -> ActionModel {
    ActionModel {
        offset: a.action_offset as int,
        kind: a.action_type,
        param: a.action_param,
        end_bit: a.has_end_bit,
        payload: a.bytes@,
    }
}

/// Ghost mirror of a whole decoded table.
pub ghost struct TableModel {
    pub flag_val: u16,
    pub et_field: u16,
    pub pcs: Seq<PCAction>,
    pub actions: Seq<ActionModel>,
    pub relocs: Seq<Relocation>,
}

/// The PC-range entry whose 8 bytes sit at offset `off`: a start PC, an
/// encoded range in 4-byte units (the end PC wraps modulo 2^32 if the sum
/// overflows), and an action offset widened to 32 bits.
pub open spec fn spec_pc_entry(data: Seq<u8>, off: int) -> PCAction {
    PCAction {
        start_pc: be32(data, off),
        end_pc: be32(data, off).wrapping_add((4 * (be16(data, off + 4) as int)) as u32),
        action_offset: be16(data, off + 6) as u32,
    }
}

/// The PC-range list starting at offset `off`: entries until a 32-bit zero
/// terminator, which is consumed but yields no entry. Returns the entries and
/// the offset just past the terminator, or `TruncatedBuffer` where the next
/// peek or entry would run past the end of the buffer.
pub open spec fn spec_pc_entries(data: Seq<u8>, off: int) -> Result<
    (Seq<PCAction>, int),
    ExtabDecodeError,
>
    decreases data.len() - off,
{
    if off + 4 > data.len() {
        Err(ExtabDecodeError::TruncatedBuffer)
    } else if be32(data, off) == 0 {
        Ok((Seq::empty(), off + 4))
    } else if off + 8 > data.len() {
        Err(ExtabDecodeError::TruncatedBuffer)
    } else {
        match spec_pc_entries(data, off + 8) {
            Ok((rest, end)) => Ok((seq![spec_pc_entry(data, off)] + rest, end)),
            Err(e) => Err(e),
        }
    }
}

/// The relocation emitted for a destructor-bearing record: the absolute buffer
/// offset of the record's 4-byte destructor-address field (2-byte header plus
/// the field's offset within the payload) and the raw value stored there.
pub open spec fn spec_reloc_of(m: ActionModel, d: u32) -> Relocation {
    Relocation { offset: (m.offset + 2 + d) as u32, address: be32(m.payload, d as int) }
}

/// The relocations one record contributes: exactly one for a
/// destructor-bearing record, none otherwise.
pub open spec fn spec_relocs_of(m: ActionModel) -> Seq<Relocation> {
    match spec_dtor_offset(m.kind) {
        Some(d) => seq![spec_reloc_of(m, d)],
        None => Seq::empty(),
    }
}

/// The action records from offset `off` to the end of the buffer, with the
/// relocations they contribute, in record order. Each record is two header
/// bytes (tag plus end bit, then the parameter byte) followed by the payload
/// the tag dictates; a `Specification` record's payload size additionally
/// depends on its leading 16-bit spec count. Fails with `InvalidActionValue`
/// at the first unknown tag, and with `TruncatedBuffer` where a record would
/// run past the end of the buffer.
pub open spec fn spec_action_records(data: Seq<u8>, off: int) -> Result<
    (Seq<ActionModel>, Seq<Relocation>),
    ExtabDecodeError,
>
    decreases data.len() - off,
{
    if off >= data.len() {
        Ok((Seq::empty(), Seq::empty()))
    } else {
        let tag = (data[off] & 0x7f) as int;
        match spec_action_from_tag(tag) {
            None => Err(ExtabDecodeError::InvalidActionValue(tag as u32, off as u32)),
            Some(kind) => {
                if off + 2 > data.len() {
                    Err(ExtabDecodeError::TruncatedBuffer)
                } else if kind == ExAction::Specification && off + 4 > data.len() {
                    Err(ExtabDecodeError::TruncatedBuffer)
                } else {
                    let size = if kind == ExAction::Specification {
                        10 + 4 * (be16(data, off + 2) as int)
                    } else {
                        spec_fixed_payload_size(kind)
                    };
                    if off + 2 + size > data.len() {
                        Err(ExtabDecodeError::TruncatedBuffer)
                    } else {
                        let m = ActionModel {
                            offset: off,
                            kind,
                            param: data[off + 1],
                            end_bit: (data[off] & 0x80) != 0,
                            payload: data.subrange(off + 2, off + 2 + size),
                        };
                        match spec_action_records(data, off + 2 + size) {
                            Ok((ms, rs)) => Ok(
                                (seq![m] + ms, spec_relocs_of(m) + rs),
                            ),
                            Err(e) => Err(e),
                        }
                    }
                }
            },
        }
    }
}

/// What decoding a buffer yields. The buffer must hold at least the 8-byte
/// header (flags word, then the opaque second word); an exactly-8-byte buffer
/// must close with a zero terminator; then come the PC-range list and, from
/// the end of its terminator to the end of the buffer, the action records.
pub open spec fn spec_decode_extab(data: Seq<u8>) -> Result<TableModel, ExtabDecodeError> {
    if data.len() < 8 {
        Err(ExtabDecodeError::ArrayTooSmall(data.len() as u32))
    } else if data.len() == 8 && be32(data, 4) != 0 {
        Err(ExtabDecodeError::InvalidSmallTableTerminator)
    } else {
        match spec_pc_entries(data, 4) {
            Err(e) => Err(e),
            Ok((pcs, apos)) => match spec_action_records(data, apos) {
                Err(e) => Err(e),
                Ok((ms, rs)) => Ok(
                    TableModel {
                        flag_val: be16(data, 0),
                        et_field: be16(data, 2),
                        pcs,
                        actions: ms,
                        relocs: rs,
                    },
                ),
            },
        }
    }
}

/// How a returned `ExceptionTableData` realises a table model: same header
/// words with the flag fields expanded bit-for-bit, and the model's PC
/// entries, action records and relocations in order, every action record
/// well-formed.
pub open spec fn table_matches(t: ExceptionTableData, m: TableModel) -> bool {
    &&& t.flag_val == m.flag_val
    &&& t.flags_wf()
    &&& t.et_field == m.et_field
    &&& t.pc_actions@ == m.pcs
    &&& t.exception_actions@.map_values(|a: ExceptionAction| action_model_of(a)) == m.actions
    &&& t.relocations@ == m.relocs
    &&& forall|i: int| 0 <= i < t.exception_actions@.len() ==> (#[trigger] t.exception_actions@[i]).wf()
}

/// The sequence of relocations an optional relocation stands for.
pub open spec fn opt_reloc_seq(r: Option<Relocation>) -> Seq<Relocation> {
    match r {
        Some(x) => seq![x],
        None => Seq::empty(),
    }
}

/// Law: any buffer shorter than the 8-byte header fails to decode, with
/// `ArrayTooSmall` carrying the buffer's exact length.
pub proof fn lemma_short_buffer_rejected(data: Seq<u8>)
    requires
        data.len() < 8,
    ensures
        spec_decode_extab(data) == Err::<TableModel, _>(
            ExtabDecodeError::ArrayTooSmall(data.len() as u32),
        ),
{
}

/// Law: an unknown action tag (any value above 16 in the low 7 bits of a
/// record's first byte) at any record boundary fails with
/// `InvalidActionValue` carrying that tag and the record's offset; no record
/// at or past that boundary is decoded.
pub proof fn lemma_unknown_tag_rejected(data: Seq<u8>, off: int)
    requires
        0 <= off < data.len(),
        (data[off] & 0x7f) > 16,
    ensures
        spec_action_records(data, off) == Err::<(Seq<ActionModel>, Seq<Relocation>), _>(
            ExtabDecodeError::InvalidActionValue((data[off] & 0x7f) as u32, off as u32),
        ),
{
}

/// Law: a destructor-bearing record's relocation points at the absolute
/// offset of its destructor-address field: the record's offset, plus the
/// 2-byte header, plus the field's offset within the payload. For a
/// `DestroyLocal` record at offset X that is X + 4.
pub proof fn lemma_destroy_local_reloc_offset(m: ActionModel)
    requires
        m.kind == ExAction::DestroyLocal,
        0 <= m.offset,
        m.offset + 4 <= u32::MAX,
    ensures
        spec_relocs_of(m) == seq![spec_reloc_of(m, 2)],
        spec_reloc_of(m, 2).offset == m.offset + 4,
{
}

/// The relocations a sequence of records contributes, record by record in
/// order.
pub open spec fn spec_relocs_of_models(ms: Seq<ActionModel>) -> Seq<Relocation>
    decreases ms.len(),
{
    if ms.len() == 0 {
        Seq::empty()
    } else {
        spec_relocs_of(ms.first()) + spec_relocs_of_models(ms.drop_first())
    }
}

/// Law: decoding emits exactly one relocation per destructor-bearing record,
/// none for any other record, in record order.
pub proof fn lemma_one_relocation_per_dtor_record(data: Seq<u8>, off: int)
    requires
        spec_action_records(data, off) matches Ok(_),
    ensures
        spec_action_records(data, off) matches Ok((ms, rs)) && rs == spec_relocs_of_models(ms),
    decreases data.len() - off,
{
    if off >= data.len() {
        assert(spec_relocs_of_models(Seq::<ActionModel>::empty()) =~= Seq::<Relocation>::empty());
    } else {
        let (ms, rs) = spec_action_records(data, off)->Ok_0;
        let tag = (data[off] & 0x7f) as int;
        match spec_action_from_tag(tag) {
            None => {},
            Some(kind) => {
                let size = if kind == ExAction::Specification {
                    10 + 4 * (be16(data, off + 2) as int)
                } else {
                    spec_fixed_payload_size(kind)
                };
                lemma_one_relocation_per_dtor_record(data, off + 2 + size);
                let (tail_ms, tail_rs) = spec_action_records(data, off + 2 + size)->Ok_0;
                let m = ms.first();
                assert(ms.drop_first() =~= tail_ms);
                assert(spec_relocs_of_models(ms) == spec_relocs_of(m) + spec_relocs_of_models(
                    tail_ms,
                ));
            },
        }
    }
}

/// Decodes one action record starting at `off`: expands its header byte,
/// checks the tag, sizes and copies its payload, and extracts its relocation
/// if the record is destructor-bearing. Returns the record, its optional
/// relocation, and the offset of the next record.
fn parse_action_entry(data: &[u8], off: usize) -> (r: Result<
    (ExceptionAction, Option<Relocation>, usize),
    ExtabDecodeError,
>)
    requires
        off < data@.len(),
        data@.len() <= 0xFFFF_FFFF,
    ensures
        match r {
            Ok((a, rel, newoff)) => {
                &&& off < newoff <= data@.len()
                &&& a.wf()
                &&& opt_reloc_seq(rel) == spec_relocs_of(action_model_of(a))
                &&& spec_action_records(data@, off as int) == (match spec_action_records(
                    data@,
                    newoff as int,
                ) {
                    Ok((ms, rs)) => Ok::<_, ExtabDecodeError>(
                        (
                            seq![action_model_of(a)] + ms,
                            spec_relocs_of(action_model_of(a)) + rs,
                        ),
                    ),
                    Err(e) => Err(e),
                })
            },
            Err(e) => spec_action_records(data@, off as int) == Err::<
                (Seq<ActionModel>, Seq<Relocation>),
                _,
            >(e),
        },
{
    let mut cur: usize = off;
    let action_type_byte = match read_byte(data, &mut cur, true) {
        Ok(v) => v,
        Err(e) => {
            return Err(e);
        },
    };
    let has_end_bit = (action_type_byte & 0x80) != 0;
    let action_type_value: u32 = (action_type_byte & 0x7f) as u32;
    let action_type = match ExAction::from_int(action_type_value as i32) {
        Some(action) => action,
        None => {
            return Err(ExtabDecodeError::InvalidActionValue(action_type_value, off as u32));
        },
    };
    let action_param = match read_byte(data, &mut cur, true) {
        Ok(v) => v,
        Err(e) => {
            return Err(e);
        },
    };
    // Payload size from the per-type table; a Specification record peeks its
    // 16-bit spec count without advancing.
    let size: usize = match action_type {
        ExAction::EndOfList => 0,
        ExAction::Branch => 2,
        ExAction::DestroyLocal => 6,
        ExAction::DestroyLocalCond => 10,
        ExAction::DestroyLocalPointer => 6,
        ExAction::DestroyLocalArray => 10,
        ExAction::DestroyBase | ExAction::DestroyMember => 10,
        ExAction::DestroyMemberCond => 14,
        ExAction::DestroyMemberArray => 18,
        ExAction::DeletePointer => 6,
        ExAction::DeletePointerCond => 10,
        ExAction::CatchBlock => 10,
        ExAction::ActiveCatchBlock => 2,
        ExAction::Terminate => 0,
        ExAction::Specification => {
            let length = match read_uint16(data, &mut cur, false) {
                Ok(v) => v,
                Err(e) => {
                    return Err(e);
                },
            };
            10 + 4 * (length as usize)
        },
        ExAction::CatchBlock32 => 14,
    };
    if data.len() - cur < size {
        return Err(ExtabDecodeError::TruncatedBuffer);
    }
    let payload = vstd::slice::slice_subrange(data, cur, cur + size);
    let bytes = vstd::slice::slice_to_vec(payload);
    let exaction = ExceptionAction {
        action_offset: off as u32,
        action_type,
        action_param,
        has_end_bit,
        bytes,
    };
    let newoff = cur + size;
    proof {
        assert(exaction.bytes@ == data@.subrange(off + 2, off + 2 + size));
        if action_type == ExAction::Specification {
            assert(exaction.bytes@[0] == data@[off + 2]);
            assert(exaction.bytes@[1] == data@[off + 3]);
            assert(be16(exaction.bytes@, 0) == be16(data@, off + 2));
        }
        assert(exaction.wf());
    }
    // A destructor-bearing record yields the relocation of its 4-byte
    // destructor-address field.
    let rel: Option<Relocation>;
    if exaction.has_dtor_ref() {
        let (o, addr) = match exaction.get_dtor_relocation() {
            Some(val) => val,
            None => {
                return Err(ExtabDecodeError::Internal);
            },
        };
        let reloc_offset: u32 = (cur as u32) + o;
        rel = Some(Relocation { offset: reloc_offset, address: addr });
    } else {
        rel = None;
    }
    proof {
        let m = action_model_of(exaction);
        crate::action::lemma_dtor_offset_in_payload(action_type);
        assert(opt_reloc_seq(rel) == spec_relocs_of(m));
        match spec_action_records(data@, newoff as int) {
            Ok((ms, rs)) => {
                assert(spec_action_records(data@, off as int) == Ok::<_, ExtabDecodeError>(
                    (seq![m] + ms, spec_relocs_of(m) + rs),
                ));
            },
            Err(e) => {
                assert(spec_action_records(data@, off as int) == Err::<
                    (Seq<ActionModel>, Seq<Relocation>),
                    _,
                >(e));
            },
        }
    }
    Ok((exaction, rel, newoff))
}

/// Decodes the provided exception table data.
///
/// Returns the decoded table exactly as `spec_decode_extab` describes it, or
/// the error that spec function assigns to the input.
pub fn decode_extab(data: &[u8]) -> (r: Result<ExceptionTableData, ExtabDecodeError>)
    requires
        data@.len() <= 0xFFFF_FFFF,
    ensures
        match spec_decode_extab(data@) {
            Ok(m) => r matches Ok(t) && table_matches(t, m),
            Err(e) => r matches Err(e2) && e2 == e,
        },
{
    let length = data.len();
    let mut offset: usize = 0;
    let mut extab_data = ExceptionTableData::new();

    // The array must at least hold the 8-byte header.
    if length < 8 {
        return Err(ExtabDecodeError::ArrayTooSmall(length as u32));
    }

    // Parse the header: the flags word, then the opaque second word.
    extab_data.flag_val = match read_uint16(data, &mut offset, true) {
        Ok(v) => v,
        Err(e) => {
            return Err(e);
        },
    };
    extab_data.calculate_flag_values();
    extab_data.et_field = match read_uint16(data, &mut offset, true) {
        Ok(v) => v,
        Err(e) => {
            return Err(e);
        },
    };

    // An 8-byte table has room only for header plus terminator: the 4 bytes
    // after the header are peeked and must be zero.
    let terminator = match read_uint32(data, &mut offset, false) {
        Ok(v) => v,
        Err(e) => {
            return Err(e);
        },
    };
    if length == 8 && terminator != 0 {
        return Err(ExtabDecodeError::InvalidSmallTableTerminator);
    }

    // Parse range entries until the terminator (a 32-bit zero), which is
    // peeked during the loop condition and consumed only afterwards.
    loop
        invariant
            4 <= offset <= length,
            length == data@.len(),
            8 <= data@.len() <= 0xFFFF_FFFF,
            !(data@.len() == 8 && be32(data@, 4) != 0),
            extab_data.flag_val == be16(data@, 0),
            extab_data.flags_wf(),
            extab_data.et_field == be16(data@, 2),
            extab_data.exception_actions@ == Seq::<ExceptionAction>::empty(),
            extab_data.relocations@ == Seq::<Relocation>::empty(),
            spec_pc_entries(data@, 4) == (match spec_pc_entries(data@, offset as int) {
                Ok((rest, end)) => Ok::<_, ExtabDecodeError>(
                    (extab_data.pc_actions@ + rest, end),
                ),
                Err(e) => Err(e),
            }),
        ensures
            offset + 4 <= length,
            spec_pc_entries(data@, 4) == Ok::<_, ExtabDecodeError>(
                (extab_data.pc_actions@, offset + 4),
            ),
        decreases data@.len() - offset,
    {
        let ghost off0 = offset as int;
        let peek = match read_uint32(data, &mut offset, false) {
            Ok(v) => v,
            Err(e) => {
                proof {
                    assert(spec_pc_entries(data@, off0) == Err::<
                        (Seq<PCAction>, int),
                        _,
                    >(ExtabDecodeError::TruncatedBuffer));
                }
                return Err(e);
            },
        };
        if peek == 0 {
            break;
        }
        let mut pcaction = PCAction::new();
        pcaction.start_pc = match read_uint32(data, &mut offset, true) {
            Ok(v) => v,
            Err(e) => {
                return Err(e);
            },
        };
        let units = match read_uint16(data, &mut offset, true) {
            Ok(v) => v,
            Err(e) => {
                proof {
                    assert(spec_pc_entries(data@, off0) == Err::<
                        (Seq<PCAction>, int),
                        _,
                    >(ExtabDecodeError::TruncatedBuffer));
                }
                return Err(e);
            },
        };
        // The range size is encoded as size >> 2.
        let range_size: u32 = (units as u32) * 4;
        pcaction.end_pc = pcaction.start_pc.wrapping_add(range_size);
        pcaction.action_offset = match read_uint16(data, &mut offset, true) {
            Ok(v) => v,
            Err(e) => {
                proof {
                    assert(spec_pc_entries(data@, off0) == Err::<
                        (Seq<PCAction>, int),
                        _,
                    >(ExtabDecodeError::TruncatedBuffer));
                }
                return Err(e);
            },
        } as u32;
        proof {
            assert(pcaction == spec_pc_entry(data@, off0));
        }
        let ghost acc = extab_data.pc_actions@;
        extab_data.pc_actions.push(pcaction);
        proof {
            let e0 = spec_pc_entry(data@, off0);
            assert(extab_data.pc_actions@ == acc.push(e0));
            assert(offset == off0 + 8);
            assert(spec_pc_entries(data@, off0) == (match spec_pc_entries(data@, off0 + 8) {
                Ok((rest, end)) => Ok::<_, ExtabDecodeError>((seq![e0] + rest, end)),
                Err(e) => Err(e),
            }));
            match spec_pc_entries(data@, off0 + 8) {
                Ok((rest, end)) => {
                    assert(acc + (seq![e0] + rest) =~= acc.push(e0) + rest);
                },
                Err(e) => {},
            }
        }
    }

    // Skip the terminator.
    offset = offset + 4;
    let ghost action_base = offset as int;

    // If there are still bytes remaining, there are action entries to process.
    while offset < length
        invariant
            offset <= length,
            length == data@.len(),
            8 <= data@.len() <= 0xFFFF_FFFF,
            !(data@.len() == 8 && be32(data@, 4) != 0),
            8 <= action_base <= offset,
            extab_data.flag_val == be16(data@, 0),
            extab_data.flags_wf(),
            extab_data.et_field == be16(data@, 2),
            spec_pc_entries(data@, 4) == Ok::<_, ExtabDecodeError>(
                (extab_data.pc_actions@, action_base),
            ),
            forall|i: int|
                0 <= i < extab_data.exception_actions@.len() ==> (
                #[trigger] extab_data.exception_actions@[i]).wf(),
            spec_action_records(data@, action_base) == (match spec_action_records(
                data@,
                offset as int,
            ) {
                Ok((ms, rs)) => Ok::<_, ExtabDecodeError>(
                    (
                        extab_data.exception_actions@.map_values(
                            |a: ExceptionAction| action_model_of(a),
                        ) + ms,
                        extab_data.relocations@ + rs,
                    ),
                ),
                Err(e) => Err(e),
            }),
        decreases data@.len() - offset,
    {
        let ghost old_models = extab_data.exception_actions@.map_values(
            |a: ExceptionAction| action_model_of(a),
        );
        let ghost old_relocs = extab_data.relocations@;
        let (exaction, rel, newoff) = match parse_action_entry(data, offset) {
            Ok(v) => v,
            Err(e) => {
                return Err(e);
            },
        };
        if let Some(rl) = rel {
            extab_data.relocations.push(rl);
        }
        extab_data.exception_actions.push(exaction);
        proof {
            let m = action_model_of(exaction);
            assert(extab_data.exception_actions@.map_values(
                |a: ExceptionAction| action_model_of(a),
            ) =~= old_models.push(m));
            assert(extab_data.relocations@ =~= old_relocs + spec_relocs_of(m));
            match spec_action_records(data@, newoff as int) {
                Ok((ms, rs)) => {
                    assert(old_models + (seq![m] + ms) =~= old_models.push(m) + ms);
                    assert(old_relocs + (spec_relocs_of(m) + rs) =~= (old_relocs
                        + spec_relocs_of(m)) + rs);
                },
                Err(e) => {},
            }
        }
        offset = newoff;
    }

    proof {
        assert(spec_action_records(data@, offset as int) == Ok::<_, ExtabDecodeError>(
            (Seq::<ActionModel>::empty(), Seq::<Relocation>::empty()),
        ));
        let models = extab_data.exception_actions@.map_values(
            |a: ExceptionAction| action_model_of(a),
        );
        assert(models + Seq::<ActionModel>::empty() =~= models);
        assert(extab_data.relocations@ + Seq::<Relocation>::empty() =~= extab_data.relocations@);
    }
    Ok(extab_data)
}

} // verus!
