//! One decoded action record: its 2-byte type/param header expanded, plus the
//! type-specific payload kept as raw bytes and re-parsed on demand into a
//! tagged `ExActionData` value.

use vstd::prelude::*;

use crate::action::{
    spec_dtor_offset, spec_fixed_payload_size, spec_has_dtor_ref, ExAction,
};
use crate::cursor::{be16, be32};

verus! {

/// Enum holding the data for each action type, decoded from a record's
/// payload bytes. Field widths and order follow the fixed per-type layout; all
/// multi-byte fields are big-endian.
#[derive(Debug, Clone)]
pub enum ExActionData {
    EndOfList,
    Branch { target_offset: u16 },
    DestroyLocal { local_offset: u16, dtor_address: u32 },
    DestroyLocalCond { condition: u16, local_offset: u16, unk4: u16, dtor_address: u32 },
    DestroyLocalPointer { local_pointer: u16, dtor_address: u32 },
    DestroyLocalArray { local_array: u16, elements: u16, element_size: u16, dtor_address: u32 },
    DestroyBase { object_pointer: u16, member_offset: u32, dtor_address: u32 },
    DestroyMember { object_pointer: u16, member_offset: u32, dtor_address: u32 },
    DestroyMemberCond {
        condition: u16,
        object_pointer: u16,
        member_offset: u32,
        unk8: u16,
        dtor_address: u32,
    },
    DestroyMemberArray {
        object_pointer: u16,
        member_offset: u32,
        elements: u32,
        element_size: u32,
        dtor_address: u32,
    },
    DeletePointer { object_pointer: u16, dtor_address: u32 },
    DeletePointerCond { condition: u16, object_pointer: u16, unk4: u16, dtor_address: u32 },
    CatchBlock { unk0: u16, catch_type: u32, catch_pc_offset: u16, cinfo_ref: u16 },
    ActiveCatchBlock { cinfo_ref: u16 },
    Terminate,
    Specification { specs: u16, pc_offset: u32, cinfo_ref: u32, spec_values: Vec<u32> },
    CatchBlock32 { unk0: u16, catch_type: u32, catch_pc_offset: u32, cinfo_ref: u32 },
}

/// Struct for exception actions: one action record of the table.
#[derive(Debug, Clone)]
pub struct ExceptionAction {
    /// Absolute byte offset of this record in the input buffer.
    pub action_offset: u32,
    /// The record's action type, from the low 7 bits of its first byte.
    pub action_type: ExAction,
    /// The record's parameter byte; its meaning depends on the action type.
    pub action_param: u8,
    /// True if the record's first byte has its top bit set: marks the last
    /// record reachable via fallthrough from the one before it.
    pub has_end_bit: bool,
    /// The type-specific payload bytes following the 2-byte header.
    pub bytes: Vec<u8>,
}

impl ExceptionAction {
    /// The payload has exactly the length the action type's layout dictates:
    /// the fixed per-type size, plus `4 * count` for a `Specification` record,
    /// whose 16-bit spec count opens its payload.
    pub open spec fn wf(self) -> bool {
        if self.action_type == ExAction::Specification {
            self.bytes@.len() >= 10 && self.bytes@.len() == 10 + 4 * (be16(self.bytes@, 0) as int)
        } else {
            self.bytes@.len() == spec_fixed_payload_size(self.action_type)
        }
    }

    pub fn new() -> (r: Self)
        ensures
            r.action_offset == 0,
            r.action_type == ExAction::EndOfList,
            r.action_param == 0,
            !r.has_end_bit,
            r.bytes@ == Seq::<u8>::empty(),
            r.wf(),
    {
        Self {
            action_offset: 0,
            action_type: ExAction::EndOfList,
            action_param: 0,
            has_end_bit: false,
            bytes: Vec::new(),
        }
    }

    /// Returns whether this action has a destructor reference or not.
    pub fn has_dtor_ref(&self) -> (r: bool)
        ensures
            r == spec_has_dtor_ref(self.action_type),
    {
        match self.action_type {
            ExAction::EndOfList
            | ExAction::Branch
            | ExAction::CatchBlock
            | ExAction::ActiveCatchBlock
            | ExAction::Terminate
            | ExAction::Specification
            | ExAction::CatchBlock32 => false,
            _ => true,
        }
    }

    /// Calculates the offset of the destructor function address value in this
    /// action entry's payload. If the entry does not have one, returns `None`.
    fn get_dtor_address_value_offset(&self) -> (r: Option<u32>)
        ensures
            r == spec_dtor_offset(self.action_type),
    {
        let offset: u32 = match self.action_type {
            ExAction::DestroyLocal => 2,
            ExAction::DestroyLocalCond => 6,
            ExAction::DestroyLocalPointer => 2,
            ExAction::DestroyLocalArray => 6,
            ExAction::DestroyBase | ExAction::DestroyMember => 6,
            ExAction::DestroyMemberCond => 10,
            ExAction::DestroyMemberArray => 14,
            ExAction::DeletePointer => 2,
            ExAction::DeletePointerCond => 6,
            _ => {
                return None;
            },
        };
        Some(offset)
    }

    /// Returns the relocation data for the destructor function referenced by
    /// this action entry, if any: the field's byte offset within the payload
    /// and the 4-byte big-endian value stored there.
    pub fn get_dtor_relocation(&self) -> (r: Option<(u32, u32)>)
        requires
            self.wf(),
        ensures
            match spec_dtor_offset(self.action_type) {
                Some(d) => r matches Some(t) && t.0 == d && t.1 == be32(self.bytes@, d as int),
                None => r is None,
            },
    {
        if !self.has_dtor_ref() {
            return None;
        }
        let offset: u32 = match self.get_dtor_address_value_offset() {
            Some(val) => val,
            None => {
                return None;
            },
        };
        proof {
            crate::action::lemma_dtor_offset_in_payload(self.action_type);
        }
        let address: u32 = get_u32(self.bytes.as_slice(), offset as usize);
        Some((offset, address))
    }

    /// Decodes the action data from the payload bytes depending on the set
    /// action type, and converts it to an `ExActionData` enum containing the
    /// decoded data.
    pub fn get_exaction_data(&self) -> (r: ExActionData)
        requires
            self.wf(),
        ensures
            exaction_data_matches(*self, r),
    {
        let b: &[u8] = self.bytes.as_slice();
        match self.action_type {
            ExAction::EndOfList => ExActionData::EndOfList,
            ExAction::Branch => {
                let target_offset = get_u16(b, 0);
                ExActionData::Branch { target_offset }
            },
            ExAction::DestroyLocal => {
                let local_offset = get_u16(b, 0);
                let dtor_address = get_u32(b, 2);
                ExActionData::DestroyLocal { local_offset, dtor_address }
            },
            ExAction::DestroyLocalCond => {
                let condition = get_u16(b, 0);
                let local_offset = get_u16(b, 2);
                let unk4 = get_u16(b, 4);
                let dtor_address = get_u32(b, 6);
                ExActionData::DestroyLocalCond { condition, local_offset, unk4, dtor_address }
            },
            ExAction::DestroyLocalPointer => {
                let local_pointer = get_u16(b, 0);
                let dtor_address = get_u32(b, 2);
                ExActionData::DestroyLocalPointer { local_pointer, dtor_address }
            },
            ExAction::DestroyLocalArray => {
                let local_array = get_u16(b, 0);
                let elements = get_u16(b, 2);
                let element_size = get_u16(b, 4);
                let dtor_address = get_u32(b, 6);
                ExActionData::DestroyLocalArray {
                    local_array,
                    elements,
                    element_size,
                    dtor_address,
                }
            },
            ExAction::DestroyBase => {
                let object_pointer = get_u16(b, 0);
                let member_offset = get_u32(b, 2);
                let dtor_address = get_u32(b, 6);
                ExActionData::DestroyBase { object_pointer, member_offset, dtor_address }
            },
            ExAction::DestroyMember => {
                let object_pointer = get_u16(b, 0);
                let member_offset = get_u32(b, 2);
                let dtor_address = get_u32(b, 6);
                ExActionData::DestroyMember { object_pointer, member_offset, dtor_address }
            },
            ExAction::DestroyMemberCond => {
                let condition = get_u16(b, 0);
                let object_pointer = get_u16(b, 2);
                let member_offset = get_u32(b, 4);
                let unk8 = get_u16(b, 8);
                let dtor_address = get_u32(b, 10);
                ExActionData::DestroyMemberCond {
                    condition,
                    object_pointer,
                    member_offset,
                    unk8,
                    dtor_address,
                }
            },
            ExAction::DestroyMemberArray => {
                let object_pointer = get_u16(b, 0);
                let member_offset = get_u32(b, 2);
                let elements = get_u32(b, 6);
                let element_size = get_u32(b, 10);
                let dtor_address = get_u32(b, 14);
                ExActionData::DestroyMemberArray {
                    object_pointer,
                    member_offset,
                    elements,
                    element_size,
                    dtor_address,
                }
            },
            ExAction::DeletePointer => {
                let object_pointer = get_u16(b, 0);
                let dtor_address = get_u32(b, 2);
                ExActionData::DeletePointer { object_pointer, dtor_address }
            },
            ExAction::DeletePointerCond => {
                let condition = get_u16(b, 0);
                let object_pointer = get_u16(b, 2);
                let unk4 = get_u16(b, 4);
                let dtor_address = get_u32(b, 6);
                ExActionData::DeletePointerCond { condition, object_pointer, unk4, dtor_address }
            },
            ExAction::CatchBlock => {
                let unk0 = get_u16(b, 0);
                let catch_type = get_u32(b, 2);
                let catch_pc_offset = get_u16(b, 6);
                let cinfo_ref = get_u16(b, 8);
                ExActionData::CatchBlock { unk0, catch_type, catch_pc_offset, cinfo_ref }
            },
            ExAction::ActiveCatchBlock => {
                let cinfo_ref = get_u16(b, 0);
                ExActionData::ActiveCatchBlock { cinfo_ref }
            },
            ExAction::Terminate => ExActionData::Terminate,
            ExAction::Specification => {
                let specs = get_u16(b, 0);
                let pc_offset = get_u32(b, 2);
                let cinfo_ref = get_u32(b, 6);
                // Read the specified number of 32-bit values into the list.
                let mut spec_values: Vec<u32> = Vec::new();
                let mut i: usize = 0;
                while i < specs as usize
                    invariant
                        self.wf(),
                        self.action_type == ExAction::Specification,
                        b@ == self.bytes@,
                        specs == be16(b@, 0),
                        i <= specs as usize,
                        spec_values@.len() == i,
                        forall|j: int| 0 <= j < i ==> spec_values@[j] == be32(b@, 10 + 4 * j),
                    decreases specs as int - i,
                {
                    let v = get_u32(b, 10 + 4 * i);
                    spec_values.push(v);
                    i = i + 1;
                }
                proof {
                    assert(spec_values@ =~= Seq::new(
                        be16(self.bytes@, 0) as nat,
                        |j: int| be32(self.bytes@, 10 + 4 * j),
                    ));
                }
                ExActionData::Specification { specs, pc_offset, cinfo_ref, spec_values }
            },
            ExAction::CatchBlock32 => {
                let unk0 = get_u16(b, 0);
                let catch_type = get_u32(b, 2);
                let catch_pc_offset = get_u32(b, 6);
                let cinfo_ref = get_u32(b, 10);
                ExActionData::CatchBlock32 { unk0, catch_type, catch_pc_offset, cinfo_ref }
            },
        }
    }
}

impl Default for ExceptionAction {
    fn default() -> (r: Self)
        ensures
            r.action_offset == 0,
            r.action_type == ExAction::EndOfList,
            r.action_param == 0,
            !r.has_end_bit,
            r.bytes@ == Seq::<u8>::empty(),
            r.wf(),
    {
        Self::new()
    }
}

/// What `get_exaction_data` returns for a record `a`: the `ExActionData`
/// variant matching `a`'s action type, each field holding the big-endian value
/// at its fixed offset in the payload. A `Specification` record additionally
/// carries `count` 32-bit values starting at payload offset 10.
pub open spec fn exaction_data_matches(a: ExceptionAction, r: ExActionData) -> bool {
    let p = a.bytes@;
    match a.action_type {
        ExAction::EndOfList => r matches ExActionData::EndOfList,
        ExAction::Branch => r matches ExActionData::Branch { target_offset } && target_offset
            == be16(p, 0),
        ExAction::DestroyLocal => r matches ExActionData::DestroyLocal {
            local_offset,
            dtor_address,
        } && local_offset == be16(p, 0) && dtor_address == be32(p, 2),
        ExAction::DestroyLocalCond => r matches ExActionData::DestroyLocalCond {
            condition,
            local_offset,
            unk4,
            dtor_address,
        } && condition == be16(p, 0) && local_offset == be16(p, 2) && unk4 == be16(p, 4)
            && dtor_address == be32(p, 6),
        ExAction::DestroyLocalPointer => r matches ExActionData::DestroyLocalPointer {
            local_pointer,
            dtor_address,
        } && local_pointer == be16(p, 0) && dtor_address == be32(p, 2),
        ExAction::DestroyLocalArray => r matches ExActionData::DestroyLocalArray {
            local_array,
            elements,
            element_size,
            dtor_address,
        } && local_array == be16(p, 0) && elements == be16(p, 2) && element_size == be16(p, 4)
            && dtor_address == be32(p, 6),
        ExAction::DestroyBase => r matches ExActionData::DestroyBase {
            object_pointer,
            member_offset,
            dtor_address,
        } && object_pointer == be16(p, 0) && member_offset == be32(p, 2) && dtor_address == be32(
            p,
            6,
        ),
        ExAction::DestroyMember => r matches ExActionData::DestroyMember {
            object_pointer,
            member_offset,
            dtor_address,
        } && object_pointer == be16(p, 0) && member_offset == be32(p, 2) && dtor_address == be32(
            p,
            6,
        ),
        ExAction::DestroyMemberCond => r matches ExActionData::DestroyMemberCond {
            condition,
            object_pointer,
            member_offset,
            unk8,
            dtor_address,
        } && condition == be16(p, 0) && object_pointer == be16(p, 2) && member_offset == be32(p, 4)
            && unk8 == be16(p, 8) && dtor_address == be32(p, 10),
        ExAction::DestroyMemberArray => r matches ExActionData::DestroyMemberArray {
            object_pointer,
            member_offset,
            elements,
            element_size,
            dtor_address,
        } && object_pointer == be16(p, 0) && member_offset == be32(p, 2) && elements == be32(p, 6)
            && element_size == be32(p, 10) && dtor_address == be32(p, 14),
        ExAction::DeletePointer => r matches ExActionData::DeletePointer {
            object_pointer,
            dtor_address,
        } && object_pointer == be16(p, 0) && dtor_address == be32(p, 2),
        ExAction::DeletePointerCond => r matches ExActionData::DeletePointerCond {
            condition,
            object_pointer,
            unk4,
            dtor_address,
        } && condition == be16(p, 0) && object_pointer == be16(p, 2) && unk4 == be16(p, 4)
            && dtor_address == be32(p, 6),
        ExAction::CatchBlock => r matches ExActionData::CatchBlock {
            unk0,
            catch_type,
            catch_pc_offset,
            cinfo_ref,
        } && unk0 == be16(p, 0) && catch_type == be32(p, 2) && catch_pc_offset == be16(p, 6)
            && cinfo_ref == be16(p, 8),
        ExAction::ActiveCatchBlock => r matches ExActionData::ActiveCatchBlock { cinfo_ref }
            && cinfo_ref == be16(p, 0),
        ExAction::Terminate => r matches ExActionData::Terminate,
        ExAction::Specification => r matches ExActionData::Specification {
            specs,
            pc_offset,
            cinfo_ref,
            spec_values,
        } && specs == be16(p, 0) && pc_offset == be32(p, 2) && cinfo_ref == be32(p, 6)
            && spec_values@ == Seq::new(be16(p, 0) as nat, |j: int| be32(p, 10 + 4 * j)),
        ExAction::CatchBlock32 => r matches ExActionData::CatchBlock32 {
            unk0,
            catch_type,
            catch_pc_offset,
            cinfo_ref,
        } && unk0 == be16(p, 0) && catch_type == be32(p, 2) && catch_pc_offset == be32(p, 6)
            && cinfo_ref == be32(p, 10),
    }
}

/// Law: size-table round trip. A well-formed record's payload is exactly the
/// size the table documents for its action type, and decoding reads exactly
/// that: a well-formed `Specification` record with spec count N has exactly
/// `10 + 4*N` payload bytes and decodes to a value list of exactly N entries.
pub proof fn lemma_payload_size_round_trip(a: ExceptionAction, r: ExActionData)
    requires
        a.wf(),
        exaction_data_matches(a, r),
    ensures
        a.action_type != ExAction::Specification ==> a.bytes@.len() == spec_fixed_payload_size(
            a.action_type,
        ),
        a.action_type == ExAction::Specification ==> (r matches ExActionData::Specification {
            specs,
            spec_values,
            ..
        } && a.bytes@.len() == 10 + 4 * specs && spec_values@.len() == specs),
{
}

/// The 16-bit big-endian value at byte offset `i` of the payload slice.
fn get_u16(b: &[u8], i: usize) -> (r: u16)
    requires
        i + 2 <= b@.len(),
    ensures
        r == be16(b@, i as int),
{
    ((b[i] as u16) << 8) | (b[i + 1] as u16)
}

/// The 32-bit big-endian value at byte offset `i` of the payload slice.
fn get_u32(b: &[u8], i: usize) -> (r: u32)
    requires
        i + 4 <= b@.len(),
    ensures
        r == be32(b@, i as int),
{
    ((b[i] as u32) << 24) | ((b[i + 1] as u32) << 16) | ((b[i + 2] as u32) << 8) | (b[i + 3]
        as u32)
}

} // verus!
