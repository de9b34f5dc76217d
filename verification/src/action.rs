//! The action-type tag of an exception-table action record, and the per-tag
//! layout facts the decoder relies on: payload size and the byte offset of the
//! embedded destructor-address field, where one exists.

use vstd::prelude::*;

verus! {

/// Base enum for exception actions: the 17 known action-type tags.
#[derive(Debug, Copy, Clone, PartialEq, Eq, Structural)]
pub enum ExAction {
    EndOfList,
    Branch,
    DestroyLocal,
    DestroyLocalCond,
    DestroyLocalPointer,
    DestroyLocalArray,
    DestroyBase,
    DestroyMember,
    DestroyMemberCond,
    DestroyMemberArray,
    DeletePointer,
    DeletePointerCond,
    CatchBlock,
    ActiveCatchBlock,
    Terminate,
    Specification,
    CatchBlock32,
}

/// The numeric tag of each action type, as stored in the low 7 bits of a
/// record's first byte.
pub open spec fn spec_action_tag(k: ExAction) -> int {
    match k {
        ExAction::EndOfList => 0,
        ExAction::Branch => 1,
        ExAction::DestroyLocal => 2,
        ExAction::DestroyLocalCond => 3,
        ExAction::DestroyLocalPointer => 4,
        ExAction::DestroyLocalArray => 5,
        ExAction::DestroyBase => 6,
        ExAction::DestroyMember => 7,
        ExAction::DestroyMemberCond => 8,
        ExAction::DestroyMemberArray => 9,
        ExAction::DeletePointer => 10,
        ExAction::DeletePointerCond => 11,
        ExAction::CatchBlock => 12,
        ExAction::ActiveCatchBlock => 13,
        ExAction::Terminate => 14,
        ExAction::Specification => 15,
        ExAction::CatchBlock32 => 16,
    }
}

/// The action type a numeric tag denotes: `Some` exactly for tags 0 through
/// 16, `None` for every other value.
pub open spec fn spec_action_from_tag(v: int) -> Option<ExAction> {
    if v == 0 {
        Some(ExAction::EndOfList)
    } else if v == 1 {
        Some(ExAction::Branch)
    } else if v == 2 {
        Some(ExAction::DestroyLocal)
    } else if v == 3 {
        Some(ExAction::DestroyLocalCond)
    } else if v == 4 {
        Some(ExAction::DestroyLocalPointer)
    } else if v == 5 {
        Some(ExAction::DestroyLocalArray)
    } else if v == 6 {
        Some(ExAction::DestroyBase)
    } else if v == 7 {
        Some(ExAction::DestroyMember)
    } else if v == 8 {
        Some(ExAction::DestroyMemberCond)
    } else if v == 9 {
        Some(ExAction::DestroyMemberArray)
    } else if v == 10 {
        Some(ExAction::DeletePointer)
    } else if v == 11 {
        Some(ExAction::DeletePointerCond)
    } else if v == 12 {
        Some(ExAction::CatchBlock)
    } else if v == 13 {
        Some(ExAction::ActiveCatchBlock)
    } else if v == 14 {
        Some(ExAction::Terminate)
    } else if v == 15 {
        Some(ExAction::Specification)
    } else if v == 16 {
        Some(ExAction::CatchBlock32)
    } else {
        None
    }
}

/// Payload size in bytes for each action type, not counting the 2-byte
/// type/param header. For `Specification` this is only the fixed part: a
/// record carries `4 * count` further bytes, where `count` is the 16-bit
/// spec count at the start of the payload.
pub open spec fn spec_fixed_payload_size(k: ExAction) -> int {
    match k {
        ExAction::EndOfList => 0,
        ExAction::Branch => 2,
        ExAction::DestroyLocal => 6,
        ExAction::DestroyLocalCond => 10,
        ExAction::DestroyLocalPointer => 6,
        ExAction::DestroyLocalArray => 10,
        ExAction::DestroyBase => 10,
        ExAction::DestroyMember => 10,
        ExAction::DestroyMemberCond => 14,
        ExAction::DestroyMemberArray => 18,
        ExAction::DeletePointer => 6,
        ExAction::DeletePointerCond => 10,
        ExAction::CatchBlock => 10,
        ExAction::ActiveCatchBlock => 2,
        ExAction::Terminate => 0,
        ExAction::Specification => 10,
        ExAction::CatchBlock32 => 14,
    }
}

/// Whether records of this action type embed a 4-byte destructor-address
/// field in their payload.
pub open spec fn spec_has_dtor_ref(k: ExAction) -> bool {
    match k {
        ExAction::EndOfList
        | ExAction::Branch
        | ExAction::CatchBlock
        | ExAction::ActiveCatchBlock
        | ExAction::Terminate
        | ExAction::Specification
        | ExAction::CatchBlock32 => false,
        _ => true,
    }
}

/// Byte offset, relative to the start of the payload, of the 4-byte
/// destructor-address field; `None` exactly for the action types that have
/// none.
pub open spec fn spec_dtor_offset(k: ExAction) -> Option<u32> {
    match k {
        ExAction::DestroyLocal => Some(2u32),
        ExAction::DestroyLocalCond => Some(6u32),
        ExAction::DestroyLocalPointer => Some(2u32),
        ExAction::DestroyLocalArray => Some(6u32),
        ExAction::DestroyBase => Some(6u32),
        ExAction::DestroyMember => Some(6u32),
        ExAction::DestroyMemberCond => Some(10u32),
        ExAction::DestroyMemberArray => Some(14u32),
        ExAction::DeletePointer => Some(2u32),
        ExAction::DeletePointerCond => Some(6u32),
        _ => None,
    }
}

/// The display name of each action type, as the renderer prints it.
pub open spec fn spec_action_name(k: ExAction) -> Seq<char> {
    match k {
        ExAction::EndOfList => "NULL"@,
        ExAction::Branch => "BRANCH"@,
        ExAction::DestroyLocal => "DESTROYLOCAL"@,
        ExAction::DestroyLocalCond => "DESTROYLOCALCOND"@,
        ExAction::DestroyLocalPointer => "DESTROYLOCALPOINTER"@,
        ExAction::DestroyLocalArray => "DESTROYLOCALARRAY"@,
        ExAction::DestroyBase => "DESTROYBASE"@,
        ExAction::DestroyMember => "DESTROYMEMBER"@,
        ExAction::DestroyMemberCond => "DESTROYMEMBERCOND"@,
        ExAction::DestroyMemberArray => "DESTROYMEMBERARRAY"@,
        ExAction::DeletePointer => "DELETEPOINTER"@,
        ExAction::DeletePointerCond => "DELETEPOINTERCOND"@,
        ExAction::CatchBlock => "CATCHBLOCK (Small)"@,
        ExAction::ActiveCatchBlock => "ACTIVECATCHBLOCK"@,
        ExAction::Terminate => "TERMINATE"@,
        ExAction::Specification => "SPECIFICATION"@,
        ExAction::CatchBlock32 => "CATCHBLOCK (Large)"@,
    }
}

impl ExAction {
    /// The numeric tag of this action type.
    pub fn to_int(&self) -> (r: i32)
        ensures
            r == spec_action_tag(*self),
            0 <= r <= 16,
    {
        match self {
            ExAction::EndOfList => 0,
            ExAction::Branch => 1,
            ExAction::DestroyLocal => 2,
            ExAction::DestroyLocalCond => 3,
            ExAction::DestroyLocalPointer => 4,
            ExAction::DestroyLocalArray => 5,
            ExAction::DestroyBase => 6,
            ExAction::DestroyMember => 7,
            ExAction::DestroyMemberCond => 8,
            ExAction::DestroyMemberArray => 9,
            ExAction::DeletePointer => 10,
            ExAction::DeletePointerCond => 11,
            ExAction::CatchBlock => 12,
            ExAction::ActiveCatchBlock => 13,
            ExAction::Terminate => 14,
            ExAction::Specification => 15,
            ExAction::CatchBlock32 => 16,
        }
    }

    /// The action type a numeric tag denotes, or `None` for a tag outside the
    /// known range.
    pub fn from_int(val: i32) -> (r: Option<ExAction>)
        ensures
            r == spec_action_from_tag(val as int),
    {
        let result: ExAction = match val {
            0 => ExAction::EndOfList,
            1 => ExAction::Branch,
            2 => ExAction::DestroyLocal,
            3 => ExAction::DestroyLocalCond,
            4 => ExAction::DestroyLocalPointer,
            5 => ExAction::DestroyLocalArray,
            6 => ExAction::DestroyBase,
            7 => ExAction::DestroyMember,
            8 => ExAction::DestroyMemberCond,
            9 => ExAction::DestroyMemberArray,
            10 => ExAction::DeletePointer,
            11 => ExAction::DeletePointerCond,
            12 => ExAction::CatchBlock,
            13 => ExAction::ActiveCatchBlock,
            14 => ExAction::Terminate,
            15 => ExAction::Specification,
            16 => ExAction::CatchBlock32,
            _ => {
                return None;
            },
        };
        Some(result)
    }

    /// The display name of this action type.
    pub(crate) fn convert_to_string(&self) -> (r: String)
        ensures
            r@ == spec_action_name(*self),
    {
        match self {
            ExAction::EndOfList => "NULL".to_owned(),
            ExAction::Branch => "BRANCH".to_owned(),
            ExAction::DestroyLocal => "DESTROYLOCAL".to_owned(),
            ExAction::DestroyLocalCond => "DESTROYLOCALCOND".to_owned(),
            ExAction::DestroyLocalPointer => "DESTROYLOCALPOINTER".to_owned(),
            ExAction::DestroyLocalArray => "DESTROYLOCALARRAY".to_owned(),
            ExAction::DestroyBase => "DESTROYBASE".to_owned(),
            ExAction::DestroyMember => "DESTROYMEMBER".to_owned(),
            ExAction::DestroyMemberCond => "DESTROYMEMBERCOND".to_owned(),
            ExAction::DestroyMemberArray => "DESTROYMEMBERARRAY".to_owned(),
            ExAction::DeletePointer => "DELETEPOINTER".to_owned(),
            ExAction::DeletePointerCond => "DELETEPOINTERCOND".to_owned(),
            ExAction::CatchBlock => "CATCHBLOCK (Small)".to_owned(),
            ExAction::ActiveCatchBlock => "ACTIVECATCHBLOCK".to_owned(),
            ExAction::Terminate => "TERMINATE".to_owned(),
            ExAction::Specification => "SPECIFICATION".to_owned(),
            ExAction::CatchBlock32 => "CATCHBLOCK (Large)".to_owned(),
        }
    }
}

/// Law: tag conversion round-trips. Turning any action type into its numeric
/// tag and back yields the same action type.
pub proof fn lemma_action_tag_roundtrip(k: ExAction)
    ensures
        spec_action_from_tag(spec_action_tag(k)) == Some(k),
{
}

/// Law: an action type has a destructor-address field offset exactly when it
/// is destructor-bearing, and that offset plus the 4-byte field always fits
/// inside the type's payload.
pub proof fn lemma_dtor_offset_in_payload(k: ExAction)
    ensures
        spec_dtor_offset(k) is Some <==> spec_has_dtor_ref(k),
        spec_dtor_offset(k) matches Some(d) ==> d + 4 <= spec_fixed_payload_size(k),
{
}

} // verus!
