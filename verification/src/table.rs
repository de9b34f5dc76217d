//! The decoded table: PC-range entries, relocations, and the root value that
//! aggregates header flags, ranges, action records and relocations.

use vstd::prelude::*;

use crate::record::ExceptionAction;

verus! {

/// Bit 1 of the flags word: whether the function has an ELF vector.
pub open spec fn spec_has_elf_vector(f: u16) -> bool {
    ((f >> 1) & 1) == 1
}

/// Bit 3 of the flags word: whether the function has a large frame.
pub open spec fn spec_large_frame(f: u16) -> bool {
    ((f >> 3) & 1) == 1
}

/// Bit 4 of the flags word: whether locals are addressed via a frame pointer
/// rather than the stack pointer.
pub open spec fn spec_has_frame_pointer(f: u16) -> bool {
    ((f >> 4) & 1) == 1
}

/// Bit 5 of the flags word: whether the condition register is saved.
pub open spec fn spec_saved_cr(f: u16) -> bool {
    ((f >> 5) & 1) == 1
}

/// Bits 6 through 10 of the flags word: how many floating-point registers are
/// saved. A nonzero count N means registers `31-(N-1)` through `31`.
pub open spec fn spec_fpr_save_range(f: u16) -> u32 {
    ((f >> 6) & 0x1f) as u32
}

/// Bits 11 through 15 of the flags word: how many general registers are
/// saved. A nonzero count N means registers `31-(N-1)` through `31`.
pub open spec fn spec_gpr_save_range(f: u16) -> u32 {
    ((f >> 11) & 0x1f) as u32
}

/// Struct for PC actions: one program-counter range mapped to the byte offset,
/// relative to the start of the action-record region, of the first action
/// record to execute for it.
#[derive(Debug, Clone, PartialEq, Eq, Structural)]
pub struct PCAction {
    pub start_pc: u32,
    pub end_pc: u32,
    pub action_offset: u32,
}

impl PCAction {
    pub fn new() -> (r: Self)
        ensures
            r.start_pc == 0,
            r.end_pc == 0,
            r.action_offset == 0,
    {
        Self { start_pc: 0, end_pc: 0, action_offset: 0 }
    }
}

impl Default for PCAction {
    fn default() -> (r: Self)
        ensures
            r.start_pc == 0,
            r.end_pc == 0,
            r.action_offset == 0,
    {
        Self::new()
    }
}

/// Struct for an exception-table relocation (always a destructor function
/// address): the absolute buffer offset of a 4-byte field and the raw
/// big-endian value currently stored there.
#[derive(Debug, Clone, PartialEq, Eq, Structural)]
pub struct Relocation {
    pub offset: u32,
    pub address: u32,
}

/// Struct containing all the data from the decoded exception table.
#[derive(Debug, Clone)]
pub struct ExceptionTableData {
    /// The raw 16-bit flags word, first header field.
    pub flag_val: u16,
    pub has_elf_vector: bool,
    pub large_frame: bool,
    pub has_frame_pointer: bool,
    pub saved_cr: bool,
    pub fpr_save_range: u32,
    pub gpr_save_range: u32,
    /// The second 16-bit header word; an opaque pass-through.
    pub et_field: u16,
    pub pc_actions: Vec<PCAction>,
    pub exception_actions: Vec<ExceptionAction>,
    pub relocations: Vec<Relocation>,
}

impl ExceptionTableData {
    /// The derived flag fields agree bit-for-bit with the raw flags word.
    pub open spec fn flags_wf(self) -> bool {
        &&& self.has_elf_vector == spec_has_elf_vector(self.flag_val)
        &&& self.large_frame == spec_large_frame(self.flag_val)
        &&& self.has_frame_pointer == spec_has_frame_pointer(self.flag_val)
        &&& self.saved_cr == spec_saved_cr(self.flag_val)
        &&& self.fpr_save_range == spec_fpr_save_range(self.flag_val)
        &&& self.gpr_save_range == spec_gpr_save_range(self.flag_val)
    }

    pub(crate) fn new() -> (r: Self)
        ensures
            r.flag_val == 0,
            r.et_field == 0,
            r.flags_wf(),
            r.pc_actions@ == Seq::<PCAction>::empty(),
            r.exception_actions@ == Seq::<ExceptionAction>::empty(),
            r.relocations@ == Seq::<Relocation>::empty(),
    {
        let r = Self {
            flag_val: 0,
            has_elf_vector: false,
            large_frame: false,
            has_frame_pointer: false,
            saved_cr: false,
            fpr_save_range: 0,
            gpr_save_range: 0,
            et_field: 0,
            pc_actions: Vec::new(),
            exception_actions: Vec::new(),
            relocations: Vec::new(),
        };
        proof {
            assert(!spec_has_elf_vector(0)) by (bit_vector);
            assert(!spec_large_frame(0)) by (bit_vector);
            assert(!spec_has_frame_pointer(0)) by (bit_vector);
            assert(!spec_saved_cr(0)) by (bit_vector);
            assert(spec_fpr_save_range(0) == 0) by (bit_vector);
            assert(spec_gpr_save_range(0) == 0) by (bit_vector);
        }
        r
    }

    /// Expands the raw flags word into the named flag fields, bit for bit.
    pub(crate) fn calculate_flag_values(&mut self)
        ensures
            final(self).flag_val == old(self).flag_val,
            final(self).et_field == old(self).et_field,
            final(self).pc_actions == old(self).pc_actions,
            final(self).exception_actions == old(self).exception_actions,
            final(self).relocations == old(self).relocations,
            final(self).flags_wf(),
    {
        self.has_elf_vector = ((self.flag_val >> 1) & 1) == 1;
        self.large_frame = ((self.flag_val >> 3) & 1) == 1;
        self.has_frame_pointer = ((self.flag_val >> 4) & 1) == 1;
        self.saved_cr = ((self.flag_val >> 5) & 1) == 1;
        self.fpr_save_range = ((self.flag_val >> 6) & 0x1f) as u32;
        self.gpr_save_range = ((self.flag_val >> 11) & 0x1f) as u32;
    }
}

} // verus!
