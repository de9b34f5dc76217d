//! Text rendering of a decoded table: a "Flag values" section, an optional
//! "PC actions" section, and an "Exception actions" section listing each
//! record's type-specific fields under the addressing-mode rules of its
//! parameter byte, the bound destructor name where one applies, and the
//! end-bit marker. The exact text is fixed by `spec_render_table`, and
//! `to_string` is proved to produce it character for character.

use vstd::prelude::*;

use crate::action::{spec_action_name, spec_has_dtor_ref, ExAction};
use crate::cursor::{be16, be32};
use crate::numfmt::{
    append_dec, append_hex_fixed, append_hex_prefixed, spec_dec, spec_hex_fixed,
    spec_hex_prefixed,
};
use crate::record::{exaction_data_matches, ExActionData, ExceptionAction};
use crate::table::{ExceptionTableData, PCAction};

verus! {

/// `Yes` or `No`, as the flag lines print a bit.
pub open spec fn spec_yes_no(b: bool) -> Seq<char> {
    if b {
        "Yes"@
    } else {
        "No"@
    }
}

/// The register that local frame offsets are relative to: the frame pointer
/// if the table has one, else the stack pointer.
pub open spec fn spec_local_reg(fp: bool) -> Seq<char> {
    if fp {
        "FP"@
    } else {
        "SP"@
    }
}

/// A saved-register run ending at register 31: the single register 31 when
/// the run starts there, otherwise `<start>-<31>`, each register number
/// prefixed by `pre` (the dash and the second prefix arrive together as
/// `dash_pre`).
pub open spec fn spec_reg_string(pre: Seq<char>, dash_pre: Seq<char>, start: int) -> Seq<char> {
    if start == 31 {
        pre + spec_dec(31)
    } else {
        pre + spec_dec(start) + dash_pre + spec_dec(31)
    }
}

/// The saved-register line for one register class: empty for a zero count; a
/// nonzero count N covers registers `31-(N-1)` through `31`.
pub open spec fn spec_saved_range_line(
    label: Seq<char>,
    pre: Seq<char>,
    dash_pre: Seq<char>,
    range: u32,
) -> Seq<char> {
    if range == 0 {
        Seq::empty()
    } else {
        label + spec_reg_string(pre, dash_pre, 32 - range) + "\n"@
    }
}

/// Law: how a saved-register count renders. A count of exactly 1 denotes the
/// single register 31, not a one-register range; a larger count N denotes the
/// range from `31-(N-1)` through `31`.
pub proof fn lemma_saved_range_rendering(pre: Seq<char>, dash_pre: Seq<char>, range: u32)
    requires
        1 <= range <= 31,
    ensures
        range == 1 ==> spec_reg_string(pre, dash_pre, 32 - range) == pre + spec_dec(31),
        range > 1 ==> spec_reg_string(pre, dash_pre, 32 - range) == pre + spec_dec(
            31 - (range - 1),
        ) + dash_pre + spec_dec(31),
{
}

/// One yes/no flag line.
pub open spec fn spec_flag_line(label: Seq<char>, b: bool) -> Seq<char> {
    label + spec_yes_no(b) + "\n"@
}

/// The "Flag values" section, closed by a blank line.
pub open spec fn spec_flags_text(t: ExceptionTableData) -> Seq<char> {
    "Flag values:\n"@ + spec_flag_line("Has Elf Vector: "@, t.has_elf_vector) + spec_flag_line(
        "Large Frame: "@,
        t.large_frame,
    ) + spec_flag_line("Has Frame Pointer: "@, t.has_frame_pointer) + spec_flag_line(
        "Saved CR: "@,
        t.saved_cr,
    ) + spec_saved_range_line("Saved FPR range: "@, "fp"@, "-fp"@, t.fpr_save_range)
        + spec_saved_range_line("Saved GPR range: "@, "r"@, "-r"@, t.gpr_save_range) + "\n"@
}

/// The line for one PC range: the start PC and, where the range is not empty,
/// the end PC, each as 8 hex digits, then the action offset as 6 hex digits.
pub open spec fn spec_pc_line(a: PCAction) -> Seq<char> {
    "PC="@ + spec_hex_fixed(a.start_pc as nat, 8) + (if a.start_pc != a.end_pc {
        ":"@ + spec_hex_fixed(a.end_pc as nat, 8)
    } else {
        Seq::empty()
    }) + ", Action: "@ + spec_hex_fixed(a.action_offset as nat, 6) + "\n"@
}

/// The PC-range lines, in table order.
pub open spec fn spec_pc_lines(s: Seq<PCAction>) -> Seq<char>
    decreases s.len(),
{
    if s.len() == 0 {
        Seq::empty()
    } else {
        spec_pc_lines(s.drop_last()) + spec_pc_line(s.last())
    }
}

/// The "PC actions" section: absent when the table has no PC ranges.
pub open spec fn spec_pc_section(s: Seq<PCAction>) -> Seq<char> {
    if s.len() == 0 {
        Seq::empty()
    } else {
        "PC actions:\n"@ + spec_pc_lines(s) + "\n"@
    }
}

/// A field addressed relative to the frame: `<value>(<reg>)`.
pub open spec fn spec_frame_field(label: Seq<char>, v: int, reg: Seq<char>) -> Seq<char> {
    label + spec_hex_prefixed(v) + "("@ + reg + ")\n"@
}

/// A condition field: a frame offset when its mode bit is clear, a register
/// number when it is set.
pub open spec fn spec_cond_part(cond: int, reg: Seq<char>, mode_set: bool) -> Seq<char> {
    if mode_set {
        "Cond: r"@ + spec_dec(cond) + "\n"@
    } else {
        spec_frame_field("Cond: "@, cond, reg)
    }
}

/// A member field: `<obj>(<reg>)+<offset>` under frame addressing,
/// `<offset>(r<obj>)` under register addressing.
pub open spec fn spec_member_part(obj: int, member: int, reg: Seq<char>, mode_set: bool) -> Seq<
    char,
> {
    if mode_set {
        "Member: "@ + spec_hex_prefixed(member) + "(r"@ + spec_dec(obj) + ")\n"@
    } else {
        "Member: "@ + spec_hex_prefixed(obj) + "("@ + reg + ")+"@ + spec_hex_prefixed(member)
            + "\n"@
    }
}

/// The element count and size lines of an array record.
pub open spec fn spec_elements_part(elements: int, element_size: int) -> Seq<char> {
    "Elements: "@ + spec_dec(elements) + "\nSize: "@ + spec_dec(element_size) + "\n"@
}

/// The catch-block lines shared by both catch record widths.
pub open spec fn spec_catch_part(cinfo: int, pc: nat, catch_type: nat, reg: Seq<char>) -> Seq<
    char,
> {
    "Local: "@ + spec_hex_prefixed(cinfo) + "("@ + reg + ")\nPC: "@ + spec_hex_fixed(pc, 8)
        + "\ncatch_type_addr: "@ + spec_hex_fixed(catch_type, 8) + "\n"@
}

/// The type-specific lines of one action record, with each polymorphic field
/// resolved by the record's parameter byte: bit 7 (and bit 6 where a
/// condition field shares the record) selects frame-offset or register
/// addressing, and bit 0 does so for a `DestroyLocalCond` condition.
pub open spec fn spec_action_body(a: ExceptionAction, fp: bool) -> Seq<char> {
    let p = a.bytes@;
    let prm = a.action_param;
    let reg = spec_local_reg(fp);
    match a.action_type {
        ExAction::EndOfList => Seq::empty(),
        ExAction::Branch => "Action: "@ + spec_hex_fixed(be16(p, 0) as nat, 6) + "\n"@,
        ExAction::DestroyLocal => spec_frame_field("Local: "@, be16(p, 0) as int, reg),
        ExAction::DestroyLocalCond => spec_frame_field("Local: "@, be16(p, 2) as int, reg)
            + spec_cond_part(be16(p, 0) as int, reg, prm & 1 != 0),
        ExAction::DestroyLocalPointer => if prm >> 7 == 0 {
            spec_frame_field("Pointer: "@, be16(p, 0) as int, reg)
        } else {
            "Pointer: r"@ + spec_dec(be16(p, 0) as int) + "\n"@
        },
        ExAction::DestroyLocalArray => spec_frame_field("Array: "@, be16(p, 0) as int, reg)
            + spec_elements_part(be16(p, 2) as int, be16(p, 4) as int),
        ExAction::DestroyBase | ExAction::DestroyMember => spec_member_part(
            be16(p, 0) as int,
            be32(p, 2) as int,
            reg,
            prm >> 7 != 0,
        ),
        ExAction::DestroyMemberCond => spec_member_part(
            be16(p, 2) as int,
            be32(p, 4) as int,
            reg,
            (prm >> 6) & 1 != 0,
        ) + spec_cond_part(be16(p, 0) as int, reg, prm >> 7 != 0),
        ExAction::DestroyMemberArray => (if prm >> 7 == 0 {
            "Member: "@ + spec_hex_prefixed(be16(p, 0) as int) + "("@ + reg + ")+0x"@ + spec_dec(
                be32(p, 2) as int,
            ) + "\n"@
        } else {
            "Member: "@ + spec_hex_prefixed(be32(p, 2) as int) + "(r"@ + spec_dec(
                be16(p, 0) as int,
            ) + ")\n"@
        }) + spec_elements_part(be32(p, 6) as int, be32(p, 10) as int),
        ExAction::DeletePointer => if prm >> 7 == 0 {
            spec_frame_field("Pointer: "@, be16(p, 0) as int, reg)
        } else {
            "Pointer: r"@ + spec_dec(be16(p, 0) as int) + ")\n"@
        },
        ExAction::DeletePointerCond => (if (prm >> 6) & 1 == 0 {
            spec_frame_field("Pointer: "@, be16(p, 2) as int, reg)
        } else {
            "Pointer: r"@ + spec_dec(be16(p, 2) as int) + ")\n"@
        }) + spec_cond_part(be16(p, 0) as int, reg, prm >> 7 != 0),
        ExAction::CatchBlock => spec_catch_part(
            be16(p, 8) as int,
            be16(p, 6) as nat,
            be32(p, 2) as nat,
            reg,
        ),
        ExAction::ActiveCatchBlock => spec_frame_field("Local: "@, be16(p, 0) as int, reg),
        ExAction::Terminate => Seq::empty(),
        ExAction::Specification => "Local: "@ + spec_hex_prefixed(be32(p, 6) as int) + "("@ + reg
            + ")\nPC: "@ + spec_hex_fixed(be32(p, 2) as nat, 8) + "\nTypes: "@ + spec_dec(
            be16(p, 0) as int,
        ) + "\n"@,
        ExAction::CatchBlock32 => spec_catch_part(
            be32(p, 10) as int,
            be32(p, 6) as nat,
            be32(p, 2) as nat,
            reg,
        ),
    }
}

/// The destructor line of one record: destructor-bearing records consume the
/// next supplied name in order; a record beyond the end of the name list gets
/// an explicit error marker instead.
pub open spec fn spec_dtor_part(a: ExceptionAction, names: Seq<String>, idx: int) -> Seq<char> {
    if spec_has_dtor_ref(a.action_type) {
        if idx >= names.len() {
            "Error: Invalid function array index\n"@
        } else {
            "Dtor: \""@ + names[idx]@ + "\"\n"@
        }
    } else {
        Seq::empty()
    }
}

/// The full text of one action record: its offset and type name, the
/// type-specific body, the destructor line, and the end-bit marker.
pub open spec fn spec_action_entry_text(
    a: ExceptionAction,
    fp: bool,
    names: Seq<String>,
    idx: int,
) -> Seq<char> {
    spec_hex_fixed(a.action_offset as nat, 6) + ":\nType: "@ + spec_action_name(a.action_type)
        + "\n"@ + spec_action_body(a, fp) + spec_dtor_part(a, names, idx) + (if a.has_end_bit {
        "Has end bit\n"@
    } else {
        Seq::empty()
    })
}

/// How many of these records are destructor-bearing: how many names the
/// renderer has consumed before the next record, as long as names remain.
pub open spec fn spec_dtor_count(s: Seq<ExceptionAction>) -> int
    decreases s.len(),
{
    if s.len() == 0 {
        0int
    } else {
        spec_dtor_count(s.drop_last()) + (if spec_has_dtor_ref(s.last().action_type) {
            1int
        } else {
            0int
        })
    }
}

/// The action-record texts, in record order, each consuming the next name
/// exactly when it is destructor-bearing.
pub open spec fn spec_action_lines(s: Seq<ExceptionAction>, fp: bool, names: Seq<String>) -> Seq<
    char,
>
    decreases s.len(),
{
    if s.len() == 0 {
        Seq::empty()
    } else {
        spec_action_lines(s.drop_last(), fp, names) + spec_action_entry_text(
            s.last(),
            fp,
            names,
            spec_dtor_count(s.drop_last()),
        )
    }
}

/// The "Exception actions" section: absent when the table has no action
/// records.
pub open spec fn spec_actions_section(
    s: Seq<ExceptionAction>,
    fp: bool,
    names: Seq<String>,
) -> Seq<char> {
    if s.len() == 0 {
        Seq::empty()
    } else {
        "Exception actions:\n"@ + spec_action_lines(s, fp, names)
    }
}

/// The whole report: the flag lines (with saved-register lines only for
/// nonzero counts), a blank line, then the PC-range and action-record
/// sections.
pub open spec fn spec_render_table(t: ExceptionTableData, names: Seq<String>) -> Seq<char> {
    spec_flags_text(t) + spec_pc_section(t.pc_actions@) + spec_actions_section(
        t.exception_actions@,
        t.has_frame_pointer,
        names,
    )
}

/// Appends one saved-register line: the register run the nonzero count
/// denotes, ending at register 31.
fn append_saved_range_line(out: &mut String, label: &str, pre: &str, dash_pre: &str, range: u32)
    requires
        1 <= range <= 31,
    ensures
        final(out)@ == old(out)@ + spec_saved_range_line(label@, pre@, dash_pre@, range),
{
    let start: u32 = 31 - (range - 1);
    out.append(label);
    out.append(pre);
    append_dec(out, start);
    if start != 31 {
        out.append(dash_pre);
        append_dec(out, 31);
    }
    out.append("\n");
    proof {
        assert(final(out)@ =~= old(out)@ + spec_saved_range_line(label@, pre@, dash_pre@, range));
    }
}

/// Appends one yes/no flag line.
fn append_flag_line(out: &mut String, label: &str, b: bool)
    ensures
        final(out)@ == old(out)@ + spec_flag_line(label@, b),
{
    out.append(label);
    out.append(if b { "Yes" } else { "No" });
    out.append("\n");
    proof {
        assert(final(out)@ =~= old(out)@ + spec_flag_line(label@, b));
    }
}

/// Appends the "Flag values" section and its closing blank line.
#[verifier::rlimit(100)]
#[verifier::spinoff_prover]
fn append_flag_lines(out: &mut String, t: &ExceptionTableData)
    requires
        t.fpr_save_range <= 31,
        t.gpr_save_range <= 31,
    ensures
        final(out)@ == old(out)@ + spec_flags_text(*t),
{
    out.append("Flag values:\n");
    append_flag_line(out, "Has Elf Vector: ", t.has_elf_vector);
    append_flag_line(out, "Large Frame: ", t.large_frame);
    append_flag_line(out, "Has Frame Pointer: ", t.has_frame_pointer);
    append_flag_line(out, "Saved CR: ", t.saved_cr);
    if t.fpr_save_range != 0 {
        append_saved_range_line(out, "Saved FPR range: ", "fp", "-fp", t.fpr_save_range);
    }
    if t.gpr_save_range != 0 {
        append_saved_range_line(out, "Saved GPR range: ", "r", "-r", t.gpr_save_range);
    }
    out.append("\n");
    proof {
        assert(final(out)@ =~= old(out)@ + spec_flags_text(*t));
    }
}

/// Appends the "PC actions" section: one line per PC range, or nothing for a
/// table without ranges.
fn append_pc_section(out: &mut String, pcs: &Vec<PCAction>)
    ensures
        final(out)@ == old(out)@ + spec_pc_section(pcs@),
{
    let num_pcactions = pcs.len();
    if num_pcactions == 0 {
        return ;
    }
    out.append("PC actions:\n");
    let ghost base = out@;
    let mut i: usize = 0;
    while i < num_pcactions
        invariant
            i <= num_pcactions,
            num_pcactions == pcs@.len(),
            out@ == base + spec_pc_lines(pcs@.take(i as int)),
        decreases num_pcactions - i,
    {
        let action = &pcs[i];
        let start_pc = action.start_pc;
        let end_pc = action.end_pc;
        let action_offset = action.action_offset;
        out.append("PC=");
        append_hex_fixed(out, start_pc, 8);
        if start_pc != end_pc {
            out.append(":");
            append_hex_fixed(out, end_pc, 8);
        }
        out.append(", Action: ");
        append_hex_fixed(out, action_offset, 6);
        out.append("\n");
        proof {
            assert(pcs@.take(i + 1).drop_last() =~= pcs@.take(i as int));
            assert(pcs@.take(i + 1).last() == pcs@[i as int]);
            assert(out@ =~= base + (spec_pc_lines(pcs@.take(i as int)) + spec_pc_line(
                pcs@[i as int],
            )));
        }
        i = i + 1;
    }
    proof {
        assert(pcs@.take(num_pcactions as int) =~= pcs@);
    }
    out.append("\n");
}

/// Appends the body of a `Branch` or local-destruction record.
#[verifier::rlimit(100)]
#[verifier::spinoff_prover]
fn append_body_local(
    out: &mut String,
    action: &ExceptionAction,
    exaction_data: &ExActionData,
    reg: &str,
    fp: bool,
)
    requires
        exaction_data_matches(*action, *exaction_data),
        reg@ == spec_local_reg(fp),
        action.action_type == ExAction::Branch || action.action_type == ExAction::DestroyLocal
            || action.action_type == ExAction::DestroyLocalCond || action.action_type
            == ExAction::DestroyLocalPointer || action.action_type
            == ExAction::DestroyLocalArray,
    ensures
        final(out)@ == old(out)@ + spec_action_body(*action, fp),
{
    match *exaction_data {
        ExActionData::Branch { target_offset } => {
            proof {
                assert(action.action_type == ExAction::Branch);
            }
            out.append("Action: ");
            append_hex_fixed(out, target_offset as u32, 6);
            out.append("\n");
            proof {
                assert(out@ =~= old(out)@ + spec_action_body(*action, fp));
            }
        },
        ExActionData::DestroyLocal { local_offset, .. } => {
            proof {
                assert(action.action_type == ExAction::DestroyLocal);
            }
            out.append("Local: ");
            append_hex_prefixed(out, local_offset as u32);
            out.append("(");
            out.append(reg);
            out.append(")\n");
            proof {
                assert(out@ =~= old(out)@ + spec_action_body(*action, fp));
            }
        },
        ExActionData::DestroyLocalCond { condition, local_offset, .. } => {
            proof {
                assert(action.action_type == ExAction::DestroyLocalCond);
            }
            out.append("Local: ");
            append_hex_prefixed(out, local_offset as u32);
            out.append("(");
            out.append(reg);
            out.append(")\n");
            // Bit 0 of the parameter byte picks the condition's addressing:
            // frame offset when clear, register when set.
            if action.action_param & 1 == 0 {
                out.append("Cond: ");
                append_hex_prefixed(out, condition as u32);
                out.append("(");
                out.append(reg);
                out.append(")\n");
            } else {
                out.append("Cond: r");
                append_dec(out, condition as u32);
                out.append("\n");
            }
            proof {
                assert(out@ =~= old(out)@ + spec_action_body(*action, fp));
            }
        },
        ExActionData::DestroyLocalPointer { local_pointer, .. } => {
            proof {
                assert(action.action_type == ExAction::DestroyLocalPointer);
            }
            let mode = action.action_param >> 7;
            if mode == 0 {
                out.append("Pointer: ");
                append_hex_prefixed(out, local_pointer as u32);
                out.append("(");
                out.append(reg);
                out.append(")\n");
            } else {
                out.append("Pointer: r");
                append_dec(out, local_pointer as u32);
                out.append("\n");
            }
            proof {
                assert(out@ =~= old(out)@ + spec_action_body(*action, fp));
            }
        },
        ExActionData::DestroyLocalArray { local_array, elements, element_size, .. } => {
            proof {
                assert(action.action_type == ExAction::DestroyLocalArray);
            }
            out.append("Array: ");
            append_hex_prefixed(out, local_array as u32);
            out.append("(");
            out.append(reg);
            out.append(")\n");
            out.append("Elements: ");
            append_dec(out, elements as u32);
            out.append("\nSize: ");
            append_dec(out, element_size as u32);
            out.append("\n");
            proof {
                assert(out@ =~= old(out)@ + spec_action_body(*action, fp));
            }
        },
        _ => {},
    }
}

/// Appends the body of a member-destruction record.
#[verifier::rlimit(100)]
#[verifier::spinoff_prover]
fn append_body_member(
    out: &mut String,
    action: &ExceptionAction,
    exaction_data: &ExActionData,
    reg: &str,
    fp: bool,
)
    requires
        exaction_data_matches(*action, *exaction_data),
        reg@ == spec_local_reg(fp),
        action.action_type == ExAction::DestroyBase || action.action_type
            == ExAction::DestroyMember,
    ensures
        final(out)@ == old(out)@ + spec_action_body(*action, fp),
{
    match *exaction_data {
        ExActionData::DestroyBase { object_pointer, member_offset, .. }
        | ExActionData::DestroyMember { object_pointer, member_offset, .. } => {
            proof {
                assert(action.action_type == ExAction::DestroyBase || action.action_type
                    == ExAction::DestroyMember);
            }
            let mode = action.action_param >> 7;
            if mode == 0 {
                out.append("Member: ");
                append_hex_prefixed(out, object_pointer as u32);
                out.append("(");
                out.append(reg);
                out.append(")+");
                append_hex_prefixed(out, member_offset);
                out.append("\n");
            } else {
                out.append("Member: ");
                append_hex_prefixed(out, member_offset);
                out.append("(r");
                append_dec(out, object_pointer as u32);
                out.append(")\n");
            }
            proof {
                assert(out@ =~= old(out)@ + spec_action_body(*action, fp));
            }
        },
        _ => {},
    }
}

/// Appends the body of a conditional member-destruction record.
#[verifier::rlimit(100)]
#[verifier::spinoff_prover]
fn append_body_member_cond(
    out: &mut String,
    action: &ExceptionAction,
    exaction_data: &ExActionData,
    reg: &str,
    fp: bool,
)
    requires
        exaction_data_matches(*action, *exaction_data),
        reg@ == spec_local_reg(fp),
        action.action_type == ExAction::DestroyMemberCond,
    ensures
        final(out)@ == old(out)@ + spec_action_body(*action, fp),
{
    match *exaction_data {
        ExActionData::DestroyMemberCond { condition, object_pointer, member_offset, .. } => {
            proof {
                assert(action.action_type == ExAction::DestroyMemberCond);
            }
            let mode = (action.action_param >> 6) & 1;
            if mode == 0 {
                out.append("Member: ");
                append_hex_prefixed(out, object_pointer as u32);
                out.append("(");
                out.append(reg);
                out.append(")+");
                append_hex_prefixed(out, member_offset);
                out.append("\n");
            } else {
                out.append("Member: ");
                append_hex_prefixed(out, member_offset);
                out.append("(r");
                append_dec(out, object_pointer as u32);
                out.append(")\n");
            }
            let condition_mode = action.action_param >> 7;
            if condition_mode == 0 {
                out.append("Cond: ");
                append_hex_prefixed(out, condition as u32);
                out.append("(");
                out.append(reg);
                out.append(")\n");
                proof {
                    assert(out@ =~= old(out)@ + spec_action_body(*action, fp));
                }
            } else {
                out.append("Cond: r");
                append_dec(out, condition as u32);
                out.append("\n");
                proof {
                    assert(out@ =~= old(out)@ + spec_action_body(*action, fp));
                }
            }
        },
        _ => {},
    }
}

/// Appends the body of a member-array-destruction record.
#[verifier::rlimit(100)]
#[verifier::spinoff_prover]
fn append_body_member_array(
    out: &mut String,
    action: &ExceptionAction,
    exaction_data: &ExActionData,
    reg: &str,
    fp: bool,
)
    requires
        exaction_data_matches(*action, *exaction_data),
        reg@ == spec_local_reg(fp),
        action.action_type == ExAction::DestroyMemberArray,
    ensures
        final(out)@ == old(out)@ + spec_action_body(*action, fp),
{
    match *exaction_data {
        ExActionData::DestroyMemberArray {
            object_pointer,
            member_offset,
            elements,
            element_size,
            ..
        } => {
            proof {
                assert(action.action_type == ExAction::DestroyMemberArray);
            }
            let mode = action.action_param >> 7;
            if mode == 0 {
                out.append("Member: ");
                append_hex_prefixed(out, object_pointer as u32);
                out.append("(");
                out.append(reg);
                out.append(")+0x");
                append_dec(out, member_offset);
                out.append("\n");
            } else {
                out.append("Member: ");
                append_hex_prefixed(out, member_offset);
                out.append("(r");
                append_dec(out, object_pointer as u32);
                out.append(")\n");
            }
            out.append("Elements: ");
            append_dec(out, elements);
            out.append("\nSize: ");
            append_dec(out, element_size);
            out.append("\n");
            proof {
                assert(out@ =~= old(out)@ + spec_action_body(*action, fp));
            }
        },
        _ => {},
    }
}

/// Appends the body of a pointer-deletion record.
#[verifier::rlimit(100)]
#[verifier::spinoff_prover]
fn append_body_pointer(
    out: &mut String,
    action: &ExceptionAction,
    exaction_data: &ExActionData,
    reg: &str,
    fp: bool,
)
    requires
        exaction_data_matches(*action, *exaction_data),
        reg@ == spec_local_reg(fp),
        action.action_type == ExAction::DeletePointer || action.action_type
            == ExAction::DeletePointerCond,
    ensures
        final(out)@ == old(out)@ + spec_action_body(*action, fp),
{
    match *exaction_data {
        ExActionData::DeletePointer { object_pointer, .. } => {
            proof {
                assert(action.action_type == ExAction::DeletePointer);
            }
            let mode = action.action_param >> 7;
            if mode == 0 {
                out.append("Pointer: ");
                append_hex_prefixed(out, object_pointer as u32);
                out.append("(");
                out.append(reg);
                out.append(")\n");
            } else {
                out.append("Pointer: r");
                append_dec(out, object_pointer as u32);
                out.append(")\n");
            }
            proof {
                assert(out@ =~= old(out)@ + spec_action_body(*action, fp));
            }
        },
        ExActionData::DeletePointerCond { condition, object_pointer, .. } => {
            proof {
                assert(action.action_type == ExAction::DeletePointerCond);
            }
            let mode = (action.action_param >> 6) & 1;
            if mode == 0 {
                out.append("Pointer: ");
                append_hex_prefixed(out, object_pointer as u32);
                out.append("(");
                out.append(reg);
                out.append(")\n");
            } else {
                out.append("Pointer: r");
                append_dec(out, object_pointer as u32);
                out.append(")\n");
            }
            let condition_mode = action.action_param >> 7;
            if condition_mode == 0 {
                out.append("Cond: ");
                append_hex_prefixed(out, condition as u32);
                out.append("(");
                out.append(reg);
                out.append(")\n");
            } else {
                out.append("Cond: r");
                append_dec(out, condition as u32);
                out.append("\n");
            }
            proof {
                assert(out@ =~= old(out)@ + spec_action_body(*action, fp));
            }
        },
        _ => {},
    }
}

/// Appends the body of a catch-block or specification record.
#[verifier::rlimit(100)]
#[verifier::spinoff_prover]
fn append_body_catch(
    out: &mut String,
    action: &ExceptionAction,
    exaction_data: &ExActionData,
    reg: &str,
    fp: bool,
)
    requires
        exaction_data_matches(*action, *exaction_data),
        reg@ == spec_local_reg(fp),
        action.action_type == ExAction::CatchBlock || action.action_type
            == ExAction::ActiveCatchBlock || action.action_type == ExAction::Specification
            || action.action_type == ExAction::CatchBlock32,
    ensures
        final(out)@ == old(out)@ + spec_action_body(*action, fp),
{
    match *exaction_data {
        ExActionData::CatchBlock { catch_type, catch_pc_offset, cinfo_ref, .. } => {
            proof {
                assert(action.action_type == ExAction::CatchBlock);
            }
            out.append("Local: ");
            append_hex_prefixed(out, cinfo_ref as u32);
            out.append("(");
            out.append(reg);
            out.append(")\nPC: ");
            append_hex_fixed(out, catch_pc_offset as u32, 8);
            out.append("\ncatch_type_addr: ");
            append_hex_fixed(out, catch_type, 8);
            out.append("\n");
            proof {
                assert(out@ =~= old(out)@ + spec_action_body(*action, fp));
            }
        },
        ExActionData::ActiveCatchBlock { cinfo_ref } => {
            proof {
                assert(action.action_type == ExAction::ActiveCatchBlock);
            }
            out.append("Local: ");
            append_hex_prefixed(out, cinfo_ref as u32);
            out.append("(");
            out.append(reg);
            out.append(")\n");
            proof {
                assert(out@ =~= old(out)@ + spec_action_body(*action, fp));
            }
        },
        ExActionData::Specification { specs, pc_offset, cinfo_ref, .. } => {
            proof {
                assert(action.action_type == ExAction::Specification);
            }
            out.append("Local: ");
            append_hex_prefixed(out, cinfo_ref);
            out.append("(");
            out.append(reg);
            out.append(")\nPC: ");
            append_hex_fixed(out, pc_offset, 8);
            out.append("\nTypes: ");
            append_dec(out, specs as u32);
            out.append("\n");
            proof {
                assert(out@ =~= old(out)@ + spec_action_body(*action, fp));
            }
        },
        ExActionData::CatchBlock32 { catch_type, catch_pc_offset, cinfo_ref, .. } => {
            proof {
                assert(action.action_type == ExAction::CatchBlock32);
            }
            out.append("Local: ");
            append_hex_prefixed(out, cinfo_ref);
            out.append("(");
            out.append(reg);
            out.append(")\nPC: ");
            append_hex_fixed(out, catch_pc_offset, 8);
            out.append("\ncatch_type_addr: ");
            append_hex_fixed(out, catch_type, 8);
            out.append("\n");
            proof {
                assert(out@ =~= old(out)@ + spec_action_body(*action, fp));
            }
        },
        _ => {},
    }
}

/// Appends the type-specific lines of one action record, dispatching on the
/// decoded data's variant.
fn append_action_body(
    out: &mut String,
    action: &ExceptionAction,
    exaction_data: &ExActionData,
    reg: &str,
    fp: bool,
)
    requires
        exaction_data_matches(*action, *exaction_data),
        reg@ == spec_local_reg(fp),
    ensures
        final(out)@ == old(out)@ + spec_action_body(*action, fp),
{
    match exaction_data {
        ExActionData::EndOfList => {
            proof {
                assert(out@ =~= old(out)@ + spec_action_body(*action, fp));
            }
        },
        ExActionData::Terminate => {
            proof {
                assert(out@ =~= old(out)@ + spec_action_body(*action, fp));
            }
        },
        ExActionData::Branch { .. }
        | ExActionData::DestroyLocal { .. }
        | ExActionData::DestroyLocalCond { .. }
        | ExActionData::DestroyLocalPointer { .. }
        | ExActionData::DestroyLocalArray { .. } => {
            append_body_local(out, action, exaction_data, reg, fp);
        },
        ExActionData::DestroyBase { .. } | ExActionData::DestroyMember { .. } => {
            append_body_member(out, action, exaction_data, reg, fp);
        },
        ExActionData::DestroyMemberCond { .. } => {
            append_body_member_cond(out, action, exaction_data, reg, fp);
        },
        ExActionData::DestroyMemberArray { .. } => {
            append_body_member_array(out, action, exaction_data, reg, fp);
        },
        ExActionData::DeletePointer { .. } | ExActionData::DeletePointerCond { .. } => {
            append_body_pointer(out, action, exaction_data, reg, fp);
        },
        ExActionData::CatchBlock { .. }
        | ExActionData::ActiveCatchBlock { .. }
        | ExActionData::Specification { .. }
        | ExActionData::CatchBlock32 { .. } => {
            append_body_catch(out, action, exaction_data, reg, fp);
        },
    }
}

/// Appends the full text of one action record: its offset and type name, the
/// type-specific body, the destructor line, and the end-bit marker. Takes the
/// number of names consumed so far and returns it updated: a
/// destructor-bearing record consumes the next name where one remains.
#[verifier::rlimit(100)]
#[verifier::spinoff_prover]
fn append_action_entry(
    out: &mut String,
    action: &ExceptionAction,
    func_names: &Vec<String>,
    func_index: usize,
    reg: &str,
    fp: bool,
    Ghost(idx): Ghost<int>,
) -> (new_index: usize)
    requires
        action.wf(),
        reg@ == spec_local_reg(fp),
        func_index <= func_names@.len(),
        idx >= func_names@.len() <==> func_index >= func_names@.len(),
        idx < func_names@.len() ==> idx == func_index,
    ensures
        final(out)@ == old(out)@ + spec_action_entry_text(*action, fp, func_names@, idx),
        new_index == (if spec_has_dtor_ref(action.action_type) && func_index
            < func_names@.len() {
            func_index + 1
        } else {
            func_index as int
        }),
        new_index <= func_names@.len(),
{
    let mut func_index = func_index;
    append_hex_fixed(out, action.action_offset, 6);
    out.append(":\nType: ");
    let action_name = action.action_type.convert_to_string();
    out.append(action_name.as_str());
    out.append("\n");

    proof {
        assert(out@ =~= old(out)@ + (spec_hex_fixed(action.action_offset as nat, 6)
            + ":\nType: "@ + spec_action_name(action.action_type) + "\n"@));
    }
    let has_dtor_ref = action.has_dtor_ref();
    let exaction_data = action.get_exaction_data();
    append_action_body(out, action, &exaction_data, reg, fp);

    // If the action references a destructor, print it out using the name
    // array.
    let ghost dtor_base = out@;
    if has_dtor_ref {
        if func_index >= func_names.len() {
            out.append("Error: Invalid function array index\n");
        } else {
            out.append("Dtor: \"");
            out.append(func_names[func_index].as_str());
            out.append("\"\n");
            func_index = func_index + 1;
        }
    }
    proof {
        assert(out@ =~= dtor_base + spec_dtor_part(*action, func_names@, idx));
    }

    if action.has_end_bit {
        out.append("Has end bit\n");
    }
    proof {
        assert(out@ =~= old(out)@ + spec_action_entry_text(*action, fp, func_names@, idx));
    }
    func_index
}

/// Appends the "Exception actions" section: one entry per action record, or
/// nothing for a table without records.
#[verifier::rlimit(100)]
#[verifier::spinoff_prover]
fn append_actions_section(out: &mut String, t: &ExceptionTableData, func_names: &Vec<String>)
    requires
        forall|k: int|
            0 <= k < t.exception_actions@.len() ==> (#[trigger] t.exception_actions@[k]).wf(),
    ensures
        final(out)@ == old(out)@ + spec_actions_section(
            t.exception_actions@,
            t.has_frame_pointer,
            func_names@,
        ),
{
    let num_exactions = t.exception_actions.len();
    if num_exactions == 0 {
        return ;
    }
    out.append("Exception actions:\n");
    let local_reg_string: &str = if t.has_frame_pointer {
        "FP"
    } else {
        "SP"
    };
    let mut func_index: usize = 0;
    let ghost base = out@;
    let mut i: usize = 0;
    while i < num_exactions
        invariant
            i <= num_exactions,
            num_exactions == t.exception_actions@.len(),
            forall|k: int|
                0 <= k < t.exception_actions@.len() ==> (#[trigger] t.exception_actions@[k]).wf(),
            func_index == (if spec_dtor_count(t.exception_actions@.take(i as int))
                <= func_names@.len() {
                spec_dtor_count(t.exception_actions@.take(i as int))
            } else {
                func_names@.len() as int
            }),
            func_index <= i,
            local_reg_string@ == spec_local_reg(t.has_frame_pointer),
            out@ == base + spec_action_lines(
                t.exception_actions@.take(i as int),
                t.has_frame_pointer,
                func_names@,
            ),
        decreases num_exactions - i,
    {
        let action = &t.exception_actions[i];
        let ghost idx = spec_dtor_count(t.exception_actions@.take(i as int));
        func_index = append_action_entry(
            out,
            action,
            func_names,
            func_index,
            local_reg_string,
            t.has_frame_pointer,
            Ghost(idx),
        );
        proof {
            let acts = t.exception_actions@;
            assert(acts.take(i + 1).drop_last() =~= acts.take(i as int));
            assert(acts.take(i + 1).last() == acts[i as int]);
            assert(spec_dtor_count(acts.take(i + 1)) == spec_dtor_count(acts.take(i as int)) + (
            if spec_has_dtor_ref(acts[i as int].action_type) {
                1int
            } else {
                0int
            }));
            assert(out@ =~= base + spec_action_lines(
                acts.take(i + 1),
                t.has_frame_pointer,
                func_names@,
            ));
        }
        i = i + 1;
    }
    proof {
        assert(t.exception_actions@.take(num_exactions as int) =~= t.exception_actions@);
    }
}

impl ExceptionTableData {
    /// Converts the table into a string, taking in an array of the function
    /// names required for the table: one name is consumed per
    /// destructor-bearing action record, in record order.
    ///
    /// The saved-register counts must be the 5-bit values the decoder
    /// produces, and every record's payload must match its type's size; both
    /// hold of any decoded table. Returns exactly the text that
    /// `spec_render_table` fixes for this table and name list.
    pub fn to_string(&self, func_names: Vec<String>) -> (r: Option<String>)
        requires
            self.fpr_save_range <= 31,
            self.gpr_save_range <= 31,
            forall|k: int|
                0 <= k < self.exception_actions@.len() ==> (
                #[trigger] self.exception_actions@[k]).wf(),
        ensures
            r matches Some(s) && s@ == spec_render_table(*self, func_names@),
    {
        let mut sb = String::new();
        append_flag_lines(&mut sb, self);
        append_pc_section(&mut sb, &self.pc_actions);
        append_actions_section(&mut sb, self, &func_names);
        proof {
            assert(sb@ =~= spec_render_table(*self, func_names@));
        }
        Some(sb)
    }
}

} // verus!
