//! Dropout at inference is the identity: a dropout that is not the output
//! aliases its operand's buffer and emits nothing; one that is the output
//! copies the operand into the caller's output buffer.

use vstd::prelude::*;
use crate::text::{push_str, push_decimal, push_labeled, decimal, labeled};
use crate::types::BufferLoc;
use crate::arm64::abi::{AbiContext, materialisable, materialise_text};
use crate::arm64::frame::{movz_movk_text, push_movz_movk};
use crate::arm64::arg_writes::{
    scan, scan_at, writes_no_arg_reg, lemma_scan_append, lemma_scan_literal, lemma_scan_sound, lemma_decimal_scan,
    lemma_movz_movk_scan, lemma_materialise_scan, lemma_labeled_scan, lemma_common_lines,
};

verus! {

/// The copy loop: pointers in `x11`/`x12`, bound in `x10`, counter `x9`.
pub open spec fn dropout_copy_text(
    n_inputs: nat,
    total_floats: u64,
    model_idx: nat,
    dropout_idx: nat,
    src_loc: BufferLoc,
    dst_loc: BufferLoc,
) -> Seq<char> {
    "    ; dropout-as-output: copy operand\u{2192}output ("@ + decimal(total_floats as nat) + " elements)\n"@
        + materialise_text(n_inputs, src_loc, "x11"@)
        + materialise_text(n_inputs, dst_loc, "x12"@)
        + movz_movk_text("x10"@, total_floats as nat)
        + "    mov     x9, #0\n"@
        + labeled(".Ldropout_"@, model_idx, dropout_idx, ":\n"@)
        + "    cmp     x9, x10\n"@
        + labeled("    b.ge    .Ldropout_end_"@, model_idx, dropout_idx, "\n"@)
        + "    ldr     s3, [x11, x9, lsl #2]\n"@
        + "    str     s3, [x12, x9, lsl #2]\n"@
        + "    add     x9, x9, #1\n"@
        + labeled("    b       .Ldropout_"@, model_idx, dropout_idx, "\n"@)
        + labeled(".Ldropout_end_"@, model_idx, dropout_idx, ":\n"@)
}

proof fn lemma_dropout_line_0(k: nat)
    requires
        k <= 6,
    ensures
        scan(k, 0, "    ; dropout-as-output: copy operand\u{2192}output ("@) == 0,
{
    reveal_strlit("    ; dropout-as-output: copy operand\u{2192}output (");
    lemma_scan_literal(k, 0, "    ; dropout-as-output: copy operand\u{2192}output ("@);
    reveal_with_fuel(scan_at, 47);
}

proof fn lemma_dropout_line_1(k: nat)
    requires
        k <= 6,
    ensures
        scan(k, 0, ".Ldropout_"@) == 0,
{
    reveal_strlit(".Ldropout_");
    lemma_scan_literal(k, 0, ".Ldropout_"@);
    reveal_with_fuel(scan_at, 11);
}

proof fn lemma_dropout_line_2(k: nat)
    requires
        k <= 6,
    ensures
        scan(k, 0, "    b.ge    .Ldropout_end_"@) == 0,
{
    reveal_strlit("    b.ge    .Ldropout_end_");
    lemma_scan_literal(k, 0, "    b.ge    .Ldropout_end_"@);
    reveal_with_fuel(scan_at, 27);
}

proof fn lemma_dropout_line_3(k: nat)
    requires
        k <= 6,
    ensures
        scan(k, 0, "    b       .Ldropout_"@) == 0,
{
    reveal_strlit("    b       .Ldropout_");
    lemma_scan_literal(k, 0, "    b       .Ldropout_"@);
    reveal_with_fuel(scan_at, 23);
}

proof fn lemma_dropout_line_4(k: nat)
    requires
        k <= 6,
    ensures
        scan(k, 0, ".Ldropout_end_"@) == 0,
{
    reveal_strlit(".Ldropout_end_");
    lemma_scan_literal(k, 0, ".Ldropout_end_"@);
    reveal_with_fuel(scan_at, 15);
}

/// Where the automaton stands after each fixed piece of the copy loop text.
proof fn lemma_dropout_lines(k: nat)
    requires
        k <= 6,
    ensures
        scan(k, 0, "    ; dropout-as-output: copy operand\u{2192}output ("@) == 0,
        scan(k, 0, ".Ldropout_"@) == 0,
        scan(k, 0, "    b.ge    .Ldropout_end_"@) == 0,
        scan(k, 0, "    b       .Ldropout_"@) == 0,
        scan(k, 0, ".Ldropout_end_"@) == 0,
{
    lemma_dropout_line_0(k);
    lemma_dropout_line_1(k);
    lemma_dropout_line_2(k);
    lemma_dropout_line_3(k);
    lemma_dropout_line_4(k);
}

/// The copy loop names no argument register in use as a destination, at
/// any number of inputs.
proof fn lemma_dropout_writes_no_arg_reg(
    n_inputs: nat,
    total_floats: u64,
    model_idx: nat,
    dropout_idx: nat,
    src_loc: BufferLoc,
    dst_loc: BufferLoc,
)
    requires
        n_inputs + 2 <= 6,
        materialisable(n_inputs, src_loc),
        materialisable(n_inputs, dst_loc),
    ensures
        writes_no_arg_reg(dropout_copy_text(n_inputs, total_floats, model_idx, dropout_idx, src_loc, dst_loc), n_inputs + 2),
{
    let k = n_inputs + 2;
    broadcast use lemma_scan_append;
    lemma_common_lines(k);
    lemma_dropout_lines(k);
    lemma_decimal_scan(k, 0, total_floats as nat);
    lemma_movz_movk_scan(k, "x10"@, total_floats as nat);
    lemma_materialise_scan(k, n_inputs, src_loc, "x11"@);
    lemma_materialise_scan(k, n_inputs, dst_loc, "x12"@);
    lemma_labeled_scan(k, ".Ldropout_"@, model_idx, dropout_idx, ":\n"@);
    lemma_labeled_scan(k, "    b.ge    .Ldropout_end_"@, model_idx, dropout_idx, "\n"@);
    lemma_labeled_scan(k, "    b       .Ldropout_"@, model_idx, dropout_idx, "\n"@);
    lemma_labeled_scan(k, ".Ldropout_end_"@, model_idx, dropout_idx, ":\n"@);
    lemma_scan_sound(dropout_copy_text(n_inputs, total_floats, model_idx, dropout_idx, src_loc, dst_loc), k);
}

/// Emits the element-by-element copy used when a dropout is the output.
pub fn emit_dropout_copy(
    abi: &AbiContext,
    total_floats: u64,
    model_idx: usize,
    dropout_idx: usize,
    src_loc: BufferLoc,
    dst_loc: BufferLoc,
) -> (s: String)
    requires
        abi.n_inputs + 2 <= 6,
        materialisable(abi.n_inputs as nat, src_loc),
        dst_loc == BufferLoc::OutputReg,
        total_floats <= u32::MAX,
    ensures
        s@ == dropout_copy_text(abi.n_inputs as nat, total_floats, model_idx as nat, dropout_idx as nat, src_loc, dst_loc),
        writes_no_arg_reg(s@, (abi.n_inputs + 2) as nat),
{
    let mut s = String::new();
    push_str(&mut s, "    ; dropout-as-output: copy operand\u{2192}output (");
    push_decimal(&mut s, total_floats);
    push_str(&mut s, " elements)\n");
    abi.materialise_ptr(src_loc, "x11", &mut s);
    abi.materialise_ptr(dst_loc, "x12", &mut s);
    push_movz_movk(&mut s, "x10", total_floats);
    push_str(&mut s, "    mov     x9, #0\n");
    push_labeled(&mut s, ".Ldropout_", model_idx, dropout_idx, ":\n");
    push_str(&mut s, "    cmp     x9, x10\n");
    push_labeled(&mut s, "    b.ge    .Ldropout_end_", model_idx, dropout_idx, "\n");
    push_str(&mut s, "    ldr     s3, [x11, x9, lsl #2]\n");
    push_str(&mut s, "    str     s3, [x12, x9, lsl #2]\n");
    push_str(&mut s, "    add     x9, x9, #1\n");
    push_labeled(&mut s, "    b       .Ldropout_", model_idx, dropout_idx, "\n");
    push_labeled(&mut s, ".Ldropout_end_", model_idx, dropout_idx, ":\n");
    proof {
        lemma_dropout_writes_no_arg_reg(abi.n_inputs as nat, total_floats, model_idx as nat, dropout_idx as nat, src_loc, dst_loc);
    }
    s
}

} // verus!
