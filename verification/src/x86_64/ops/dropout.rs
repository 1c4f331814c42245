//! Dropout is the identity at inference. Only when the dropout node is the
//! model's output does it emit code: a copy of its operand into the
//! caller's output buffer.

use vstd::prelude::*;
use crate::text::{push_str, push_decimal, push_labeled, decimal, labeled};
use crate::types::BufferLoc;
use crate::x86_64::abi::{AbiContext, materialisable, materialise_text};
use crate::x86_64::frame::{push_imm32_to_r10, imm32_to_r10_text};
use crate::x86_64::arg_writes::{
    scan, scan_at, writes_no_arg_reg, lemma_scan_append, lemma_scan_literal, lemma_scan_sound, lemma_decimal_scan,
    lemma_imm32_scan, lemma_materialise_scan, lemma_labeled_scan, lemma_common_lines, lemma_scratch_pointers,
};

verus! {

/// The copy loop: pointers in `%rax`/`%r11`, bound in `%r10`, counter in
/// `%rbp`; no argument register is written.
pub open spec fn dropout_copy_text(
    n_inputs: nat,
    total_floats: u64,
    model_idx: nat,
    dropout_idx: nat,
    src_loc: BufferLoc,
    dst_loc: BufferLoc,
) -> Seq<char> {
    "    # dropout-as-output: copy operand\u{2192}output ("@ + decimal(total_floats as nat)
        + " elements)\n"@
        + materialise_text(n_inputs, src_loc, "%rax"@)
        + materialise_text(n_inputs, dst_loc, "%r11"@)
        + imm32_to_r10_text((total_floats as u32) as nat)
        + "    xorq    %rbp, %rbp\n"@
        + labeled(".Ldropout_"@, model_idx, dropout_idx, ":\n"@)
        + "    cmpq    %r10, %rbp\n"@
        + labeled("    jge     .Ldropout_end_"@, model_idx, dropout_idx, "\n"@)
        + "    movss   (%rax, %rbp, 4), %xmm0\n"@
        + "    movss   %xmm0, (%r11, %rbp, 4)\n"@
        + "    incq    %rbp\n"@
        + labeled("    jmp     .Ldropout_"@, model_idx, dropout_idx, "\n"@)
        + labeled(".Ldropout_end_"@, model_idx, dropout_idx, ":\n"@)
}

proof fn lemma_dropout_line_0()
    ensures
        scan(0, "    # dropout-as-output: copy operand\u{2192}output ("@) == 0,
{
    reveal_strlit("    # dropout-as-output: copy operand\u{2192}output (");
    lemma_scan_literal(0, "    # dropout-as-output: copy operand\u{2192}output ("@);
    reveal_with_fuel(scan_at, 47);
}

proof fn lemma_dropout_line_1()
    ensures
        scan(0, ".Ldropout_"@) == 0,
{
    reveal_strlit(".Ldropout_");
    lemma_scan_literal(0, ".Ldropout_"@);
    reveal_with_fuel(scan_at, 11);
}

proof fn lemma_dropout_line_2()
    ensures
        scan(0, "    jge     .Ldropout_end_"@) == 0,
{
    reveal_strlit("    jge     .Ldropout_end_");
    lemma_scan_literal(0, "    jge     .Ldropout_end_"@);
    reveal_with_fuel(scan_at, 27);
}

proof fn lemma_dropout_line_3()
    ensures
        scan(0, "    jmp     .Ldropout_"@) == 0,
{
    reveal_strlit("    jmp     .Ldropout_");
    lemma_scan_literal(0, "    jmp     .Ldropout_"@);
    reveal_with_fuel(scan_at, 23);
}

proof fn lemma_dropout_line_4()
    ensures
        scan(0, ".Ldropout_end_"@) == 0,
{
    reveal_strlit(".Ldropout_end_");
    lemma_scan_literal(0, ".Ldropout_end_"@);
    reveal_with_fuel(scan_at, 15);
}

/// Where the automaton stands after each fixed piece of the copy loop text.
proof fn lemma_dropout_lines()
    ensures
        scan(0, "    # dropout-as-output: copy operand\u{2192}output ("@) == 0,
        scan(0, ".Ldropout_"@) == 0,
        scan(0, "    jge     .Ldropout_end_"@) == 0,
        scan(0, "    jmp     .Ldropout_"@) == 0,
        scan(0, ".Ldropout_end_"@) == 0,
{
    lemma_dropout_line_0();
    lemma_dropout_line_1();
    lemma_dropout_line_2();
    lemma_dropout_line_3();
    lemma_dropout_line_4();
}

/// The copy loop writes no argument register, at any number of inputs.
proof fn lemma_dropout_writes_no_arg_reg(
    n_inputs: nat,
    total_floats: u64,
    model_idx: nat,
    dropout_idx: nat,
    src_loc: BufferLoc,
    dst_loc: BufferLoc,
)
    requires
        n_inputs + 2 <= 6,
        materialisable(n_inputs, src_loc),
        materialisable(n_inputs, dst_loc),
    ensures
        writes_no_arg_reg(dropout_copy_text(n_inputs, total_floats, model_idx, dropout_idx, src_loc, dst_loc)),
{
    broadcast use lemma_scan_append;
    lemma_common_lines();
    lemma_scratch_pointers();
    lemma_dropout_lines();
    lemma_decimal_scan(total_floats as nat);
    lemma_imm32_scan((total_floats as u32) as nat);
    lemma_materialise_scan(n_inputs, src_loc, "%rax"@);
    lemma_materialise_scan(n_inputs, dst_loc, "%r11"@);
    lemma_labeled_scan(".Ldropout_"@, model_idx, dropout_idx, ":\n"@);
    lemma_labeled_scan("    jge     .Ldropout_end_"@, model_idx, dropout_idx, "\n"@);
    lemma_labeled_scan("    jmp     .Ldropout_"@, model_idx, dropout_idx, "\n"@);
    lemma_labeled_scan(".Ldropout_end_"@, model_idx, dropout_idx, ":\n"@);
    lemma_scan_sound(dropout_copy_text(n_inputs, total_floats, model_idx, dropout_idx, src_loc, dst_loc));
}

/// Emits the element-by-element copy used when a dropout is the output.
pub fn emit_dropout_copy(
    abi: &AbiContext,
    total_floats: u64,
    model_idx: usize,
    dropout_idx: usize,
    src_loc: BufferLoc,
    dst_loc: BufferLoc,
) -> (s: String)
    requires
        abi.n_inputs + 2 <= 6,
        materialisable(abi.n_inputs as nat, src_loc),
        dst_loc == BufferLoc::OutputReg,
    ensures
        s@ == dropout_copy_text(
            abi.n_inputs as nat,
            total_floats,
            model_idx as nat,
            dropout_idx as nat,
            src_loc,
            dst_loc,
        ),
        writes_no_arg_reg(s@),
{
    let mut s = String::new();
    push_str(&mut s, "    # dropout-as-output: copy operand\u{2192}output (");
    push_decimal(&mut s, total_floats);
    push_str(&mut s, " elements)\n");
    abi.materialise_ptr(src_loc, "%rax", &mut s);
    abi.materialise_ptr(dst_loc, "%r11", &mut s);
    push_imm32_to_r10(&mut s, total_floats as u32);
    push_str(&mut s, "    xorq    %rbp, %rbp\n");
    push_labeled(&mut s, ".Ldropout_", model_idx, dropout_idx, ":\n");
    push_str(&mut s, "    cmpq    %r10, %rbp\n");
    push_labeled(&mut s, "    jge     .Ldropout_end_", model_idx, dropout_idx, "\n");
    push_str(&mut s, "    movss   (%rax, %rbp, 4), %xmm0\n");
    push_str(&mut s, "    movss   %xmm0, (%r11, %rbp, 4)\n");
    push_str(&mut s, "    incq    %rbp\n");
    push_labeled(&mut s, "    jmp     .Ldropout_", model_idx, dropout_idx, "\n");
    push_labeled(&mut s, ".Ldropout_end_", model_idx, dropout_idx, ":\n");
    proof {
        lemma_dropout_writes_no_arg_reg(abi.n_inputs as nat, total_floats, model_idx as nat, dropout_idx as nat, src_loc, dst_loc);
    }
    s
}

} // verus!
