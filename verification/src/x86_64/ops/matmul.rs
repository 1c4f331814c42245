//! Multi-dimensional matmul: an outer loop over the product of the leading
//! dimensions around a triple-loop `[M, K] x [K, N]` kernel (`[N, K]` when
//! `transpose_b`). The body writes only callee-saved registers and non-ABI
//! scratch, so every argument register survives for later ops, and it
//! neither pushes nor calls.

use vstd::prelude::*;
use crate::text::{
    push_str, push_decimal, decimal, op_id, op_id_string, has_piece, lemma_piece_left, lemma_piece_right,
    lemma_piece_mid, lemma_ends_self, lemma_ends_grow, lemma_ends_piece,
};
use crate::x86_64::dataflow::{
    Ins, Reg, Store, Term, line, lines, run, value, computes, stores, lemma_push, init, load, fadd, fmul,
    row_major,
};
use crate::types::{BufferLoc, LowerError, Span};
use crate::x86_64::abi::{AbiContext, materialisable, materialise_text};
use crate::x86_64::frame::{push_imm32_to_r10, imm32_to_r10_text};
use crate::x86_64::ops::loops::{push_loop_head, push_loop_tail, loop_head, loop_tail};
use crate::x86_64::arg_writes::{
    scan, scan_at, scratch_dst, writes_no_arg_reg, lemma_scan_append, lemma_scan_literal, lemma_scan_sound,
    lemma_decimal_scan, lemma_decimal_scan_from, lemma_imm32_scan, lemma_materialise_scan,
    lemma_materialise_pieces,
    lemma_op_id_scan, lemma_common_lines, lemma_scratch_pointers, lemma_loop_head_scan, lemma_loop_tail_scan,
};

verus! {

pub open spec fn bool_text(b: bool) -> Seq<char> {
    if b { "true"@ } else { "false"@ }
}

/// `<reg> = <base> + %r15 * slice * 4` for one operand's slice pointer.
pub open spec fn slice_ptr_text(slice: nat, base_xmm: Seq<char>, reg: Seq<char>) -> Seq<char> {
    imm32_to_r10_text((slice as u32) as nat) + "    movq    %r15, %rax\n"@ + "    imulq   %r10, %rax\n"@
        + "    movq    "@ + base_xmm + ", "@ + reg + "\n"@
        + "    leaq    ("@ + reg + ", %rax, 4), "@ + reg + "\n"@
}

/// The offset of `B[k_inner, j]`, or of `B[j, k_inner]` when transposed.
pub open spec fn b_offset_text(k: u64, n: u64, transpose_b: bool) -> Seq<char> {
    if transpose_b {
        imm32_to_r10_text((k as u32) as nat) + "    movq    %rbp, %rax\n"@ + "    imulq   %r10, %rax\n"@
            + "    addq    %r11, %rax\n"@
    } else {
        imm32_to_r10_text((n as u32) as nat) + "    movq    %r11, %rax\n"@ + "    imulq   %r10, %rax\n"@
            + "    addq    %rbp, %rax\n"@
    }
}

pub open spec fn matmul_kernel_text(
    m: u64,
    k: u64,
    n: u64,
    transpose_b: bool,
    id: Seq<char>,
) -> Seq<char> {
    "    movq    $0, %rbx\n"@
        + loop_head(".Lmm4d_i_"@, "    jge     .Lmm4d_i_end_"@, "%rbx"@, (m as u32) as nat, id)
        + "    movq    $0, %rbp\n"@
        + loop_head(".Lmm4d_j_"@, "    jge     .Lmm4d_j_end_"@, "%rbp"@, (n as u32) as nat, id)
        + "    xorps   %xmm0, %xmm0\n"@
        + "    movq    $0, %r11\n"@
        + loop_head(".Lmm4d_k_"@, "    jge     .Lmm4d_k_end_"@, "%r11"@, (k as u32) as nat, id)
        + imm32_to_r10_text((k as u32) as nat) + "    movq    %rbx, %rax\n"@ + "    imulq   %r10, %rax\n"@
        + "    addq    %r11, %rax\n"@ + "    movss   (%r12, %rax, 4), %xmm1\n"@
        + b_offset_text(k, n, transpose_b)
        + "    movss   (%r13, %rax, 4), %xmm2\n"@
        + "    mulss   %xmm2, %xmm1\n"@
        + "    addss   %xmm1, %xmm0\n"@
        + loop_tail("    addq    $1, %r11\n"@, "    jmp     .Lmm4d_k_"@, ".Lmm4d_k_end_"@, id)
        + imm32_to_r10_text((n as u32) as nat) + "    movq    %rbx, %rax\n"@ + "    imulq   %r10, %rax\n"@
        + "    addq    %rbp, %rax\n"@ + "    movss   %xmm0, (%r14, %rax, 4)\n"@
        + loop_tail("    addq    $1, %rbp\n"@, "    jmp     .Lmm4d_j_"@, ".Lmm4d_j_end_"@, id)
        + loop_tail("    addq    $1, %rbx\n"@, "    jmp     .Lmm4d_i_"@, ".Lmm4d_i_end_"@, id)
}

/// The whole matmul: base pointers parked in `%xmm8/%xmm6/%xmm7`, the outer
/// loop over `%r15` deriving slice pointers in `%r12/%r13/%r14`, the kernel
/// with counters `%rbx` (i), `%rbp` (j), `%r11` (k).
pub open spec fn matmul_text(
    n_inputs: nat,
    leading_count: u64,
    m: u64,
    k: u64,
    n: u64,
    transpose_b: bool,
    id: Seq<char>,
    a_loc: BufferLoc,
    b_loc: BufferLoc,
    dst_loc: BufferLoc,
) -> Seq<char> {
    "    # matmul (leading_count="@ + decimal(leading_count as nat) + "): ["@ + decimal(m as nat) + ","@
        + decimal(k as nat) + "] x ["@ + decimal(k as nat) + ","@ + decimal(n as nat) + "] -> ["@
        + decimal(m as nat) + ","@ + decimal(n as nat) + "], transpose_b="@ + bool_text(transpose_b)
        + "\n"@
        + materialise_text(n_inputs, a_loc, "%rax"@) + "    movq    %rax, %xmm8\n"@
        + materialise_text(n_inputs, b_loc, "%rax"@) + "    movq    %rax, %xmm6\n"@
        + materialise_text(n_inputs, dst_loc, "%rax"@) + "    movq    %rax, %xmm7\n"@
        + "    movq    $0, %r15\n"@
        + loop_head(".Lmm4d_outer_"@, "    jge     .Lmm4d_outer_end_"@, "%r15"@,
            (leading_count as u32) as nat, id)
        + slice_ptr_text((m * k) as nat, "%xmm8"@, "%r12"@)
        + slice_ptr_text((k * n) as nat, "%xmm6"@, "%r13"@)
        + slice_ptr_text((m * n) as nat, "%xmm7"@, "%r14"@)
        + matmul_kernel_text(m, k, n, transpose_b, id)
        + loop_tail("    addq    $1, %r15\n"@, "    jmp     .Lmm4d_outer_"@, ".Lmm4d_outer_end_"@, id)
}

fn push_bool(s: &mut String, b: bool)
    ensures
        final(s)@ == old(s)@ + bool_text(b),
{
    if b {
        push_str(s, "true");
    } else {
        push_str(s, "false");
    }
}

fn push_slice_ptr(s: &mut String, slice: usize, base_xmm: &str, reg: &str)
    ensures
        final(s)@ == old(s)@ + slice_ptr_text(slice as nat, base_xmm@, reg@),
{
    let ghost start = s@;
    push_imm32_to_r10(s, slice as u32);
    push_str(s, "    movq    %r15, %rax\n");
    push_str(s, "    imulq   %r10, %rax\n");
    push_str(s, "    movq    ");
    push_str(s, base_xmm);
    push_str(s, ", ");
    push_str(s, reg);
    push_str(s, "\n");
    push_str(s, "    leaq    (");
    push_str(s, reg);
    push_str(s, ", %rax, 4), ");
    push_str(s, reg);
    push_str(s, "\n");
    proof {
        assert(s@ =~= start + slice_ptr_text(slice as nat, base_xmm@, reg@));
    }
}

fn push_b_offset(s: &mut String, k: u64, n: u64, transpose_b: bool)
    ensures
        final(s)@ == old(s)@ + b_offset_text(k, n, transpose_b),
{
    let ghost start = s@;
    if transpose_b {
        push_imm32_to_r10(s, k as u32);
        push_str(s, "    movq    %rbp, %rax\n");
        push_str(s, "    imulq   %r10, %rax\n");
        push_str(s, "    addq    %r11, %rax\n");
    } else {
        push_imm32_to_r10(s, n as u32);
        push_str(s, "    movq    %r11, %rax\n");
        push_str(s, "    imulq   %r10, %rax\n");
        push_str(s, "    addq    %rbp, %rax\n");
    }
    proof {
        assert(s@ =~= start + b_offset_text(k, n, transpose_b));
    }
}

fn push_kernel(s: &mut String, m: u64, k: u64, n: u64, transpose_b: bool, id: &str)
    ensures
        final(s)@ == old(s)@ + matmul_kernel_text(m, k, n, transpose_b, id@),
{
    let mut t = "    movq    $0, %rbx\n".to_owned();
    push_loop_head(&mut t, ".Lmm4d_i_", "    jge     .Lmm4d_i_end_", "%rbx", m as u32, id);
    push_str(&mut t, "    movq    $0, %rbp\n");
    push_loop_head(&mut t, ".Lmm4d_j_", "    jge     .Lmm4d_j_end_", "%rbp", n as u32, id);
    push_str(&mut t, "    xorps   %xmm0, %xmm0\n");
    push_str(&mut t, "    movq    $0, %r11\n");
    push_loop_head(&mut t, ".Lmm4d_k_", "    jge     .Lmm4d_k_end_", "%r11", k as u32, id);
    push_imm32_to_r10(&mut t, k as u32);
    push_str(&mut t, "    movq    %rbx, %rax\n");
    push_str(&mut t, "    imulq   %r10, %rax\n");
    push_str(&mut t, "    addq    %r11, %rax\n");
    push_str(&mut t, "    movss   (%r12, %rax, 4), %xmm1\n");
    push_b_offset(&mut t, k, n, transpose_b);
    push_str(&mut t, "    movss   (%r13, %rax, 4), %xmm2\n");
    push_str(&mut t, "    mulss   %xmm2, %xmm1\n");
    push_str(&mut t, "    addss   %xmm1, %xmm0\n");
    push_loop_tail(&mut t, "    addq    $1, %r11\n", "    jmp     .Lmm4d_k_", ".Lmm4d_k_end_", id);
    push_imm32_to_r10(&mut t, n as u32);
    push_str(&mut t, "    movq    %rbx, %rax\n");
    push_str(&mut t, "    imulq   %r10, %rax\n");
    push_str(&mut t, "    addq    %rbp, %rax\n");
    push_str(&mut t, "    movss   %xmm0, (%r14, %rax, 4)\n");
    push_loop_tail(&mut t, "    addq    $1, %rbp\n", "    jmp     .Lmm4d_j_", ".Lmm4d_j_end_", id);
    push_loop_tail(&mut t, "    addq    $1, %rbx\n", "    jmp     .Lmm4d_i_", ".Lmm4d_i_end_", id);
    push_str(s, t.as_str());
}

proof fn lemma_matmul_line_0()
    ensures
        scan(0, "true"@) == 0,
{
    reveal_strlit("true");
    lemma_scan_literal(0, "true"@);
    reveal_with_fuel(scan_at, 5);
}

proof fn lemma_matmul_line_1()
    ensures
        scan(0, "false"@) == 0,
{
    reveal_strlit("false");
    lemma_scan_literal(0, "false"@);
    reveal_with_fuel(scan_at, 6);
}

proof fn lemma_matmul_line_2()
    ensures
        scan(0, "    movq    %r15, %rax\n"@) == 0,
{
    reveal_strlit("    movq    %r15, %rax\n");
    lemma_scan_literal(0, "    movq    %r15, %rax\n"@);
    reveal_with_fuel(scan_at, 24);
}

proof fn lemma_matmul_line_3()
    ensures
        scan(0, "    imulq   %r10, %rax\n"@) == 0,
{
    reveal_strlit("    imulq   %r10, %rax\n");
    lemma_scan_literal(0, "    imulq   %r10, %rax\n"@);
    reveal_with_fuel(scan_at, 24);
}

proof fn lemma_matmul_line_4()
    ensures
        scan(0, "    movq    "@) == 0,
{
    reveal_strlit("    movq    ");
    lemma_scan_literal(0, "    movq    "@);
    reveal_with_fuel(scan_at, 13);
}

proof fn lemma_matmul_line_5()
    ensures
        scan(0, "    leaq    ("@) == 0,
{
    reveal_strlit("    leaq    (");
    lemma_scan_literal(0, "    leaq    ("@);
    reveal_with_fuel(scan_at, 14);
}

proof fn lemma_matmul_line_6()
    ensures
        scan(0, ", %rax, 4), "@) == 2,
{
    reveal_strlit(", %rax, 4), ");
    lemma_scan_literal(0, ", %rax, 4), "@);
    reveal_with_fuel(scan_at, 13);
}

proof fn lemma_matmul_line_7()
    ensures
        scan(0, "    movq    %rbp, %rax\n"@) == 0,
{
    reveal_strlit("    movq    %rbp, %rax\n");
    lemma_scan_literal(0, "    movq    %rbp, %rax\n"@);
    reveal_with_fuel(scan_at, 24);
}

proof fn lemma_matmul_line_8()
    ensures
        scan(0, "    addq    %r11, %rax\n"@) == 0,
{
    reveal_strlit("    addq    %r11, %rax\n");
    lemma_scan_literal(0, "    addq    %r11, %rax\n"@);
    reveal_with_fuel(scan_at, 24);
}

proof fn lemma_matmul_line_9()
    ensures
        scan(0, "    movq    %r11, %rax\n"@) == 0,
{
    reveal_strlit("    movq    %r11, %rax\n");
    lemma_scan_literal(0, "    movq    %r11, %rax\n"@);
    reveal_with_fuel(scan_at, 24);
}

proof fn lemma_matmul_line_10()
    ensures
        scan(0, "    addq    %rbp, %rax\n"@) == 0,
{
    reveal_strlit("    addq    %rbp, %rax\n");
    lemma_scan_literal(0, "    addq    %rbp, %rax\n"@);
    reveal_with_fuel(scan_at, 24);
}

proof fn lemma_matmul_line_11()
    ensures
        scan(0, "    movq    $0, %rbx\n"@) == 0,
{
    reveal_strlit("    movq    $0, %rbx\n");
    lemma_scan_literal(0, "    movq    $0, %rbx\n"@);
    reveal_with_fuel(scan_at, 22);
}

proof fn lemma_matmul_line_12()
    ensures
        scan(0, ".Lmm4d_i_"@) == 0,
{
    reveal_strlit(".Lmm4d_i_");
    lemma_scan_literal(0, ".Lmm4d_i_"@);
    reveal_with_fuel(scan_at, 10);
}

proof fn lemma_matmul_line_13()
    ensures
        scan(0, "    jge     .Lmm4d_i_end_"@) == 0,
{
    reveal_strlit("    jge     .Lmm4d_i_end_");
    lemma_scan_literal(0, "    jge     .Lmm4d_i_end_"@);
    reveal_with_fuel(scan_at, 26);
}

proof fn lemma_matmul_line_14()
    ensures
        scan(0, "%rbx"@) == 0,
{
    reveal_strlit("%rbx");
    lemma_scan_literal(0, "%rbx"@);
    reveal_with_fuel(scan_at, 5);
}

proof fn lemma_matmul_line_15()
    ensures
        scan(0, ".Lmm4d_j_"@) == 0,
{
    reveal_strlit(".Lmm4d_j_");
    lemma_scan_literal(0, ".Lmm4d_j_"@);
    reveal_with_fuel(scan_at, 10);
}

proof fn lemma_matmul_line_16()
    ensures
        scan(0, "    jge     .Lmm4d_j_end_"@) == 0,
{
    reveal_strlit("    jge     .Lmm4d_j_end_");
    lemma_scan_literal(0, "    jge     .Lmm4d_j_end_"@);
    reveal_with_fuel(scan_at, 26);
}

proof fn lemma_matmul_line_17()
    ensures
        scan(0, "%rbp"@) == 0,
{
    reveal_strlit("%rbp");
    lemma_scan_literal(0, "%rbp"@);
    reveal_with_fuel(scan_at, 5);
}

proof fn lemma_matmul_line_18()
    ensures
        scan(0, "    xorps   %xmm0, %xmm0\n"@) == 0,
{
    reveal_strlit("    xorps   %xmm0, %xmm0\n");
    lemma_scan_literal(0, "    xorps   %xmm0, %xmm0\n"@);
    reveal_with_fuel(scan_at, 26);
}

proof fn lemma_matmul_line_19()
    ensures
        scan(0, "    movq    $0, %r11\n"@) == 0,
{
    reveal_strlit("    movq    $0, %r11\n");
    lemma_scan_literal(0, "    movq    $0, %r11\n"@);
    reveal_with_fuel(scan_at, 22);
}

proof fn lemma_matmul_line_20()
    ensures
        scan(0, ".Lmm4d_k_"@) == 0,
{
    reveal_strlit(".Lmm4d_k_");
    lemma_scan_literal(0, ".Lmm4d_k_"@);
    reveal_with_fuel(scan_at, 10);
}

proof fn lemma_matmul_line_21()
    ensures
        scan(0, "    jge     .Lmm4d_k_end_"@) == 0,
{
    reveal_strlit("    jge     .Lmm4d_k_end_");
    lemma_scan_literal(0, "    jge     .Lmm4d_k_end_"@);
    reveal_with_fuel(scan_at, 26);
}

proof fn lemma_matmul_line_22()
    ensures
        scan(0, "    movq    %rbx, %rax\n"@) == 0,
{
    reveal_strlit("    movq    %rbx, %rax\n");
    lemma_scan_literal(0, "    movq    %rbx, %rax\n"@);
    reveal_with_fuel(scan_at, 24);
}

proof fn lemma_matmul_line_23()
    ensures
        scan(0, "    movss   (%r12, %rax, 4), %xmm1\n"@) == 0,
{
    reveal_strlit("    movss   (%r12, %rax, 4), %xmm1\n");
    lemma_scan_literal(0, "    movss   (%r12, %rax, 4), %xmm1\n"@);
    reveal_with_fuel(scan_at, 36);
}

proof fn lemma_matmul_line_24()
    ensures
        scan(0, "    movss   (%r13, %rax, 4), %xmm2\n"@) == 0,
{
    reveal_strlit("    movss   (%r13, %rax, 4), %xmm2\n");
    lemma_scan_literal(0, "    movss   (%r13, %rax, 4), %xmm2\n"@);
    reveal_with_fuel(scan_at, 36);
}

proof fn lemma_matmul_line_25()
    ensures
        scan(0, "    mulss   %xmm2, %xmm1\n"@) == 0,
{
    reveal_strlit("    mulss   %xmm2, %xmm1\n");
    lemma_scan_literal(0, "    mulss   %xmm2, %xmm1\n"@);
    reveal_with_fuel(scan_at, 26);
}

proof fn lemma_matmul_line_26()
    ensures
        scan(0, "    addss   %xmm1, %xmm0\n"@) == 0,
{
    reveal_strlit("    addss   %xmm1, %xmm0\n");
    lemma_scan_literal(0, "    addss   %xmm1, %xmm0\n"@);
    reveal_with_fuel(scan_at, 26);
}

proof fn lemma_matmul_line_27()
    ensures
        scan(0, "    addq    $1, %r11\n"@) == 0,
{
    reveal_strlit("    addq    $1, %r11\n");
    lemma_scan_literal(0, "    addq    $1, %r11\n"@);
    reveal_with_fuel(scan_at, 22);
}

proof fn lemma_matmul_line_28()
    ensures
        scan(0, "    jmp     .Lmm4d_k_"@) == 0,
{
    reveal_strlit("    jmp     .Lmm4d_k_");
    lemma_scan_literal(0, "    jmp     .Lmm4d_k_"@);
    reveal_with_fuel(scan_at, 22);
}

proof fn lemma_matmul_line_29()
    ensures
        scan(0, ".Lmm4d_k_end_"@) == 0,
{
    reveal_strlit(".Lmm4d_k_end_");
    lemma_scan_literal(0, ".Lmm4d_k_end_"@);
    reveal_with_fuel(scan_at, 14);
}

proof fn lemma_matmul_line_30()
    ensures
        scan(0, "    movss   %xmm0, (%r14, %rax, 4)\n"@) == 0,
{
    reveal_strlit("    movss   %xmm0, (%r14, %rax, 4)\n");
    lemma_scan_literal(0, "    movss   %xmm0, (%r14, %rax, 4)\n"@);
    reveal_with_fuel(scan_at, 36);
}

proof fn lemma_matmul_line_31()
    ensures
        scan(0, "    jmp     .Lmm4d_j_"@) == 0,
{
    reveal_strlit("    jmp     .Lmm4d_j_");
    lemma_scan_literal(0, "    jmp     .Lmm4d_j_"@);
    reveal_with_fuel(scan_at, 22);
}

proof fn lemma_matmul_line_32()
    ensures
        scan(0, ".Lmm4d_j_end_"@) == 0,
{
    reveal_strlit(".Lmm4d_j_end_");
    lemma_scan_literal(0, ".Lmm4d_j_end_"@);
    reveal_with_fuel(scan_at, 14);
}

proof fn lemma_matmul_line_33()
    ensures
        scan(0, "    addq    $1, %rbx\n"@) == 0,
{
    reveal_strlit("    addq    $1, %rbx\n");
    lemma_scan_literal(0, "    addq    $1, %rbx\n"@);
    reveal_with_fuel(scan_at, 22);
}

proof fn lemma_matmul_line_34()
    ensures
        scan(0, "    jmp     .Lmm4d_i_"@) == 0,
{
    reveal_strlit("    jmp     .Lmm4d_i_");
    lemma_scan_literal(0, "    jmp     .Lmm4d_i_"@);
    reveal_with_fuel(scan_at, 22);
}

proof fn lemma_matmul_line_35()
    ensures
        scan(0, ".Lmm4d_i_end_"@) == 0,
{
    reveal_strlit(".Lmm4d_i_end_");
    lemma_scan_literal(0, ".Lmm4d_i_end_"@);
    reveal_with_fuel(scan_at, 14);
}

proof fn lemma_matmul_line_36()
    ensures
        scan(0, "    # matmul (leading_count="@) == 0,
{
    reveal_strlit("    # matmul (leading_count=");
    lemma_scan_literal(0, "    # matmul (leading_count="@);
    reveal_with_fuel(scan_at, 29);
}

proof fn lemma_matmul_line_37()
    ensures
        scan(0, "): ["@) == 0,
{
    reveal_strlit("): [");
    lemma_scan_literal(0, "): ["@);
    reveal_with_fuel(scan_at, 5);
}

proof fn lemma_matmul_line_38()
    ensures
        scan(0, ","@) == 1,
{
    reveal_strlit(",");
    lemma_scan_literal(0, ","@);
    reveal_with_fuel(scan_at, 2);
}

proof fn lemma_matmul_line_39()
    ensures
        scan(0, "] x ["@) == 0,
{
    reveal_strlit("] x [");
    lemma_scan_literal(0, "] x ["@);
    reveal_with_fuel(scan_at, 6);
}

proof fn lemma_matmul_line_40()
    ensures
        scan(0, "] -> ["@) == 0,
{
    reveal_strlit("] -> [");
    lemma_scan_literal(0, "] -> ["@);
    reveal_with_fuel(scan_at, 7);
}

proof fn lemma_matmul_line_41()
    ensures
        scan(0, "], transpose_b="@) == 0,
{
    reveal_strlit("], transpose_b=");
    lemma_scan_literal(0, "], transpose_b="@);
    reveal_with_fuel(scan_at, 16);
}

proof fn lemma_matmul_line_42()
    ensures
        scan(0, "    movq    %rax, %xmm8\n"@) == 0,
{
    reveal_strlit("    movq    %rax, %xmm8\n");
    lemma_scan_literal(0, "    movq    %rax, %xmm8\n"@);
    reveal_with_fuel(scan_at, 25);
}

proof fn lemma_matmul_line_43()
    ensures
        scan(0, "    movq    %rax, %xmm6\n"@) == 0,
{
    reveal_strlit("    movq    %rax, %xmm6\n");
    lemma_scan_literal(0, "    movq    %rax, %xmm6\n"@);
    reveal_with_fuel(scan_at, 25);
}

proof fn lemma_matmul_line_44()
    ensures
        scan(0, "    movq    %rax, %xmm7\n"@) == 0,
{
    reveal_strlit("    movq    %rax, %xmm7\n");
    lemma_scan_literal(0, "    movq    %rax, %xmm7\n"@);
    reveal_with_fuel(scan_at, 25);
}

proof fn lemma_matmul_line_45()
    ensures
        scan(0, "    movq    $0, %r15\n"@) == 0,
{
    reveal_strlit("    movq    $0, %r15\n");
    lemma_scan_literal(0, "    movq    $0, %r15\n"@);
    reveal_with_fuel(scan_at, 22);
}

proof fn lemma_matmul_line_46()
    ensures
        scan(0, ".Lmm4d_outer_"@) == 0,
{
    reveal_strlit(".Lmm4d_outer_");
    lemma_scan_literal(0, ".Lmm4d_outer_"@);
    reveal_with_fuel(scan_at, 14);
}

proof fn lemma_matmul_line_47()
    ensures
        scan(0, "    jge     .Lmm4d_outer_end_"@) == 0,
{
    reveal_strlit("    jge     .Lmm4d_outer_end_");
    lemma_scan_literal(0, "    jge     .Lmm4d_outer_end_"@);
    reveal_with_fuel(scan_at, 30);
}

proof fn lemma_matmul_line_48()
    ensures
        scan(0, "%r15"@) == 0,
{
    reveal_strlit("%r15");
    lemma_scan_literal(0, "%r15"@);
    reveal_with_fuel(scan_at, 5);
}

proof fn lemma_matmul_line_49()
    ensures
        scan(0, "%xmm8"@) == 0,
{
    reveal_strlit("%xmm8");
    lemma_scan_literal(0, "%xmm8"@);
    reveal_with_fuel(scan_at, 6);
}

proof fn lemma_matmul_line_50()
    ensures
        scan(0, "%r12"@) == 0,
{
    reveal_strlit("%r12");
    lemma_scan_literal(0, "%r12"@);
    reveal_with_fuel(scan_at, 5);
}

proof fn lemma_matmul_line_51()
    ensures
        scan(0, "%xmm6"@) == 0,
{
    reveal_strlit("%xmm6");
    lemma_scan_literal(0, "%xmm6"@);
    reveal_with_fuel(scan_at, 6);
}

proof fn lemma_matmul_line_52()
    ensures
        scan(0, "%r13"@) == 0,
{
    reveal_strlit("%r13");
    lemma_scan_literal(0, "%r13"@);
    reveal_with_fuel(scan_at, 5);
}

proof fn lemma_matmul_line_53()
    ensures
        scan(0, "%xmm7"@) == 0,
{
    reveal_strlit("%xmm7");
    lemma_scan_literal(0, "%xmm7"@);
    reveal_with_fuel(scan_at, 6);
}

proof fn lemma_matmul_line_54()
    ensures
        scan(0, "%r14"@) == 0,
{
    reveal_strlit("%r14");
    lemma_scan_literal(0, "%r14"@);
    reveal_with_fuel(scan_at, 5);
}

proof fn lemma_matmul_line_55()
    ensures
        scan(0, "    addq    $1, %r15\n"@) == 0,
{
    reveal_strlit("    addq    $1, %r15\n");
    lemma_scan_literal(0, "    addq    $1, %r15\n"@);
    reveal_with_fuel(scan_at, 22);
}

proof fn lemma_matmul_line_56()
    ensures
        scan(0, "    jmp     .Lmm4d_outer_"@) == 0,
{
    reveal_strlit("    jmp     .Lmm4d_outer_");
    lemma_scan_literal(0, "    jmp     .Lmm4d_outer_"@);
    reveal_with_fuel(scan_at, 26);
}

proof fn lemma_matmul_line_57()
    ensures
        scan(0, ".Lmm4d_outer_end_"@) == 0,
{
    reveal_strlit(".Lmm4d_outer_end_");
    lemma_scan_literal(0, ".Lmm4d_outer_end_"@);
    reveal_with_fuel(scan_at, 18);
}

proof fn lemma_matmul_line_58()
    ensures
        scan(2, "%r12"@) == 0,
{
    reveal_strlit("%r12");
    lemma_scan_literal(2, "%r12"@);
    reveal_with_fuel(scan_at, 5);
}

proof fn lemma_matmul_line_59()
    ensures
        scan(2, "%r13"@) == 0,
{
    reveal_strlit("%r13");
    lemma_scan_literal(2, "%r13"@);
    reveal_with_fuel(scan_at, 5);
}

proof fn lemma_matmul_line_60()
    ensures
        scan(2, "%r14"@) == 0,
{
    reveal_strlit("%r14");
    lemma_scan_literal(2, "%r14"@);
    reveal_with_fuel(scan_at, 5);
}

proof fn lemma_matmul_line_61()
    ensures
        scan(2, "%rbx"@) == 0,
{
    reveal_strlit("%rbx");
    lemma_scan_literal(2, "%rbx"@);
    reveal_with_fuel(scan_at, 5);
}

proof fn lemma_matmul_line_62()
    ensures
        scan(2, "%rbp"@) == 0,
{
    reveal_strlit("%rbp");
    lemma_scan_literal(2, "%rbp"@);
    reveal_with_fuel(scan_at, 5);
}

proof fn lemma_matmul_line_63()
    ensures
        scan(2, "%r15"@) == 0,
{
    reveal_strlit("%r15");
    lemma_scan_literal(2, "%r15"@);
    reveal_with_fuel(scan_at, 5);
}

/// Where the automaton stands after each fixed piece of the matmul text.
proof fn lemma_matmul_lines()
    ensures
        scan(0, "true"@) == 0,
        scan(0, "false"@) == 0,
        scan(0, "    movq    %r15, %rax\n"@) == 0,
        scan(0, "    imulq   %r10, %rax\n"@) == 0,
        scan(0, "    movq    "@) == 0,
        scan(0, "    leaq    ("@) == 0,
        scan(0, ", %rax, 4), "@) == 2,
        scan(0, "    movq    %rbp, %rax\n"@) == 0,
        scan(0, "    addq    %r11, %rax\n"@) == 0,
        scan(0, "    movq    %r11, %rax\n"@) == 0,
        scan(0, "    addq    %rbp, %rax\n"@) == 0,
        scan(0, "    movq    $0, %rbx\n"@) == 0,
        scan(0, ".Lmm4d_i_"@) == 0,
        scan(0, "    jge     .Lmm4d_i_end_"@) == 0,
        scan(0, "%rbx"@) == 0,
        scan(0, ".Lmm4d_j_"@) == 0,
        scan(0, "    jge     .Lmm4d_j_end_"@) == 0,
        scan(0, "%rbp"@) == 0,
        scan(0, "    xorps   %xmm0, %xmm0\n"@) == 0,
        scan(0, "    movq    $0, %r11\n"@) == 0,
        scan(0, ".Lmm4d_k_"@) == 0,
        scan(0, "    jge     .Lmm4d_k_end_"@) == 0,
        scan(0, "    movq    %rbx, %rax\n"@) == 0,
        scan(0, "    movss   (%r12, %rax, 4), %xmm1\n"@) == 0,
        scan(0, "    movss   (%r13, %rax, 4), %xmm2\n"@) == 0,
        scan(0, "    mulss   %xmm2, %xmm1\n"@) == 0,
        scan(0, "    addss   %xmm1, %xmm0\n"@) == 0,
        scan(0, "    addq    $1, %r11\n"@) == 0,
        scan(0, "    jmp     .Lmm4d_k_"@) == 0,
        scan(0, ".Lmm4d_k_end_"@) == 0,
        scan(0, "    movss   %xmm0, (%r14, %rax, 4)\n"@) == 0,
        scan(0, "    jmp     .Lmm4d_j_"@) == 0,
        scan(0, ".Lmm4d_j_end_"@) == 0,
        scan(0, "    addq    $1, %rbx\n"@) == 0,
        scan(0, "    jmp     .Lmm4d_i_"@) == 0,
        scan(0, ".Lmm4d_i_end_"@) == 0,
        scan(0, "    # matmul (leading_count="@) == 0,
        scan(0, "): ["@) == 0,
        scan(0, ","@) == 1,
        scan(0, "] x ["@) == 0,
        scan(0, "] -> ["@) == 0,
        scan(0, "], transpose_b="@) == 0,
        scan(0, "    movq    %rax, %xmm8\n"@) == 0,
        scan(0, "    movq    %rax, %xmm6\n"@) == 0,
        scan(0, "    movq    %rax, %xmm7\n"@) == 0,
        scan(0, "    movq    $0, %r15\n"@) == 0,
        scan(0, ".Lmm4d_outer_"@) == 0,
        scan(0, "    jge     .Lmm4d_outer_end_"@) == 0,
        scan(0, "%r15"@) == 0,
        scan(0, "%xmm8"@) == 0,
        scan(0, "%r12"@) == 0,
        scan(0, "%xmm6"@) == 0,
        scan(0, "%r13"@) == 0,
        scan(0, "%xmm7"@) == 0,
        scan(0, "%r14"@) == 0,
        scan(0, "    addq    $1, %r15\n"@) == 0,
        scan(0, "    jmp     .Lmm4d_outer_"@) == 0,
        scan(0, ".Lmm4d_outer_end_"@) == 0,
        scan(2, "%r12"@) == 0,
        scan(2, "%r13"@) == 0,
        scan(2, "%r14"@) == 0,
        scan(2, "%rbx"@) == 0,
        scan(2, "%rbp"@) == 0,
        scan(2, "%r15"@) == 0,
{
    lemma_matmul_line_0();
    lemma_matmul_line_1();
    lemma_matmul_line_2();
    lemma_matmul_line_3();
    lemma_matmul_line_4();
    lemma_matmul_line_5();
    lemma_matmul_line_6();
    lemma_matmul_line_7();
    lemma_matmul_line_8();
    lemma_matmul_line_9();
    lemma_matmul_line_10();
    lemma_matmul_line_11();
    lemma_matmul_line_12();
    lemma_matmul_line_13();
    lemma_matmul_line_14();
    lemma_matmul_line_15();
    lemma_matmul_line_16();
    lemma_matmul_line_17();
    lemma_matmul_line_18();
    lemma_matmul_line_19();
    lemma_matmul_line_20();
    lemma_matmul_line_21();
    lemma_matmul_line_22();
    lemma_matmul_line_23();
    lemma_matmul_line_24();
    lemma_matmul_line_25();
    lemma_matmul_line_26();
    lemma_matmul_line_27();
    lemma_matmul_line_28();
    lemma_matmul_line_29();
    lemma_matmul_line_30();
    lemma_matmul_line_31();
    lemma_matmul_line_32();
    lemma_matmul_line_33();
    lemma_matmul_line_34();
    lemma_matmul_line_35();
    lemma_matmul_line_36();
    lemma_matmul_line_37();
    lemma_matmul_line_38();
    lemma_matmul_line_39();
    lemma_matmul_line_40();
    lemma_matmul_line_41();
    lemma_matmul_line_42();
    lemma_matmul_line_43();
    lemma_matmul_line_44();
    lemma_matmul_line_45();
    lemma_matmul_line_46();
    lemma_matmul_line_47();
    lemma_matmul_line_48();
    lemma_matmul_line_49();
    lemma_matmul_line_50();
    lemma_matmul_line_51();
    lemma_matmul_line_52();
    lemma_matmul_line_53();
    lemma_matmul_line_54();
    lemma_matmul_line_55();
    lemma_matmul_line_56();
    lemma_matmul_line_57();
    lemma_matmul_line_58();
    lemma_matmul_line_59();
    lemma_matmul_line_60();
    lemma_matmul_line_61();
    lemma_matmul_line_62();
    lemma_matmul_line_63();
}

proof fn lemma_slice_ptr_scan(slice: nat, base_xmm: Seq<char>, reg: Seq<char>)
    requires
        scan(0, base_xmm) == 0,
        scan(0, reg) == 0,
        scratch_dst(reg),
    ensures
        scan(0, slice_ptr_text(slice, base_xmm, reg)) == 0,
{
    broadcast use lemma_scan_append;
    lemma_common_lines();
    lemma_matmul_lines();
    lemma_imm32_scan((slice as u32) as nat);
    lemma_materialise_pieces();
    assert(slice_ptr_text(slice, base_xmm, reg) =~= imm32_to_r10_text((slice as u32) as nat)
        + "    movq    %r15, %rax\n"@
            + "    imulq   %r10, %rax\n"@
            + "    movq    "@
            + base_xmm
            + ", "@
            + (reg
        + "\n"@) + "    leaq    ("@ + reg + ", %rax, 4), "@ + (reg + "\n"@));
}

proof fn lemma_matmul_kernel_scan(m: u64, k: u64, n: u64, transpose_b: bool, id: Seq<char>)
    requires
        scan(0, id) == 0,
    ensures
        scan(0, matmul_kernel_text(m, k, n, transpose_b, id)) == 0,
{
    broadcast use lemma_scan_append;
    lemma_common_lines();
    lemma_scratch_pointers();
    lemma_matmul_lines();
    lemma_imm32_scan((k as u32) as nat);
    lemma_imm32_scan((n as u32) as nat);
    lemma_loop_head_scan(".Lmm4d_i_"@, "    jge     .Lmm4d_i_end_"@, "%rbx"@, (m as u32) as nat, id);
    lemma_loop_head_scan(".Lmm4d_j_"@, "    jge     .Lmm4d_j_end_"@, "%rbp"@, (n as u32) as nat, id);
    lemma_loop_head_scan(".Lmm4d_k_"@, "    jge     .Lmm4d_k_end_"@, "%r11"@, (k as u32) as nat, id);
    lemma_loop_tail_scan("    addq    $1, %r11\n"@, "    jmp     .Lmm4d_k_"@, ".Lmm4d_k_end_"@, id);
    lemma_loop_tail_scan("    addq    $1, %rbp\n"@, "    jmp     .Lmm4d_j_"@, ".Lmm4d_j_end_"@, id);
    lemma_loop_tail_scan("    addq    $1, %rbx\n"@, "    jmp     .Lmm4d_i_"@, ".Lmm4d_i_end_"@, id);
    assert(scan(0, b_offset_text(k, n, transpose_b)) == 0);
}

/// The matmul writes no argument register, at any number of inputs: its
/// base pointers are parked in `%xmm6`..`%xmm8` and its scratch is `%rax`,
/// `%r10`..`%r15`, `%rbx` and `%rbp`.
proof fn lemma_matmul_writes_no_arg_reg(
    n_inputs: nat,
    leading_count: u64,
    m: u64,
    k: u64,
    n: u64,
    transpose_b: bool,
    model_idx: nat,
    matmul_idx: nat,
    a_loc: BufferLoc,
    b_loc: BufferLoc,
    dst_loc: BufferLoc,
)
    requires
        n_inputs + 2 <= 6,
        materialisable(n_inputs, a_loc),
        materialisable(n_inputs, b_loc),
        materialisable(n_inputs, dst_loc),
    ensures
        writes_no_arg_reg(
            matmul_text(
                n_inputs,
                leading_count,
                m,
                k,
                n,
                transpose_b,
                op_id(model_idx, matmul_idx),
                a_loc,
                b_loc,
                dst_loc,
            ),
        ),
{
    let id = op_id(model_idx, matmul_idx);
    broadcast use lemma_scan_append;
    lemma_common_lines();
    lemma_scratch_pointers();
    lemma_matmul_lines();
    lemma_op_id_scan(model_idx, matmul_idx);
    lemma_decimal_scan(leading_count as nat);
    lemma_decimal_scan(m as nat);
    lemma_decimal_scan(k as nat);
    lemma_decimal_scan_from(1, k as nat);
    lemma_decimal_scan_from(1, n as nat);
    assert(scan(0, bool_text(transpose_b)) == 0);
    lemma_materialise_scan(n_inputs, a_loc, "%rax"@);
    lemma_materialise_scan(n_inputs, b_loc, "%rax"@);
    lemma_materialise_scan(n_inputs, dst_loc, "%rax"@);
    lemma_loop_head_scan(
        ".Lmm4d_outer_"@,
        "    jge     .Lmm4d_outer_end_"@,
        "%r15"@,
        (leading_count as u32) as nat,
        id,
    );
    lemma_slice_ptr_scan((m * k) as nat, "%xmm8"@, "%r12"@);
    lemma_slice_ptr_scan((k * n) as nat, "%xmm6"@, "%r13"@);
    lemma_slice_ptr_scan((m * n) as nat, "%xmm7"@, "%r14"@);
    lemma_matmul_kernel_scan(m, k, n, transpose_b, id);
    lemma_loop_tail_scan("    addq    $1, %r15\n"@, "    jmp     .Lmm4d_outer_"@, ".Lmm4d_outer_end_"@, id);
    lemma_scan_sound(matmul_text(n_inputs, leading_count, m, k, n, transpose_b, id, a_loc, b_loc, dst_loc));
}

/// Emits the matmul of `leading_count` stacked `[m, k] x [k, n]` products.
/// Never fails; the `Result` leaves room for shapes a profile may reject.
pub fn emit_matmul(
    abi: &AbiContext,
    leading_count: u64,
    m: u64,
    k: u64,
    n: u64,
    transpose_b: bool,
    model_idx: usize,
    matmul_idx: usize,
    a_loc: BufferLoc,
    b_loc: BufferLoc,
    dst_loc: BufferLoc,
    node_span: Span,
) -> (r: Result<String, LowerError>)
    requires
        abi.n_inputs + 2 <= 6,
        materialisable(abi.n_inputs as nat, a_loc),
        materialisable(abi.n_inputs as nat, b_loc),
        materialisable(abi.n_inputs as nat, dst_loc),
        m <= usize::MAX,
        k <= usize::MAX,
        n <= usize::MAX,
        m * k <= usize::MAX,
        k * n <= usize::MAX,
        m * n <= usize::MAX,
    ensures
        r matches Ok(s) && s@ == matmul_text(
            abi.n_inputs as nat,
            leading_count,
            m,
            k,
            n,
            transpose_b,
            op_id(model_idx as nat, matmul_idx as nat),
            a_loc,
            b_loc,
            dst_loc,
        ) && writes_no_arg_reg(s@),
{
    let mut s = String::new();
    push_str(&mut s, "    # matmul (leading_count=");
    push_decimal(&mut s, leading_count);
    push_str(&mut s, "): [");
    push_decimal(&mut s, m);
    push_str(&mut s, ",");
    push_decimal(&mut s, k);
    push_str(&mut s, "] x [");
    push_decimal(&mut s, k);
    push_str(&mut s, ",");
    push_decimal(&mut s, n);
    push_str(&mut s, "] -> [");
    push_decimal(&mut s, m);
    push_str(&mut s, ",");
    push_decimal(&mut s, n);
    push_str(&mut s, "], transpose_b=");
    push_bool(&mut s, transpose_b);
    push_str(&mut s, "\n");
    abi.materialise_ptr(a_loc, "%rax", &mut s);
    push_str(&mut s, "    movq    %rax, %xmm8\n");
    abi.materialise_ptr(b_loc, "%rax", &mut s);
    push_str(&mut s, "    movq    %rax, %xmm6\n");
    abi.materialise_ptr(dst_loc, "%rax", &mut s);
    push_str(&mut s, "    movq    %rax, %xmm7\n");
    let a_slice = m as usize * k as usize;
    let b_slice = k as usize * n as usize;
    let dst_slice = m as usize * n as usize;
    let mid = op_id_string(model_idx, matmul_idx);
    let id = mid.as_str();
    push_str(&mut s, "    movq    $0, %r15\n");
    push_loop_head(&mut s, ".Lmm4d_outer_", "    jge     .Lmm4d_outer_end_", "%r15",
        leading_count as u32, id);
    push_slice_ptr(&mut s, a_slice, "%xmm8", "%r12");
    push_slice_ptr(&mut s, b_slice, "%xmm6", "%r13");
    push_slice_ptr(&mut s, dst_slice, "%xmm7", "%r14");
    push_kernel(&mut s, m, k, n, transpose_b, id);
    push_loop_tail(&mut s, "    addq    $1, %r15\n", "    jmp     .Lmm4d_outer_", ".Lmm4d_outer_end_", id);
    proof {
        lemma_matmul_writes_no_arg_reg(
            abi.n_inputs as nat,
            leading_count,
            m,
            k,
            n,
            transpose_b,
            model_idx as nat,
            matmul_idx as nat,
            a_loc,
            b_loc,
            dst_loc,
        );
    }
    Ok(s)
}


/// The B operand's index in the kernel: `kk * N + j`, or `j * K + kk` when
/// B is stored transposed (`[N, K]`).
pub open spec fn matmul_b_index(k: u64, n: u64, transpose_b: bool) -> Term {
    if transpose_b {
        row_major(init(Reg::Rbp), k as nat, init(Reg::R11))
    } else {
        row_major(init(Reg::R11), n as nat, init(Reg::Rbp))
    }
}

/// One pass of the k-loop: `acc += A[i*K + kk] * B[..]`.
pub open spec fn matmul_step(k: u64, n: u64, transpose_b: bool) -> Term {
    fadd(
        init(Reg::Xmm0),
        fmul(
            load(init(Reg::R12), row_major(init(Reg::Rbx), k as nat, init(Reg::R11))),
            load(init(Reg::R13), matmul_b_index(k, n, transpose_b)),
        ),
    )
}

spec fn matmul_body_text(k: u64, n: u64, transpose_b: bool) -> Seq<char> {
    imm32_to_r10_text((k as u32) as nat) + "    movq    %rbx, %rax\n"@ + "    imulq   %r10, %rax\n"@
        + "    addq    %r11, %rax\n"@ + "    movss   (%r12, %rax, 4), %xmm1\n"@
        + b_offset_text(k, n, transpose_b)
        + "    movss   (%r13, %rax, 4), %xmm2\n"@
        + "    mulss   %xmm2, %xmm1\n"@
        + "    addss   %xmm1, %xmm0\n"@
}

spec fn matmul_store_text(n: u64) -> Seq<char> {
    imm32_to_r10_text((n as u32) as nat) + "    movq    %rbx, %rax\n"@ + "    imulq   %r10, %rax\n"@
        + "    addq    %rbp, %rax\n"@ + "    movss   %xmm0, (%r14, %rax, 4)\n"@
}

proof fn lemma_matmul_body_plain(k: u64, n: u64) -> (p: Seq<Ins>)
    requires
        k <= u32::MAX,
        n <= u32::MAX,
    ensures
        lines(p) == matmul_body_text(k, n, false),
        value(run(p), Reg::Xmm0) == matmul_step(k, n, false),
{
    assert(Seq::<Ins>::empty().len() == 0);
    reveal_strlit("\n");
    reveal_strlit("    addq    ");
    reveal_strlit("    addq    %r11, %rax\n");
    reveal_strlit("    addq    %rbp, %rax\n");
    reveal_strlit("    addss   ");
    reveal_strlit("    addss   %xmm1, %xmm0\n");
    reveal_strlit("    imulq   ");
    reveal_strlit("    imulq   %r10, %rax\n");
    reveal_strlit("    movq    ");
    reveal_strlit("    movq    %r11, %rax\n");
    reveal_strlit("    movq    %rbx, %rax\n");
    reveal_strlit("    movss   (");
    reveal_strlit("    movss   (%r12, %rax, 4), %xmm1\n");
    reveal_strlit("    movss   (%r13, %rax, 4), %xmm2\n");
    reveal_strlit("    mulss   ");
    reveal_strlit("    mulss   %xmm2, %xmm1\n");
    reveal_strlit("%r10");
    reveal_strlit("%r11");
    reveal_strlit("%r12");
    reveal_strlit("%r13");
    reveal_strlit("%rax");
    reveal_strlit("%rbp");
    reveal_strlit("%rbx");
    reveal_strlit("%xmm0");
    reveal_strlit("%xmm1");
    reveal_strlit("%xmm2");
    reveal_strlit(", ");
    reveal_strlit(", 4), ");
    let q1 = Seq::<Ins>::empty().push(Ins::MovImmR10(k as nat));
    lemma_push(Seq::<Ins>::empty(), Ins::MovImmR10(k as nat));
    let q2 = q1.push(Ins::MovQ(Reg::Rbx, Reg::Rax));
    lemma_push(q1, Ins::MovQ(Reg::Rbx, Reg::Rax));
    assert(line(Ins::MovQ(Reg::Rbx, Reg::Rax)) =~= "    movq    %rbx, %rax\n"@);
    let q3 = q2.push(Ins::ImulQ(Reg::R10, Reg::Rax));
    lemma_push(q2, Ins::ImulQ(Reg::R10, Reg::Rax));
    assert(line(Ins::ImulQ(Reg::R10, Reg::Rax)) =~= "    imulq   %r10, %rax\n"@);
    let q4 = q3.push(Ins::AddQ(Reg::R11, Reg::Rax));
    lemma_push(q3, Ins::AddQ(Reg::R11, Reg::Rax));
    assert(line(Ins::AddQ(Reg::R11, Reg::Rax)) =~= "    addq    %r11, %rax\n"@);
    let q5 = q4.push(Ins::LoadSS(Reg::R12, Reg::Rax, Reg::Xmm1));
    lemma_push(q4, Ins::LoadSS(Reg::R12, Reg::Rax, Reg::Xmm1));
    assert(line(Ins::LoadSS(Reg::R12, Reg::Rax, Reg::Xmm1)) =~= "    movss   (%r12, %rax, 4), %xmm1\n"@);
    let q6 = q5.push(Ins::MovImmR10(n as nat));
    lemma_push(q5, Ins::MovImmR10(n as nat));
    let q7 = q6.push(Ins::MovQ(Reg::R11, Reg::Rax));
    lemma_push(q6, Ins::MovQ(Reg::R11, Reg::Rax));
    assert(line(Ins::MovQ(Reg::R11, Reg::Rax)) =~= "    movq    %r11, %rax\n"@);
    let q8 = q7.push(Ins::ImulQ(Reg::R10, Reg::Rax));
    lemma_push(q7, Ins::ImulQ(Reg::R10, Reg::Rax));
    assert(line(Ins::ImulQ(Reg::R10, Reg::Rax)) =~= "    imulq   %r10, %rax\n"@);
    let q9 = q8.push(Ins::AddQ(Reg::Rbp, Reg::Rax));
    lemma_push(q8, Ins::AddQ(Reg::Rbp, Reg::Rax));
    assert(line(Ins::AddQ(Reg::Rbp, Reg::Rax)) =~= "    addq    %rbp, %rax\n"@);
    let q10 = q9.push(Ins::LoadSS(Reg::R13, Reg::Rax, Reg::Xmm2));
    lemma_push(q9, Ins::LoadSS(Reg::R13, Reg::Rax, Reg::Xmm2));
    assert(line(Ins::LoadSS(Reg::R13, Reg::Rax, Reg::Xmm2)) =~= "    movss   (%r13, %rax, 4), %xmm2\n"@);
    let q11 = q10.push(Ins::MulSS(Reg::Xmm2, Reg::Xmm1));
    lemma_push(q10, Ins::MulSS(Reg::Xmm2, Reg::Xmm1));
    assert(line(Ins::MulSS(Reg::Xmm2, Reg::Xmm1)) =~= "    mulss   %xmm2, %xmm1\n"@);
    let q12 = q11.push(Ins::AddSS(Reg::Xmm1, Reg::Xmm0));
    lemma_push(q11, Ins::AddSS(Reg::Xmm1, Reg::Xmm0));
    assert(line(Ins::AddSS(Reg::Xmm1, Reg::Xmm0)) =~= "    addss   %xmm1, %xmm0\n"@);
    assert(
        lines(q12) =~= imm32_to_r10_text((k as u32) as nat)
        + "    movq    %rbx, %rax\n"@
        + "    imulq   %r10, %rax\n"@
        + "    addq    %r11, %rax\n"@
        + "    movss   (%r12, %rax, 4), %xmm1\n"@
        + imm32_to_r10_text((n as u32) as nat)
        + "    movq    %r11, %rax\n"@
        + "    imulq   %r10, %rax\n"@
        + "    addq    %rbp, %rax\n"@
        + "    movss   (%r13, %rax, 4), %xmm2\n"@
        + "    mulss   %xmm2, %xmm1\n"@
        + "    addss   %xmm1, %xmm0\n"@
    );
    q12
}

proof fn lemma_matmul_body_transposed(k: u64, n: u64) -> (p: Seq<Ins>)
    requires
        k <= u32::MAX,
    ensures
        lines(p) == matmul_body_text(k, n, true),
        value(run(p), Reg::Xmm0) == matmul_step(k, n, true),
{
    assert(Seq::<Ins>::empty().len() == 0);
    reveal_strlit("\n");
    reveal_strlit("    addq    ");
    reveal_strlit("    addq    %r11, %rax\n");
    reveal_strlit("    addss   ");
    reveal_strlit("    addss   %xmm1, %xmm0\n");
    reveal_strlit("    imulq   ");
    reveal_strlit("    imulq   %r10, %rax\n");
    reveal_strlit("    movq    ");
    reveal_strlit("    movq    %rbp, %rax\n");
    reveal_strlit("    movq    %rbx, %rax\n");
    reveal_strlit("    movss   (");
    reveal_strlit("    movss   (%r12, %rax, 4), %xmm1\n");
    reveal_strlit("    movss   (%r13, %rax, 4), %xmm2\n");
    reveal_strlit("    mulss   ");
    reveal_strlit("    mulss   %xmm2, %xmm1\n");
    reveal_strlit("%r10");
    reveal_strlit("%r11");
    reveal_strlit("%r12");
    reveal_strlit("%r13");
    reveal_strlit("%rax");
    reveal_strlit("%rbp");
    reveal_strlit("%rbx");
    reveal_strlit("%xmm0");
    reveal_strlit("%xmm1");
    reveal_strlit("%xmm2");
    reveal_strlit(", ");
    reveal_strlit(", 4), ");
    let t1 = Seq::<Ins>::empty().push(Ins::MovImmR10(k as nat));
    lemma_push(Seq::<Ins>::empty(), Ins::MovImmR10(k as nat));
    let t2 = t1.push(Ins::MovQ(Reg::Rbx, Reg::Rax));
    lemma_push(t1, Ins::MovQ(Reg::Rbx, Reg::Rax));
    assert(line(Ins::MovQ(Reg::Rbx, Reg::Rax)) =~= "    movq    %rbx, %rax\n"@);
    let t3 = t2.push(Ins::ImulQ(Reg::R10, Reg::Rax));
    lemma_push(t2, Ins::ImulQ(Reg::R10, Reg::Rax));
    assert(line(Ins::ImulQ(Reg::R10, Reg::Rax)) =~= "    imulq   %r10, %rax\n"@);
    let t4 = t3.push(Ins::AddQ(Reg::R11, Reg::Rax));
    lemma_push(t3, Ins::AddQ(Reg::R11, Reg::Rax));
    assert(line(Ins::AddQ(Reg::R11, Reg::Rax)) =~= "    addq    %r11, %rax\n"@);
    let t5 = t4.push(Ins::LoadSS(Reg::R12, Reg::Rax, Reg::Xmm1));
    lemma_push(t4, Ins::LoadSS(Reg::R12, Reg::Rax, Reg::Xmm1));
    assert(line(Ins::LoadSS(Reg::R12, Reg::Rax, Reg::Xmm1)) =~= "    movss   (%r12, %rax, 4), %xmm1\n"@);
    let t6 = t5.push(Ins::MovImmR10(k as nat));
    lemma_push(t5, Ins::MovImmR10(k as nat));
    let t7 = t6.push(Ins::MovQ(Reg::Rbp, Reg::Rax));
    lemma_push(t6, Ins::MovQ(Reg::Rbp, Reg::Rax));
    assert(line(Ins::MovQ(Reg::Rbp, Reg::Rax)) =~= "    movq    %rbp, %rax\n"@);
    let t8 = t7.push(Ins::ImulQ(Reg::R10, Reg::Rax));
    lemma_push(t7, Ins::ImulQ(Reg::R10, Reg::Rax));
    assert(line(Ins::ImulQ(Reg::R10, Reg::Rax)) =~= "    imulq   %r10, %rax\n"@);
    let t9 = t8.push(Ins::AddQ(Reg::R11, Reg::Rax));
    lemma_push(t8, Ins::AddQ(Reg::R11, Reg::Rax));
    assert(line(Ins::AddQ(Reg::R11, Reg::Rax)) =~= "    addq    %r11, %rax\n"@);
    let t10 = t9.push(Ins::LoadSS(Reg::R13, Reg::Rax, Reg::Xmm2));
    lemma_push(t9, Ins::LoadSS(Reg::R13, Reg::Rax, Reg::Xmm2));
    assert(line(Ins::LoadSS(Reg::R13, Reg::Rax, Reg::Xmm2)) =~= "    movss   (%r13, %rax, 4), %xmm2\n"@);
    let t11 = t10.push(Ins::MulSS(Reg::Xmm2, Reg::Xmm1));
    lemma_push(t10, Ins::MulSS(Reg::Xmm2, Reg::Xmm1));
    assert(line(Ins::MulSS(Reg::Xmm2, Reg::Xmm1)) =~= "    mulss   %xmm2, %xmm1\n"@);
    let t12 = t11.push(Ins::AddSS(Reg::Xmm1, Reg::Xmm0));
    lemma_push(t11, Ins::AddSS(Reg::Xmm1, Reg::Xmm0));
    assert(line(Ins::AddSS(Reg::Xmm1, Reg::Xmm0)) =~= "    addss   %xmm1, %xmm0\n"@);
    assert(
        lines(t12) =~= imm32_to_r10_text((k as u32) as nat)
        + "    movq    %rbx, %rax\n"@
        + "    imulq   %r10, %rax\n"@
        + "    addq    %r11, %rax\n"@
        + "    movss   (%r12, %rax, 4), %xmm1\n"@
        + imm32_to_r10_text((k as u32) as nat)
        + "    movq    %rbp, %rax\n"@
        + "    imulq   %r10, %rax\n"@
        + "    addq    %r11, %rax\n"@
        + "    movss   (%r13, %rax, 4), %xmm2\n"@
        + "    mulss   %xmm2, %xmm1\n"@
        + "    addss   %xmm1, %xmm0\n"@
    );
    t12
}

proof fn lemma_matmul_store(n: u64) -> (p: Seq<Ins>)
    requires
        n <= u32::MAX,
    ensures
        lines(p) == matmul_store_text(n),
        run(p).stores == seq![
            Store::Elem(init(Reg::R14), row_major(init(Reg::Rbx), n as nat, init(Reg::Rbp)), init(Reg::Xmm0)),
        ],
{
    assert(Seq::<Ins>::empty().len() == 0);
    reveal_strlit("\n");
    reveal_strlit("    addq    ");
    reveal_strlit("    addq    %rbp, %rax\n");
    reveal_strlit("    imulq   ");
    reveal_strlit("    imulq   %r10, %rax\n");
    reveal_strlit("    movq    ");
    reveal_strlit("    movq    %rbx, %rax\n");
    reveal_strlit("    movss   ");
    reveal_strlit("    movss   %xmm0, (%r14, %rax, 4)\n");
    reveal_strlit("%r10");
    reveal_strlit("%r14");
    reveal_strlit("%rax");
    reveal_strlit("%rbp");
    reveal_strlit("%rbx");
    reveal_strlit("%xmm0");
    reveal_strlit(", ");
    reveal_strlit(", (");
    reveal_strlit(", 4)\n");
    let s1 = Seq::<Ins>::empty().push(Ins::MovImmR10(n as nat));
    lemma_push(Seq::<Ins>::empty(), Ins::MovImmR10(n as nat));
    let s2 = s1.push(Ins::MovQ(Reg::Rbx, Reg::Rax));
    lemma_push(s1, Ins::MovQ(Reg::Rbx, Reg::Rax));
    assert(line(Ins::MovQ(Reg::Rbx, Reg::Rax)) =~= "    movq    %rbx, %rax\n"@);
    let s3 = s2.push(Ins::ImulQ(Reg::R10, Reg::Rax));
    lemma_push(s2, Ins::ImulQ(Reg::R10, Reg::Rax));
    assert(line(Ins::ImulQ(Reg::R10, Reg::Rax)) =~= "    imulq   %r10, %rax\n"@);
    let s4 = s3.push(Ins::AddQ(Reg::Rbp, Reg::Rax));
    lemma_push(s3, Ins::AddQ(Reg::Rbp, Reg::Rax));
    assert(line(Ins::AddQ(Reg::Rbp, Reg::Rax)) =~= "    addq    %rbp, %rax\n"@);
    let s5 = s4.push(Ins::StoreSS(Reg::Xmm0, Reg::R14, Reg::Rax));
    lemma_push(s4, Ins::StoreSS(Reg::Xmm0, Reg::R14, Reg::Rax));
    assert(line(Ins::StoreSS(Reg::Xmm0, Reg::R14, Reg::Rax)) =~= "    movss   %xmm0, (%r14, %rax, 4)\n"@);
    assert(
        lines(s5) =~= imm32_to_r10_text((n as u32) as nat)
        + "    movq    %rbx, %rax\n"@
        + "    imulq   %r10, %rax\n"@
        + "    addq    %rbp, %rax\n"@
        + "    movss   %xmm0, (%r14, %rax, 4)\n"@
    );
    assert(run(s5).stores =~= seq![
        Store::Elem(init(Reg::R14), row_major(init(Reg::Rbx), n as nat, init(Reg::Rbp)), init(Reg::Xmm0)),
    ]);
    s5
}

/// The k-loop body and the store of C stand in the kernel text.
proof fn lemma_matmul_kernel_pieces(m: u64, k: u64, n: u64, transpose_b: bool, id: Seq<char>)
    ensures
        has_piece(matmul_kernel_text(m, k, n, transpose_b, id), matmul_body_text(k, n, transpose_b)),
        has_piece(matmul_kernel_text(m, k, n, transpose_b, id), matmul_store_text(n)),
{
    broadcast use lemma_piece_left;

    let x_head = "    movq    $0, %rbx\n"@
        + loop_head(".Lmm4d_i_"@, "    jge     .Lmm4d_i_end_"@, "%rbx"@, (m as u32) as nat, id)
        + "    movq    $0, %rbp\n"@
        + loop_head(".Lmm4d_j_"@, "    jge     .Lmm4d_j_end_"@, "%rbp"@, (n as u32) as nat, id)
        + "    xorps   %xmm0, %xmm0\n"@
        + "    movq    $0, %r11\n"@
        + loop_head(".Lmm4d_k_"@, "    jge     .Lmm4d_k_end_"@, "%r11"@, (k as u32) as nat, id);
    lemma_ends_self(x_head, imm32_to_r10_text((k as u32) as nat));
    let mut x = x_head + imm32_to_r10_text((k as u32) as nat);
    let mut x_end = imm32_to_r10_text((k as u32) as nat);
    lemma_ends_grow(x, x_end, "    movq    %rbx, %rax\n"@);
    x = x + "    movq    %rbx, %rax\n"@;
    x_end = x_end + "    movq    %rbx, %rax\n"@;
    lemma_ends_grow(x, x_end, "    imulq   %r10, %rax\n"@);
    x = x + "    imulq   %r10, %rax\n"@;
    x_end = x_end + "    imulq   %r10, %rax\n"@;
    lemma_ends_grow(x, x_end, "    addq    %r11, %rax\n"@);
    x = x + "    addq    %r11, %rax\n"@;
    x_end = x_end + "    addq    %r11, %rax\n"@;
    lemma_ends_grow(x, x_end, "    movss   (%r12, %rax, 4), %xmm1\n"@);
    x = x + "    movss   (%r12, %rax, 4), %xmm1\n"@;
    x_end = x_end + "    movss   (%r12, %rax, 4), %xmm1\n"@;
    lemma_ends_grow(x, x_end, b_offset_text(k, n, transpose_b));
    x = x + b_offset_text(k, n, transpose_b);
    x_end = x_end + b_offset_text(k, n, transpose_b);
    lemma_ends_grow(x, x_end, "    movss   (%r13, %rax, 4), %xmm2\n"@);
    x = x + "    movss   (%r13, %rax, 4), %xmm2\n"@;
    x_end = x_end + "    movss   (%r13, %rax, 4), %xmm2\n"@;
    lemma_ends_grow(x, x_end, "    mulss   %xmm2, %xmm1\n"@);
    x = x + "    mulss   %xmm2, %xmm1\n"@;
    x_end = x_end + "    mulss   %xmm2, %xmm1\n"@;
    lemma_ends_grow(x, x_end, "    addss   %xmm1, %xmm0\n"@);
    x = x + "    addss   %xmm1, %xmm0\n"@;
    x_end = x_end + "    addss   %xmm1, %xmm0\n"@;
    lemma_ends_piece(x, x_end);
    let y_head = x
        + loop_tail("    addq    $1, %r11\n"@, "    jmp     .Lmm4d_k_"@, ".Lmm4d_k_end_"@, id);
    lemma_ends_self(y_head, imm32_to_r10_text((n as u32) as nat));
    let mut y = y_head + imm32_to_r10_text((n as u32) as nat);
    let mut y_end = imm32_to_r10_text((n as u32) as nat);
    lemma_ends_grow(y, y_end, "    movq    %rbx, %rax\n"@);
    y = y + "    movq    %rbx, %rax\n"@;
    y_end = y_end + "    movq    %rbx, %rax\n"@;
    lemma_ends_grow(y, y_end, "    imulq   %r10, %rax\n"@);
    y = y + "    imulq   %r10, %rax\n"@;
    y_end = y_end + "    imulq   %r10, %rax\n"@;
    lemma_ends_grow(y, y_end, "    addq    %rbp, %rax\n"@);
    y = y + "    addq    %rbp, %rax\n"@;
    y_end = y_end + "    addq    %rbp, %rax\n"@;
    lemma_ends_grow(y, y_end, "    movss   %xmm0, (%r14, %rax, 4)\n"@);
    y = y + "    movss   %xmm0, (%r14, %rax, 4)\n"@;
    y_end = y_end + "    movss   %xmm0, (%r14, %rax, 4)\n"@;
    lemma_ends_piece(y, y_end);
}

proof fn lemma_matmul_kernel_in_text(
    n_inputs: nat,
    leading_count: u64,
    m: u64,
    k: u64,
    n: u64,
    transpose_b: bool,
    id: Seq<char>,
    a_loc: BufferLoc,
    b_loc: BufferLoc,
    dst_loc: BufferLoc,
    t: Seq<char>,
)
    requires
        has_piece(matmul_kernel_text(m, k, n, transpose_b, id), t),
    ensures
        has_piece(matmul_text(n_inputs, leading_count, m, k, n, transpose_b, id, a_loc, b_loc, dst_loc), t),
{
    broadcast use lemma_piece_left, lemma_piece_right;

}

/// The matmul kernel computes `C[i][j] = sum_kk A[i][kk] * B[kk][j]`: with
/// `i`, `j`, `kk` in `%rbx`, `%rbp`, `%r11` and the slices of A, B, C in
/// `%r12`, `%r13`, `%r14`, each pass of the k-loop adds to the accumulator
/// `%xmm0` the product of A's element `i * K + kk` and B's element
/// `kk * N + j` (`j * K + kk` when B is transposed), and after the k-loop
/// the accumulator is stored as C's element `i * N + j`.
pub proof fn lemma_matmul_accumulates_products(
    n_inputs: nat,
    leading_count: u64,
    m: u64,
    k: u64,
    n: u64,
    transpose_b: bool,
    id: Seq<char>,
    a_loc: BufferLoc,
    b_loc: BufferLoc,
    dst_loc: BufferLoc,
)
    requires
        k <= u32::MAX,
        n <= u32::MAX,
    ensures
        computes(
            matmul_text(n_inputs, leading_count, m, k, n, transpose_b, id, a_loc, b_loc, dst_loc),
            Reg::Xmm0,
            matmul_step(k, n, transpose_b),
        ),
        stores(
            matmul_text(n_inputs, leading_count, m, k, n, transpose_b, id, a_loc, b_loc, dst_loc),
            seq![
                Store::Elem(
                    init(Reg::R14),
                    row_major(init(Reg::Rbx), n as nat, init(Reg::Rbp)),
                    init(Reg::Xmm0),
                ),
            ],
        ),
{
    let text = matmul_text(n_inputs, leading_count, m, k, n, transpose_b, id, a_loc, b_loc, dst_loc);
    lemma_matmul_kernel_pieces(m, k, n, transpose_b, id);
    let p = if transpose_b { lemma_matmul_body_transposed(k, n) } else { lemma_matmul_body_plain(k, n) };
    lemma_matmul_kernel_in_text(
        n_inputs,
        leading_count,
        m,
        k,
        n,
        transpose_b,
        id,
        a_loc,
        b_loc,
        dst_loc,
        lines(p),
    );
    assert(has_piece(text, lines(p)));
    let sp = lemma_matmul_store(n);
    lemma_matmul_kernel_in_text(
        n_inputs,
        leading_count,
        m,
        k,
        n,
        transpose_b,
        id,
        a_loc,
        b_loc,
        dst_loc,
        lines(sp),
    );
    assert(has_piece(text, lines(sp)));
}

} // verus!
