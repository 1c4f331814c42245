//! Multi-dimensional matmul: an outer loop over the product of the leading
//! dimensions around a triple-loop `[M, K] x [K, N]` kernel (`[N, K]` when
//! `transpose_b`) accumulating with `fmadd`. Only non-argument scratch
//! (`x6`..`x17`) is written, so every argument register survives for later
//! ops; the body neither spills nor calls.

use vstd::prelude::*;
use crate::text::{push_str, push_decimal, decimal, op_id, op_id_string};
use crate::types::{BufferLoc, LowerError, Span};
use crate::arm64::abi::{AbiContext, materialisable, materialise_text};
use crate::arm64::frame::{movz_movk_text, push_movz_movk};
use crate::arm64::ops::loops::{loop_head, loop_tail, push_loop_head, push_loop_tail};
use crate::arm64::arg_writes::{
    scan, scan_at, scratch_reg, writes_no_arg_reg, lemma_scan_append, lemma_scan_literal, lemma_scan_sound,
    lemma_decimal_scan, lemma_movz_movk_scan, lemma_movz_movk_lines, lemma_materialise_lines, lemma_materialise_scan,
    lemma_op_id_scan, lemma_common_lines, lemma_loop_head_scan, lemma_loop_tail_scan,
};

verus! {

pub open spec fn bool_text(b: bool) -> Seq<char> {
    if b { "true"@ } else { "false"@ }
}

/// `<slice> = <base> + x15 * slice_floats * 4`.
pub open spec fn slice_ptr_text(slice: nat, base: Seq<char>, reg: Seq<char>) -> Seq<char> {
    movz_movk_text("x8"@, slice) + "    mul     x6, x15, x8\n"@ + "    add     "@ + reg + ", "@ + base
        + ", x6, lsl #2\n"@
}

/// The offset of `B[k_inner, j]`, or of `B[j, k_inner]` when transposed.
pub open spec fn b_offset_text(k: u64, n: u64, transpose_b: bool) -> Seq<char> {
    if transpose_b {
        movz_movk_text("x8"@, k as nat) + "    mul     x6, x17, x8\n"@ + "    add     x6, x6, x7\n"@
    } else {
        movz_movk_text("x8"@, n as nat) + "    mul     x6, x7, x8\n"@ + "    add     x6, x6, x17\n"@
    }
}

/// The kernel: counters `x16` (i), `x17` (j), `x7` (k).
pub open spec fn matmul_kernel_text(m: u64, k: u64, n: u64, transpose_b: bool, id: Seq<char>) -> Seq<char> {
    "    mov     x16, #0\n"@
        + loop_head(".Lmm4d_i_"@, "    b.ge    .Lmm4d_i_end_"@, "x16"@, "x8"@, m as nat, id)
        + "    mov     x17, #0\n"@
        + loop_head(".Lmm4d_j_"@, "    b.ge    .Lmm4d_j_end_"@, "x17"@, "x8"@, n as nat, id)
        + "    fmov    s0, wzr\n"@ + "    mov     x7, #0\n"@
        + loop_head(".Lmm4d_k_"@, "    b.ge    .Lmm4d_k_end_"@, "x7"@, "x8"@, k as nat, id)
        + movz_movk_text("x8"@, k as nat) + "    mul     x6, x16, x8\n"@ + "    add     x6, x6, x7\n"@
        + "    ldr     s1, [x12, x6, lsl #2]\n"@
        + b_offset_text(k, n, transpose_b)
        + "    ldr     s2, [x13, x6, lsl #2]\n"@
        + "    fmadd   s0, s1, s2, s0\n"@
        + loop_tail("    add     x7, x7, #1\n"@, "    b       .Lmm4d_k_"@, ".Lmm4d_k_end_"@, id)
        + movz_movk_text("x8"@, n as nat) + "    mul     x6, x16, x8\n"@ + "    add     x6, x6, x17\n"@
        + "    str     s0, [x14, x6, lsl #2]\n"@
        + loop_tail("    add     x17, x17, #1\n"@, "    b       .Lmm4d_j_"@, ".Lmm4d_j_end_"@, id)
        + loop_tail("    add     x16, x16, #1\n"@, "    b       .Lmm4d_i_"@, ".Lmm4d_i_end_"@, id)
}

/// The whole matmul: base pointers in `x9`/`x10`/`x11`, the outer loop over
/// `x15` deriving slice pointers in `x12`/`x13`/`x14`, then the kernel.
pub open spec fn matmul_text(
    n_inputs: nat,
    leading_count: u64,
    m: u64,
    k: u64,
    n: u64,
    transpose_b: bool,
    id: Seq<char>,
    a_loc: BufferLoc,
    b_loc: BufferLoc,
    dst_loc: BufferLoc,
) -> Seq<char> {
    "    ; matmul (leading_count="@ + decimal(leading_count as nat) + "): ["@ + decimal(m as nat) + ","@
        + decimal(k as nat) + "] x ["@ + decimal(k as nat) + ","@ + decimal(n as nat) + "] -> ["@
        + decimal(m as nat) + ","@ + decimal(n as nat) + "], transpose_b="@ + bool_text(transpose_b) + "\n"@
        + materialise_text(n_inputs, a_loc, "x9"@)
        + materialise_text(n_inputs, b_loc, "x10"@)
        + materialise_text(n_inputs, dst_loc, "x11"@)
        + "    mov     x15, #0\n"@
        + loop_head(".Lmm4d_outer_"@, "    b.ge    .Lmm4d_outer_end_"@, "x15"@, "x8"@, leading_count as nat, id)
        + slice_ptr_text((m * k) as nat, "x9"@, "x12"@)
        + slice_ptr_text((k * n) as nat, "x10"@, "x13"@)
        + slice_ptr_text((m * n) as nat, "x11"@, "x14"@)
        + matmul_kernel_text(m, k, n, transpose_b, id)
        + loop_tail("    add     x15, x15, #1\n"@, "    b       .Lmm4d_outer_"@, ".Lmm4d_outer_end_"@, id)
}

fn push_slice_ptr(s: &mut String, slice: u64, base: &str, reg: &str)
    requires
        slice <= u32::MAX,
    ensures
        final(s)@ == old(s)@ + slice_ptr_text(slice as nat, base@, reg@),
{
    let mut t = String::new();
    push_movz_movk(&mut t, "x8", slice);
    push_str(&mut t, "    mul     x6, x15, x8\n");
    push_str(&mut t, "    add     ");
    push_str(&mut t, reg);
    push_str(&mut t, ", ");
    push_str(&mut t, base);
    push_str(&mut t, ", x6, lsl #2\n");
    push_str(s, t.as_str());
}

fn b_offset(k: u64, n: u64, transpose_b: bool) -> (s: String)
    requires
        k <= u32::MAX,
        n <= u32::MAX,
    ensures
        s@ == b_offset_text(k, n, transpose_b),
{
    let mut t = String::new();
    if transpose_b {
        push_movz_movk(&mut t, "x8", k);
        push_str(&mut t, "    mul     x6, x17, x8\n");
        push_str(&mut t, "    add     x6, x6, x7\n");
    } else {
        push_movz_movk(&mut t, "x8", n);
        push_str(&mut t, "    mul     x6, x7, x8\n");
        push_str(&mut t, "    add     x6, x6, x17\n");
    }
    t
}

fn kernel(m: u64, k: u64, n: u64, transpose_b: bool, id: &str) -> (s: String)
    requires
        m <= u32::MAX,
        k <= u32::MAX,
        n <= u32::MAX,
    ensures
        s@ == matmul_kernel_text(m, k, n, transpose_b, id@),
{
    let mut t = "    mov     x16, #0\n".to_owned();
    push_loop_head(&mut t, ".Lmm4d_i_", "    b.ge    .Lmm4d_i_end_", "x16", "x8", m, id);
    push_str(&mut t, "    mov     x17, #0\n");
    push_loop_head(&mut t, ".Lmm4d_j_", "    b.ge    .Lmm4d_j_end_", "x17", "x8", n, id);
    push_str(&mut t, "    fmov    s0, wzr\n");
    push_str(&mut t, "    mov     x7, #0\n");
    push_loop_head(&mut t, ".Lmm4d_k_", "    b.ge    .Lmm4d_k_end_", "x7", "x8", k, id);
    push_movz_movk(&mut t, "x8", k);
    push_str(&mut t, "    mul     x6, x16, x8\n");
    push_str(&mut t, "    add     x6, x6, x7\n");
    push_str(&mut t, "    ldr     s1, [x12, x6, lsl #2]\n");
    let off = b_offset(k, n, transpose_b);
    push_str(&mut t, off.as_str());
    push_str(&mut t, "    ldr     s2, [x13, x6, lsl #2]\n");
    push_str(&mut t, "    fmadd   s0, s1, s2, s0\n");
    push_loop_tail(&mut t, "    add     x7, x7, #1\n", "    b       .Lmm4d_k_", ".Lmm4d_k_end_", id);
    push_movz_movk(&mut t, "x8", n);
    push_str(&mut t, "    mul     x6, x16, x8\n");
    push_str(&mut t, "    add     x6, x6, x17\n");
    push_str(&mut t, "    str     s0, [x14, x6, lsl #2]\n");
    push_loop_tail(&mut t, "    add     x17, x17, #1\n", "    b       .Lmm4d_j_", ".Lmm4d_j_end_", id);
    push_loop_tail(&mut t, "    add     x16, x16, #1\n", "    b       .Lmm4d_i_", ".Lmm4d_i_end_", id);
    t
}

fn push_bool(s: &mut String, b: bool)
    ensures
        final(s)@ == old(s)@ + bool_text(b),
{
    if b {
        push_str(s, "true");
    } else {
        push_str(s, "false");
    }
}

proof fn lemma_matmul_line_0(k: nat)
    requires
        k <= 6,
    ensures
        scan(k, 0, "true"@) == 0,
{
    reveal_strlit("true");
    lemma_scan_literal(k, 0, "true"@);
    reveal_with_fuel(scan_at, 5);
}

proof fn lemma_matmul_line_1(k: nat)
    requires
        k <= 6,
    ensures
        scan(k, 0, "false"@) == 0,
{
    reveal_strlit("false");
    lemma_scan_literal(k, 0, "false"@);
    reveal_with_fuel(scan_at, 6);
}

proof fn lemma_matmul_line_2(k: nat)
    requires
        k <= 6,
    ensures
        scan(k, 0, "    mul     x6, x15, x8\n"@) == 0,
{
    reveal_strlit("    mul     x6, x15, x8\n");
    lemma_scan_literal(k, 0, "    mul     x6, x15, x8\n"@);
    reveal_with_fuel(scan_at, 25);
}

proof fn lemma_matmul_line_3(k: nat)
    requires
        k <= 6,
    ensures
        scan(k, 0, ", x6, lsl #2\n"@) == 0,
{
    reveal_strlit(", x6, lsl #2\n");
    lemma_scan_literal(k, 0, ", x6, lsl #2\n"@);
    reveal_with_fuel(scan_at, 14);
}

proof fn lemma_matmul_line_4(k: nat)
    requires
        k <= 6,
    ensures
        scan(k, 0, "    mul     x6, x17, x8\n"@) == 0,
{
    reveal_strlit("    mul     x6, x17, x8\n");
    lemma_scan_literal(k, 0, "    mul     x6, x17, x8\n"@);
    reveal_with_fuel(scan_at, 25);
}

proof fn lemma_matmul_line_5(k: nat)
    requires
        k <= 6,
    ensures
        scan(k, 0, "    add     x6, x6, x7\n"@) == 0,
{
    reveal_strlit("    add     x6, x6, x7\n");
    lemma_scan_literal(k, 0, "    add     x6, x6, x7\n"@);
    reveal_with_fuel(scan_at, 24);
}

proof fn lemma_matmul_line_6(k: nat)
    requires
        k <= 6,
    ensures
        scan(k, 0, "    mul     x6, x7, x8\n"@) == 0,
{
    reveal_strlit("    mul     x6, x7, x8\n");
    lemma_scan_literal(k, 0, "    mul     x6, x7, x8\n"@);
    reveal_with_fuel(scan_at, 24);
}

proof fn lemma_matmul_line_7(k: nat)
    requires
        k <= 6,
    ensures
        scan(k, 0, "    add     x6, x6, x17\n"@) == 0,
{
    reveal_strlit("    add     x6, x6, x17\n");
    lemma_scan_literal(k, 0, "    add     x6, x6, x17\n"@);
    reveal_with_fuel(scan_at, 25);
}

proof fn lemma_matmul_line_8(k: nat)
    requires
        k <= 6,
    ensures
        scan(k, 0, "    mov     x16, #0\n"@) == 0,
{
    reveal_strlit("    mov     x16, #0\n");
    lemma_scan_literal(k, 0, "    mov     x16, #0\n"@);
    reveal_with_fuel(scan_at, 21);
}

proof fn lemma_matmul_line_9(k: nat)
    requires
        k <= 6,
    ensures
        scan(k, 0, ".Lmm4d_i_"@) == 0,
{
    reveal_strlit(".Lmm4d_i_");
    lemma_scan_literal(k, 0, ".Lmm4d_i_"@);
    reveal_with_fuel(scan_at, 10);
}

proof fn lemma_matmul_line_10(k: nat)
    requires
        k <= 6,
    ensures
        scan(k, 0, "    b.ge    .Lmm4d_i_end_"@) == 0,
{
    reveal_strlit("    b.ge    .Lmm4d_i_end_");
    lemma_scan_literal(k, 0, "    b.ge    .Lmm4d_i_end_"@);
    reveal_with_fuel(scan_at, 26);
}

proof fn lemma_matmul_line_11(k: nat)
    requires
        k <= 6,
    ensures
        scan(k, 0, "    mov     x17, #0\n"@) == 0,
{
    reveal_strlit("    mov     x17, #0\n");
    lemma_scan_literal(k, 0, "    mov     x17, #0\n"@);
    reveal_with_fuel(scan_at, 21);
}

proof fn lemma_matmul_line_12(k: nat)
    requires
        k <= 6,
    ensures
        scan(k, 0, ".Lmm4d_j_"@) == 0,
{
    reveal_strlit(".Lmm4d_j_");
    lemma_scan_literal(k, 0, ".Lmm4d_j_"@);
    reveal_with_fuel(scan_at, 10);
}

proof fn lemma_matmul_line_13(k: nat)
    requires
        k <= 6,
    ensures
        scan(k, 0, "    b.ge    .Lmm4d_j_end_"@) == 0,
{
    reveal_strlit("    b.ge    .Lmm4d_j_end_");
    lemma_scan_literal(k, 0, "    b.ge    .Lmm4d_j_end_"@);
    reveal_with_fuel(scan_at, 26);
}

proof fn lemma_matmul_line_14(k: nat)
    requires
        k <= 6,
    ensures
        scan(k, 0, "    fmov    s0, wzr\n"@) == 0,
{
    reveal_strlit("    fmov    s0, wzr\n");
    lemma_scan_literal(k, 0, "    fmov    s0, wzr\n"@);
    reveal_with_fuel(scan_at, 21);
}

proof fn lemma_matmul_line_15(k: nat)
    requires
        k <= 6,
    ensures
        scan(k, 0, "    mov     x7, #0\n"@) == 0,
{
    reveal_strlit("    mov     x7, #0\n");
    lemma_scan_literal(k, 0, "    mov     x7, #0\n"@);
    reveal_with_fuel(scan_at, 20);
}

proof fn lemma_matmul_line_16(k: nat)
    requires
        k <= 6,
    ensures
        scan(k, 0, ".Lmm4d_k_"@) == 0,
{
    reveal_strlit(".Lmm4d_k_");
    lemma_scan_literal(k, 0, ".Lmm4d_k_"@);
    reveal_with_fuel(scan_at, 10);
}

proof fn lemma_matmul_line_17(k: nat)
    requires
        k <= 6,
    ensures
        scan(k, 0, "    b.ge    .Lmm4d_k_end_"@) == 0,
{
    reveal_strlit("    b.ge    .Lmm4d_k_end_");
    lemma_scan_literal(k, 0, "    b.ge    .Lmm4d_k_end_"@);
    reveal_with_fuel(scan_at, 26);
}

proof fn lemma_matmul_line_18(k: nat)
    requires
        k <= 6,
    ensures
        scan(k, 0, "    mul     x6, x16, x8\n"@) == 0,
{
    reveal_strlit("    mul     x6, x16, x8\n");
    lemma_scan_literal(k, 0, "    mul     x6, x16, x8\n"@);
    reveal_with_fuel(scan_at, 25);
}

proof fn lemma_matmul_line_19(k: nat)
    requires
        k <= 6,
    ensures
        scan(k, 0, "    ldr     s1, [x12, x6, lsl #2]\n"@) == 0,
{
    reveal_strlit("    ldr     s1, [x12, x6, lsl #2]\n");
    lemma_scan_literal(k, 0, "    ldr     s1, [x12, x6, lsl #2]\n"@);
    reveal_with_fuel(scan_at, 35);
}

proof fn lemma_matmul_line_20(k: nat)
    requires
        k <= 6,
    ensures
        scan(k, 0, "    ldr     s2, [x13, x6, lsl #2]\n"@) == 0,
{
    reveal_strlit("    ldr     s2, [x13, x6, lsl #2]\n");
    lemma_scan_literal(k, 0, "    ldr     s2, [x13, x6, lsl #2]\n"@);
    reveal_with_fuel(scan_at, 35);
}

proof fn lemma_matmul_line_21(k: nat)
    requires
        k <= 6,
    ensures
        scan(k, 0, "    fmadd   s0, s1, s2, s0\n"@) == 0,
{
    reveal_strlit("    fmadd   s0, s1, s2, s0\n");
    lemma_scan_literal(k, 0, "    fmadd   s0, s1, s2, s0\n"@);
    reveal_with_fuel(scan_at, 28);
}

proof fn lemma_matmul_line_22(k: nat)
    requires
        k <= 6,
    ensures
        scan(k, 0, "    add     x7, x7, #1\n"@) == 0,
{
    reveal_strlit("    add     x7, x7, #1\n");
    lemma_scan_literal(k, 0, "    add     x7, x7, #1\n"@);
    reveal_with_fuel(scan_at, 24);
}

proof fn lemma_matmul_line_23(k: nat)
    requires
        k <= 6,
    ensures
        scan(k, 0, "    b       .Lmm4d_k_"@) == 0,
{
    reveal_strlit("    b       .Lmm4d_k_");
    lemma_scan_literal(k, 0, "    b       .Lmm4d_k_"@);
    reveal_with_fuel(scan_at, 22);
}

proof fn lemma_matmul_line_24(k: nat)
    requires
        k <= 6,
    ensures
        scan(k, 0, ".Lmm4d_k_end_"@) == 0,
{
    reveal_strlit(".Lmm4d_k_end_");
    lemma_scan_literal(k, 0, ".Lmm4d_k_end_"@);
    reveal_with_fuel(scan_at, 14);
}

proof fn lemma_matmul_line_25(k: nat)
    requires
        k <= 6,
    ensures
        scan(k, 0, "    str     s0, [x14, x6, lsl #2]\n"@) == 0,
{
    reveal_strlit("    str     s0, [x14, x6, lsl #2]\n");
    lemma_scan_literal(k, 0, "    str     s0, [x14, x6, lsl #2]\n"@);
    reveal_with_fuel(scan_at, 35);
}

proof fn lemma_matmul_line_26(k: nat)
    requires
        k <= 6,
    ensures
        scan(k, 0, "    add     x17, x17, #1\n"@) == 0,
{
    reveal_strlit("    add     x17, x17, #1\n");
    lemma_scan_literal(k, 0, "    add     x17, x17, #1\n"@);
    reveal_with_fuel(scan_at, 26);
}

proof fn lemma_matmul_line_27(k: nat)
    requires
        k <= 6,
    ensures
        scan(k, 0, "    b       .Lmm4d_j_"@) == 0,
{
    reveal_strlit("    b       .Lmm4d_j_");
    lemma_scan_literal(k, 0, "    b       .Lmm4d_j_"@);
    reveal_with_fuel(scan_at, 22);
}

proof fn lemma_matmul_line_28(k: nat)
    requires
        k <= 6,
    ensures
        scan(k, 0, ".Lmm4d_j_end_"@) == 0,
{
    reveal_strlit(".Lmm4d_j_end_");
    lemma_scan_literal(k, 0, ".Lmm4d_j_end_"@);
    reveal_with_fuel(scan_at, 14);
}

proof fn lemma_matmul_line_29(k: nat)
    requires
        k <= 6,
    ensures
        scan(k, 0, "    add     x16, x16, #1\n"@) == 0,
{
    reveal_strlit("    add     x16, x16, #1\n");
    lemma_scan_literal(k, 0, "    add     x16, x16, #1\n"@);
    reveal_with_fuel(scan_at, 26);
}

proof fn lemma_matmul_line_30(k: nat)
    requires
        k <= 6,
    ensures
        scan(k, 0, "    b       .Lmm4d_i_"@) == 0,
{
    reveal_strlit("    b       .Lmm4d_i_");
    lemma_scan_literal(k, 0, "    b       .Lmm4d_i_"@);
    reveal_with_fuel(scan_at, 22);
}

proof fn lemma_matmul_line_31(k: nat)
    requires
        k <= 6,
    ensures
        scan(k, 0, ".Lmm4d_i_end_"@) == 0,
{
    reveal_strlit(".Lmm4d_i_end_");
    lemma_scan_literal(k, 0, ".Lmm4d_i_end_"@);
    reveal_with_fuel(scan_at, 14);
}

proof fn lemma_matmul_line_32(k: nat)
    requires
        k <= 6,
    ensures
        scan(k, 0, "    ; matmul (leading_count="@) == 0,
{
    reveal_strlit("    ; matmul (leading_count=");
    lemma_scan_literal(k, 0, "    ; matmul (leading_count="@);
    reveal_with_fuel(scan_at, 29);
}

proof fn lemma_matmul_line_33(k: nat)
    requires
        k <= 6,
    ensures
        scan(k, 0, "): ["@) == 0,
{
    reveal_strlit("): [");
    lemma_scan_literal(k, 0, "): ["@);
    reveal_with_fuel(scan_at, 5);
}

proof fn lemma_matmul_line_34(k: nat)
    requires
        k <= 6,
    ensures
        scan(k, 0, ","@) == 0,
{
    reveal_strlit(",");
    lemma_scan_literal(k, 0, ","@);
    reveal_with_fuel(scan_at, 2);
}

proof fn lemma_matmul_line_35(k: nat)
    requires
        k <= 6,
    ensures
        scan(k, 0, "] x ["@) == 0,
{
    reveal_strlit("] x [");
    lemma_scan_literal(k, 0, "] x ["@);
    reveal_with_fuel(scan_at, 6);
}

proof fn lemma_matmul_line_36(k: nat)
    requires
        k <= 6,
    ensures
        scan(k, 0, "] -> ["@) == 0,
{
    reveal_strlit("] -> [");
    lemma_scan_literal(k, 0, "] -> ["@);
    reveal_with_fuel(scan_at, 7);
}

proof fn lemma_matmul_line_37(k: nat)
    requires
        k <= 6,
    ensures
        scan(k, 0, "], transpose_b="@) == 0,
{
    reveal_strlit("], transpose_b=");
    lemma_scan_literal(k, 0, "], transpose_b="@);
    reveal_with_fuel(scan_at, 16);
}

proof fn lemma_matmul_line_38(k: nat)
    requires
        k <= 6,
    ensures
        scan(k, 0, "    mov     x15, #0\n"@) == 0,
{
    reveal_strlit("    mov     x15, #0\n");
    lemma_scan_literal(k, 0, "    mov     x15, #0\n"@);
    reveal_with_fuel(scan_at, 21);
}

proof fn lemma_matmul_line_39(k: nat)
    requires
        k <= 6,
    ensures
        scan(k, 0, ".Lmm4d_outer_"@) == 0,
{
    reveal_strlit(".Lmm4d_outer_");
    lemma_scan_literal(k, 0, ".Lmm4d_outer_"@);
    reveal_with_fuel(scan_at, 14);
}

proof fn lemma_matmul_line_40(k: nat)
    requires
        k <= 6,
    ensures
        scan(k, 0, "    b.ge    .Lmm4d_outer_end_"@) == 0,
{
    reveal_strlit("    b.ge    .Lmm4d_outer_end_");
    lemma_scan_literal(k, 0, "    b.ge    .Lmm4d_outer_end_"@);
    reveal_with_fuel(scan_at, 30);
}

proof fn lemma_matmul_line_41(k: nat)
    requires
        k <= 6,
    ensures
        scan(k, 0, "    add     x15, x15, #1\n"@) == 0,
{
    reveal_strlit("    add     x15, x15, #1\n");
    lemma_scan_literal(k, 0, "    add     x15, x15, #1\n"@);
    reveal_with_fuel(scan_at, 26);
}

proof fn lemma_matmul_line_42(k: nat)
    requires
        k <= 6,
    ensures
        scan(k, 0, "    b       .Lmm4d_outer_"@) == 0,
{
    reveal_strlit("    b       .Lmm4d_outer_");
    lemma_scan_literal(k, 0, "    b       .Lmm4d_outer_"@);
    reveal_with_fuel(scan_at, 26);
}

proof fn lemma_matmul_line_43(k: nat)
    requires
        k <= 6,
    ensures
        scan(k, 0, ".Lmm4d_outer_end_"@) == 0,
{
    reveal_strlit(".Lmm4d_outer_end_");
    lemma_scan_literal(k, 0, ".Lmm4d_outer_end_"@);
    reveal_with_fuel(scan_at, 18);
}

proof fn lemma_matmul_line_44(k: nat)
    requires
        k <= 6,
    ensures
        scan(k, 2, "x14"@) == 0,
{
    reveal_strlit("x14");
    lemma_scan_literal(k, 2, "x14"@);
    reveal_with_fuel(scan_at, 4);
}

proof fn lemma_matmul_line_45(k: nat)
    requires
        k <= 6,
    ensures
        scan(k, 1, "x9"@) == 0,
{
    reveal_strlit("x9");
    lemma_scan_literal(k, 1, "x9"@);
    reveal_with_fuel(scan_at, 3);
}

proof fn lemma_matmul_line_46(k: nat)
    requires
        k <= 6,
    ensures
        scan(k, 1, "x10"@) == 0,
{
    reveal_strlit("x10");
    lemma_scan_literal(k, 1, "x10"@);
    reveal_with_fuel(scan_at, 4);
}

proof fn lemma_matmul_line_47(k: nat)
    requires
        k <= 6,
    ensures
        scan(k, 1, "x11"@) == 0,
{
    reveal_strlit("x11");
    lemma_scan_literal(k, 1, "x11"@);
    reveal_with_fuel(scan_at, 4);
}

proof fn lemma_matmul_line_48(k: nat)
    requires
        k <= 6,
    ensures
        scan(k, 2, "x8"@) == 0,
{
    reveal_strlit("x8");
    lemma_scan_literal(k, 2, "x8"@);
    reveal_with_fuel(scan_at, 3);
}

proof fn lemma_matmul_line_49(k: nat)
    requires
        k <= 6,
    ensures
        scan(k, 1, "x8"@) == 0,
{
    reveal_strlit("x8");
    lemma_scan_literal(k, 1, "x8"@);
    reveal_with_fuel(scan_at, 3);
}

proof fn lemma_matmul_line_50(k: nat)
    requires
        k <= 6,
    ensures
        scan(k, 2, "x16"@) == 0,
{
    reveal_strlit("x16");
    lemma_scan_literal(k, 2, "x16"@);
    reveal_with_fuel(scan_at, 4);
}

proof fn lemma_matmul_line_51(k: nat)
    requires
        k <= 6,
    ensures
        scan(k, 2, "x17"@) == 0,
{
    reveal_strlit("x17");
    lemma_scan_literal(k, 2, "x17"@);
    reveal_with_fuel(scan_at, 4);
}

proof fn lemma_matmul_line_52(k: nat)
    requires
        k <= 6,
    ensures
        scan(k, 2, "x7"@) == 0,
{
    reveal_strlit("x7");
    lemma_scan_literal(k, 2, "x7"@);
    reveal_with_fuel(scan_at, 3);
}

proof fn lemma_matmul_line_53(k: nat)
    requires
        k <= 6,
    ensures
        scan(k, 2, "x15"@) == 0,
{
    reveal_strlit("x15");
    lemma_scan_literal(k, 2, "x15"@);
    reveal_with_fuel(scan_at, 4);
}

proof fn lemma_matmul_line_54(k: nat)
    requires
        k <= 6,
    ensures
        scan(k, 2, "x9"@) == 0,
{
    reveal_strlit("x9");
    lemma_scan_literal(k, 2, "x9"@);
    reveal_with_fuel(scan_at, 3);
}

/// Where the automaton stands after each fixed piece of the matmul text.
proof fn lemma_matmul_lines(k: nat)
    requires
        k <= 6,
    ensures
        scan(k, 0, "true"@) == 0,
        scan(k, 0, "false"@) == 0,
        scan(k, 0, "    mul     x6, x15, x8\n"@) == 0,
        scan(k, 0, ", x6, lsl #2\n"@) == 0,
        scan(k, 0, "    mul     x6, x17, x8\n"@) == 0,
        scan(k, 0, "    add     x6, x6, x7\n"@) == 0,
        scan(k, 0, "    mul     x6, x7, x8\n"@) == 0,
        scan(k, 0, "    add     x6, x6, x17\n"@) == 0,
        scan(k, 0, "    mov     x16, #0\n"@) == 0,
        scan(k, 0, ".Lmm4d_i_"@) == 0,
        scan(k, 0, "    b.ge    .Lmm4d_i_end_"@) == 0,
        scan(k, 0, "    mov     x17, #0\n"@) == 0,
        scan(k, 0, ".Lmm4d_j_"@) == 0,
        scan(k, 0, "    b.ge    .Lmm4d_j_end_"@) == 0,
        scan(k, 0, "    fmov    s0, wzr\n"@) == 0,
        scan(k, 0, "    mov     x7, #0\n"@) == 0,
        scan(k, 0, ".Lmm4d_k_"@) == 0,
        scan(k, 0, "    b.ge    .Lmm4d_k_end_"@) == 0,
        scan(k, 0, "    mul     x6, x16, x8\n"@) == 0,
        scan(k, 0, "    ldr     s1, [x12, x6, lsl #2]\n"@) == 0,
        scan(k, 0, "    ldr     s2, [x13, x6, lsl #2]\n"@) == 0,
        scan(k, 0, "    fmadd   s0, s1, s2, s0\n"@) == 0,
        scan(k, 0, "    add     x7, x7, #1\n"@) == 0,
        scan(k, 0, "    b       .Lmm4d_k_"@) == 0,
        scan(k, 0, ".Lmm4d_k_end_"@) == 0,
        scan(k, 0, "    str     s0, [x14, x6, lsl #2]\n"@) == 0,
        scan(k, 0, "    add     x17, x17, #1\n"@) == 0,
        scan(k, 0, "    b       .Lmm4d_j_"@) == 0,
        scan(k, 0, ".Lmm4d_j_end_"@) == 0,
        scan(k, 0, "    add     x16, x16, #1\n"@) == 0,
        scan(k, 0, "    b       .Lmm4d_i_"@) == 0,
        scan(k, 0, ".Lmm4d_i_end_"@) == 0,
        scan(k, 0, "    ; matmul (leading_count="@) == 0,
        scan(k, 0, "): ["@) == 0,
        scan(k, 0, ","@) == 0,
        scan(k, 0, "] x ["@) == 0,
        scan(k, 0, "] -> ["@) == 0,
        scan(k, 0, "], transpose_b="@) == 0,
        scan(k, 0, "    mov     x15, #0\n"@) == 0,
        scan(k, 0, ".Lmm4d_outer_"@) == 0,
        scan(k, 0, "    b.ge    .Lmm4d_outer_end_"@) == 0,
        scan(k, 0, "    add     x15, x15, #1\n"@) == 0,
        scan(k, 0, "    b       .Lmm4d_outer_"@) == 0,
        scan(k, 0, ".Lmm4d_outer_end_"@) == 0,
        scan(k, 2, "x14"@) == 0,
        scan(k, 1, "x9"@) == 0,
        scan(k, 1, "x10"@) == 0,
        scan(k, 1, "x11"@) == 0,
        scan(k, 2, "x8"@) == 0,
        scan(k, 1, "x8"@) == 0,
        scan(k, 2, "x16"@) == 0,
        scan(k, 2, "x17"@) == 0,
        scan(k, 2, "x7"@) == 0,
        scan(k, 2, "x15"@) == 0,
        scan(k, 2, "x9"@) == 0,
{
    lemma_matmul_line_0(k);
    lemma_matmul_line_1(k);
    lemma_matmul_line_2(k);
    lemma_matmul_line_3(k);
    lemma_matmul_line_4(k);
    lemma_matmul_line_5(k);
    lemma_matmul_line_6(k);
    lemma_matmul_line_7(k);
    lemma_matmul_line_8(k);
    lemma_matmul_line_9(k);
    lemma_matmul_line_10(k);
    lemma_matmul_line_11(k);
    lemma_matmul_line_12(k);
    lemma_matmul_line_13(k);
    lemma_matmul_line_14(k);
    lemma_matmul_line_15(k);
    lemma_matmul_line_16(k);
    lemma_matmul_line_17(k);
    lemma_matmul_line_18(k);
    lemma_matmul_line_19(k);
    lemma_matmul_line_20(k);
    lemma_matmul_line_21(k);
    lemma_matmul_line_22(k);
    lemma_matmul_line_23(k);
    lemma_matmul_line_24(k);
    lemma_matmul_line_25(k);
    lemma_matmul_line_26(k);
    lemma_matmul_line_27(k);
    lemma_matmul_line_28(k);
    lemma_matmul_line_29(k);
    lemma_matmul_line_30(k);
    lemma_matmul_line_31(k);
    lemma_matmul_line_32(k);
    lemma_matmul_line_33(k);
    lemma_matmul_line_34(k);
    lemma_matmul_line_35(k);
    lemma_matmul_line_36(k);
    lemma_matmul_line_37(k);
    lemma_matmul_line_38(k);
    lemma_matmul_line_39(k);
    lemma_matmul_line_40(k);
    lemma_matmul_line_41(k);
    lemma_matmul_line_42(k);
    lemma_matmul_line_43(k);
    lemma_matmul_line_44(k);
    lemma_matmul_line_45(k);
    lemma_matmul_line_46(k);
    lemma_matmul_line_47(k);
    lemma_matmul_line_48(k);
    lemma_matmul_line_49(k);
    lemma_matmul_line_50(k);
    lemma_matmul_line_51(k);
    lemma_matmul_line_52(k);
    lemma_matmul_line_53(k);
    lemma_matmul_line_54(k);
}

proof fn lemma_slice_ptr_scan(k: nat, slice: nat, base: Seq<char>, reg: Seq<char>)
    requires
        k <= 6,
        scan(k, 1, base) == 0,
        scratch_reg(k, reg),
    ensures
        scan(k, 0, slice_ptr_text(slice, base, reg)) == 0,
{
    broadcast use lemma_scan_append;
    lemma_common_lines(k);
    lemma_matmul_lines(k);
    lemma_movz_movk_lines(k);
    lemma_materialise_lines(k);
    lemma_movz_movk_scan(k, "x8"@, slice);
}

proof fn lemma_matmul_kernel_scan(k: nat, m: u64, kk: u64, n: u64, transpose_b: bool, id: Seq<char>)
    requires
        k <= 6,
        scan(k, 0, id) == 0,
    ensures
        scan(k, 0, matmul_kernel_text(m, kk, n, transpose_b, id)) == 0,
{
    broadcast use lemma_scan_append;
    lemma_common_lines(k);
    lemma_matmul_lines(k);
    lemma_movz_movk_scan(k, "x8"@, kk as nat);
    lemma_movz_movk_scan(k, "x8"@, n as nat);
    lemma_loop_head_scan(k, ".Lmm4d_i_"@, "    b.ge    .Lmm4d_i_end_"@, "x16"@, "x8"@, m as nat, id);
    lemma_loop_head_scan(k, ".Lmm4d_j_"@, "    b.ge    .Lmm4d_j_end_"@, "x17"@, "x8"@, n as nat, id);
    lemma_loop_head_scan(k, ".Lmm4d_k_"@, "    b.ge    .Lmm4d_k_end_"@, "x7"@, "x8"@, kk as nat, id);
    lemma_loop_tail_scan(k, "    add     x7, x7, #1\n"@, "    b       .Lmm4d_k_"@, ".Lmm4d_k_end_"@, id);
    lemma_loop_tail_scan(k, "    add     x17, x17, #1\n"@, "    b       .Lmm4d_j_"@, ".Lmm4d_j_end_"@, id);
    lemma_loop_tail_scan(k, "    add     x16, x16, #1\n"@, "    b       .Lmm4d_i_"@, ".Lmm4d_i_end_"@, id);
    assert(scan(k, 0, b_offset_text(kk, n, transpose_b)) == 0);
}

proof fn lemma_matmul_header_scan(k: nat, leading_count: u64, m: u64, kk: u64, n: u64, transpose_b: bool)
    requires
        k <= 6,
    ensures
        scan(
            k,
            0,
            "    ; matmul (leading_count="@ + decimal(leading_count as nat) + "): ["@ + decimal(m as nat) + ","@
            + decimal(kk as nat) + "] x ["@ + decimal(kk as nat) + ","@ + decimal(n as nat) + "] -> ["@
            + decimal(m as nat) + ","@ + decimal(n as nat) + "], transpose_b="@ + bool_text(transpose_b) + "\n"@,
        ) == 0,
{
    broadcast use lemma_scan_append;
    lemma_common_lines(k);
    lemma_matmul_lines(k);
    lemma_decimal_scan(k, 0, leading_count as nat);
    lemma_decimal_scan(k, 0, m as nat);
    lemma_decimal_scan(k, 0, kk as nat);
    lemma_decimal_scan(k, 0, n as nat);
    assert(scan(k, 0, bool_text(transpose_b)) == 0);
}

/// The matmul names no argument register in use as a destination, at any
/// number of inputs: its scratch is `x6`..`x17` and `s0`..`s2`.
proof fn lemma_matmul_writes_no_arg_reg(
    n_inputs: nat,
    leading_count: u64,
    m: u64,
    kk: u64,
    n: u64,
    transpose_b: bool,
    model_idx: nat,
    matmul_idx: nat,
    a_loc: BufferLoc,
    b_loc: BufferLoc,
    dst_loc: BufferLoc,
)
    requires
        n_inputs + 2 <= 6,
        materialisable(n_inputs, a_loc),
        materialisable(n_inputs, b_loc),
        materialisable(n_inputs, dst_loc),
    ensures
        writes_no_arg_reg(
            matmul_text(n_inputs, leading_count, m, kk, n, transpose_b, op_id(model_idx, matmul_idx), a_loc, b_loc, dst_loc),
            n_inputs + 2,
        ),
{
    let k = n_inputs + 2;
    let id = op_id(model_idx, matmul_idx);
    broadcast use lemma_scan_append;
    lemma_common_lines(k);
    lemma_matmul_lines(k);
    lemma_op_id_scan(k, model_idx, matmul_idx);
    lemma_matmul_header_scan(k, leading_count, m, kk, n, transpose_b);
    lemma_materialise_scan(k, n_inputs, a_loc, "x9"@);
    lemma_materialise_scan(k, n_inputs, b_loc, "x10"@);
    lemma_materialise_scan(k, n_inputs, dst_loc, "x11"@);
    lemma_loop_head_scan(k, ".Lmm4d_outer_"@, "    b.ge    .Lmm4d_outer_end_"@, "x15"@, "x8"@, leading_count as nat, id);
    lemma_slice_ptr_scan(k, (m * kk) as nat, "x9"@, "x12"@);
    lemma_slice_ptr_scan(k, (kk * n) as nat, "x10"@, "x13"@);
    lemma_slice_ptr_scan(k, (m * n) as nat, "x11"@, "x14"@);
    lemma_matmul_kernel_scan(k, m, kk, n, transpose_b, id);
    lemma_loop_tail_scan(k, "    add     x15, x15, #1\n"@, "    b       .Lmm4d_outer_"@, ".Lmm4d_outer_end_"@, id);
    lemma_scan_sound(matmul_text(n_inputs, leading_count, m, kk, n, transpose_b, id, a_loc, b_loc, dst_loc), k);
}

/// Emits the matmul of `leading_count` stacked `[m, k] x [k, n]` products.
/// Never fails; the `Result` leaves room for shapes a profile may reject.
pub fn emit_matmul(
    abi: &AbiContext,
    leading_count: u64,
    m: u64,
    k: u64,
    n: u64,
    transpose_b: bool,
    model_idx: usize,
    matmul_idx: usize,
    a_loc: BufferLoc,
    b_loc: BufferLoc,
    dst_loc: BufferLoc,
    node_span: Span,
) -> (r: Result<String, LowerError>)
    requires
        abi.n_inputs + 2 <= 6,
        materialisable(abi.n_inputs as nat, a_loc),
        materialisable(abi.n_inputs as nat, b_loc),
        materialisable(abi.n_inputs as nat, dst_loc),
        leading_count <= u32::MAX,
        m <= u32::MAX,
        k <= u32::MAX,
        n <= u32::MAX,
        m * k <= u32::MAX,
        k * n <= u32::MAX,
        m * n <= u32::MAX,
    ensures
        r matches Ok(s) && s@ == matmul_text(
            abi.n_inputs as nat,
            leading_count,
            m,
            k,
            n,
            transpose_b,
            op_id(model_idx as nat, matmul_idx as nat),
            a_loc,
            b_loc,
            dst_loc,
        ) && writes_no_arg_reg(s@, (abi.n_inputs + 2) as nat),
{
    let mut s = "    ; matmul (leading_count=".to_owned();
    push_decimal(&mut s, leading_count);
    push_str(&mut s, "): [");
    push_decimal(&mut s, m);
    push_str(&mut s, ",");
    push_decimal(&mut s, k);
    push_str(&mut s, "] x [");
    push_decimal(&mut s, k);
    push_str(&mut s, ",");
    push_decimal(&mut s, n);
    push_str(&mut s, "] -> [");
    push_decimal(&mut s, m);
    push_str(&mut s, ",");
    push_decimal(&mut s, n);
    push_str(&mut s, "], transpose_b=");
    push_bool(&mut s, transpose_b);
    push_str(&mut s, "\n");
    abi.materialise_ptr(a_loc, "x9", &mut s);
    abi.materialise_ptr(b_loc, "x10", &mut s);
    abi.materialise_ptr(dst_loc, "x11", &mut s);
    let mid = op_id_string(model_idx, matmul_idx);
    let id = mid.as_str();
    push_str(&mut s, "    mov     x15, #0\n");
    push_loop_head(&mut s, ".Lmm4d_outer_", "    b.ge    .Lmm4d_outer_end_", "x15", "x8", leading_count, id);
    push_slice_ptr(&mut s, m * k, "x9", "x12");
    push_slice_ptr(&mut s, k * n, "x10", "x13");
    push_slice_ptr(&mut s, m * n, "x11", "x14");
    let body = kernel(m, k, n, transpose_b, id);
    push_str(&mut s, body.as_str());
    push_loop_tail(&mut s, "    add     x15, x15, #1\n", "    b       .Lmm4d_outer_", ".Lmm4d_outer_end_", id);
    proof {
        lemma_matmul_writes_no_arg_reg(
            abi.n_inputs as nat,
            leading_count,
            m,
            k,
            n,
            transpose_b,
            model_idx as nat,
            matmul_idx as nat,
            a_loc,
            b_loc,
            dst_loc,
        );
    }
    Ok(s)
}

} // verus!
