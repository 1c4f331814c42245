//! LayerNorm over the last dimension, per row in three passes: mean,
//! variance and inverse standard deviation (native `fsqrt`, one `fdiv` per
//! row), then normalise with the optional affine `* gamma + beta`.
//!
//! Only caller-saved scratch is written (`x6`, `x9`..`x14`, `x16`, `x17`,
//! `s0`..`s7`): no argument register, and no `s8`..`s15`, which AAPCS64
//! makes callee-saved. The constants `1/d`, `1e-5` and `1.0` are loaded
//! inline; the affine pass borrows `s2` (`1/d`) for `beta` and reloads it
//! at the end of each row.

use vstd::prelude::*;
use crate::text::{push_str, push_decimal, push_hex, decimal, hex_padded, op_id, op_id_string};
use crate::types::{BufferLoc, LowerError, Span};
use crate::f32bits::{recip_bits, f32_recip_bits, EPS_BITS, ONE_BITS};
use crate::arm64::abi::{AbiContext, arg_regs, materialisable, materialise_text};
use crate::arm64::frame::{movz_movk_text, push_movz_movk};
use crate::arm64::ops::loops::{loop_head, loop_tail, push_loop_head, push_loop_tail};
use crate::arm64::arg_writes::{
    scan, scan_at, scratch_reg, writes_no_arg_reg, lemma_scan_append, lemma_scan_literal, lemma_scan_sound,
    lemma_decimal_scan, lemma_hex_scan, lemma_movz_movk_scan, lemma_materialise_scan, lemma_op_id_scan,
    lemma_common_lines, lemma_arg_reg_scan, lemma_loop_head_scan, lemma_loop_tail_scan,
};

verus! {

/// `movz`/`movk` of the bits into a `w` register, then `fmov` into `freg`.
pub open spec fn f32_const_text(freg: Seq<char>, scratch_gpr_w: Seq<char>, bits: u32) -> Seq<char> {
    movz_movk_text(scratch_gpr_w, bits as nat) + "    fmov    "@ + freg + ", "@ + scratch_gpr_w + "\n"@
}

/// Materialises an f32 constant, given by its bit pattern, into a scalar
/// float register through a general-purpose scratch register.
pub fn emit_f32_const(freg: &str, scratch_gpr_w: &str, bits: u32) -> (s: String)
    ensures
        s@ == f32_const_text(freg@, scratch_gpr_w@, bits),
{
    let mut s = String::new();
    push_movz_movk(&mut s, scratch_gpr_w, bits as u64);
    push_str(&mut s, "    fmov    ");
    push_str(&mut s, freg);
    push_str(&mut s, ", ");
    push_str(&mut s, scratch_gpr_w);
    push_str(&mut s, "\n");
    s
}

/// `<dst> = params + byte offset`.
pub open spec fn affine_ptr_text(params: Seq<char>, offset: nat, dst: Seq<char>) -> Seq<char> {
    if offset == 0 {
        "    mov     "@ + dst + ", "@ + params + "\n"@
    } else {
        movz_movk_text("x6"@, offset * 4) + "    add     "@ + dst + ", "@ + params + ", x6\n"@
    }
}

pub open spec fn layernorm_header_text(has_affine: bool, b: u64, d: u64) -> Seq<char> {
    "    ; layernorm (3-pass, "@ + (if has_affine { "with "@ } else { "no-"@ }) + "affine): input ["@
        + decimal(b as nat) + ","@ + decimal(d as nat) + "] -> output ["@ + decimal(b as nat) + ","@
        + decimal(d as nat) + "]\n"@
}

pub open spec fn layernorm_constants_text(inv_d: u32) -> Seq<char> {
    "    ; constants: inv_d=0x"@ + hex_padded(inv_d as nat, 8) + ", eps=0x"@ + hex_padded(EPS_BITS as nat, 8)
        + ", one=0x"@ + hex_padded(ONE_BITS as nat, 8) + "\n"@
        + f32_const_text("s2"@, "w9"@, inv_d) + f32_const_text("s3"@, "w9"@, EPS_BITS)
        + f32_const_text("s4"@, "w9"@, ONE_BITS)
}

/// A pass over the row's `d` elements with counter `x11`, bound in `x6`.
pub open spec fn ln_pass(pass: Seq<char>, d: u64, lid: Seq<char>, body: Seq<char>) -> Seq<char> {
    loop_head(".Lln_"@ + pass + "_"@, "    b.ge    .Lln_"@ + pass + "_end_"@, "x11"@, "x6"@, d as nat, lid) + body
        + loop_tail("    add     x11, x11, #1\n"@, "    b       .Lln_"@ + pass + "_"@, ".Lln_"@ + pass + "_end_"@, lid)
}

pub open spec fn pass3_body(has_affine: bool) -> Seq<char> {
    "    ldr     s6, [x9, x11, lsl #2]\n"@ + "    fsub    s6, s6, s1\n"@ + "    fmul    s6, s6, s5\n"@
        + (if has_affine {
            "    ldr     s7, [x13, x11, lsl #2]\n"@ + "    fmul    s6, s6, s7\n"@
                + "    ldr     s2, [x14, x11, lsl #2]\n"@ + "    fadd    s6, s6, s2\n"@
        } else {
            Seq::empty()
        })
        + "    str     s6, [x10, x11, lsl #2]\n"@
}

/// The row loop: per-row pointers `x9`/`x10`, then the three passes.
pub open spec fn layernorm_rows_text(b: u64, d: u64, has_affine: bool, inv_d: u32, lid: Seq<char>) -> Seq<char> {
    "    mov     x12, #0\n"@
        + loop_head(".Lln_row_"@, "    b.ge    .Lln_row_end_"@, "x12"@, "x6"@, b as nat, lid)
        + movz_movk_text("x6"@, (d * 4) as nat) + "    mul     x6, x12, x6\n"@ + "    add     x9,  x16, x6\n"@
        + "    add     x10, x17, x6\n"@
        + "    fmov    s0, wzr\n"@ + "    mov     x11, #0\n"@
        + ln_pass("p1"@, d, lid, "    ldr     s6, [x9, x11, lsl #2]\n"@ + "    fadd    s0, s0, s6\n"@)
        + "    fmul    s1, s0, s2\n"@
        + "    fmov    s0, wzr\n"@ + "    mov     x11, #0\n"@
        + ln_pass("p2"@, d, lid, "    ldr     s6, [x9, x11, lsl #2]\n"@ + "    fsub    s6, s6, s1\n"@
            + "    fmul    s6, s6, s6\n"@ + "    fadd    s0, s0, s6\n"@)
        + "    fmul    s0, s0, s2\n"@ + "    fadd    s0, s0, s3\n"@ + "    fsqrt   s0, s0\n"@ + "    fdiv    s5, s4, s0\n"@
        + "    mov     x11, #0\n"@
        + ln_pass("p3"@, d, lid, pass3_body(has_affine))
        + (if has_affine { f32_const_text("s2"@, "w9"@, inv_d) } else { Seq::empty() })
        + loop_tail("    add     x12, x12, #1\n"@, "    b       .Lln_row_"@, ".Lln_row_end_"@, lid)
}

/// What `emit_layernorm` requires of its arguments.
pub open spec fn layernorm_args_ok(
    n_inputs: nat,
    b: u64,
    d: u64,
    src_loc: BufferLoc,
    dst_loc: BufferLoc,
    gamma_offset: Option<usize>,
    beta_offset: Option<usize>,
) -> bool {
    &&& n_inputs + 2 <= 6
    &&& materialisable(n_inputs, src_loc)
    &&& materialisable(n_inputs, dst_loc)
    &&& b <= u32::MAX
    &&& d * 4 <= u32::MAX
    &&& (gamma_offset is Some <==> beta_offset is Some)
    &&& (gamma_offset matches Some(g) ==> g * 4 <= u32::MAX)
    &&& (beta_offset matches Some(o) ==> o * 4 <= u32::MAX)
}

/// The full layernorm op text.
pub open spec fn layernorm_text(
    n_inputs: nat,
    b: u64,
    d: u64,
    lid: Seq<char>,
    src_loc: BufferLoc,
    dst_loc: BufferLoc,
    gamma_offset: Option<usize>,
    beta_offset: Option<usize>,
) -> Seq<char> {
    let has_affine = gamma_offset is Some;
    let params = arg_regs()[n_inputs as int];
    let inv_d = recip_bits(d as nat) as u32;
    layernorm_header_text(has_affine, b, d)
        + materialise_text(n_inputs, src_loc, "x16"@)
        + materialise_text(n_inputs, dst_loc, "x17"@)
        + (match (gamma_offset, beta_offset) {
            (Some(g), Some(o)) => affine_ptr_text(params, g as nat, "x13"@) + affine_ptr_text(params, o as nat, "x14"@),
            _ => Seq::empty(),
        })
        + layernorm_constants_text(inv_d)
        + layernorm_rows_text(b, d, has_affine, inv_d, lid)
}

fn affine_ptr(params: &str, offset: usize, dst: &str) -> (s: String)
    requires
        offset * 4 <= u32::MAX,
    ensures
        s@ == affine_ptr_text(params@, offset as nat, dst@),
{
    if offset == 0 {
        let mut s = "    mov     ".to_owned();
        push_str(&mut s, dst);
        push_str(&mut s, ", ");
        push_str(&mut s, params);
        push_str(&mut s, "\n");
        s
    } else {
        let mut s = String::new();
        push_movz_movk(&mut s, "x6", (offset * 4) as u64);
        push_str(&mut s, "    add     ");
        push_str(&mut s, dst);
        push_str(&mut s, ", ");
        push_str(&mut s, params);
        push_str(&mut s, ", x6\n");
        s
    }
}

fn layernorm_header(has_affine: bool, b: u64, d: u64) -> (s: String)
    ensures
        s@ == layernorm_header_text(has_affine, b, d),
{
    let mut s = "    ; layernorm (3-pass, ".to_owned();
    let kind = if has_affine { "with ".to_owned() } else { "no-".to_owned() };
    push_str(&mut s, kind.as_str());
    push_str(&mut s, "affine): input [");
    push_decimal(&mut s, b);
    push_str(&mut s, ",");
    push_decimal(&mut s, d);
    push_str(&mut s, "] -> output [");
    push_decimal(&mut s, b);
    push_str(&mut s, ",");
    push_decimal(&mut s, d);
    push_str(&mut s, "]\n");
    s
}

fn layernorm_constants(inv_d: u32) -> (s: String)
    ensures
        s@ == layernorm_constants_text(inv_d),
{
    let mut s = "    ; constants: inv_d=0x".to_owned();
    push_hex(&mut s, inv_d as u64, 8);
    push_str(&mut s, ", eps=0x");
    push_hex(&mut s, EPS_BITS as u64, 8);
    push_str(&mut s, ", one=0x");
    push_hex(&mut s, ONE_BITS as u64, 8);
    push_str(&mut s, "\n");
    let c1 = emit_f32_const("s2", "w9", inv_d);
    push_str(&mut s, c1.as_str());
    let c2 = emit_f32_const("s3", "w9", EPS_BITS);
    push_str(&mut s, c2.as_str());
    let c3 = emit_f32_const("s4", "w9", ONE_BITS);
    push_str(&mut s, c3.as_str());
    s
}

fn push_ln_pass(s: &mut String, pass: &str, d: u64, lid: &str, body: &str)
    requires
        d <= u32::MAX,
    ensures
        final(s)@ == old(s)@ + ln_pass(pass@, d, lid@, body@),
{
    let mut label = ".Lln_".to_owned();
    push_str(&mut label, pass);
    push_str(&mut label, "_");
    let mut exit = "    b.ge    .Lln_".to_owned();
    push_str(&mut exit, pass);
    push_str(&mut exit, "_end_");
    let mut back = "    b       .Lln_".to_owned();
    push_str(&mut back, pass);
    push_str(&mut back, "_");
    let mut end_label = ".Lln_".to_owned();
    push_str(&mut end_label, pass);
    push_str(&mut end_label, "_end_");
    let mut t = String::new();
    push_loop_head(&mut t, label.as_str(), exit.as_str(), "x11", "x6", d, lid);
    push_str(&mut t, body);
    push_loop_tail(&mut t, "    add     x11, x11, #1\n", back.as_str(), end_label.as_str(), lid);
    push_str(s, t.as_str());
}

fn pass3_body_string(has_affine: bool) -> (s: String)
    ensures
        s@ == pass3_body(has_affine),
{
    let mut s = "    ldr     s6, [x9, x11, lsl #2]\n".to_owned();
    push_str(&mut s, "    fsub    s6, s6, s1\n");
    push_str(&mut s, "    fmul    s6, s6, s5\n");
    let affine = if has_affine {
        let mut t = "    ldr     s7, [x13, x11, lsl #2]\n".to_owned();
        push_str(&mut t, "    fmul    s6, s6, s7\n");
        push_str(&mut t, "    ldr     s2, [x14, x11, lsl #2]\n");
        push_str(&mut t, "    fadd    s6, s6, s2\n");
        t
    } else {
        String::new()
    };
    push_str(&mut s, affine.as_str());
    push_str(&mut s, "    str     s6, [x10, x11, lsl #2]\n");
    s
}

fn layernorm_rows(b: u64, d: u64, has_affine: bool, inv_d: u32, lid: &str) -> (s: String)
    requires
        b <= u32::MAX,
        d * 4 <= u32::MAX,
    ensures
        s@ == layernorm_rows_text(b, d, has_affine, inv_d, lid@),
{
    let mut s = "    mov     x12, #0\n".to_owned();
    push_loop_head(&mut s, ".Lln_row_", "    b.ge    .Lln_row_end_", "x12", "x6", b, lid);
    push_movz_movk(&mut s, "x6", d * 4);
    push_str(&mut s, "    mul     x6, x12, x6\n");
    push_str(&mut s, "    add     x9,  x16, x6\n");
    push_str(&mut s, "    add     x10, x17, x6\n");
    push_str(&mut s, "    fmov    s0, wzr\n");
    push_str(&mut s, "    mov     x11, #0\n");
    let mut p1 = "    ldr     s6, [x9, x11, lsl #2]\n".to_owned();
    push_str(&mut p1, "    fadd    s0, s0, s6\n");
    push_ln_pass(&mut s, "p1", d, lid, p1.as_str());
    push_str(&mut s, "    fmul    s1, s0, s2\n");
    push_str(&mut s, "    fmov    s0, wzr\n");
    push_str(&mut s, "    mov     x11, #0\n");
    let mut p2 = "    ldr     s6, [x9, x11, lsl #2]\n".to_owned();
    push_str(&mut p2, "    fsub    s6, s6, s1\n");
    push_str(&mut p2, "    fmul    s6, s6, s6\n");
    push_str(&mut p2, "    fadd    s0, s0, s6\n");
    push_ln_pass(&mut s, "p2", d, lid, p2.as_str());
    push_str(&mut s, "    fmul    s0, s0, s2\n");
    push_str(&mut s, "    fadd    s0, s0, s3\n");
    push_str(&mut s, "    fsqrt   s0, s0\n");
    push_str(&mut s, "    fdiv    s5, s4, s0\n");
    push_str(&mut s, "    mov     x11, #0\n");
    let p3 = pass3_body_string(has_affine);
    push_ln_pass(&mut s, "p3", d, lid, p3.as_str());
    let reload = if has_affine { emit_f32_const("s2", "w9", inv_d) } else { String::new() };
    push_str(&mut s, reload.as_str());
    push_loop_tail(&mut s, "    add     x12, x12, #1\n", "    b       .Lln_row_", ".Lln_row_end_", lid);
    s
}

proof fn lemma_layernorm_line_0(k: nat)
    requires
        k <= 6,
    ensures
        scan(k, 0, "    fmov    "@) == 2,
{
    reveal_strlit("    fmov    ");
    lemma_scan_literal(k, 0, "    fmov    "@);
    reveal_with_fuel(scan_at, 13);
}

proof fn lemma_layernorm_line_1(k: nat)
    requires
        k <= 6,
    ensures
        scan(k, 0, ", "@) == 1,
{
    reveal_strlit(", ");
    lemma_scan_literal(k, 0, ", "@);
    reveal_with_fuel(scan_at, 3);
}

proof fn lemma_layernorm_line_2(k: nat)
    requires
        k <= 6,
    ensures
        scan(k, 0, "    mov     "@) == 2,
{
    reveal_strlit("    mov     ");
    lemma_scan_literal(k, 0, "    mov     "@);
    reveal_with_fuel(scan_at, 13);
}

proof fn lemma_layernorm_line_3(k: nat)
    requires
        k <= 6,
    ensures
        scan(k, 0, "    add     "@) == 2,
{
    reveal_strlit("    add     ");
    lemma_scan_literal(k, 0, "    add     "@);
    reveal_with_fuel(scan_at, 13);
}

proof fn lemma_layernorm_line_4(k: nat)
    requires
        k <= 6,
    ensures
        scan(k, 0, ", x6\n"@) == 0,
{
    reveal_strlit(", x6\n");
    lemma_scan_literal(k, 0, ", x6\n"@);
    reveal_with_fuel(scan_at, 6);
}

proof fn lemma_layernorm_line_5(k: nat)
    requires
        k <= 6,
    ensures
        scan(k, 0, "    ; layernorm (3-pass, "@) == 1,
{
    reveal_strlit("    ; layernorm (3-pass, ");
    lemma_scan_literal(k, 0, "    ; layernorm (3-pass, "@);
    reveal_with_fuel(scan_at, 26);
}

proof fn lemma_layernorm_line_6(k: nat)
    requires
        k <= 6,
    ensures
        scan(k, 0, "affine): input ["@) == 0,
{
    reveal_strlit("affine): input [");
    lemma_scan_literal(k, 0, "affine): input ["@);
    reveal_with_fuel(scan_at, 17);
}

proof fn lemma_layernorm_line_7(k: nat)
    requires
        k <= 6,
    ensures
        scan(k, 0, ","@) == 0,
{
    reveal_strlit(",");
    lemma_scan_literal(k, 0, ","@);
    reveal_with_fuel(scan_at, 2);
}

proof fn lemma_layernorm_line_8(k: nat)
    requires
        k <= 6,
    ensures
        scan(k, 0, "] -> output ["@) == 0,
{
    reveal_strlit("] -> output [");
    lemma_scan_literal(k, 0, "] -> output ["@);
    reveal_with_fuel(scan_at, 14);
}

proof fn lemma_layernorm_line_9(k: nat)
    requires
        k <= 6,
    ensures
        scan(k, 0, "]\n"@) == 0,
{
    reveal_strlit("]\n");
    lemma_scan_literal(k, 0, "]\n"@);
    reveal_with_fuel(scan_at, 3);
}

proof fn lemma_layernorm_line_10(k: nat)
    requires
        k <= 6,
    ensures
        scan(k, 0, "    ; constants: inv_d=0x"@) == 0,
{
    reveal_strlit("    ; constants: inv_d=0x");
    lemma_scan_literal(k, 0, "    ; constants: inv_d=0x"@);
    reveal_with_fuel(scan_at, 26);
}

proof fn lemma_layernorm_line_11(k: nat)
    requires
        k <= 6,
    ensures
        scan(k, 0, ", eps=0x"@) == 0,
{
    reveal_strlit(", eps=0x");
    lemma_scan_literal(k, 0, ", eps=0x"@);
    reveal_with_fuel(scan_at, 9);
}

proof fn lemma_layernorm_line_12(k: nat)
    requires
        k <= 6,
    ensures
        scan(k, 0, ", one=0x"@) == 0,
{
    reveal_strlit(", one=0x");
    lemma_scan_literal(k, 0, ", one=0x"@);
    reveal_with_fuel(scan_at, 9);
}

proof fn lemma_layernorm_line_13(k: nat)
    requires
        k <= 6,
    ensures
        scan(k, 0, ".Lln_"@) == 0,
{
    reveal_strlit(".Lln_");
    lemma_scan_literal(k, 0, ".Lln_"@);
    reveal_with_fuel(scan_at, 6);
}

proof fn lemma_layernorm_line_14(k: nat)
    requires
        k <= 6,
    ensures
        scan(k, 0, "_"@) == 0,
{
    reveal_strlit("_");
    lemma_scan_literal(k, 0, "_"@);
    reveal_with_fuel(scan_at, 2);
}

proof fn lemma_layernorm_line_15(k: nat)
    requires
        k <= 6,
    ensures
        scan(k, 0, "    b.ge    .Lln_"@) == 0,
{
    reveal_strlit("    b.ge    .Lln_");
    lemma_scan_literal(k, 0, "    b.ge    .Lln_"@);
    reveal_with_fuel(scan_at, 18);
}

proof fn lemma_layernorm_line_16(k: nat)
    requires
        k <= 6,
    ensures
        scan(k, 0, "_end_"@) == 0,
{
    reveal_strlit("_end_");
    lemma_scan_literal(k, 0, "_end_"@);
    reveal_with_fuel(scan_at, 6);
}

proof fn lemma_layernorm_line_17(k: nat)
    requires
        k <= 6,
    ensures
        scan(k, 0, "    add     x11, x11, #1\n"@) == 0,
{
    reveal_strlit("    add     x11, x11, #1\n");
    lemma_scan_literal(k, 0, "    add     x11, x11, #1\n"@);
    reveal_with_fuel(scan_at, 26);
}

proof fn lemma_layernorm_line_18(k: nat)
    requires
        k <= 6,
    ensures
        scan(k, 0, "    b       .Lln_"@) == 0,
{
    reveal_strlit("    b       .Lln_");
    lemma_scan_literal(k, 0, "    b       .Lln_"@);
    reveal_with_fuel(scan_at, 18);
}

proof fn lemma_layernorm_line_19(k: nat)
    requires
        k <= 6,
    ensures
        scan(k, 0, "    ldr     s6, [x9, x11, lsl #2]\n"@) == 0,
{
    reveal_strlit("    ldr     s6, [x9, x11, lsl #2]\n");
    lemma_scan_literal(k, 0, "    ldr     s6, [x9, x11, lsl #2]\n"@);
    reveal_with_fuel(scan_at, 35);
}

proof fn lemma_layernorm_line_20(k: nat)
    requires
        k <= 6,
    ensures
        scan(k, 0, "    fsub    s6, s6, s1\n"@) == 0,
{
    reveal_strlit("    fsub    s6, s6, s1\n");
    lemma_scan_literal(k, 0, "    fsub    s6, s6, s1\n"@);
    reveal_with_fuel(scan_at, 24);
}

proof fn lemma_layernorm_line_21(k: nat)
    requires
        k <= 6,
    ensures
        scan(k, 0, "    fmul    s6, s6, s5\n"@) == 0,
{
    reveal_strlit("    fmul    s6, s6, s5\n");
    lemma_scan_literal(k, 0, "    fmul    s6, s6, s5\n"@);
    reveal_with_fuel(scan_at, 24);
}

proof fn lemma_layernorm_line_22(k: nat)
    requires
        k <= 6,
    ensures
        scan(k, 0, "    ldr     s7, [x13, x11, lsl #2]\n"@) == 0,
{
    reveal_strlit("    ldr     s7, [x13, x11, lsl #2]\n");
    lemma_scan_literal(k, 0, "    ldr     s7, [x13, x11, lsl #2]\n"@);
    reveal_with_fuel(scan_at, 36);
}

proof fn lemma_layernorm_line_23(k: nat)
    requires
        k <= 6,
    ensures
        scan(k, 0, "    fmul    s6, s6, s7\n"@) == 0,
{
    reveal_strlit("    fmul    s6, s6, s7\n");
    lemma_scan_literal(k, 0, "    fmul    s6, s6, s7\n"@);
    reveal_with_fuel(scan_at, 24);
}

proof fn lemma_layernorm_line_24(k: nat)
    requires
        k <= 6,
    ensures
        scan(k, 0, "    ldr     s2, [x14, x11, lsl #2]\n"@) == 0,
{
    reveal_strlit("    ldr     s2, [x14, x11, lsl #2]\n");
    lemma_scan_literal(k, 0, "    ldr     s2, [x14, x11, lsl #2]\n"@);
    reveal_with_fuel(scan_at, 36);
}

proof fn lemma_layernorm_line_25(k: nat)
    requires
        k <= 6,
    ensures
        scan(k, 0, "    fadd    s6, s6, s2\n"@) == 0,
{
    reveal_strlit("    fadd    s6, s6, s2\n");
    lemma_scan_literal(k, 0, "    fadd    s6, s6, s2\n"@);
    reveal_with_fuel(scan_at, 24);
}

proof fn lemma_layernorm_line_26(k: nat)
    requires
        k <= 6,
    ensures
        scan(k, 0, "    str     s6, [x10, x11, lsl #2]\n"@) == 0,
{
    reveal_strlit("    str     s6, [x10, x11, lsl #2]\n");
    lemma_scan_literal(k, 0, "    str     s6, [x10, x11, lsl #2]\n"@);
    reveal_with_fuel(scan_at, 36);
}

proof fn lemma_layernorm_line_27(k: nat)
    requires
        k <= 6,
    ensures
        scan(k, 0, ".Lln_row_"@) == 0,
{
    reveal_strlit(".Lln_row_");
    lemma_scan_literal(k, 0, ".Lln_row_"@);
    reveal_with_fuel(scan_at, 10);
}

proof fn lemma_layernorm_line_28(k: nat)
    requires
        k <= 6,
    ensures
        scan(k, 0, "    b.ge    .Lln_row_end_"@) == 0,
{
    reveal_strlit("    b.ge    .Lln_row_end_");
    lemma_scan_literal(k, 0, "    b.ge    .Lln_row_end_"@);
    reveal_with_fuel(scan_at, 26);
}

proof fn lemma_layernorm_line_29(k: nat)
    requires
        k <= 6,
    ensures
        scan(k, 0, "    mul     x6, x12, x6\n"@) == 0,
{
    reveal_strlit("    mul     x6, x12, x6\n");
    lemma_scan_literal(k, 0, "    mul     x6, x12, x6\n"@);
    reveal_with_fuel(scan_at, 25);
}

proof fn lemma_layernorm_line_30(k: nat)
    requires
        k <= 6,
    ensures
        scan(k, 0, "    add     x9,  x16, x6\n"@) == 0,
{
    reveal_strlit("    add     x9,  x16, x6\n");
    lemma_scan_literal(k, 0, "    add     x9,  x16, x6\n"@);
    reveal_with_fuel(scan_at, 26);
}

proof fn lemma_layernorm_line_31(k: nat)
    requires
        k <= 6,
    ensures
        scan(k, 0, "    add     x10, x17, x6\n"@) == 0,
{
    reveal_strlit("    add     x10, x17, x6\n");
    lemma_scan_literal(k, 0, "    add     x10, x17, x6\n"@);
    reveal_with_fuel(scan_at, 26);
}

proof fn lemma_layernorm_line_32(k: nat)
    requires
        k <= 6,
    ensures
        scan(k, 0, "    fmov    s0, wzr\n"@) == 0,
{
    reveal_strlit("    fmov    s0, wzr\n");
    lemma_scan_literal(k, 0, "    fmov    s0, wzr\n"@);
    reveal_with_fuel(scan_at, 21);
}

proof fn lemma_layernorm_line_33(k: nat)
    requires
        k <= 6,
    ensures
        scan(k, 0, "    mov     x11, #0\n"@) == 0,
{
    reveal_strlit("    mov     x11, #0\n");
    lemma_scan_literal(k, 0, "    mov     x11, #0\n"@);
    reveal_with_fuel(scan_at, 21);
}

proof fn lemma_layernorm_line_34(k: nat)
    requires
        k <= 6,
    ensures
        scan(k, 0, "p1"@) == 0,
{
    reveal_strlit("p1");
    lemma_scan_literal(k, 0, "p1"@);
    reveal_with_fuel(scan_at, 3);
}

proof fn lemma_layernorm_line_35(k: nat)
    requires
        k <= 6,
    ensures
        scan(k, 0, "    fadd    s0, s0, s6\n"@) == 0,
{
    reveal_strlit("    fadd    s0, s0, s6\n");
    lemma_scan_literal(k, 0, "    fadd    s0, s0, s6\n"@);
    reveal_with_fuel(scan_at, 24);
}

proof fn lemma_layernorm_line_36(k: nat)
    requires
        k <= 6,
    ensures
        scan(k, 0, "    fmul    s1, s0, s2\n"@) == 0,
{
    reveal_strlit("    fmul    s1, s0, s2\n");
    lemma_scan_literal(k, 0, "    fmul    s1, s0, s2\n"@);
    reveal_with_fuel(scan_at, 24);
}

proof fn lemma_layernorm_line_37(k: nat)
    requires
        k <= 6,
    ensures
        scan(k, 0, "p2"@) == 0,
{
    reveal_strlit("p2");
    lemma_scan_literal(k, 0, "p2"@);
    reveal_with_fuel(scan_at, 3);
}

proof fn lemma_layernorm_line_38(k: nat)
    requires
        k <= 6,
    ensures
        scan(k, 0, "    fmul    s6, s6, s6\n"@) == 0,
{
    reveal_strlit("    fmul    s6, s6, s6\n");
    lemma_scan_literal(k, 0, "    fmul    s6, s6, s6\n"@);
    reveal_with_fuel(scan_at, 24);
}

proof fn lemma_layernorm_line_39(k: nat)
    requires
        k <= 6,
    ensures
        scan(k, 0, "    fmul    s0, s0, s2\n"@) == 0,
{
    reveal_strlit("    fmul    s0, s0, s2\n");
    lemma_scan_literal(k, 0, "    fmul    s0, s0, s2\n"@);
    reveal_with_fuel(scan_at, 24);
}

proof fn lemma_layernorm_line_40(k: nat)
    requires
        k <= 6,
    ensures
        scan(k, 0, "    fadd    s0, s0, s3\n"@) == 0,
{
    reveal_strlit("    fadd    s0, s0, s3\n");
    lemma_scan_literal(k, 0, "    fadd    s0, s0, s3\n"@);
    reveal_with_fuel(scan_at, 24);
}

proof fn lemma_layernorm_line_41(k: nat)
    requires
        k <= 6,
    ensures
        scan(k, 0, "    fsqrt   s0, s0\n"@) == 0,
{
    reveal_strlit("    fsqrt   s0, s0\n");
    lemma_scan_literal(k, 0, "    fsqrt   s0, s0\n"@);
    reveal_with_fuel(scan_at, 20);
}

proof fn lemma_layernorm_line_42(k: nat)
    requires
        k <= 6,
    ensures
        scan(k, 0, "    fdiv    s5, s4, s0\n"@) == 0,
{
    reveal_strlit("    fdiv    s5, s4, s0\n");
    lemma_scan_literal(k, 0, "    fdiv    s5, s4, s0\n"@);
    reveal_with_fuel(scan_at, 24);
}

proof fn lemma_layernorm_line_43(k: nat)
    requires
        k <= 6,
    ensures
        scan(k, 0, "p3"@) == 0,
{
    reveal_strlit("p3");
    lemma_scan_literal(k, 0, "p3"@);
    reveal_with_fuel(scan_at, 3);
}

proof fn lemma_layernorm_line_44(k: nat)
    requires
        k <= 6,
    ensures
        scan(k, 0, "    b       .Lln_row_"@) == 0,
{
    reveal_strlit("    b       .Lln_row_");
    lemma_scan_literal(k, 0, "    b       .Lln_row_"@);
    reveal_with_fuel(scan_at, 22);
}

proof fn lemma_layernorm_line_45(k: nat)
    requires
        k <= 6,
    ensures
        scan(k, 0, ".Lln_row_end_"@) == 0,
{
    reveal_strlit(".Lln_row_end_");
    lemma_scan_literal(k, 0, ".Lln_row_end_"@);
    reveal_with_fuel(scan_at, 14);
}

proof fn lemma_layernorm_line_46(k: nat)
    requires
        k <= 6,
    ensures
        scan(k, 2, "x16"@) == 0,
{
    reveal_strlit("x16");
    lemma_scan_literal(k, 2, "x16"@);
    reveal_with_fuel(scan_at, 4);
}

proof fn lemma_layernorm_line_47(k: nat)
    requires
        k <= 6,
    ensures
        scan(k, 2, "x17"@) == 0,
{
    reveal_strlit("x17");
    lemma_scan_literal(k, 2, "x17"@);
    reveal_with_fuel(scan_at, 4);
}

proof fn lemma_layernorm_line_48(k: nat)
    requires
        k <= 6,
    ensures
        scan(k, 2, "x14"@) == 0,
{
    reveal_strlit("x14");
    lemma_scan_literal(k, 2, "x14"@);
    reveal_with_fuel(scan_at, 4);
}

proof fn lemma_layernorm_line_49(k: nat)
    requires
        k <= 6,
    ensures
        scan(k, 2, "x6"@) == 0,
{
    reveal_strlit("x6");
    lemma_scan_literal(k, 2, "x6"@);
    reveal_with_fuel(scan_at, 3);
}

proof fn lemma_layernorm_line_50(k: nat)
    requires
        k <= 6,
    ensures
        scan(k, 1, "x6"@) == 0,
{
    reveal_strlit("x6");
    lemma_scan_literal(k, 1, "x6"@);
    reveal_with_fuel(scan_at, 3);
}

proof fn lemma_layernorm_line_51(k: nat)
    requires
        k <= 6,
    ensures
        scan(k, 1, "w9"@) == 0,
{
    reveal_strlit("w9");
    lemma_scan_literal(k, 1, "w9"@);
    reveal_with_fuel(scan_at, 3);
}

proof fn lemma_layernorm_line_52(k: nat)
    requires
        k <= 6,
    ensures
        scan(k, 2, "s2"@) == 0,
{
    reveal_strlit("s2");
    lemma_scan_literal(k, 2, "s2"@);
    reveal_with_fuel(scan_at, 3);
}

proof fn lemma_layernorm_line_53(k: nat)
    requires
        k <= 6,
    ensures
        scan(k, 2, "s3"@) == 0,
{
    reveal_strlit("s3");
    lemma_scan_literal(k, 2, "s3"@);
    reveal_with_fuel(scan_at, 3);
}

proof fn lemma_layernorm_line_54(k: nat)
    requires
        k <= 6,
    ensures
        scan(k, 2, "s4"@) == 0,
{
    reveal_strlit("s4");
    lemma_scan_literal(k, 2, "s4"@);
    reveal_with_fuel(scan_at, 3);
}

proof fn lemma_layernorm_line_55(k: nat)
    requires
        k <= 6,
    ensures
        scan(k, 1, "with "@) == 1,
{
    reveal_strlit("with ");
    lemma_scan_literal(k, 1, "with "@);
    reveal_with_fuel(scan_at, 6);
}

proof fn lemma_layernorm_line_56(k: nat)
    requires
        k <= 6,
    ensures
        scan(k, 1, "no-"@) == 0,
{
    reveal_strlit("no-");
    lemma_scan_literal(k, 1, "no-"@);
    reveal_with_fuel(scan_at, 4);
}

proof fn lemma_layernorm_line_57(k: nat)
    requires
        k <= 6,
    ensures
        scan(k, 1, "affine): input ["@) == 0,
{
    reveal_strlit("affine): input [");
    lemma_scan_literal(k, 1, "affine): input ["@);
    reveal_with_fuel(scan_at, 17);
}

/// Where the automaton stands after each fixed piece of the layernorm op text.
proof fn lemma_layernorm_lines(k: nat)
    requires
        k <= 6,
    ensures
        scan(k, 0, "    fmov    "@) == 2,
        scan(k, 0, ", "@) == 1,
        scan(k, 0, "    mov     "@) == 2,
        scan(k, 0, "    add     "@) == 2,
        scan(k, 0, ", x6\n"@) == 0,
        scan(k, 0, "    ; layernorm (3-pass, "@) == 1,
        scan(k, 0, "affine): input ["@) == 0,
        scan(k, 0, ","@) == 0,
        scan(k, 0, "] -> output ["@) == 0,
        scan(k, 0, "]\n"@) == 0,
        scan(k, 0, "    ; constants: inv_d=0x"@) == 0,
        scan(k, 0, ", eps=0x"@) == 0,
        scan(k, 0, ", one=0x"@) == 0,
        scan(k, 0, ".Lln_"@) == 0,
        scan(k, 0, "_"@) == 0,
        scan(k, 0, "    b.ge    .Lln_"@) == 0,
        scan(k, 0, "_end_"@) == 0,
        scan(k, 0, "    add     x11, x11, #1\n"@) == 0,
        scan(k, 0, "    b       .Lln_"@) == 0,
        scan(k, 0, "    ldr     s6, [x9, x11, lsl #2]\n"@) == 0,
        scan(k, 0, "    fsub    s6, s6, s1\n"@) == 0,
        scan(k, 0, "    fmul    s6, s6, s5\n"@) == 0,
        scan(k, 0, "    ldr     s7, [x13, x11, lsl #2]\n"@) == 0,
        scan(k, 0, "    fmul    s6, s6, s7\n"@) == 0,
        scan(k, 0, "    ldr     s2, [x14, x11, lsl #2]\n"@) == 0,
        scan(k, 0, "    fadd    s6, s6, s2\n"@) == 0,
        scan(k, 0, "    str     s6, [x10, x11, lsl #2]\n"@) == 0,
        scan(k, 0, ".Lln_row_"@) == 0,
        scan(k, 0, "    b.ge    .Lln_row_end_"@) == 0,
        scan(k, 0, "    mul     x6, x12, x6\n"@) == 0,
        scan(k, 0, "    add     x9,  x16, x6\n"@) == 0,
        scan(k, 0, "    add     x10, x17, x6\n"@) == 0,
        scan(k, 0, "    fmov    s0, wzr\n"@) == 0,
        scan(k, 0, "    mov     x11, #0\n"@) == 0,
        scan(k, 0, "p1"@) == 0,
        scan(k, 0, "    fadd    s0, s0, s6\n"@) == 0,
        scan(k, 0, "    fmul    s1, s0, s2\n"@) == 0,
        scan(k, 0, "p2"@) == 0,
        scan(k, 0, "    fmul    s6, s6, s6\n"@) == 0,
        scan(k, 0, "    fmul    s0, s0, s2\n"@) == 0,
        scan(k, 0, "    fadd    s0, s0, s3\n"@) == 0,
        scan(k, 0, "    fsqrt   s0, s0\n"@) == 0,
        scan(k, 0, "    fdiv    s5, s4, s0\n"@) == 0,
        scan(k, 0, "p3"@) == 0,
        scan(k, 0, "    b       .Lln_row_"@) == 0,
        scan(k, 0, ".Lln_row_end_"@) == 0,
        scan(k, 2, "x16"@) == 0,
        scan(k, 2, "x17"@) == 0,
        scan(k, 2, "x14"@) == 0,
        scan(k, 2, "x6"@) == 0,
        scan(k, 1, "x6"@) == 0,
        scan(k, 1, "w9"@) == 0,
        scan(k, 2, "s2"@) == 0,
        scan(k, 2, "s3"@) == 0,
        scan(k, 2, "s4"@) == 0,
        scan(k, 1, "with "@) == 1,
        scan(k, 1, "no-"@) == 0,
        scan(k, 1, "affine): input ["@) == 0,
{
    lemma_layernorm_line_0(k);
    lemma_layernorm_line_1(k);
    lemma_layernorm_line_2(k);
    lemma_layernorm_line_3(k);
    lemma_layernorm_line_4(k);
    lemma_layernorm_line_5(k);
    lemma_layernorm_line_6(k);
    lemma_layernorm_line_7(k);
    lemma_layernorm_line_8(k);
    lemma_layernorm_line_9(k);
    lemma_layernorm_line_10(k);
    lemma_layernorm_line_11(k);
    lemma_layernorm_line_12(k);
    lemma_layernorm_line_13(k);
    lemma_layernorm_line_14(k);
    lemma_layernorm_line_15(k);
    lemma_layernorm_line_16(k);
    lemma_layernorm_line_17(k);
    lemma_layernorm_line_18(k);
    lemma_layernorm_line_19(k);
    lemma_layernorm_line_20(k);
    lemma_layernorm_line_21(k);
    lemma_layernorm_line_22(k);
    lemma_layernorm_line_23(k);
    lemma_layernorm_line_24(k);
    lemma_layernorm_line_25(k);
    lemma_layernorm_line_26(k);
    lemma_layernorm_line_27(k);
    lemma_layernorm_line_28(k);
    lemma_layernorm_line_29(k);
    lemma_layernorm_line_30(k);
    lemma_layernorm_line_31(k);
    lemma_layernorm_line_32(k);
    lemma_layernorm_line_33(k);
    lemma_layernorm_line_34(k);
    lemma_layernorm_line_35(k);
    lemma_layernorm_line_36(k);
    lemma_layernorm_line_37(k);
    lemma_layernorm_line_38(k);
    lemma_layernorm_line_39(k);
    lemma_layernorm_line_40(k);
    lemma_layernorm_line_41(k);
    lemma_layernorm_line_42(k);
    lemma_layernorm_line_43(k);
    lemma_layernorm_line_44(k);
    lemma_layernorm_line_45(k);
    lemma_layernorm_line_46(k);
    lemma_layernorm_line_47(k);
    lemma_layernorm_line_48(k);
    lemma_layernorm_line_49(k);
    lemma_layernorm_line_50(k);
    lemma_layernorm_line_51(k);
    lemma_layernorm_line_52(k);
    lemma_layernorm_line_53(k);
    lemma_layernorm_line_54(k);
    lemma_layernorm_line_55(k);
    lemma_layernorm_line_56(k);
    lemma_layernorm_line_57(k);
}

proof fn lemma_f32_const_scan(k: nat, freg: Seq<char>, bits: u32)
    requires
        k <= 6,
        scan(k, 2, freg) == 0,
    ensures
        scan(k, 0, f32_const_text(freg, "w9"@, bits)) == 0,
{
    broadcast use lemma_scan_append;
    lemma_common_lines(k);
    lemma_layernorm_lines(k);
    lemma_movz_movk_scan(k, "w9"@, bits as nat);
}

proof fn lemma_affine_ptr_scan(k: nat, n_inputs: nat, offset: nat, dst: Seq<char>)
    requires
        k <= 6,
        n_inputs < 6,
        scratch_reg(k, dst),
    ensures
        scan(k, 0, affine_ptr_text(arg_regs()[n_inputs as int], offset, dst)) == 0,
{
    broadcast use lemma_scan_append;
    lemma_common_lines(k);
    lemma_layernorm_lines(k);
    lemma_arg_reg_scan(k, n_inputs as int);
    lemma_movz_movk_scan(k, "x6"@, offset * 4);
    let params = arg_regs()[n_inputs as int];
    if offset == 0 {
        assert(affine_ptr_text(params, offset, dst) =~= "    mov     "@ + dst + ", "@ + (params + "\n"@));
    }
}

proof fn lemma_layernorm_head_scan(k: nat, has_affine: bool, b: u64, d: u64, inv_d: u32)
    requires
        k <= 6,
    ensures
        scan(k, 0, layernorm_header_text(has_affine, b, d)) == 0,
        scan(k, 0, layernorm_constants_text(inv_d)) == 0,
{
    broadcast use lemma_scan_append;
    lemma_common_lines(k);
    lemma_layernorm_lines(k);
    lemma_decimal_scan(k, 0, b as nat);
    lemma_decimal_scan(k, 0, d as nat);
    lemma_hex_scan(k, inv_d as nat, 8);
    lemma_hex_scan(k, EPS_BITS as nat, 8);
    lemma_hex_scan(k, ONE_BITS as nat, 8);
    lemma_f32_const_scan(k, "s2"@, inv_d);
    lemma_f32_const_scan(k, "s3"@, EPS_BITS);
    lemma_f32_const_scan(k, "s4"@, ONE_BITS);
    let kind = if has_affine { "with "@ } else { "no-"@ };
    assert(layernorm_header_text(has_affine, b, d) =~= "    ; layernorm (3-pass, "@ + kind + "affine): input ["@
        + decimal(b as nat) + ","@ + decimal(d as nat) + "] -> output ["@ + decimal(b as nat) + ","@
        + decimal(d as nat) + "]\n"@);
}

proof fn lemma_ln_pass_scan(k: nat, pass: Seq<char>, d: u64, lid: Seq<char>, body: Seq<char>)
    requires
        k <= 6,
        scan(k, 0, pass) == 0,
        scan(k, 0, lid) == 0,
        scan(k, 0, body) == 0,
    ensures
        scan(k, 0, ln_pass(pass, d, lid, body)) == 0,
{
    broadcast use lemma_scan_append;
    lemma_common_lines(k);
    lemma_layernorm_lines(k);
    lemma_loop_head_scan(
        k,
        ".Lln_"@ + pass + "_"@,
        "    b.ge    .Lln_"@ + pass + "_end_"@,
        "x11"@,
        "x6"@,
        d as nat,
        lid,
    );
    lemma_loop_tail_scan(k, "    add     x11, x11, #1\n"@, "    b       .Lln_"@ + pass + "_"@, ".Lln_"@ + pass + "_end_"@, lid);
}

proof fn lemma_layernorm_rows_scan(k: nat, b: u64, d: u64, has_affine: bool, inv_d: u32, lid: Seq<char>)
    requires
        k <= 6,
        scan(k, 0, lid) == 0,
    ensures
        scan(k, 0, layernorm_rows_text(b, d, has_affine, inv_d, lid)) == 0,
{
    broadcast use lemma_scan_append;
    lemma_common_lines(k);
    lemma_layernorm_lines(k);
    lemma_loop_head_scan(k, ".Lln_row_"@, "    b.ge    .Lln_row_end_"@, "x12"@, "x6"@, b as nat, lid);
    lemma_loop_tail_scan(k, "    add     x12, x12, #1\n"@, "    b       .Lln_row_"@, ".Lln_row_end_"@, lid);
    lemma_movz_movk_scan(k, "x6"@, (d * 4) as nat);
    lemma_f32_const_scan(k, "s2"@, inv_d);
    lemma_ln_pass_scan(k, "p1"@, d, lid, "    ldr     s6, [x9, x11, lsl #2]\n"@ + "    fadd    s0, s0, s6\n"@);
    lemma_ln_pass_scan(
        k,
        "p2"@,
        d,
        lid,
        "    ldr     s6, [x9, x11, lsl #2]\n"@ + "    fsub    s6, s6, s1\n"@ + "    fmul    s6, s6, s6\n"@
            + "    fadd    s0, s0, s6\n"@,
    );
    assert(scan(k, 0, pass3_body(has_affine)) == 0);
    lemma_ln_pass_scan(k, "p3"@, d, lid, pass3_body(has_affine));
}

/// The layernorm op names no argument register in use as a destination,
/// at any number of inputs: its scratch is `x6`, `x9`..`x17`, `w9` and
/// `s0`..`s7`.
proof fn lemma_layernorm_writes_no_arg_reg(
    n_inputs: nat,
    b: u64,
    d: u64,
    model_idx: nat,
    layernorm_idx: nat,
    src_loc: BufferLoc,
    dst_loc: BufferLoc,
    gamma_offset: Option<usize>,
    beta_offset: Option<usize>,
)
    requires
        layernorm_args_ok(n_inputs, b, d, src_loc, dst_loc, gamma_offset, beta_offset),
    ensures
        writes_no_arg_reg(
            layernorm_text(n_inputs, b, d, op_id(model_idx, layernorm_idx), src_loc, dst_loc, gamma_offset, beta_offset),
            n_inputs + 2,
        ),
{
    let k = n_inputs + 2;
    let lid = op_id(model_idx, layernorm_idx);
    let has_affine = gamma_offset is Some;
    let inv_d = recip_bits(d as nat) as u32;
    broadcast use lemma_scan_append;
    lemma_common_lines(k);
    lemma_layernorm_lines(k);
    lemma_op_id_scan(k, model_idx, layernorm_idx);
    lemma_layernorm_head_scan(k, has_affine, b, d, inv_d);
    lemma_layernorm_rows_scan(k, b, d, has_affine, inv_d, lid);
    lemma_materialise_scan(k, n_inputs, src_loc, "x16"@);
    lemma_materialise_scan(k, n_inputs, dst_loc, "x17"@);
    if let (Some(g), Some(o)) = (gamma_offset, beta_offset) {
        lemma_affine_ptr_scan(k, n_inputs, g as nat, "x13"@);
        lemma_affine_ptr_scan(k, n_inputs, o as nat, "x14"@);
    }
    lemma_scan_sound(layernorm_text(n_inputs, b, d, lid, src_loc, dst_loc, gamma_offset, beta_offset), k);
}

/// Emits a layernorm over `b` rows of `d` elements; `gamma_offset` and
/// `beta_offset` (in floats into the params buffer) select the affine form.
/// Never fails.
pub fn emit_layernorm(
    abi: &AbiContext,
    b: u64,
    d: u64,
    model_idx: usize,
    layernorm_idx: usize,
    src_loc: BufferLoc,
    dst_loc: BufferLoc,
    gamma_offset: Option<usize>,
    beta_offset: Option<usize>,
    node_span: Span,
) -> (r: Result<String, LowerError>)
    requires
        layernorm_args_ok(abi.n_inputs as nat, b, d, src_loc, dst_loc, gamma_offset, beta_offset),
    ensures
        r matches Ok(s) && s@ == layernorm_text(
            abi.n_inputs as nat,
            b,
            d,
            op_id(model_idx as nat, layernorm_idx as nat),
            src_loc,
            dst_loc,
            gamma_offset,
            beta_offset,
        ) && writes_no_arg_reg(s@, (abi.n_inputs + 2) as nat),
{
    let lid_string = op_id_string(model_idx, layernorm_idx);
    let lid = lid_string.as_str();
    let has_affine = gamma_offset.is_some();
    let mut s = layernorm_header(has_affine, b, d);
    abi.materialise_ptr(src_loc, "x16", &mut s);
    abi.materialise_ptr(dst_loc, "x17", &mut s);
    let affine_ptrs = match (gamma_offset, beta_offset) {
        (Some(g_off), Some(b_off)) => {
            let params_reg = abi.params_reg();
            let mut t = affine_ptr(params_reg, g_off, "x13");
            let beta_ptr = affine_ptr(params_reg, b_off, "x14");
            push_str(&mut t, beta_ptr.as_str());
            t
        },
        _ => String::new(),
    };
    push_str(&mut s, affine_ptrs.as_str());
    let inv_d_bits = f32_recip_bits(d);
    let constants = layernorm_constants(inv_d_bits);
    push_str(&mut s, constants.as_str());
    let rows = layernorm_rows(b, d, has_affine, inv_d_bits, lid);
    push_str(&mut s, rows.as_str());
    proof {
        lemma_layernorm_writes_no_arg_reg(
            abi.n_inputs as nat,
            b,
            d,
            model_idx as nat,
            layernorm_idx as nat,
            src_loc,
            dst_loc,
            gamma_offset,
            beta_offset,
        );
    }
    Ok(s)
}

} // verus!
