//! LayerNorm over the last dimension, per row in three passes: mean,
//! variance and inverse standard deviation (native `sqrtss`, one `divss`
//! per row, outside the normalise loop), then normalise with the optional
//! affine `* gamma + beta`.
//!
//! Callee-saved scratch is saved op-locally: `%r15` (per-row src), `%rbx`
//! (src base), `%r14` (dst base), plus `%r12`/`%r13` (gamma/beta bases)
//! when affine. The pushes come first, so stack-relative buffer addresses
//! are biased by the bytes pushed. The per-row dst pointer lives in `%rbp`.
//! No argument register is written. The constants sit in a per-op
//! `.rodata` pool emitted after the body.

use vstd::prelude::*;
use crate::text::{push_str, push_decimal, push_hex, decimal, hex_padded, op_id, op_id_string, has_piece, lemma_piece_left, lemma_piece_right,
    lemma_ends_self, lemma_ends_grow, lemma_ends_piece,
};
use crate::x86_64::dataflow::{
    Ins, Reg, Store, Term, line, lines, run, value, computes, stores, lemma_push, init, load, fadd, fsub,
    fmul, fdiv,
    fsqrt,
};
use crate::types::{BufferLoc, LowerError, Span};
use crate::f32bits::{recip_bits, f32_recip_bits, EPS_BITS, ONE_BITS};
use crate::x86_64::abi::{AbiContext, arg_regs, materialisable, materialise_text};
use crate::x86_64::frame::{push_imm32_to_r10, imm32_to_r10_text};
use crate::x86_64::ops::loops::{push_loop_head, push_loop_tail, loop_head, loop_tail};
use crate::x86_64::ops::linear::{params_ptr, params_ptr_text};
use crate::x86_64::arg_writes::{
    scan, scan_at, scratch_dst, writes_no_arg_reg, lemma_scan_append, lemma_scan_literal, lemma_scan_sound,
    lemma_decimal_scan, lemma_decimal_scan_from, lemma_hex_scan, lemma_imm32_scan, lemma_materialise_scan,
    lemma_materialise_pieces, lemma_op_id_scan, lemma_common_lines, lemma_scratch_pointers,
    lemma_loop_head_scan,
    lemma_loop_tail_scan, lemma_params_ptr_scan,
};

verus! {

/// Bytes of the op-local save block: five pushes when affine, three when not.
pub open spec fn layernorm_push_bytes(has_affine: bool) -> nat {
    if has_affine { 40 } else { 24 }
}

/// Locations `materialise_ptr_with_rsp_bias` accepts.
pub open spec fn biased_materialisable(n_inputs: nat, loc: BufferLoc, bias: nat) -> bool {
    match loc {
        BufferLoc::StackOffset(off) => off + bias <= usize::MAX,
        _ => materialisable(n_inputs, loc),
    }
}

/// Like `materialise_text`, with stack offsets shifted by `bias` bytes.
pub open spec fn biased_materialise_text(n_inputs: nat, loc: BufferLoc, dst: Seq<char>, bias: nat) -> Seq<char> {
    match loc {
        BufferLoc::StackOffset(off) => if off + bias == 0 {
            "    movq    %rsp, "@ + dst + "\n"@
        } else {
            "    leaq    "@ + decimal((off + bias) as nat) + "(%rsp), "@ + dst + "\n"@
        },
        _ => materialise_text(n_inputs, loc, dst),
    }
}

/// Materialises `loc` into `dst_reg` after `rsp_bias_bytes` of op-local
/// pushes: stack offsets are shifted back to the frame's `%rsp`; argument
/// registers need no adjustment.
pub fn materialise_ptr_with_rsp_bias(
    abi: &AbiContext,
    loc: BufferLoc,
    dst_reg: &str,
    rsp_bias_bytes: usize,
    s: &mut String,
)
    requires
        abi.n_inputs + 2 <= 6,
        biased_materialisable(abi.n_inputs as nat, loc, rsp_bias_bytes as nat),
    ensures
        final(
            s)@ == old(s)@ + biased_materialise_text(abi.n_inputs as nat,
            loc,
            dst_reg@,
            rsp_bias_bytes as nat,
        ),
{
    match loc {
        BufferLoc::StackOffset(n) => {
            let adjusted = n + rsp_bias_bytes;
            if adjusted == 0 {
                push_str(s, "    movq    %rsp, ");
                push_str(s, dst_reg);
                push_str(s, "\n");
            } else {
                push_str(s, "    leaq    ");
                push_decimal(s, adjusted as u64);
                push_str(s, "(%rsp), ");
                push_str(s, dst_reg);
                push_str(s, "\n");
            }
        },
        _ => abi.materialise_ptr(loc, dst_reg, s),
    }
}

pub open spec fn layernorm_header_text(has_affine: bool, b: u64, d: u64) -> Seq<char> {
    "    # layernorm (3-pass, "@ + (if has_affine { "with "@ } else { "no-"@ }) + "affine): input ["@
        + decimal(b as nat) + ","@ + decimal(d as nat) + "] -> output ["@ + decimal(b as nat) + ","@
        + decimal(d as nat) + "]\n"@
}

pub open spec fn layernorm_saves_text(has_affine: bool) -> Seq<char> {
    "    pushq   %r15\n"@
        + (if has_affine { "    pushq   %r12\n"@ + "    pushq   %r13\n"@ } else { Seq::empty() })
        + "    pushq   %rbx\n"@ + "    pushq   %r14\n"@
}

pub open spec fn layernorm_restores_text(has_affine: bool) -> Seq<char> {
    "    popq    %r14\n"@ + "    popq    %rbx\n"@
        + (if has_affine { "    popq    %r13\n"@ + "    popq    %r12\n"@ } else { Seq::empty() })
        + "    popq    %r15\n"@
}

pub open spec fn layernorm_constants_text(inv_d: u32, lid: Seq<char>) -> Seq<char> {
    "    # constants: inv_d=0x"@ + hex_padded(inv_d as nat, 8) + ", eps=0x"@ + hex_padded(EPS_BITS as nat, 8)
        + ", one=0x"@ + hex_padded(ONE_BITS as nat, 8) + "\n"@
        + "    movss   .Lln_inv_d_"@ + lid + "(%rip), %xmm2\n"@
        + "    movss   .Lln_eps_"@ + lid + "(%rip), %xmm3\n"@
        + "    movss   .Lln_one_"@ + lid + "(%rip), %xmm4\n"@
}

pub open spec fn layernorm_pool_text(inv_d: u32, lid: Seq<char>) -> Seq<char> {
    ".section .rodata\n"@ + ".align 4\n"@
        + ".Lln_inv_d_"@ + lid + ": .long 0x"@ + hex_padded(inv_d as nat, 8) + "\n"@
        + ".Lln_eps_"@ + lid + ":   .long 0x"@ + hex_padded(EPS_BITS as nat, 8) + "\n"@
        + ".Lln_one_"@ + lid + ":   .long 0x"@ + hex_padded(ONE_BITS as nat, 8) + "\n"@
        + ".text\n"@
}

/// Mean into `%xmm1`.
pub open spec fn layernorm_pass1_text(d: u64, lid: Seq<char>) -> Seq<char> {
    "    xorps   %xmm0, %xmm0\n"@ + "    xorq    %rax, %rax\n"@
        + loop_head(".Lln_p1_"@, "    jge     .Lln_p1_end_"@, "%rax"@, (d as u32) as nat, lid)
        + "    movss   (%r15, %rax, 4), %xmm6\n"@ + "    addss   %xmm6, %xmm0\n"@
        + loop_tail("    incq    %rax\n"@, "    jmp     .Lln_p1_"@, ".Lln_p1_end_"@, lid)
        + "    mulss   %xmm2, %xmm0\n"@ + "    movss   %xmm0, %xmm1\n"@
}

/// Variance, then `1 / sqrt(var + eps)` into `%xmm5`.
pub open spec fn layernorm_pass2_text(d: u64, lid: Seq<char>) -> Seq<char> {
    "    xorps   %xmm0, %xmm0\n"@ + "    xorq    %rax, %rax\n"@
        + loop_head(".Lln_p2_"@, "    jge     .Lln_p2_end_"@, "%rax"@, (d as u32) as nat, lid)
        + "    movss   (%r15, %rax, 4), %xmm6\n"@ + "    subss   %xmm1, %xmm6\n"@
        + "    mulss   %xmm6, %xmm6\n"@ + "    addss   %xmm6, %xmm0\n"@
        + loop_tail("    incq    %rax\n"@, "    jmp     .Lln_p2_"@, ".Lln_p2_end_"@, lid)
        + "    mulss   %xmm2, %xmm0\n"@ + "    addss   %xmm3, %xmm0\n"@ + "    sqrtss  %xmm0, %xmm0\n"@
        + "    movss   %xmm4, %xmm5\n"@ + "    divss   %xmm0, %xmm5\n"@
}

/// Normalise (and scale and shift when affine) into the per-row dst.
pub open spec fn layernorm_pass3_text(d: u64, has_affine: bool, lid: Seq<char>) -> Seq<char> {
    "    xorq    %rax, %rax\n"@
        + loop_head(".Lln_p3_"@, "    jge     .Lln_p3_end_"@, "%rax"@, (d as u32) as nat, lid)
        + "    movss   (%r15, %rax, 4), %xmm6\n"@ + "    subss   %xmm1, %xmm6\n"@
        + "    mulss   %xmm5, %xmm6\n"@
        + (if has_affine {
            "    movss   (%r12, %rax, 4), %xmm7\n"@ + "    mulss   %xmm7, %xmm6\n"@
                + "    movss   (%r13, %rax, 4), %xmm8\n"@ + "    addss   %xmm8, %xmm6\n"@
        } else {
            Seq::empty()
        })
        + "    movss   %xmm6, (%rbp, %rax, 4)\n"@
        + loop_tail("    incq    %rax\n"@, "    jmp     .Lln_p3_"@, ".Lln_p3_end_"@, lid)
}

pub open spec fn layernorm_affine_ptrs_text(
    params: Seq<char>,
    gamma_offset: Option<usize>,
    beta_offset: Option<usize>,
) -> Seq<char> {
    match (gamma_offset, beta_offset) {
        (
            Some(g),
            Some(b)) => params_ptr_text(params,
            g as nat,
            "%r12"@) + params_ptr_text(params,
            b as nat,
            "%r13"@,
        ),
        _ => Seq::empty(),
    }
}

/// What `emit_layernorm` requires of its arguments.
pub open spec fn layernorm_args_ok(
    n_inputs: nat,
    d: u64,
    src_loc: BufferLoc,
    dst_loc: BufferLoc,
    gamma_offset: Option<usize>,
    beta_offset: Option<usize>,
) -> bool {
    let bias = layernorm_push_bytes(gamma_offset is Some);
    &&& n_inputs + 2 <= 6
    &&& biased_materialisable(n_inputs, src_loc, bias)
    &&& biased_materialisable(n_inputs, dst_loc, bias)
    &&& d * 4 <= u64::MAX
    &&& (gamma_offset is Some <==> beta_offset is Some)
    &&& (gamma_offset matches Some(g) ==> g * 4 <= usize::MAX)
    &&& (beta_offset matches Some(b) ==> b * 4 <= usize::MAX)
}

/// The full layernorm op text.
pub open spec fn layernorm_text(
    n_inputs: nat,
    b: u64,
    d: u64,
    lid: Seq<char>,
    src_loc: BufferLoc,
    dst_loc: BufferLoc,
    gamma_offset: Option<usize>,
    beta_offset: Option<usize>,
) -> Seq<char> {
    let has_affine = gamma_offset is Some;
    let bias = layernorm_push_bytes(has_affine);
    let inv_d = recip_bits(d as nat) as u32;
    layernorm_header_text(has_affine, b, d)
        + layernorm_saves_text(has_affine)
        + biased_materialise_text(n_inputs, src_loc, "%rbx"@, bias)
        + biased_materialise_text(n_inputs, dst_loc, "%r14"@, bias)
        + layernorm_affine_ptrs_text(arg_regs()[n_inputs as int], gamma_offset, beta_offset)
        + layernorm_constants_text(inv_d, lid)
        + "    xorq    %r11, %r11\n"@
        + loop_head(".Lln_row_"@, "    jge     .Lln_row_end_"@, "%r11"@, (b as u32) as nat, lid)
        + imm32_to_r10_text(((d * 4) as u32) as nat) + "    movq    %r11, %rax\n"@
        + "    imulq   %r10, %rax\n"@ + "    leaq    (%rbx, %rax, 1), %r15\n"@
        + "    leaq    (%r14, %rax, 1), %rbp\n"@
        + layernorm_pass1_text(d, lid)
        + layernorm_pass2_text(d, lid)
        + layernorm_pass3_text(d, has_affine, lid)
        + loop_tail("    incq    %r11\n"@, "    jmp     .Lln_row_"@, ".Lln_row_end_"@, lid)
        + layernorm_restores_text(has_affine)
        + layernorm_pool_text(inv_d, lid)
}

fn layernorm_header(has_affine: bool, b: u64, d: u64) -> (s: String)
    ensures
        s@ == layernorm_header_text(has_affine, b, d),
{
    let mut s = "    # layernorm (3-pass, ".to_owned();
    let kind = if has_affine { "with ".to_owned() } else { "no-".to_owned() };
    push_str(&mut s, kind.as_str());
    push_str(&mut s, "affine): input [");
    push_decimal(&mut s, b);
    push_str(&mut s, ",");
    push_decimal(&mut s, d);
    push_str(&mut s, "] -> output [");
    push_decimal(&mut s, b);
    push_str(&mut s, ",");
    push_decimal(&mut s, d);
    push_str(&mut s, "]\n");
    s
}

fn layernorm_saves(has_affine: bool) -> (s: String)
    ensures
        s@ == layernorm_saves_text(has_affine),
{
    let mut s = "    pushq   %r15\n".to_owned();
    let affine = if has_affine {
        let mut t = "    pushq   %r12\n".to_owned();
        push_str(&mut t, "    pushq   %r13\n");
        t
    } else {
        String::new()
    };
    push_str(&mut s, affine.as_str());
    push_str(&mut s, "    pushq   %rbx\n");
    push_str(&mut s, "    pushq   %r14\n");
    s
}

fn layernorm_restores(has_affine: bool) -> (s: String)
    ensures
        s@ == layernorm_restores_text(has_affine),
{
    let mut s = "    popq    %r14\n".to_owned();
    push_str(&mut s, "    popq    %rbx\n");
    let affine = if has_affine {
        let mut t = "    popq    %r13\n".to_owned();
        push_str(&mut t, "    popq    %r12\n");
        t
    } else {
        String::new()
    };
    push_str(&mut s, affine.as_str());
    push_str(&mut s, "    popq    %r15\n");
    s
}

fn layernorm_constants(inv_d: u32, lid: &str) -> (s: String)
    ensures
        s@ == layernorm_constants_text(inv_d, lid@),
{
    let mut s = "    # constants: inv_d=0x".to_owned();
    push_hex(&mut s, inv_d as u64, 8);
    push_str(&mut s, ", eps=0x");
    push_hex(&mut s, EPS_BITS as u64, 8);
    push_str(&mut s, ", one=0x");
    push_hex(&mut s, ONE_BITS as u64, 8);
    push_str(&mut s, "\n");
    push_str(&mut s, "    movss   .Lln_inv_d_");
    push_str(&mut s, lid);
    push_str(&mut s, "(%rip), %xmm2\n");
    push_str(&mut s, "    movss   .Lln_eps_");
    push_str(&mut s, lid);
    push_str(&mut s, "(%rip), %xmm3\n");
    push_str(&mut s, "    movss   .Lln_one_");
    push_str(&mut s, lid);
    push_str(&mut s, "(%rip), %xmm4\n");
    s
}

fn layernorm_pool(inv_d: u32, lid: &str) -> (s: String)
    ensures
        s@ == layernorm_pool_text(inv_d, lid@),
{
    let mut s = ".section .rodata\n".to_owned();
    push_str(&mut s, ".align 4\n");
    push_str(&mut s, ".Lln_inv_d_");
    push_str(&mut s, lid);
    push_str(&mut s, ": .long 0x");
    push_hex(&mut s, inv_d as u64, 8);
    push_str(&mut s, "\n");
    push_str(&mut s, ".Lln_eps_");
    push_str(&mut s, lid);
    push_str(&mut s, ":   .long 0x");
    push_hex(&mut s, EPS_BITS as u64, 8);
    push_str(&mut s, "\n");
    push_str(&mut s, ".Lln_one_");
    push_str(&mut s, lid);
    push_str(&mut s, ":   .long 0x");
    push_hex(&mut s, ONE_BITS as u64, 8);
    push_str(&mut s, "\n");
    push_str(&mut s, ".text\n");
    s
}

fn layernorm_pass1(d: u64, lid: &str) -> (s: String)
    ensures
        s@ == layernorm_pass1_text(d, lid@),
{
    let mut s = "    xorps   %xmm0, %xmm0\n".to_owned();
    push_str(&mut s, "    xorq    %rax, %rax\n");
    push_loop_head(&mut s, ".Lln_p1_", "    jge     .Lln_p1_end_", "%rax", d as u32, lid);
    push_str(&mut s, "    movss   (%r15, %rax, 4), %xmm6\n");
    push_str(&mut s, "    addss   %xmm6, %xmm0\n");
    push_loop_tail(&mut s, "    incq    %rax\n", "    jmp     .Lln_p1_", ".Lln_p1_end_", lid);
    push_str(&mut s, "    mulss   %xmm2, %xmm0\n");
    push_str(&mut s, "    movss   %xmm0, %xmm1\n");
    s
}

fn layernorm_pass2(d: u64, lid: &str) -> (s: String)
    ensures
        s@ == layernorm_pass2_text(d, lid@),
{
    let mut s = "    xorps   %xmm0, %xmm0\n".to_owned();
    push_str(&mut s, "    xorq    %rax, %rax\n");
    push_loop_head(&mut s, ".Lln_p2_", "    jge     .Lln_p2_end_", "%rax", d as u32, lid);
    push_str(&mut s, "    movss   (%r15, %rax, 4), %xmm6\n");
    push_str(&mut s, "    subss   %xmm1, %xmm6\n");
    push_str(&mut s, "    mulss   %xmm6, %xmm6\n");
    push_str(&mut s, "    addss   %xmm6, %xmm0\n");
    push_loop_tail(&mut s, "    incq    %rax\n", "    jmp     .Lln_p2_", ".Lln_p2_end_", lid);
    push_str(&mut s, "    mulss   %xmm2, %xmm0\n");
    push_str(&mut s, "    addss   %xmm3, %xmm0\n");
    push_str(&mut s, "    sqrtss  %xmm0, %xmm0\n");
    push_str(&mut s, "    movss   %xmm4, %xmm5\n");
    push_str(&mut s, "    divss   %xmm0, %xmm5\n");
    s
}

fn layernorm_pass3(d: u64, has_affine: bool, lid: &str) -> (s: String)
    ensures
        s@ == layernorm_pass3_text(d, has_affine, lid@),
{
    let mut s = "    xorq    %rax, %rax\n".to_owned();
    push_loop_head(&mut s, ".Lln_p3_", "    jge     .Lln_p3_end_", "%rax", d as u32, lid);
    push_str(&mut s, "    movss   (%r15, %rax, 4), %xmm6\n");
    push_str(&mut s, "    subss   %xmm1, %xmm6\n");
    push_str(&mut s, "    mulss   %xmm5, %xmm6\n");
    let affine = if has_affine {
        let mut t = "    movss   (%r12, %rax, 4), %xmm7\n".to_owned();
        push_str(&mut t, "    mulss   %xmm7, %xmm6\n");
        push_str(&mut t, "    movss   (%r13, %rax, 4), %xmm8\n");
        push_str(&mut t, "    addss   %xmm8, %xmm6\n");
        t
    } else {
        String::new()
    };
    push_str(&mut s, affine.as_str());
    push_str(&mut s, "    movss   %xmm6, (%rbp, %rax, 4)\n");
    push_loop_tail(&mut s, "    incq    %rax\n", "    jmp     .Lln_p3_", ".Lln_p3_end_", lid);
    s
}

proof fn lemma_layernorm_line_0()
    ensures
        scan(0, "    # layernorm (3-pass, "@) == 2,
{
    reveal_strlit("    # layernorm (3-pass, ");
    lemma_scan_literal(0, "    # layernorm (3-pass, "@);
    reveal_with_fuel(scan_at, 26);
}

proof fn lemma_layernorm_line_1()
    ensures
        scan(0, "affine): input ["@) == 0,
{
    reveal_strlit("affine): input [");
    lemma_scan_literal(0, "affine): input ["@);
    reveal_with_fuel(scan_at, 17);
}

proof fn lemma_layernorm_line_2()
    ensures
        scan(0, ","@) == 1,
{
    reveal_strlit(",");
    lemma_scan_literal(0, ","@);
    reveal_with_fuel(scan_at, 2);
}

proof fn lemma_layernorm_line_3()
    ensures
        scan(0, "] -> output ["@) == 0,
{
    reveal_strlit("] -> output [");
    lemma_scan_literal(0, "] -> output ["@);
    reveal_with_fuel(scan_at, 14);
}

proof fn lemma_layernorm_line_4()
    ensures
        scan(0, "]\n"@) == 0,
{
    reveal_strlit("]\n");
    lemma_scan_literal(0, "]\n"@);
    reveal_with_fuel(scan_at, 3);
}

proof fn lemma_layernorm_line_5()
    ensures
        scan(0, "    pushq   %r15\n"@) == 0,
{
    reveal_strlit("    pushq   %r15\n");
    lemma_scan_literal(0, "    pushq   %r15\n"@);
    reveal_with_fuel(scan_at, 18);
}

proof fn lemma_layernorm_line_6()
    ensures
        scan(0, "    pushq   %r12\n"@) == 0,
{
    reveal_strlit("    pushq   %r12\n");
    lemma_scan_literal(0, "    pushq   %r12\n"@);
    reveal_with_fuel(scan_at, 18);
}

proof fn lemma_layernorm_line_7()
    ensures
        scan(0, "    pushq   %r13\n"@) == 0,
{
    reveal_strlit("    pushq   %r13\n");
    lemma_scan_literal(0, "    pushq   %r13\n"@);
    reveal_with_fuel(scan_at, 18);
}

proof fn lemma_layernorm_line_8()
    ensures
        scan(0, "    pushq   %rbx\n"@) == 0,
{
    reveal_strlit("    pushq   %rbx\n");
    lemma_scan_literal(0, "    pushq   %rbx\n"@);
    reveal_with_fuel(scan_at, 18);
}

proof fn lemma_layernorm_line_9()
    ensures
        scan(0, "    pushq   %r14\n"@) == 0,
{
    reveal_strlit("    pushq   %r14\n");
    lemma_scan_literal(0, "    pushq   %r14\n"@);
    reveal_with_fuel(scan_at, 18);
}

proof fn lemma_layernorm_line_10()
    ensures
        scan(0, "    popq    %r14\n"@) == 0,
{
    reveal_strlit("    popq    %r14\n");
    lemma_scan_literal(0, "    popq    %r14\n"@);
    reveal_with_fuel(scan_at, 18);
}

proof fn lemma_layernorm_line_11()
    ensures
        scan(0, "    popq    %rbx\n"@) == 0,
{
    reveal_strlit("    popq    %rbx\n");
    lemma_scan_literal(0, "    popq    %rbx\n"@);
    reveal_with_fuel(scan_at, 18);
}

proof fn lemma_layernorm_line_12()
    ensures
        scan(0, "    popq    %r13\n"@) == 0,
{
    reveal_strlit("    popq    %r13\n");
    lemma_scan_literal(0, "    popq    %r13\n"@);
    reveal_with_fuel(scan_at, 18);
}

proof fn lemma_layernorm_line_13()
    ensures
        scan(0, "    popq    %r12\n"@) == 0,
{
    reveal_strlit("    popq    %r12\n");
    lemma_scan_literal(0, "    popq    %r12\n"@);
    reveal_with_fuel(scan_at, 18);
}

proof fn lemma_layernorm_line_14()
    ensures
        scan(0, "    popq    %r15\n"@) == 0,
{
    reveal_strlit("    popq    %r15\n");
    lemma_scan_literal(0, "    popq    %r15\n"@);
    reveal_with_fuel(scan_at, 18);
}

proof fn lemma_layernorm_line_15()
    ensures
        scan(0, "    # constants: inv_d=0x"@) == 0,
{
    reveal_strlit("    # constants: inv_d=0x");
    lemma_scan_literal(0, "    # constants: inv_d=0x"@);
    reveal_with_fuel(scan_at, 26);
}

proof fn lemma_layernorm_line_16()
    ensures
        scan(0, ", eps=0x"@) == 0,
{
    reveal_strlit(", eps=0x");
    lemma_scan_literal(0, ", eps=0x"@);
    reveal_with_fuel(scan_at, 9);
}

proof fn lemma_layernorm_line_17()
    ensures
        scan(0, ", one=0x"@) == 0,
{
    reveal_strlit(", one=0x");
    lemma_scan_literal(0, ", one=0x"@);
    reveal_with_fuel(scan_at, 9);
}

proof fn lemma_layernorm_line_18()
    ensures
        scan(0, "    movss   .Lln_inv_d_"@) == 0,
{
    reveal_strlit("    movss   .Lln_inv_d_");
    lemma_scan_literal(0, "    movss   .Lln_inv_d_"@);
    reveal_with_fuel(scan_at, 24);
}

proof fn lemma_layernorm_line_19()
    ensures
        scan(0, "(%rip), %xmm2\n"@) == 0,
{
    reveal_strlit("(%rip), %xmm2\n");
    lemma_scan_literal(0, "(%rip), %xmm2\n"@);
    reveal_with_fuel(scan_at, 15);
}

proof fn lemma_layernorm_line_20()
    ensures
        scan(0, "    movss   .Lln_eps_"@) == 0,
{
    reveal_strlit("    movss   .Lln_eps_");
    lemma_scan_literal(0, "    movss   .Lln_eps_"@);
    reveal_with_fuel(scan_at, 22);
}

proof fn lemma_layernorm_line_21()
    ensures
        scan(0, "(%rip), %xmm3\n"@) == 0,
{
    reveal_strlit("(%rip), %xmm3\n");
    lemma_scan_literal(0, "(%rip), %xmm3\n"@);
    reveal_with_fuel(scan_at, 15);
}

proof fn lemma_layernorm_line_22()
    ensures
        scan(0, "    movss   .Lln_one_"@) == 0,
{
    reveal_strlit("    movss   .Lln_one_");
    lemma_scan_literal(0, "    movss   .Lln_one_"@);
    reveal_with_fuel(scan_at, 22);
}

proof fn lemma_layernorm_line_23()
    ensures
        scan(0, "(%rip), %xmm4\n"@) == 0,
{
    reveal_strlit("(%rip), %xmm4\n");
    lemma_scan_literal(0, "(%rip), %xmm4\n"@);
    reveal_with_fuel(scan_at, 15);
}

proof fn lemma_layernorm_line_24()
    ensures
        scan(0, ".section .rodata\n"@) == 0,
{
    reveal_strlit(".section .rodata\n");
    lemma_scan_literal(0, ".section .rodata\n"@);
    reveal_with_fuel(scan_at, 18);
}

proof fn lemma_layernorm_line_25()
    ensures
        scan(0, ".align 4\n"@) == 0,
{
    reveal_strlit(".align 4\n");
    lemma_scan_literal(0, ".align 4\n"@);
    reveal_with_fuel(scan_at, 10);
}

proof fn lemma_layernorm_line_26()
    ensures
        scan(0, ".Lln_inv_d_"@) == 0,
{
    reveal_strlit(".Lln_inv_d_");
    lemma_scan_literal(0, ".Lln_inv_d_"@);
    reveal_with_fuel(scan_at, 12);
}

proof fn lemma_layernorm_line_27()
    ensures
        scan(0, ": .long 0x"@) == 0,
{
    reveal_strlit(": .long 0x");
    lemma_scan_literal(0, ": .long 0x"@);
    reveal_with_fuel(scan_at, 11);
}

proof fn lemma_layernorm_line_28()
    ensures
        scan(0, ".Lln_eps_"@) == 0,
{
    reveal_strlit(".Lln_eps_");
    lemma_scan_literal(0, ".Lln_eps_"@);
    reveal_with_fuel(scan_at, 10);
}

proof fn lemma_layernorm_line_29()
    ensures
        scan(0, ":   .long 0x"@) == 0,
{
    reveal_strlit(":   .long 0x");
    lemma_scan_literal(0, ":   .long 0x"@);
    reveal_with_fuel(scan_at, 13);
}

proof fn lemma_layernorm_line_30()
    ensures
        scan(0, ".Lln_one_"@) == 0,
{
    reveal_strlit(".Lln_one_");
    lemma_scan_literal(0, ".Lln_one_"@);
    reveal_with_fuel(scan_at, 10);
}

proof fn lemma_layernorm_line_31()
    ensures
        scan(0, ".text\n"@) == 0,
{
    reveal_strlit(".text\n");
    lemma_scan_literal(0, ".text\n"@);
    reveal_with_fuel(scan_at, 7);
}

proof fn lemma_layernorm_line_32()
    ensures
        scan(0, "    xorps   %xmm0, %xmm0\n"@) == 0,
{
    reveal_strlit("    xorps   %xmm0, %xmm0\n");
    lemma_scan_literal(0, "    xorps   %xmm0, %xmm0\n"@);
    reveal_with_fuel(scan_at, 26);
}

proof fn lemma_layernorm_line_33()
    ensures
        scan(0, "    xorq    %rax, %rax\n"@) == 0,
{
    reveal_strlit("    xorq    %rax, %rax\n");
    lemma_scan_literal(0, "    xorq    %rax, %rax\n"@);
    reveal_with_fuel(scan_at, 24);
}

proof fn lemma_layernorm_line_34()
    ensures
        scan(0, ".Lln_p1_"@) == 0,
{
    reveal_strlit(".Lln_p1_");
    lemma_scan_literal(0, ".Lln_p1_"@);
    reveal_with_fuel(scan_at, 9);
}

proof fn lemma_layernorm_line_35()
    ensures
        scan(0, "    jge     .Lln_p1_end_"@) == 0,
{
    reveal_strlit("    jge     .Lln_p1_end_");
    lemma_scan_literal(0, "    jge     .Lln_p1_end_"@);
    reveal_with_fuel(scan_at, 25);
}

proof fn lemma_layernorm_line_36()
    ensures
        scan(0, "    movss   (%r15, %rax, 4), %xmm6\n"@) == 0,
{
    reveal_strlit("    movss   (%r15, %rax, 4), %xmm6\n");
    lemma_scan_literal(0, "    movss   (%r15, %rax, 4), %xmm6\n"@);
    reveal_with_fuel(scan_at, 36);
}

proof fn lemma_layernorm_line_37()
    ensures
        scan(0, "    addss   %xmm6, %xmm0\n"@) == 0,
{
    reveal_strlit("    addss   %xmm6, %xmm0\n");
    lemma_scan_literal(0, "    addss   %xmm6, %xmm0\n"@);
    reveal_with_fuel(scan_at, 26);
}

proof fn lemma_layernorm_line_38()
    ensures
        scan(0, "    incq    %rax\n"@) == 0,
{
    reveal_strlit("    incq    %rax\n");
    lemma_scan_literal(0, "    incq    %rax\n"@);
    reveal_with_fuel(scan_at, 18);
}

proof fn lemma_layernorm_line_39()
    ensures
        scan(0, "    jmp     .Lln_p1_"@) == 0,
{
    reveal_strlit("    jmp     .Lln_p1_");
    lemma_scan_literal(0, "    jmp     .Lln_p1_"@);
    reveal_with_fuel(scan_at, 21);
}

proof fn lemma_layernorm_line_40()
    ensures
        scan(0, ".Lln_p1_end_"@) == 0,
{
    reveal_strlit(".Lln_p1_end_");
    lemma_scan_literal(0, ".Lln_p1_end_"@);
    reveal_with_fuel(scan_at, 13);
}

proof fn lemma_layernorm_line_41()
    ensures
        scan(0, "    mulss   %xmm2, %xmm0\n"@) == 0,
{
    reveal_strlit("    mulss   %xmm2, %xmm0\n");
    lemma_scan_literal(0, "    mulss   %xmm2, %xmm0\n"@);
    reveal_with_fuel(scan_at, 26);
}

proof fn lemma_layernorm_line_42()
    ensures
        scan(0, "    movss   %xmm0, %xmm1\n"@) == 0,
{
    reveal_strlit("    movss   %xmm0, %xmm1\n");
    lemma_scan_literal(0, "    movss   %xmm0, %xmm1\n"@);
    reveal_with_fuel(scan_at, 26);
}

proof fn lemma_layernorm_line_43()
    ensures
        scan(0, ".Lln_p2_"@) == 0,
{
    reveal_strlit(".Lln_p2_");
    lemma_scan_literal(0, ".Lln_p2_"@);
    reveal_with_fuel(scan_at, 9);
}

proof fn lemma_layernorm_line_44()
    ensures
        scan(0, "    jge     .Lln_p2_end_"@) == 0,
{
    reveal_strlit("    jge     .Lln_p2_end_");
    lemma_scan_literal(0, "    jge     .Lln_p2_end_"@);
    reveal_with_fuel(scan_at, 25);
}

proof fn lemma_layernorm_line_45()
    ensures
        scan(0, "    subss   %xmm1, %xmm6\n"@) == 0,
{
    reveal_strlit("    subss   %xmm1, %xmm6\n");
    lemma_scan_literal(0, "    subss   %xmm1, %xmm6\n"@);
    reveal_with_fuel(scan_at, 26);
}

proof fn lemma_layernorm_line_46()
    ensures
        scan(0, "    mulss   %xmm6, %xmm6\n"@) == 0,
{
    reveal_strlit("    mulss   %xmm6, %xmm6\n");
    lemma_scan_literal(0, "    mulss   %xmm6, %xmm6\n"@);
    reveal_with_fuel(scan_at, 26);
}

proof fn lemma_layernorm_line_47()
    ensures
        scan(0, "    jmp     .Lln_p2_"@) == 0,
{
    reveal_strlit("    jmp     .Lln_p2_");
    lemma_scan_literal(0, "    jmp     .Lln_p2_"@);
    reveal_with_fuel(scan_at, 21);
}

proof fn lemma_layernorm_line_48()
    ensures
        scan(0, ".Lln_p2_end_"@) == 0,
{
    reveal_strlit(".Lln_p2_end_");
    lemma_scan_literal(0, ".Lln_p2_end_"@);
    reveal_with_fuel(scan_at, 13);
}

proof fn lemma_layernorm_line_49()
    ensures
        scan(0, "    addss   %xmm3, %xmm0\n"@) == 0,
{
    reveal_strlit("    addss   %xmm3, %xmm0\n");
    lemma_scan_literal(0, "    addss   %xmm3, %xmm0\n"@);
    reveal_with_fuel(scan_at, 26);
}

proof fn lemma_layernorm_line_50()
    ensures
        scan(0, "    sqrtss  %xmm0, %xmm0\n"@) == 0,
{
    reveal_strlit("    sqrtss  %xmm0, %xmm0\n");
    lemma_scan_literal(0, "    sqrtss  %xmm0, %xmm0\n"@);
    reveal_with_fuel(scan_at, 26);
}

proof fn lemma_layernorm_line_51()
    ensures
        scan(0, "    movss   %xmm4, %xmm5\n"@) == 0,
{
    reveal_strlit("    movss   %xmm4, %xmm5\n");
    lemma_scan_literal(0, "    movss   %xmm4, %xmm5\n"@);
    reveal_with_fuel(scan_at, 26);
}

proof fn lemma_layernorm_line_52()
    ensures
        scan(0, "    divss   %xmm0, %xmm5\n"@) == 0,
{
    reveal_strlit("    divss   %xmm0, %xmm5\n");
    lemma_scan_literal(0, "    divss   %xmm0, %xmm5\n"@);
    reveal_with_fuel(scan_at, 26);
}

proof fn lemma_layernorm_line_53()
    ensures
        scan(0, ".Lln_p3_"@) == 0,
{
    reveal_strlit(".Lln_p3_");
    lemma_scan_literal(0, ".Lln_p3_"@);
    reveal_with_fuel(scan_at, 9);
}

proof fn lemma_layernorm_line_54()
    ensures
        scan(0, "    jge     .Lln_p3_end_"@) == 0,
{
    reveal_strlit("    jge     .Lln_p3_end_");
    lemma_scan_literal(0, "    jge     .Lln_p3_end_"@);
    reveal_with_fuel(scan_at, 25);
}

proof fn lemma_layernorm_line_55()
    ensures
        scan(0, "    mulss   %xmm5, %xmm6\n"@) == 0,
{
    reveal_strlit("    mulss   %xmm5, %xmm6\n");
    lemma_scan_literal(0, "    mulss   %xmm5, %xmm6\n"@);
    reveal_with_fuel(scan_at, 26);
}

proof fn lemma_layernorm_line_56()
    ensures
        scan(0, "    movss   (%r12, %rax, 4), %xmm7\n"@) == 0,
{
    reveal_strlit("    movss   (%r12, %rax, 4), %xmm7\n");
    lemma_scan_literal(0, "    movss   (%r12, %rax, 4), %xmm7\n"@);
    reveal_with_fuel(scan_at, 36);
}

proof fn lemma_layernorm_line_57()
    ensures
        scan(0, "    mulss   %xmm7, %xmm6\n"@) == 0,
{
    reveal_strlit("    mulss   %xmm7, %xmm6\n");
    lemma_scan_literal(0, "    mulss   %xmm7, %xmm6\n"@);
    reveal_with_fuel(scan_at, 26);
}

proof fn lemma_layernorm_line_58()
    ensures
        scan(0, "    movss   (%r13, %rax, 4), %xmm8\n"@) == 0,
{
    reveal_strlit("    movss   (%r13, %rax, 4), %xmm8\n");
    lemma_scan_literal(0, "    movss   (%r13, %rax, 4), %xmm8\n"@);
    reveal_with_fuel(scan_at, 36);
}

proof fn lemma_layernorm_line_59()
    ensures
        scan(0, "    addss   %xmm8, %xmm6\n"@) == 0,
{
    reveal_strlit("    addss   %xmm8, %xmm6\n");
    lemma_scan_literal(0, "    addss   %xmm8, %xmm6\n"@);
    reveal_with_fuel(scan_at, 26);
}

proof fn lemma_layernorm_line_60()
    ensures
        scan(0, "    movss   %xmm6, (%rbp, %rax, 4)\n"@) == 0,
{
    reveal_strlit("    movss   %xmm6, (%rbp, %rax, 4)\n");
    lemma_scan_literal(0, "    movss   %xmm6, (%rbp, %rax, 4)\n"@);
    reveal_with_fuel(scan_at, 36);
}

proof fn lemma_layernorm_line_61()
    ensures
        scan(0, "    jmp     .Lln_p3_"@) == 0,
{
    reveal_strlit("    jmp     .Lln_p3_");
    lemma_scan_literal(0, "    jmp     .Lln_p3_"@);
    reveal_with_fuel(scan_at, 21);
}

proof fn lemma_layernorm_line_62()
    ensures
        scan(0, ".Lln_p3_end_"@) == 0,
{
    reveal_strlit(".Lln_p3_end_");
    lemma_scan_literal(0, ".Lln_p3_end_"@);
    reveal_with_fuel(scan_at, 13);
}

proof fn lemma_layernorm_line_63()
    ensures
        scan(0, "    xorq    %r11, %r11\n"@) == 0,
{
    reveal_strlit("    xorq    %r11, %r11\n");
    lemma_scan_literal(0, "    xorq    %r11, %r11\n"@);
    reveal_with_fuel(scan_at, 24);
}

proof fn lemma_layernorm_line_64()
    ensures
        scan(0, ".Lln_row_"@) == 0,
{
    reveal_strlit(".Lln_row_");
    lemma_scan_literal(0, ".Lln_row_"@);
    reveal_with_fuel(scan_at, 10);
}

proof fn lemma_layernorm_line_65()
    ensures
        scan(0, "    jge     .Lln_row_end_"@) == 0,
{
    reveal_strlit("    jge     .Lln_row_end_");
    lemma_scan_literal(0, "    jge     .Lln_row_end_"@);
    reveal_with_fuel(scan_at, 26);
}

proof fn lemma_layernorm_line_66()
    ensures
        scan(0, "    movq    %r11, %rax\n"@) == 0,
{
    reveal_strlit("    movq    %r11, %rax\n");
    lemma_scan_literal(0, "    movq    %r11, %rax\n"@);
    reveal_with_fuel(scan_at, 24);
}

proof fn lemma_layernorm_line_67()
    ensures
        scan(0, "    imulq   %r10, %rax\n"@) == 0,
{
    reveal_strlit("    imulq   %r10, %rax\n");
    lemma_scan_literal(0, "    imulq   %r10, %rax\n"@);
    reveal_with_fuel(scan_at, 24);
}

proof fn lemma_layernorm_line_68()
    ensures
        scan(0, "    leaq    (%rbx, %rax, 1), %r15\n"@) == 0,
{
    reveal_strlit("    leaq    (%rbx, %rax, 1), %r15\n");
    lemma_scan_literal(0, "    leaq    (%rbx, %rax, 1), %r15\n"@);
    reveal_with_fuel(scan_at, 35);
}

proof fn lemma_layernorm_line_69()
    ensures
        scan(0, "    leaq    (%r14, %rax, 1), %rbp\n"@) == 0,
{
    reveal_strlit("    leaq    (%r14, %rax, 1), %rbp\n");
    lemma_scan_literal(0, "    leaq    (%r14, %rax, 1), %rbp\n"@);
    reveal_with_fuel(scan_at, 35);
}

proof fn lemma_layernorm_line_70()
    ensures
        scan(0, "    incq    %r11\n"@) == 0,
{
    reveal_strlit("    incq    %r11\n");
    lemma_scan_literal(0, "    incq    %r11\n"@);
    reveal_with_fuel(scan_at, 18);
}

proof fn lemma_layernorm_line_71()
    ensures
        scan(0, "    jmp     .Lln_row_"@) == 0,
{
    reveal_strlit("    jmp     .Lln_row_");
    lemma_scan_literal(0, "    jmp     .Lln_row_"@);
    reveal_with_fuel(scan_at, 22);
}

proof fn lemma_layernorm_line_72()
    ensures
        scan(0, ".Lln_row_end_"@) == 0,
{
    reveal_strlit(".Lln_row_end_");
    lemma_scan_literal(0, ".Lln_row_end_"@);
    reveal_with_fuel(scan_at, 14);
}

proof fn lemma_layernorm_line_73()
    ensures
        scan(2, "with "@) == 0,
{
    reveal_strlit("with ");
    lemma_scan_literal(2, "with "@);
    reveal_with_fuel(scan_at, 6);
}

proof fn lemma_layernorm_line_74()
    ensures
        scan(2, "no-"@) == 0,
{
    reveal_strlit("no-");
    lemma_scan_literal(2, "no-"@);
    reveal_with_fuel(scan_at, 4);
}

proof fn lemma_layernorm_line_75()
    ensures
        scan(2, "%rbx"@) == 0,
{
    reveal_strlit("%rbx");
    lemma_scan_literal(2, "%rbx"@);
    reveal_with_fuel(scan_at, 5);
}

proof fn lemma_layernorm_line_76()
    ensures
        scan(2, "%r14"@) == 0,
{
    reveal_strlit("%r14");
    lemma_scan_literal(2, "%r14"@);
    reveal_with_fuel(scan_at, 5);
}

proof fn lemma_layernorm_line_77()
    ensures
        scan(2, "%r12"@) == 0,
{
    reveal_strlit("%r12");
    lemma_scan_literal(2, "%r12"@);
    reveal_with_fuel(scan_at, 5);
}

proof fn lemma_layernorm_line_78()
    ensures
        scan(2, "%r13"@) == 0,
{
    reveal_strlit("%r13");
    lemma_scan_literal(2, "%r13"@);
    reveal_with_fuel(scan_at, 5);
}

/// Where the automaton stands after each fixed piece of the layernorm op text.
proof fn lemma_layernorm_lines()
    ensures
        scan(0, "    # layernorm (3-pass, "@) == 2,
        scan(0, "affine): input ["@) == 0,
        scan(0, ","@) == 1,
        scan(0, "] -> output ["@) == 0,
        scan(0, "]\n"@) == 0,
        scan(0, "    pushq   %r15\n"@) == 0,
        scan(0, "    pushq   %r12\n"@) == 0,
        scan(0, "    pushq   %r13\n"@) == 0,
        scan(0, "    pushq   %rbx\n"@) == 0,
        scan(0, "    pushq   %r14\n"@) == 0,
        scan(0, "    popq    %r14\n"@) == 0,
        scan(0, "    popq    %rbx\n"@) == 0,
        scan(0, "    popq    %r13\n"@) == 0,
        scan(0, "    popq    %r12\n"@) == 0,
        scan(0, "    popq    %r15\n"@) == 0,
        scan(0, "    # constants: inv_d=0x"@) == 0,
        scan(0, ", eps=0x"@) == 0,
        scan(0, ", one=0x"@) == 0,
        scan(0, "    movss   .Lln_inv_d_"@) == 0,
        scan(0, "(%rip), %xmm2\n"@) == 0,
        scan(0, "    movss   .Lln_eps_"@) == 0,
        scan(0, "(%rip), %xmm3\n"@) == 0,
        scan(0, "    movss   .Lln_one_"@) == 0,
        scan(0, "(%rip), %xmm4\n"@) == 0,
        scan(0, ".section .rodata\n"@) == 0,
        scan(0, ".align 4\n"@) == 0,
        scan(0, ".Lln_inv_d_"@) == 0,
        scan(0, ": .long 0x"@) == 0,
        scan(0, ".Lln_eps_"@) == 0,
        scan(0, ":   .long 0x"@) == 0,
        scan(0, ".Lln_one_"@) == 0,
        scan(0, ".text\n"@) == 0,
        scan(0, "    xorps   %xmm0, %xmm0\n"@) == 0,
        scan(0, "    xorq    %rax, %rax\n"@) == 0,
        scan(0, ".Lln_p1_"@) == 0,
        scan(0, "    jge     .Lln_p1_end_"@) == 0,
        scan(0, "    movss   (%r15, %rax, 4), %xmm6\n"@) == 0,
        scan(0, "    addss   %xmm6, %xmm0\n"@) == 0,
        scan(0, "    incq    %rax\n"@) == 0,
        scan(0, "    jmp     .Lln_p1_"@) == 0,
        scan(0, ".Lln_p1_end_"@) == 0,
        scan(0, "    mulss   %xmm2, %xmm0\n"@) == 0,
        scan(0, "    movss   %xmm0, %xmm1\n"@) == 0,
        scan(0, ".Lln_p2_"@) == 0,
        scan(0, "    jge     .Lln_p2_end_"@) == 0,
        scan(0, "    subss   %xmm1, %xmm6\n"@) == 0,
        scan(0, "    mulss   %xmm6, %xmm6\n"@) == 0,
        scan(0, "    jmp     .Lln_p2_"@) == 0,
        scan(0, ".Lln_p2_end_"@) == 0,
        scan(0, "    addss   %xmm3, %xmm0\n"@) == 0,
        scan(0, "    sqrtss  %xmm0, %xmm0\n"@) == 0,
        scan(0, "    movss   %xmm4, %xmm5\n"@) == 0,
        scan(0, "    divss   %xmm0, %xmm5\n"@) == 0,
        scan(0, ".Lln_p3_"@) == 0,
        scan(0, "    jge     .Lln_p3_end_"@) == 0,
        scan(0, "    mulss   %xmm5, %xmm6\n"@) == 0,
        scan(0, "    movss   (%r12, %rax, 4), %xmm7\n"@) == 0,
        scan(0, "    mulss   %xmm7, %xmm6\n"@) == 0,
        scan(0, "    movss   (%r13, %rax, 4), %xmm8\n"@) == 0,
        scan(0, "    addss   %xmm8, %xmm6\n"@) == 0,
        scan(0, "    movss   %xmm6, (%rbp, %rax, 4)\n"@) == 0,
        scan(0, "    jmp     .Lln_p3_"@) == 0,
        scan(0, ".Lln_p3_end_"@) == 0,
        scan(0, "    xorq    %r11, %r11\n"@) == 0,
        scan(0, ".Lln_row_"@) == 0,
        scan(0, "    jge     .Lln_row_end_"@) == 0,
        scan(0, "    movq    %r11, %rax\n"@) == 0,
        scan(0, "    imulq   %r10, %rax\n"@) == 0,
        scan(0, "    leaq    (%rbx, %rax, 1), %r15\n"@) == 0,
        scan(0, "    leaq    (%r14, %rax, 1), %rbp\n"@) == 0,
        scan(0, "    incq    %r11\n"@) == 0,
        scan(0, "    jmp     .Lln_row_"@) == 0,
        scan(0, ".Lln_row_end_"@) == 0,
        scan(2, "with "@) == 0,
        scan(2, "no-"@) == 0,
        scan(2, "%rbx"@) == 0,
        scan(2, "%r14"@) == 0,
        scan(2, "%r12"@) == 0,
        scan(2, "%r13"@) == 0,
{
    lemma_layernorm_line_0();
    lemma_layernorm_line_1();
    lemma_layernorm_line_2();
    lemma_layernorm_line_3();
    lemma_layernorm_line_4();
    lemma_layernorm_line_5();
    lemma_layernorm_line_6();
    lemma_layernorm_line_7();
    lemma_layernorm_line_8();
    lemma_layernorm_line_9();
    lemma_layernorm_line_10();
    lemma_layernorm_line_11();
    lemma_layernorm_line_12();
    lemma_layernorm_line_13();
    lemma_layernorm_line_14();
    lemma_layernorm_line_15();
    lemma_layernorm_line_16();
    lemma_layernorm_line_17();
    lemma_layernorm_line_18();
    lemma_layernorm_line_19();
    lemma_layernorm_line_20();
    lemma_layernorm_line_21();
    lemma_layernorm_line_22();
    lemma_layernorm_line_23();
    lemma_layernorm_line_24();
    lemma_layernorm_line_25();
    lemma_layernorm_line_26();
    lemma_layernorm_line_27();
    lemma_layernorm_line_28();
    lemma_layernorm_line_29();
    lemma_layernorm_line_30();
    lemma_layernorm_line_31();
    lemma_layernorm_line_32();
    lemma_layernorm_line_33();
    lemma_layernorm_line_34();
    lemma_layernorm_line_35();
    lemma_layernorm_line_36();
    lemma_layernorm_line_37();
    lemma_layernorm_line_38();
    lemma_layernorm_line_39();
    lemma_layernorm_line_40();
    lemma_layernorm_line_41();
    lemma_layernorm_line_42();
    lemma_layernorm_line_43();
    lemma_layernorm_line_44();
    lemma_layernorm_line_45();
    lemma_layernorm_line_46();
    lemma_layernorm_line_47();
    lemma_layernorm_line_48();
    lemma_layernorm_line_49();
    lemma_layernorm_line_50();
    lemma_layernorm_line_51();
    lemma_layernorm_line_52();
    lemma_layernorm_line_53();
    lemma_layernorm_line_54();
    lemma_layernorm_line_55();
    lemma_layernorm_line_56();
    lemma_layernorm_line_57();
    lemma_layernorm_line_58();
    lemma_layernorm_line_59();
    lemma_layernorm_line_60();
    lemma_layernorm_line_61();
    lemma_layernorm_line_62();
    lemma_layernorm_line_63();
    lemma_layernorm_line_64();
    lemma_layernorm_line_65();
    lemma_layernorm_line_66();
    lemma_layernorm_line_67();
    lemma_layernorm_line_68();
    lemma_layernorm_line_69();
    lemma_layernorm_line_70();
    lemma_layernorm_line_71();
    lemma_layernorm_line_72();
    lemma_layernorm_line_73();
    lemma_layernorm_line_74();
    lemma_layernorm_line_75();
    lemma_layernorm_line_76();
    lemma_layernorm_line_77();
    lemma_layernorm_line_78();
}

proof fn lemma_layernorm_biased_scan(n_inputs: nat, loc: BufferLoc, dst: Seq<char>, bias: nat)
    requires
        n_inputs + 2 <= 6,
        biased_materialisable(n_inputs, loc, bias),
        scratch_dst(dst),
    ensures
        scan(0, biased_materialise_text(n_inputs, loc, dst, bias)) == 0,
{
    broadcast use lemma_scan_append;
    lemma_materialise_pieces();
    match loc {
        BufferLoc::StackOffset(off) => {
            lemma_decimal_scan((off + bias) as nat);
            if off + bias == 0 {
                assert(
                    biased_materialise_text(n_inputs, loc, dst, bias) =~= "    movq    %rsp, "@
                    + (dst + "\n"@)
                );
            } else {
                assert(biased_materialise_text(n_inputs, loc, dst, bias) =~= "    leaq    "@ + decimal((off + bias) as nat)
                    + "(%rsp), "@ + (dst + "\n"@));
            }
        },
        _ => {
            lemma_materialise_scan(n_inputs, loc, dst);
        },
    }
}

proof fn lemma_layernorm_frame_scan(has_affine: bool, b: u64, d: u64, inv_d: u32, lid: Seq<char>)
    requires
        scan(0, lid) == 0,
    ensures
        scan(0, layernorm_header_text(has_affine, b, d)) == 0,
        scan(0, layernorm_saves_text(has_affine)) == 0,
        scan(0, layernorm_restores_text(has_affine)) == 0,
        scan(0, layernorm_constants_text(inv_d, lid)) == 0,
        scan(0, layernorm_pool_text(inv_d, lid)) == 0,
{
    broadcast use lemma_scan_append;
    lemma_common_lines();
    lemma_layernorm_lines();
    lemma_decimal_scan(b as nat);
    lemma_decimal_scan(d as nat);
    lemma_decimal_scan_from(1, b as nat);
    lemma_decimal_scan_from(1, d as nat);
    lemma_hex_scan(inv_d as nat, 8);
    lemma_hex_scan(EPS_BITS as nat, 8);
    lemma_hex_scan(ONE_BITS as nat, 8);
    let kind = if has_affine { "with "@ } else { "no-"@ };
    assert(layernorm_header_text(has_affine, b, d) =~= "    # layernorm (3-pass, "@ + kind + "affine): input ["@
        + decimal(b as nat) + ","@ + decimal(d as nat) + "] -> output ["@ + decimal(b as nat) + ","@
        + decimal(d as nat) + "]\n"@);
}

proof fn lemma_layernorm_passes_scan(d: u64, has_affine: bool, lid: Seq<char>)
    requires
        scan(0, lid) == 0,
    ensures
        scan(0, layernorm_pass1_text(d, lid)) == 0,
        scan(0, layernorm_pass2_text(d, lid)) == 0,
        scan(0, layernorm_pass3_text(d, has_affine, lid)) == 0,
{
    broadcast use lemma_scan_append;
    lemma_common_lines();
    lemma_scratch_pointers();
    lemma_layernorm_lines();
    let bound = (d as u32) as nat;
    lemma_loop_head_scan(".Lln_p1_"@, "    jge     .Lln_p1_end_"@, "%rax"@, bound, lid);
    lemma_loop_head_scan(".Lln_p2_"@, "    jge     .Lln_p2_end_"@, "%rax"@, bound, lid);
    lemma_loop_head_scan(".Lln_p3_"@, "    jge     .Lln_p3_end_"@, "%rax"@, bound, lid);
    lemma_loop_tail_scan("    incq    %rax\n"@, "    jmp     .Lln_p1_"@, ".Lln_p1_end_"@, lid);
    lemma_loop_tail_scan("    incq    %rax\n"@, "    jmp     .Lln_p2_"@, ".Lln_p2_end_"@, lid);
    lemma_loop_tail_scan("    incq    %rax\n"@, "    jmp     .Lln_p3_"@, ".Lln_p3_end_"@, lid);
}

/// The layernorm op writes no argument register, at any number of inputs:
/// its scratch is the callee-saved registers it saves itself, `%rax`,
/// `%r10`, `%r11`, `%rbp` and `%xmm0`..`%xmm8`.
proof fn lemma_layernorm_writes_no_arg_reg(
    n_inputs: nat,
    b: u64,
    d: u64,
    model_idx: nat,
    layernorm_idx: nat,
    src_loc: BufferLoc,
    dst_loc: BufferLoc,
    gamma_offset: Option<usize>,
    beta_offset: Option<usize>,
)
    requires
        layernorm_args_ok(n_inputs, d, src_loc, dst_loc, gamma_offset, beta_offset),
    ensures
        writes_no_arg_reg(
            layernorm_text(
                n_inputs,
                b,
                d,
                op_id(model_idx, layernorm_idx),
                src_loc,
                dst_loc,
                gamma_offset,
                beta_offset,
            ),
        ),
{
    broadcast use lemma_scan_append;
    let lid = op_id(model_idx, layernorm_idx);
    let has_affine = gamma_offset is Some;
    let bias = layernorm_push_bytes(has_affine);
    let inv_d = recip_bits(d as nat) as u32;
    lemma_common_lines();
    lemma_scratch_pointers();
    lemma_layernorm_lines();
    lemma_op_id_scan(model_idx, layernorm_idx);
    lemma_layernorm_frame_scan(has_affine, b, d, inv_d, lid);
    lemma_layernorm_passes_scan(d, has_affine, lid);
    lemma_layernorm_biased_scan(n_inputs, src_loc, "%rbx"@, bias);
    lemma_layernorm_biased_scan(n_inputs, dst_loc, "%r14"@, bias);
    if let (Some(g), Some(bo)) = (gamma_offset, beta_offset) {
        lemma_params_ptr_scan(n_inputs, g as nat, "%r12"@);
        lemma_params_ptr_scan(n_inputs, bo as nat, "%r13"@);
    }
    assert(scan(0, layernorm_affine_ptrs_text(arg_regs()[n_inputs as int], gamma_offset, beta_offset)) == 0);
    lemma_loop_head_scan(".Lln_row_"@, "    jge     .Lln_row_end_"@, "%r11"@, (b as u32) as nat, lid);
    lemma_loop_tail_scan("    incq    %r11\n"@, "    jmp     .Lln_row_"@, ".Lln_row_end_"@, lid);
    lemma_imm32_scan(((d * 4) as u32) as nat);
    lemma_scan_sound(layernorm_text(n_inputs, b, d, lid, src_loc, dst_loc, gamma_offset, beta_offset));
}

/// Emits a layernorm over `b` rows of `d` elements; `gamma_offset` and
/// `beta_offset` (in floats into the params buffer) select the affine form.
/// Never fails.
pub fn emit_layernorm(
    abi: &AbiContext,
    b: u64,
    d: u64,
    model_idx: usize,
    layernorm_idx: usize,
    src_loc: BufferLoc,
    dst_loc: BufferLoc,
    gamma_offset: Option<usize>,
    beta_offset: Option<usize>,
    node_span: Span,
) -> (r: Result<String, LowerError>)
    requires
        layernorm_args_ok(abi.n_inputs as nat, d, src_loc, dst_loc, gamma_offset, beta_offset),
    ensures
        r matches Ok(s) && s@ == layernorm_text(
            abi.n_inputs as nat,
            b,
            d,
            op_id(model_idx as nat, layernorm_idx as nat),
            src_loc,
            dst_loc,
            gamma_offset,
            beta_offset,
        ) && writes_no_arg_reg(s@),
{
    let lid_string = op_id_string(model_idx, layernorm_idx);
    let lid = lid_string.as_str();
    let has_affine = gamma_offset.is_some();
    let op_local_push_bytes: usize = if has_affine { 40 } else { 24 };
    let mut s = layernorm_header(has_affine, b, d);
    let saves = layernorm_saves(has_affine);
    push_str(&mut s, saves.as_str());
    materialise_ptr_with_rsp_bias(abi, src_loc, "%rbx", op_local_push_bytes, &mut s);
    materialise_ptr_with_rsp_bias(abi, dst_loc, "%r14", op_local_push_bytes, &mut s);
    let affine_ptrs = match (gamma_offset, beta_offset) {
        (Some(g_off), Some(b_off)) => {
            let params_reg = abi.params_reg();
            let mut t = params_ptr(params_reg, g_off, "%r12");
            let beta_ptr = params_ptr(params_reg, b_off, "%r13");
            push_str(&mut t, beta_ptr.as_str());
            t
        },
        _ => String::new(),
    };
    push_str(&mut s, affine_ptrs.as_str());
    let inv_d_bits = f32_recip_bits(d);
    let constants = layernorm_constants(inv_d_bits, lid);
    push_str(&mut s, constants.as_str());
    push_str(&mut s, "    xorq    %r11, %r11\n");
    push_loop_head(&mut s, ".Lln_row_", "    jge     .Lln_row_end_", "%r11", b as u32, lid);
    push_imm32_to_r10(&mut s, (d * 4) as u32);
    push_str(&mut s, "    movq    %r11, %rax\n");
    push_str(&mut s, "    imulq   %r10, %rax\n");
    push_str(&mut s, "    leaq    (%rbx, %rax, 1), %r15\n");
    push_str(&mut s, "    leaq    (%r14, %rax, 1), %rbp\n");
    let p1 = layernorm_pass1(d, lid);
    push_str(&mut s, p1.as_str());
    let p2 = layernorm_pass2(d, lid);
    push_str(&mut s, p2.as_str());
    let p3 = layernorm_pass3(d, has_affine, lid);
    push_str(&mut s, p3.as_str());
    push_loop_tail(&mut s, "    incq    %r11\n", "    jmp     .Lln_row_", ".Lln_row_end_", lid);
    let restores = layernorm_restores(has_affine);
    push_str(&mut s, restores.as_str());
    let pool = layernorm_pool(inv_d_bits, lid);
    push_str(&mut s, pool.as_str());
    proof {
        lemma_layernorm_writes_no_arg_reg(
            abi.n_inputs as nat,
            b,
            d,
            model_idx as nat,
            layernorm_idx as nat,
            src_loc,
            dst_loc,
            gamma_offset,
            beta_offset,
        );
    }
    Ok(s)
}


spec fn layernorm_p1_step_text() -> Seq<char> {
    "    movss   (%r15, %rax, 4), %xmm6\n"@
        + "    addss   %xmm6, %xmm0\n"@
}

proof fn lemma_layernorm_p1_step() -> (p: Seq<Ins>)
    ensures
        lines(p) == layernorm_p1_step_text(),
        value(run(p), Reg::Xmm0) == fadd(init(Reg::Xmm0), load(init(Reg::R15), init(Reg::Rax))),
{
    assert(Seq::<Ins>::empty().len() == 0);
    reveal_strlit("\n");
    reveal_strlit("    addss   ");
    reveal_strlit("    addss   %xmm6, %xmm0\n");
    reveal_strlit("    movss   (");
    reveal_strlit("    movss   (%r15, %rax, 4), %xmm6\n");
    reveal_strlit("%r15");
    reveal_strlit("%rax");
    reveal_strlit("%xmm0");
    reveal_strlit("%xmm6");
    reveal_strlit(", ");
    reveal_strlit(", 4), ");
    let q1 = Seq::<Ins>::empty().push(Ins::LoadSS(Reg::R15, Reg::Rax, Reg::Xmm6));
    lemma_push(Seq::<Ins>::empty(), Ins::LoadSS(Reg::R15, Reg::Rax, Reg::Xmm6));
    assert(line(Ins::LoadSS(Reg::R15, Reg::Rax, Reg::Xmm6)) =~= "    movss   (%r15, %rax, 4), %xmm6\n"@);
    let q2 = q1.push(Ins::AddSS(Reg::Xmm6, Reg::Xmm0));
    lemma_push(q1, Ins::AddSS(Reg::Xmm6, Reg::Xmm0));
    assert(line(Ins::AddSS(Reg::Xmm6, Reg::Xmm0)) =~= "    addss   %xmm6, %xmm0\n"@);
    assert(lines(q2) =~= "    movss   (%r15, %rax, 4), %xmm6\n"@ + "    addss   %xmm6, %xmm0\n"@);
    q2
}

spec fn layernorm_p1_tail_text() -> Seq<char> {
    "    mulss   %xmm2, %xmm0\n"@
        + "    movss   %xmm0, %xmm1\n"@
}

proof fn lemma_layernorm_p1_tail() -> (p: Seq<Ins>)
    ensures
        lines(p) == layernorm_p1_tail_text(),
        value(run(p), Reg::Xmm1) == fmul(init(Reg::Xmm0), init(Reg::Xmm2)),
{
    assert(Seq::<Ins>::empty().len() == 0);
    reveal_strlit("\n");
    reveal_strlit("    movss   ");
    reveal_strlit("    movss   %xmm0, %xmm1\n");
    reveal_strlit("    mulss   ");
    reveal_strlit("    mulss   %xmm2, %xmm0\n");
    reveal_strlit("%xmm0");
    reveal_strlit("%xmm1");
    reveal_strlit("%xmm2");
    reveal_strlit(", ");
    let q1 = Seq::<Ins>::empty().push(Ins::MulSS(Reg::Xmm2, Reg::Xmm0));
    lemma_push(Seq::<Ins>::empty(), Ins::MulSS(Reg::Xmm2, Reg::Xmm0));
    assert(line(Ins::MulSS(Reg::Xmm2, Reg::Xmm0)) =~= "    mulss   %xmm2, %xmm0\n"@);
    let q2 = q1.push(Ins::MovSS(Reg::Xmm0, Reg::Xmm1));
    lemma_push(q1, Ins::MovSS(Reg::Xmm0, Reg::Xmm1));
    assert(line(Ins::MovSS(Reg::Xmm0, Reg::Xmm1)) =~= "    movss   %xmm0, %xmm1\n"@);
    assert(lines(q2) =~= "    mulss   %xmm2, %xmm0\n"@ + "    movss   %xmm0, %xmm1\n"@);
    q2
}

spec fn layernorm_p2_step_text() -> Seq<char> {
    "    movss   (%r15, %rax, 4), %xmm6\n"@
        + "    subss   %xmm1, %xmm6\n"@
        + "    mulss   %xmm6, %xmm6\n"@
        + "    addss   %xmm6, %xmm0\n"@
}

proof fn lemma_layernorm_p2_step() -> (p: Seq<Ins>)
    ensures
        lines(p) == layernorm_p2_step_text(),
        value(run(p), Reg::Xmm0) == fadd(init(Reg::Xmm0), fmul(layernorm_deviation(), layernorm_deviation())),
{
    assert(Seq::<Ins>::empty().len() == 0);
    reveal_strlit("\n");
    reveal_strlit("    addss   ");
    reveal_strlit("    addss   %xmm6, %xmm0\n");
    reveal_strlit("    movss   (");
    reveal_strlit("    movss   (%r15, %rax, 4), %xmm6\n");
    reveal_strlit("    mulss   ");
    reveal_strlit("    mulss   %xmm6, %xmm6\n");
    reveal_strlit("    subss   ");
    reveal_strlit("    subss   %xmm1, %xmm6\n");
    reveal_strlit("%r15");
    reveal_strlit("%rax");
    reveal_strlit("%xmm0");
    reveal_strlit("%xmm1");
    reveal_strlit("%xmm6");
    reveal_strlit(", ");
    reveal_strlit(", 4), ");
    let q1 = Seq::<Ins>::empty().push(Ins::LoadSS(Reg::R15, Reg::Rax, Reg::Xmm6));
    lemma_push(Seq::<Ins>::empty(), Ins::LoadSS(Reg::R15, Reg::Rax, Reg::Xmm6));
    assert(line(Ins::LoadSS(Reg::R15, Reg::Rax, Reg::Xmm6)) =~= "    movss   (%r15, %rax, 4), %xmm6\n"@);
    let q2 = q1.push(Ins::SubSS(Reg::Xmm1, Reg::Xmm6));
    lemma_push(q1, Ins::SubSS(Reg::Xmm1, Reg::Xmm6));
    assert(line(Ins::SubSS(Reg::Xmm1, Reg::Xmm6)) =~= "    subss   %xmm1, %xmm6\n"@);
    let q3 = q2.push(Ins::MulSS(Reg::Xmm6, Reg::Xmm6));
    lemma_push(q2, Ins::MulSS(Reg::Xmm6, Reg::Xmm6));
    assert(line(Ins::MulSS(Reg::Xmm6, Reg::Xmm6)) =~= "    mulss   %xmm6, %xmm6\n"@);
    let q4 = q3.push(Ins::AddSS(Reg::Xmm6, Reg::Xmm0));
    lemma_push(q3, Ins::AddSS(Reg::Xmm6, Reg::Xmm0));
    assert(line(Ins::AddSS(Reg::Xmm6, Reg::Xmm0)) =~= "    addss   %xmm6, %xmm0\n"@);
    assert(
        lines(q4) =~= "    movss   (%r15, %rax, 4), %xmm6\n"@
        + "    subss   %xmm1, %xmm6\n"@
        + "    mulss   %xmm6, %xmm6\n"@
        + "    addss   %xmm6, %xmm0\n"@
    );
    q4
}

spec fn layernorm_p2_tail_text() -> Seq<char> {
    "    mulss   %xmm2, %xmm0\n"@
        + "    addss   %xmm3, %xmm0\n"@
        + "    sqrtss  %xmm0, %xmm0\n"@
        + "    movss   %xmm4, %xmm5\n"@
        + "    divss   %xmm0, %xmm5\n"@
}

proof fn lemma_layernorm_p2_tail() -> (p: Seq<Ins>)
    ensures
        lines(p) == layernorm_p2_tail_text(),
        value(
            run(p),
            Reg::Xmm5) == fdiv(init(Reg::Xmm4),
            fsqrt(fadd(fmul(init(Reg::Xmm0), init(Reg::Xmm2)), init(Reg::Xmm3))),
        ),
{
    assert(Seq::<Ins>::empty().len() == 0);
    reveal_strlit("%xmm3");
    reveal_strlit("%xmm4");
    reveal_strlit("\n");
    reveal_strlit("    addss   ");
    reveal_strlit("    addss   %xmm3, %xmm0\n");
    reveal_strlit("    divss   ");
    reveal_strlit("    divss   %xmm0, %xmm5\n");
    reveal_strlit("    movss   ");
    reveal_strlit("    movss   %xmm4, %xmm5\n");
    reveal_strlit("    mulss   ");
    reveal_strlit("    mulss   %xmm2, %xmm0\n");
    reveal_strlit("    sqrtss  ");
    reveal_strlit("    sqrtss  %xmm0, %xmm0\n");
    reveal_strlit("%xmm0");
    reveal_strlit("%xmm2");
    reveal_strlit("%xmm5");
    reveal_strlit(", ");
    let q1 = Seq::<Ins>::empty().push(Ins::MulSS(Reg::Xmm2, Reg::Xmm0));
    lemma_push(Seq::<Ins>::empty(), Ins::MulSS(Reg::Xmm2, Reg::Xmm0));
    assert(line(Ins::MulSS(Reg::Xmm2, Reg::Xmm0)) =~= "    mulss   %xmm2, %xmm0\n"@);
    let q2 = q1.push(Ins::AddSS(Reg::Xmm3, Reg::Xmm0));
    lemma_push(q1, Ins::AddSS(Reg::Xmm3, Reg::Xmm0));
    assert(line(Ins::AddSS(Reg::Xmm3, Reg::Xmm0)) =~= "    addss   %xmm3, %xmm0\n"@);
    let q3 = q2.push(Ins::SqrtSS(Reg::Xmm0, Reg::Xmm0));
    lemma_push(q2, Ins::SqrtSS(Reg::Xmm0, Reg::Xmm0));
    assert(line(Ins::SqrtSS(Reg::Xmm0, Reg::Xmm0)) =~= "    sqrtss  %xmm0, %xmm0\n"@);
    let q4 = q3.push(Ins::MovSS(Reg::Xmm4, Reg::Xmm5));
    lemma_push(q3, Ins::MovSS(Reg::Xmm4, Reg::Xmm5));
    assert(line(Ins::MovSS(Reg::Xmm4, Reg::Xmm5)) =~= "    movss   %xmm4, %xmm5\n"@);
    let q5 = q4.push(Ins::DivSS(Reg::Xmm0, Reg::Xmm5));
    lemma_push(q4, Ins::DivSS(Reg::Xmm0, Reg::Xmm5));
    assert(line(Ins::DivSS(Reg::Xmm0, Reg::Xmm5)) =~= "    divss   %xmm0, %xmm5\n"@);
    assert(
        lines(q5) =~= "    mulss   %xmm2, %xmm0\n"@
        + "    addss   %xmm3, %xmm0\n"@
        + "    sqrtss  %xmm0, %xmm0\n"@
        + "    movss   %xmm4, %xmm5\n"@
        + "    divss   %xmm0, %xmm5\n"@
    );
    q5
}

spec fn layernorm_p3_text(has_affine: bool) -> Seq<char> {
    "    movss   (%r15, %rax, 4), %xmm6\n"@
        + "    subss   %xmm1, %xmm6\n"@
        + "    mulss   %xmm5, %xmm6\n"@
        + (if has_affine {
            "    movss   (%r12, %rax, 4), %xmm7\n"@
            + "    mulss   %xmm7, %xmm6\n"@
            + "    movss   (%r13, %rax, 4), %xmm8\n"@
            + "    addss   %xmm8, %xmm6\n"@
        } else {
            Seq::empty()
        })
        + "    movss   %xmm6, (%rbp, %rax, 4)\n"@
}

proof fn lemma_layernorm_p3(has_affine: bool) -> (p: Seq<Ins>)
    ensures
        lines(p) == layernorm_p3_text(has_affine),
        run(p).stores == seq![Store::Elem(init(Reg::Rbp), init(Reg::Rax), layernorm_output(has_affine))],
{
    if has_affine {
        assert(Seq::<Ins>::empty().len() == 0);
        reveal_strlit("\n");
        reveal_strlit("    addss   ");
        reveal_strlit("    addss   %xmm8, %xmm6\n");
        reveal_strlit("    movss   ");
        reveal_strlit("    movss   %xmm6, (%rbp, %rax, 4)\n");
        reveal_strlit("    movss   (");
        reveal_strlit("    movss   (%r12, %rax, 4), %xmm7\n");
        reveal_strlit("    movss   (%r13, %rax, 4), %xmm8\n");
        reveal_strlit("    movss   (%r15, %rax, 4), %xmm6\n");
        reveal_strlit("    mulss   ");
        reveal_strlit("    mulss   %xmm5, %xmm6\n");
        reveal_strlit("    mulss   %xmm7, %xmm6\n");
        reveal_strlit("    subss   ");
        reveal_strlit("    subss   %xmm1, %xmm6\n");
        reveal_strlit("%r12");
        reveal_strlit("%r13");
        reveal_strlit("%r15");
        reveal_strlit("%rax");
        reveal_strlit("%rbp");
        reveal_strlit("%xmm1");
        reveal_strlit("%xmm5");
        reveal_strlit("%xmm6");
        reveal_strlit("%xmm7");
        reveal_strlit("%xmm8");
        reveal_strlit(", ");
        reveal_strlit(", (");
        reveal_strlit(", 4)\n");
        reveal_strlit(", 4), ");
        let a1 = Seq::<Ins>::empty().push(Ins::LoadSS(Reg::R15, Reg::Rax, Reg::Xmm6));
        lemma_push(Seq::<Ins>::empty(), Ins::LoadSS(Reg::R15, Reg::Rax, Reg::Xmm6));
        assert(line(Ins::LoadSS(Reg::R15, Reg::Rax, Reg::Xmm6)) =~= "    movss   (%r15, %rax, 4), %xmm6\n"@);
        let a2 = a1.push(Ins::SubSS(Reg::Xmm1, Reg::Xmm6));
        lemma_push(a1, Ins::SubSS(Reg::Xmm1, Reg::Xmm6));
        assert(line(Ins::SubSS(Reg::Xmm1, Reg::Xmm6)) =~= "    subss   %xmm1, %xmm6\n"@);
        let a3 = a2.push(Ins::MulSS(Reg::Xmm5, Reg::Xmm6));
        lemma_push(a2, Ins::MulSS(Reg::Xmm5, Reg::Xmm6));
        assert(line(Ins::MulSS(Reg::Xmm5, Reg::Xmm6)) =~= "    mulss   %xmm5, %xmm6\n"@);
        let a4 = a3.push(Ins::LoadSS(Reg::R12, Reg::Rax, Reg::Xmm7));
        lemma_push(a3, Ins::LoadSS(Reg::R12, Reg::Rax, Reg::Xmm7));
        assert(line(Ins::LoadSS(Reg::R12, Reg::Rax, Reg::Xmm7)) =~= "    movss   (%r12, %rax, 4), %xmm7\n"@);
        let a5 = a4.push(Ins::MulSS(Reg::Xmm7, Reg::Xmm6));
        lemma_push(a4, Ins::MulSS(Reg::Xmm7, Reg::Xmm6));
        assert(line(Ins::MulSS(Reg::Xmm7, Reg::Xmm6)) =~= "    mulss   %xmm7, %xmm6\n"@);
        let a6 = a5.push(Ins::LoadSS(Reg::R13, Reg::Rax, Reg::Xmm8));
        lemma_push(a5, Ins::LoadSS(Reg::R13, Reg::Rax, Reg::Xmm8));
        assert(line(Ins::LoadSS(Reg::R13, Reg::Rax, Reg::Xmm8)) =~= "    movss   (%r13, %rax, 4), %xmm8\n"@);
        let a7 = a6.push(Ins::AddSS(Reg::Xmm8, Reg::Xmm6));
        lemma_push(a6, Ins::AddSS(Reg::Xmm8, Reg::Xmm6));
        assert(line(Ins::AddSS(Reg::Xmm8, Reg::Xmm6)) =~= "    addss   %xmm8, %xmm6\n"@);
        let a8 = a7.push(Ins::StoreSS(Reg::Xmm6, Reg::Rbp, Reg::Rax));
        lemma_push(a7, Ins::StoreSS(Reg::Xmm6, Reg::Rbp, Reg::Rax));
        assert(line(Ins::StoreSS(Reg::Xmm6, Reg::Rbp, Reg::Rax)) =~= "    movss   %xmm6, (%rbp, %rax, 4)\n"@);
        assert(
            lines(a8) =~= "    movss   (%r15, %rax, 4), %xmm6\n"@
            + "    subss   %xmm1, %xmm6\n"@
            + "    mulss   %xmm5, %xmm6\n"@
            + "    movss   (%r12, %rax, 4), %xmm7\n"@
            + "    mulss   %xmm7, %xmm6\n"@
            + "    movss   (%r13, %rax, 4), %xmm8\n"@
            + "    addss   %xmm8, %xmm6\n"@
            + "    movss   %xmm6, (%rbp, %rax, 4)\n"@
        );
        assert(run(a8).stores =~= seq![
            Store::Elem(init(Reg::Rbp), init(Reg::Rax), layernorm_output(has_affine)),
        ]);
        a8
    } else {
        assert(Seq::<Ins>::empty().len() == 0);
        reveal_strlit("\n");
        reveal_strlit("    movss   ");
        reveal_strlit("    movss   %xmm6, (%rbp, %rax, 4)\n");
        reveal_strlit("    movss   (");
        reveal_strlit("    movss   (%r15, %rax, 4), %xmm6\n");
        reveal_strlit("    mulss   ");
        reveal_strlit("    mulss   %xmm5, %xmm6\n");
        reveal_strlit("    subss   ");
        reveal_strlit("    subss   %xmm1, %xmm6\n");
        reveal_strlit("%r15");
        reveal_strlit("%rax");
        reveal_strlit("%rbp");
        reveal_strlit("%xmm1");
        reveal_strlit("%xmm5");
        reveal_strlit("%xmm6");
        reveal_strlit(", ");
        reveal_strlit(", (");
        reveal_strlit(", 4)\n");
        reveal_strlit(", 4), ");
        let q1 = Seq::<Ins>::empty().push(Ins::LoadSS(Reg::R15, Reg::Rax, Reg::Xmm6));
        lemma_push(Seq::<Ins>::empty(), Ins::LoadSS(Reg::R15, Reg::Rax, Reg::Xmm6));
        assert(line(Ins::LoadSS(Reg::R15, Reg::Rax, Reg::Xmm6)) =~= "    movss   (%r15, %rax, 4), %xmm6\n"@);
        let q2 = q1.push(Ins::SubSS(Reg::Xmm1, Reg::Xmm6));
        lemma_push(q1, Ins::SubSS(Reg::Xmm1, Reg::Xmm6));
        assert(line(Ins::SubSS(Reg::Xmm1, Reg::Xmm6)) =~= "    subss   %xmm1, %xmm6\n"@);
        let q3 = q2.push(Ins::MulSS(Reg::Xmm5, Reg::Xmm6));
        lemma_push(q2, Ins::MulSS(Reg::Xmm5, Reg::Xmm6));
        assert(line(Ins::MulSS(Reg::Xmm5, Reg::Xmm6)) =~= "    mulss   %xmm5, %xmm6\n"@);
        let q4 = q3.push(Ins::StoreSS(Reg::Xmm6, Reg::Rbp, Reg::Rax));
        lemma_push(q3, Ins::StoreSS(Reg::Xmm6, Reg::Rbp, Reg::Rax));
        assert(line(Ins::StoreSS(Reg::Xmm6, Reg::Rbp, Reg::Rax)) =~= "    movss   %xmm6, (%rbp, %rax, 4)\n"@);
        assert(
            lines(q4) =~= "    movss   (%r15, %rax, 4), %xmm6\n"@
            + "    subss   %xmm1, %xmm6\n"@
            + "    mulss   %xmm5, %xmm6\n"@
            + "    movss   %xmm6, (%rbp, %rax, 4)\n"@
        );
        assert(run(q4).stores =~= seq![
            Store::Elem(init(Reg::Rbp), init(Reg::Rax), layernorm_output(has_affine)),
        ]);
        q4
    }
}

proof fn lemma_layernorm_pass1_pieces(d: u64, lid: Seq<char>)
    ensures
        has_piece(layernorm_pass1_text(d, lid), layernorm_p1_step_text()),
        has_piece(layernorm_pass1_text(d, lid), layernorm_p1_tail_text()),
{
    broadcast use lemma_piece_left;

    let x_head = "    xorps   %xmm0, %xmm0\n"@
        + "    xorq    %rax, %rax\n"@
        + loop_head(".Lln_p1_"@, "    jge     .Lln_p1_end_"@, "%rax"@, (d as u32) as nat, lid);
    lemma_ends_self(x_head, "    movss   (%r15, %rax, 4), %xmm6\n"@);
    let mut x = x_head + "    movss   (%r15, %rax, 4), %xmm6\n"@;
    let mut x_end = "    movss   (%r15, %rax, 4), %xmm6\n"@;
    lemma_ends_grow(x, x_end, "    addss   %xmm6, %xmm0\n"@);
    x = x + "    addss   %xmm6, %xmm0\n"@;
    x_end = x_end + "    addss   %xmm6, %xmm0\n"@;
    lemma_ends_piece(x, x_end);
    let y_head = x
        + loop_tail("    incq    %rax\n"@, "    jmp     .Lln_p1_"@, ".Lln_p1_end_"@, lid);
    lemma_ends_self(y_head, "    mulss   %xmm2, %xmm0\n"@);
    let mut y = y_head + "    mulss   %xmm2, %xmm0\n"@;
    let mut y_end = "    mulss   %xmm2, %xmm0\n"@;
    lemma_ends_grow(y, y_end, "    movss   %xmm0, %xmm1\n"@);
    y = y + "    movss   %xmm0, %xmm1\n"@;
    y_end = y_end + "    movss   %xmm0, %xmm1\n"@;
    lemma_ends_piece(y, y_end);
}

proof fn lemma_layernorm_pass2_pieces(d: u64, lid: Seq<char>)
    ensures
        has_piece(layernorm_pass2_text(d, lid), layernorm_p2_step_text()),
        has_piece(layernorm_pass2_text(d, lid), layernorm_p2_tail_text()),
{
    broadcast use lemma_piece_left;

    let x_head = "    xorps   %xmm0, %xmm0\n"@
        + "    xorq    %rax, %rax\n"@
        + loop_head(".Lln_p2_"@, "    jge     .Lln_p2_end_"@, "%rax"@, (d as u32) as nat, lid);
    lemma_ends_self(x_head, "    movss   (%r15, %rax, 4), %xmm6\n"@);
    let mut x = x_head + "    movss   (%r15, %rax, 4), %xmm6\n"@;
    let mut x_end = "    movss   (%r15, %rax, 4), %xmm6\n"@;
    lemma_ends_grow(x, x_end, "    subss   %xmm1, %xmm6\n"@);
    x = x + "    subss   %xmm1, %xmm6\n"@;
    x_end = x_end + "    subss   %xmm1, %xmm6\n"@;
    lemma_ends_grow(x, x_end, "    mulss   %xmm6, %xmm6\n"@);
    x = x + "    mulss   %xmm6, %xmm6\n"@;
    x_end = x_end + "    mulss   %xmm6, %xmm6\n"@;
    lemma_ends_grow(x, x_end, "    addss   %xmm6, %xmm0\n"@);
    x = x + "    addss   %xmm6, %xmm0\n"@;
    x_end = x_end + "    addss   %xmm6, %xmm0\n"@;
    lemma_ends_piece(x, x_end);
    let y_head = x
        + loop_tail("    incq    %rax\n"@, "    jmp     .Lln_p2_"@, ".Lln_p2_end_"@, lid);
    lemma_ends_self(y_head, "    mulss   %xmm2, %xmm0\n"@);
    let mut y = y_head + "    mulss   %xmm2, %xmm0\n"@;
    let mut y_end = "    mulss   %xmm2, %xmm0\n"@;
    lemma_ends_grow(y, y_end, "    addss   %xmm3, %xmm0\n"@);
    y = y + "    addss   %xmm3, %xmm0\n"@;
    y_end = y_end + "    addss   %xmm3, %xmm0\n"@;
    lemma_ends_grow(y, y_end, "    sqrtss  %xmm0, %xmm0\n"@);
    y = y + "    sqrtss  %xmm0, %xmm0\n"@;
    y_end = y_end + "    sqrtss  %xmm0, %xmm0\n"@;
    lemma_ends_grow(y, y_end, "    movss   %xmm4, %xmm5\n"@);
    y = y + "    movss   %xmm4, %xmm5\n"@;
    y_end = y_end + "    movss   %xmm4, %xmm5\n"@;
    lemma_ends_grow(y, y_end, "    divss   %xmm0, %xmm5\n"@);
    y = y + "    divss   %xmm0, %xmm5\n"@;
    y_end = y_end + "    divss   %xmm0, %xmm5\n"@;
    lemma_ends_piece(y, y_end);
}

proof fn lemma_layernorm_pass3_pieces(d: u64, has_affine: bool, lid: Seq<char>)
    ensures
        has_piece(layernorm_pass3_text(d, has_affine, lid), layernorm_p3_text(has_affine)),
{
    broadcast use lemma_piece_left;

    let x_head = "    xorq    %rax, %rax\n"@
        + loop_head(".Lln_p3_"@, "    jge     .Lln_p3_end_"@, "%rax"@, (d as u32) as nat, lid);
    lemma_ends_self(x_head, "    movss   (%r15, %rax, 4), %xmm6\n"@);
    let mut x = x_head + "    movss   (%r15, %rax, 4), %xmm6\n"@;
    let mut x_end = "    movss   (%r15, %rax, 4), %xmm6\n"@;
    lemma_ends_grow(x, x_end, "    subss   %xmm1, %xmm6\n"@);
    x = x + "    subss   %xmm1, %xmm6\n"@;
    x_end = x_end + "    subss   %xmm1, %xmm6\n"@;
    lemma_ends_grow(x, x_end, "    mulss   %xmm5, %xmm6\n"@);
    x = x + "    mulss   %xmm5, %xmm6\n"@;
    x_end = x_end + "    mulss   %xmm5, %xmm6\n"@;
    lemma_ends_grow(x, x_end, (if has_affine {
            "    movss   (%r12, %rax, 4), %xmm7\n"@
            + "    mulss   %xmm7, %xmm6\n"@
            + "    movss   (%r13, %rax, 4), %xmm8\n"@
            + "    addss   %xmm8, %xmm6\n"@
        } else {
            Seq::empty()
        }));
    x = x + (if has_affine {
            "    movss   (%r12, %rax, 4), %xmm7\n"@
            + "    mulss   %xmm7, %xmm6\n"@
            + "    movss   (%r13, %rax, 4), %xmm8\n"@
            + "    addss   %xmm8, %xmm6\n"@
        } else {
            Seq::empty()
        });
    x_end = x_end + (if has_affine {
            "    movss   (%r12, %rax, 4), %xmm7\n"@
            + "    mulss   %xmm7, %xmm6\n"@
            + "    movss   (%r13, %rax, 4), %xmm8\n"@
            + "    addss   %xmm8, %xmm6\n"@
        } else {
            Seq::empty()
        });
    lemma_ends_grow(x, x_end, "    movss   %xmm6, (%rbp, %rax, 4)\n"@);
    x = x + "    movss   %xmm6, (%rbp, %rax, 4)\n"@;
    x_end = x_end + "    movss   %xmm6, (%rbp, %rax, 4)\n"@;
    lemma_ends_piece(x, x_end);
}

/// A row element's deviation from the row mean: `x_j - mean`.
pub open spec fn layernorm_deviation() -> Term {
    fsub(load(init(Reg::R15), init(Reg::Rax)), init(Reg::Xmm1))
}

/// The normalised element: `(x_j - mean) * inv_std`, then `* gamma_j +
/// beta_j` when affine.
pub open spec fn layernorm_output(has_affine: bool) -> Term {
    let y = fmul(layernorm_deviation(), init(Reg::Xmm5));
    if has_affine {
        fadd(fmul(y, load(init(Reg::R12), init(Reg::Rax))), load(init(Reg::R13), init(Reg::Rax)))
    } else {
        y
    }
}

proof fn lemma_layernorm_passes_in_text(
    n_inputs: nat,
    b: u64,
    d: u64,
    lid: Seq<char>,
    src_loc: BufferLoc,
    dst_loc: BufferLoc,
    gamma_offset: Option<usize>,
    beta_offset: Option<usize>,
    t: Seq<char>,
)
    requires
        has_piece(layernorm_pass1_text(d, lid), t) || has_piece(layernorm_pass2_text(d, lid), t)
            || has_piece(layernorm_pass3_text(d, gamma_offset is Some, lid), t),
    ensures
        has_piece(layernorm_text(n_inputs, b, d, lid, src_loc, dst_loc, gamma_offset, beta_offset), t),
{
    broadcast use lemma_piece_left, lemma_piece_right;

}

/// Layernorm of a row (source in `%r15`, destination in `%rbp`, element
/// index in `%rax`; `%xmm2`, `%xmm3`, `%xmm4` hold `1/d`, `eps` and `1`):
/// pass 1 adds each element to the accumulator `%xmm0` and leaves the mean,
/// `sum * (1/d)`, in `%xmm1`; pass 2 adds each squared deviation
/// `(x_j - mean)^2` and leaves `inv_std = 1 / sqrt(sum * (1/d) + eps)` in
/// `%xmm5`; pass 3 stores `y_j = (x_j - mean) * inv_std`, times `gamma_j`
/// plus `beta_j` when affine, and nothing else.
pub proof fn lemma_layernorm_normalises(
    n_inputs: nat,
    b: u64,
    d: u64,
    lid: Seq<char>,
    src_loc: BufferLoc,
    dst_loc: BufferLoc,
    gamma_offset: Option<usize>,
    beta_offset: Option<usize>,
)
    ensures
        computes(
            layernorm_text(n_inputs, b, d, lid, src_loc, dst_loc, gamma_offset, beta_offset),
            Reg::Xmm0,
            fadd(init(Reg::Xmm0), load(init(Reg::R15), init(Reg::Rax))),
        ),
        computes(
            layernorm_text(n_inputs, b, d, lid, src_loc, dst_loc, gamma_offset, beta_offset),
            Reg::Xmm1,
            fmul(init(Reg::Xmm0), init(Reg::Xmm2)),
        ),
        computes(
            layernorm_text(n_inputs, b, d, lid, src_loc, dst_loc, gamma_offset, beta_offset),
            Reg::Xmm0,
            fadd(init(Reg::Xmm0), fmul(layernorm_deviation(), layernorm_deviation())),
        ),
        computes(
            layernorm_text(n_inputs, b, d, lid, src_loc, dst_loc, gamma_offset, beta_offset),
            Reg::Xmm5,
            fdiv(init(Reg::Xmm4), fsqrt(fadd(fmul(init(Reg::Xmm0), init(Reg::Xmm2)), init(Reg::Xmm3)))),
        ),
        stores(
            layernorm_text(n_inputs, b, d, lid, src_loc, dst_loc, gamma_offset, beta_offset),
            seq![Store::Elem(init(Reg::Rbp), init(Reg::Rax), layernorm_output(gamma_offset is Some))],
        ),
{
    let text = layernorm_text(n_inputs, b, d, lid, src_loc, dst_loc, gamma_offset, beta_offset);
    let has_affine = gamma_offset is Some;
    lemma_layernorm_pass1_pieces(d, lid);
    lemma_layernorm_pass2_pieces(d, lid);
    lemma_layernorm_pass3_pieces(d, has_affine, lid);
    let p1 = lemma_layernorm_p1_step();
    lemma_layernorm_passes_in_text(
        n_inputs,
        b,
        d,
        lid,
        src_loc,
        dst_loc,
        gamma_offset,
        beta_offset,
        lines(p1),
    );
    assert(has_piece(text, lines(p1)));
    let p2 = lemma_layernorm_p1_tail();
    lemma_layernorm_passes_in_text(
        n_inputs,
        b,
        d,
        lid,
        src_loc,
        dst_loc,
        gamma_offset,
        beta_offset,
        lines(p2),
    );
    assert(has_piece(text, lines(p2)));
    let p3 = lemma_layernorm_p2_step();
    lemma_layernorm_passes_in_text(
        n_inputs,
        b,
        d,
        lid,
        src_loc,
        dst_loc,
        gamma_offset,
        beta_offset,
        lines(p3),
    );
    assert(has_piece(text, lines(p3)));
    let p4 = lemma_layernorm_p2_tail();
    lemma_layernorm_passes_in_text(
        n_inputs,
        b,
        d,
        lid,
        src_loc,
        dst_loc,
        gamma_offset,
        beta_offset,
        lines(p4),
    );
    assert(has_piece(text, lines(p4)));
    let p5 = lemma_layernorm_p3(has_affine);
    lemma_layernorm_passes_in_text(
        n_inputs,
        b,
        d,
        lid,
        src_loc,
        dst_loc,
        gamma_offset,
        beta_offset,
        lines(p5),
    );
    assert(has_piece(text, lines(p5)));
}

} // verus!
