//! Standalone softmax over `[b, k]` (per row, numerically stable), with the
//! inline `exp` in place of a libm call. The frame keeps the layout of a
//! calling function: the argument registers are spilled around the row
//! loop, loop state lives in callee-saved registers, and the row max and
//! row sum live in stack slots just above the spilled registers, out of
//! reach of the `exp` sequence's scratch.

use vstd::prelude::*;
use crate::text::{
    push_str, push_decimal, decimal, op_id, op_id_string, has_piece, lemma_piece_self, lemma_piece_left,
    lemma_piece_right,
};
use crate::types::BufferLoc;
use crate::x86_64::abi::{
    AbiContext, materialisable, materialise_text, ffi_save_text, ffi_restore_text,
};
use crate::x86_64::frame::{push_imm32_to_r10, imm32_to_r10_text};
use crate::x86_64::ops::loops::{push_loop_head, push_loop_tail, loop_head, loop_tail};
use crate::x86_64::ops::exp::{exp_inline_text, push_exp_inline};

verus! {

/// Bytes the FFI save block moves `%rsp` by: the argument registers in use,
/// rounded up to an even count, 8 bytes each.
pub open spec fn ffi_spill_bytes(n_inputs: nat) -> nat {
    ((n_inputs + 2) + (n_inputs + 2) % 2) * 8
}

/// `row_base + j` into `%rax`.
pub open spec fn row_offset_text() -> Seq<char> {
    "    movq    %r15, %rax\n"@ + "    addq    %r14, %rax\n"@
}

pub open spec fn softmax_max_pass(k: u64, max_slot: nat, id: Seq<char>) -> Seq<char> {
    "    movl    $0xFF800000, %r10d\n"@ + "    movd    %r10d, %xmm8\n"@ + "    xorq    %r14, %r14\n"@
        + loop_head(".Lsm_max_"@, "    jge     .Lsm_max_end_"@, "%r14"@, (k as u32) as nat, id)
        + row_offset_text()
        + "    movss   (%rbx, %rax, 4), %xmm0\n"@
        + "    maxss   %xmm0, %xmm8\n"@
        + loop_tail("    incq    %r14\n"@, "    jmp     .Lsm_max_"@, ".Lsm_max_end_"@, id)
        + "    movss   %xmm8, "@ + decimal(max_slot) + "(%rsp)\n"@
}

pub open spec fn softmax_exp_pass(
    k: u64,
    max_slot: nat,
    sum_slot: nat,
    id: Seq<char>,
    sym_prefix: Seq<char>,
) -> Seq<char> {
    "    movl    $0, "@ + decimal(sum_slot) + "(%rsp)\n"@ + "    xorq    %r14, %r14\n"@
        + loop_head(".Lsm_exp_"@, "    jge     .Lsm_exp_end_"@, "%r14"@, (k as u32) as nat, id)
        + row_offset_text()
        + "    movss   (%rbx, %rax, 4), %xmm0\n"@
        + "    subss   "@ + decimal(max_slot) + "(%rsp), %xmm0\n"@
        + exp_inline_text()
        + row_offset_text()
        + "    movss   %xmm0, (%r12, %rax, 4)\n"@
        + "    movss   "@ + decimal(sum_slot) + "(%rsp), %xmm1\n"@
        + "    addss   %xmm0, %xmm1\n"@
        + "    movss   %xmm1, "@ + decimal(sum_slot) + "(%rsp)\n"@
        + loop_tail("    incq    %r14\n"@, "    jmp     .Lsm_exp_"@, ".Lsm_exp_end_"@, id)
}

pub open spec fn softmax_norm_pass(k: u64, sum_slot: nat, id: Seq<char>) -> Seq<char> {
    "    xorq    %r14, %r14\n"@
        + loop_head(".Lsm_norm_"@, "    jge     .Lsm_norm_end_"@, "%r14"@, (k as u32) as nat, id)
        + row_offset_text()
        + "    movss   (%r12, %rax, 4), %xmm0\n"@
        + "    divss   "@ + decimal(sum_slot) + "(%rsp), %xmm0\n"@
        + "    movss   %xmm0, (%r12, %rax, 4)\n"@
        + loop_tail("    incq    %r14\n"@, "    jmp     .Lsm_norm_"@, ".Lsm_norm_end_"@, id)
}

/// The whole standalone softmax: pointers pinned in `%rbx`/`%r12`, the
/// argument registers spilled, a row loop over `%r13` running the max,
/// exp-and-sum, and normalise passes, then the argument registers restored.
pub open spec fn softmax_text(
    n_inputs: nat,
    b: u64,
    k: u64,
    id: Seq<char>,
    src_loc: BufferLoc,
    dst_loc: BufferLoc,
    sym_prefix: Seq<char>,
) -> Seq<char> {
    let max_slot = ffi_spill_bytes(n_inputs);
    let sum_slot = ffi_spill_bytes(n_inputs) + 8;
    "    # softmax (3-pass): input ["@ + decimal(b as nat) + ","@ + decimal(k as nat)
        + "] -> output ["@ + decimal(b as nat) + ","@ + decimal(k as nat) + "]\n"@
        + materialise_text(n_inputs, src_loc, "%rbx"@)
        + materialise_text(n_inputs, dst_loc, "%r12"@)
        + ffi_save_text(n_inputs)
        + "    xorq    %r13, %r13\n"@
        + loop_head(".Lsm_i_"@, "    jge     .Lsm_i_end_"@, "%r13"@, (b as u32) as nat, id)
        + imm32_to_r10_text((k as u32) as nat)
        + "    movq    %r13, %r15\n"@
        + "    imulq   %r10, %r15\n"@
        + softmax_max_pass(k, max_slot, id)
        + softmax_exp_pass(k, max_slot, sum_slot, id, sym_prefix)
        + softmax_norm_pass(k, sum_slot, id)
        + loop_tail("    incq    %r13\n"@, "    jmp     .Lsm_i_"@, ".Lsm_i_end_"@, id)
        + ffi_restore_text(n_inputs)
}

fn push_row_offset(s: &mut String)
    ensures
        final(s)@ == old(s)@ + row_offset_text(),
{
    push_str(s, "    movq    %r15, %rax\n");
    push_str(s, "    addq    %r14, %rax\n");
}

fn push_max_pass(s: &mut String, k: u64, max_slot: usize, id: &str)
    ensures
        final(s)@ == old(s)@ + softmax_max_pass(k, max_slot as nat, id@),
{
    let ghost start = s@;
    push_str(s, "    movl    $0xFF800000, %r10d\n");
    push_str(s, "    movd    %r10d, %xmm8\n");
    push_str(s, "    xorq    %r14, %r14\n");
    push_loop_head(s, ".Lsm_max_", "    jge     .Lsm_max_end_", "%r14", k as u32, id);
    push_row_offset(s);
    push_str(s, "    movss   (%rbx, %rax, 4), %xmm0\n");
    push_str(s, "    maxss   %xmm0, %xmm8\n");
    push_loop_tail(s, "    incq    %r14\n", "    jmp     .Lsm_max_", ".Lsm_max_end_", id);
    push_str(s, "    movss   %xmm8, ");
    push_decimal(s, max_slot as u64);
    push_str(s, "(%rsp)\n");
    proof {
        assert(s@ =~= start + softmax_max_pass(k, max_slot as nat, id@));
    }
}

#[verifier::rlimit(80)]
fn push_exp_pass(
    s: &mut String,
    k: u64,
    max_slot: usize,
    sum_slot: usize,
    id: &str,
    sym_prefix: &str,
)
    ensures
        final(s)@ == old(s)@ + softmax_exp_pass(
            k,
            max_slot as nat,
            sum_slot as nat,
            id@,
            sym_prefix@,
        ),
{
    let ghost start = s@;
    push_str(s, "    movl    $0, ");
    push_decimal(s, sum_slot as u64);
    push_str(s, "(%rsp)\n");
    push_str(s, "    xorq    %r14, %r14\n");
    push_loop_head(s, ".Lsm_exp_", "    jge     .Lsm_exp_end_", "%r14", k as u32, id);
    push_row_offset(s);
    push_str(s, "    movss   (%rbx, %rax, 4), %xmm0\n");
    push_str(s, "    subss   ");
    push_decimal(s, max_slot as u64);
    push_str(s, "(%rsp), %xmm0\n");
    push_exp_inline(s);
    push_row_offset(s);
    push_str(s, "    movss   %xmm0, (%r12, %rax, 4)\n");
    push_str(s, "    movss   ");
    push_decimal(s, sum_slot as u64);
    push_str(s, "(%rsp), %xmm1\n");
    push_str(s, "    addss   %xmm0, %xmm1\n");
    push_str(s, "    movss   %xmm1, ");
    push_decimal(s, sum_slot as u64);
    push_str(s, "(%rsp)\n");
    push_loop_tail(s, "    incq    %r14\n", "    jmp     .Lsm_exp_", ".Lsm_exp_end_", id);
    proof {
        assert(s@ =~= start + softmax_exp_pass(
            k,
            max_slot as nat,
            sum_slot as nat,
            id@,
            sym_prefix@,
        ));
    }
}

fn push_norm_pass(s: &mut String, k: u64, sum_slot: usize, id: &str)
    ensures
        final(s)@ == old(s)@ + softmax_norm_pass(k, sum_slot as nat, id@),
{
    let ghost start = s@;
    push_str(s, "    xorq    %r14, %r14\n");
    push_loop_head(s, ".Lsm_norm_", "    jge     .Lsm_norm_end_", "%r14", k as u32, id);
    push_row_offset(s);
    push_str(s, "    movss   (%r12, %rax, 4), %xmm0\n");
    push_str(s, "    divss   ");
    push_decimal(s, sum_slot as u64);
    push_str(s, "(%rsp), %xmm0\n");
    push_str(s, "    movss   %xmm0, (%r12, %rax, 4)\n");
    push_loop_tail(s, "    incq    %r14\n", "    jmp     .Lsm_norm_", ".Lsm_norm_end_", id);
    proof {
        assert(s@ =~= start + softmax_norm_pass(k, sum_slot as nat, id@));
    }
}

proof fn lemma_softmax_regroup(
    p: Seq<char>,
    x1: Seq<char>,
    x2: Seq<char>,
    x3: Seq<char>,
    x4: Seq<char>,
    x5: Seq<char>,
    mp: Seq<char>,
    ep: Seq<char>,
    np: Seq<char>,
    tl: Seq<char>,
    rs: Seq<char>,
)
    ensures
        p + x1 + x2 + x3 + x4 + x5 + mp + ep + np + tl + rs == p + (x1 + x2 + x3 + x4 + x5 + mp + ep + np + tl) + rs,
        p + x1 + x2 + x3 + x4 + x5 + mp + ep + np + tl + rs == (p + x1 + x2 + x3 + x4 + x5) + mp + (ep + np + tl + rs),
        p + x1 + x2 + x3 + x4 + x5 + mp + ep + np + tl + rs == (p + x1 + x2 + x3 + x4 + x5 + mp) + ep + (np + tl + rs),
{
    assert(p + x1 + x2 + x3 + x4 + x5 + mp + ep + np + tl + rs =~= p + (x1 + x2 + x3 + x4 + x5 + mp + ep + np + tl) + rs);
    assert(p + x1 + x2 + x3 + x4 + x5 + mp + ep + np + tl + rs =~= (p + x1 + x2 + x3 + x4 + x5) + mp + (ep + np + tl + rs));
    assert(p + x1 + x2 + x3 + x4 + x5 + mp + ep + np + tl + rs =~= (p + x1 + x2 + x3 + x4 + x5 + mp) + ep + (np + tl + rs));
}

proof fn lemma_assoc3(pre: Seq<char>, l1: Seq<char>, d: Seq<char>, l2: Seq<char>)
    ensures
        pre + l1 + d + l2 == pre + (l1 + d + l2),
{
    assert(pre + l1 + d + l2 =~= pre + (l1 + d + l2));
}

/// The standalone softmax keeps the row max and the row sum in the two
/// stack slots just above the spilled argument registers, at
/// `16 * ceil((N + 2) / 2)` bytes and 8 bytes higher; it loads its two
/// pointers before the save block and ends with the matching restore
/// block, so `%rsp` is back where it was.
#[verifier::rlimit(30)]
pub proof fn lemma_softmax_row_state_above_spill(
    n_inputs: nat,
    b: u64,
    k: u64,
    id: Seq<char>,
    src_loc: BufferLoc,
    dst_loc: BufferLoc,
    sym_prefix: Seq<char>,
)
    requires
        n_inputs + 2 <= 6,
    ensures
        ffi_spill_bytes(n_inputs) == 16 * ((n_inputs + 3) / 2),
        has_piece(
            softmax_text(n_inputs, b, k, id, src_loc, dst_loc, sym_prefix),
            "    movss   %xmm8, "@ + decimal(ffi_spill_bytes(n_inputs)) + "(%rsp)\n"@,
        ),
        has_piece(
            softmax_text(n_inputs, b, k, id, src_loc, dst_loc, sym_prefix),
            "    movl    $0, "@ + decimal(ffi_spill_bytes(n_inputs) + 8) + "(%rsp)\n"@,
        ),
        exists|head: Seq<char>, body: Seq<char>|
            softmax_text(n_inputs, b, k, id, src_loc, dst_loc, sym_prefix) == head + materialise_text(
                n_inputs,
                src_loc,
                "%rbx"@,
            ) + materialise_text(n_inputs, dst_loc, "%r12"@) + ffi_save_text(n_inputs) + body + ffi_restore_text(
                n_inputs,
            ),
{
    let max_slot = ffi_spill_bytes(n_inputs);
    let sum_slot = max_slot + 8;
    let head = "    # softmax (3-pass): input ["@ + decimal(b as nat) + ","@ + decimal(k as nat) + "] -> output ["@
        + decimal(b as nat) + ","@ + decimal(k as nat) + "]\n"@;
    let m1 = materialise_text(n_inputs, src_loc, "%rbx"@);
    let m2 = materialise_text(n_inputs, dst_loc, "%r12"@);
    let save = ffi_save_text(n_inputs);
    let restore = ffi_restore_text(n_inputs);
    let p = head + m1 + m2 + save;
    let x1 = "    xorq    %r13, %r13\n"@;
    let x2 = loop_head(".Lsm_i_"@, "    jge     .Lsm_i_end_"@, "%r13"@, (b as u32) as nat, id);
    let x3 = imm32_to_r10_text((k as u32) as nat);
    let x4 = "    movq    %r13, %r15\n"@;
    let x5 = "    imulq   %r10, %r15\n"@;
    let mp = softmax_max_pass(k, max_slot, id);
    let ep = softmax_exp_pass(k, max_slot, sum_slot, id, sym_prefix);
    let np = softmax_norm_pass(k, sum_slot, id);
    let tl = loop_tail("    incq    %r13\n"@, "    jmp     .Lsm_i_"@, ".Lsm_i_end_"@, id);
    lemma_softmax_regroup(p, x1, x2, x3, x4, x5, mp, ep, np, tl, restore);
    let body = x1 + x2 + x3 + x4 + x5 + mp + ep + np + tl;
    let max_pre = "    movl    $0xFF800000, %r10d\n"@ + "    movd    %r10d, %xmm8\n"@ + "    xorq    %r14, %r14\n"@
        + loop_head(".Lsm_max_"@, "    jge     .Lsm_max_end_"@, "%r14"@, (k as u32) as nat, id) + row_offset_text()
        + "    movss   (%rbx, %rax, 4), %xmm0\n"@ + "    maxss   %xmm0, %xmm8\n"@
        + loop_tail("    incq    %r14\n"@, "    jmp     .Lsm_max_"@, ".Lsm_max_end_"@, id);
    let spill = "    movss   %xmm8, "@ + decimal(max_slot) + "(%rsp)\n"@;
    lemma_assoc3(max_pre, "    movss   %xmm8, "@, decimal(max_slot), "(%rsp)\n"@);
    lemma_piece_self(spill);
    let init = "    movl    $0, "@ + decimal(sum_slot) + "(%rsp)\n"@;
    lemma_piece_self(init);
    broadcast use lemma_piece_left, lemma_piece_right;
    assert(has_piece(mp, spill));
    assert(has_piece(ep, init));
    assert(((n_inputs + 2) + (n_inputs + 2) % 2) * 8 == 16 * ((n_inputs + 3) / 2));
}

/// Emits a standalone softmax over `b` rows of `k` elements.
pub fn emit_softmax(
    abi: &AbiContext,
    b: u64,
    k: u64,
    model_idx: usize,
    softmax_idx: usize,
    src_loc: BufferLoc,
    dst_loc: BufferLoc,
    sym_prefix: &str,
) -> (s: String)
    requires
        abi.n_inputs + 2 <= 6,
        materialisable(abi.n_inputs as nat, src_loc),
        materialisable(abi.n_inputs as nat, dst_loc),
    ensures
        s@ == softmax_text(
            abi.n_inputs as nat,
            b,
            k,
            op_id(model_idx as nat, softmax_idx as nat),
            src_loc,
            dst_loc,
            sym_prefix@,
        ),
{
    let mut s = String::new();
    push_str(&mut s, "    # softmax (3-pass): input [");
    push_decimal(&mut s, b);
    push_str(&mut s, ",");
    push_decimal(&mut s, k);
    push_str(&mut s, "] -> output [");
    push_decimal(&mut s, b);
    push_str(&mut s, ",");
    push_decimal(&mut s, k);
    push_str(&mut s, "]\n");
    abi.materialise_ptr(src_loc, "%rbx", &mut s);
    abi.materialise_ptr(dst_loc, "%r12", &mut s);
    abi.emit_ffi_save(&mut s);
    let n_saved = abi.n_inputs + 2;
    let push_count = n_saved + n_saved % 2;
    let sp_shift = push_count * 8;
    let row_max_slot = sp_shift;
    let row_sum_slot = sp_shift + 8;
    let sid = op_id_string(model_idx, softmax_idx);
    let id = sid.as_str();
    push_str(&mut s, "    xorq    %r13, %r13\n");
    push_loop_head(&mut s, ".Lsm_i_", "    jge     .Lsm_i_end_", "%r13", b as u32, id);
    push_imm32_to_r10(&mut s, k as u32);
    push_str(&mut s, "    movq    %r13, %r15\n");
    push_str(&mut s, "    imulq   %r10, %r15\n");
    push_max_pass(&mut s, k, row_max_slot, id);
    push_exp_pass(&mut s, k, row_max_slot, row_sum_slot, id, sym_prefix);
    push_norm_pass(&mut s, k, row_sum_slot, id);
    push_loop_tail(&mut s, "    incq    %r13\n", "    jmp     .Lsm_i_", ".Lsm_i_end_", id);
    abi.emit_ffi_restore(&mut s);
    s
}

} // verus!
