//! Linear layer: `[b, k] x [k, n]` matmul, optional bias add, and fused
//! post-ops (an inline ReLU, or a row-wise softmax tail after the loops).
//!
//! Register plan: src pointer in `%r14`, weight pointer in `%r15` (both
//! saved and restored around the op), dst pointer in `%r11`, counters
//! `%rax` (i), `%rbp` (j), `%rdi` (k), offset scratch `%rsi`. With two or
//! more inputs `%rdi`/`%rsi` hold input pointers and are saved around the
//! loops. The bias base borrows the output register; it and the params
//! register are parked in `%xmm7`/`%xmm6` and restored at the end, unless a
//! softmax tail (always the model's last op) makes that unnecessary.

use vstd::prelude::*;
use crate::text::{
    push_str, push_decimal, decimal, op_id, op_id_string, has_piece, lemma_piece_self, lemma_piece_left,
    lemma_piece_right, lemma_ends_self, lemma_ends_grow, lemma_ends_piece,
};
use crate::x86_64::dataflow::{
    Ins, Reg, Store, Term, reg_name, arg_reg, lemma_arg_reg, line, lines, run, value, computes, stores, lemma_push,
    init, load, fadd, fmul, row_major,
};
use crate::types::{BufferLoc, LowerError, Span};
use crate::uir::PostOp;
use crate::x86_64::abi::{AbiContext, arg_regs};
use crate::x86_64::frame::{push_imm32_to_r10, imm32_to_r10_text};
use crate::x86_64::ops::loops::{push_loop_head, push_loop_tail, loop_head, loop_tail};
use crate::x86_64::ops::softmax::{row_offset_text};
use crate::x86_64::ops::layernorm::{
    materialise_ptr_with_rsp_bias, biased_materialisable, biased_materialise_text,
};
use crate::x86_64::ops::exp::{exp_inline_text, push_exp_inline};

verus! {

/// Bytes the op-local `pushq %r14; pushq %r15` move `%rsp` by.
pub open spec fn linear_push_bytes() -> nat {
    16
}

pub open spec fn linear_header_text(b: u64, k: u64, n: u64, has_bias: bool, has_post: bool) -> Seq<char> {
    "    # matmul: input ["@ + decimal(b as nat) + ","@ + decimal(k as nat) + "] x weights ["@
        + decimal(k as nat) + ","@ + decimal(n as nat) + "] -> output ["@ + decimal(b as nat) + ","@
        + decimal(n as nat) + "]"@ + (if has_bias { " + bias"@ } else { Seq::empty() })
        + (if has_post { " + fused"@ } else { Seq::empty() }) + "\n"@
}

/// `<dst> = params + offset floats`.
pub open spec fn params_ptr_text(params: Seq<char>, offset: nat, dst: Seq<char>) -> Seq<char> {
    if offset == 0 {
        "    movq    "@ + params + ", "@ + dst + "\n"@
    } else {
        "    leaq    "@ + decimal(offset * 4) + "("@ + params + "), "@ + dst + "\n"@
    }
}

/// The in-loop text of the elementwise post-ops, in order.
pub open spec fn inline_post_ops_text(posts: Seq<PostOp>) -> Seq<char>
    decreases posts.len(),
{
    if posts.len() == 0 {
        Seq::empty()
    } else {
        inline_post_ops_text(posts.drop_last()) + match posts.last() {
            PostOp::Relu => "    maxss   %xmm4, %xmm0\n"@,
            PostOp::SoftmaxRow => Seq::empty(),
        }
    }
}

/// The after-loop text of the row-wise post-ops, in order.
pub open spec fn row_post_ops_text(posts: Seq<PostOp>, b: u64, n: u64, id: Seq<char>, sym_prefix: Seq<char>) -> Seq<char>
    decreases posts.len(),
{
    if posts.len() == 0 {
        Seq::empty()
    } else {
        row_post_ops_text(posts.drop_last(), b, n, id, sym_prefix) + match posts.last() {
            PostOp::Relu => Seq::empty(),
            PostOp::SoftmaxRow => fused_softmax_tail_text(b, n, id, sym_prefix),
        }
    }
}

/// The loops: `sum_k src[i*k + kk] * w[kk*n + j]`, bias, inline post-ops,
/// store to `dst[i*n + j]`.
pub open spec fn linear_loops_text(
    b: u64,
    k: u64,
    n: u64,
    has_bias: bool,
    output: Seq<char>,
    posts: Seq<PostOp>,
    id: Seq<char>,
) -> Seq<char> {
    "    xorq    %rax, %rax\n"@
        + loop_head(".Lmm_i_"@, "    jge     .Lmm_i_end_"@, "%rax"@, (b as u32) as nat, id)
        + "    xorq    %rbp, %rbp\n"@
        + loop_head(".Lmm_j_"@, "    jge     .Lmm_j_end_"@, "%rbp"@, (n as u32) as nat, id)
        + "    xorq    %rdi, %rdi\n"@ + "    xorps   %xmm0, %xmm0\n"@
        + loop_head(".Lmm_k_"@, "    jge     .Lmm_k_end_"@, "%rdi"@, (k as u32) as nat, id)
        + imm32_to_r10_text((k as u32) as nat) + "    movq    %rax, %rsi\n"@ + "    imulq   %r10, %rsi\n"@
        + "    addq    %rdi, %rsi\n"@ + "    movss   (%r14, %rsi, 4), %xmm1\n"@
        + imm32_to_r10_text((n as u32) as nat) + "    movq    %rdi, %rsi\n"@ + "    imulq   %r10, %rsi\n"@
        + "    addq    %rbp, %rsi\n"@ + "    movss   (%r15, %rsi, 4), %xmm2\n"@
        + "    mulss   %xmm2, %xmm1\n"@ + "    addss   %xmm1, %xmm0\n"@
        + loop_tail("    incq    %rdi\n"@, "    jmp     .Lmm_k_"@, ".Lmm_k_end_"@, id)
        + (if has_bias {
            "    movss   ("@ + output + ", %rbp, 4), %xmm5\n"@ + "    addss   %xmm5, %xmm0\n"@
        } else {
            Seq::empty()
        })
        + inline_post_ops_text(posts)
        + imm32_to_r10_text((n as u32) as nat) + "    movq    %rax, %rsi\n"@ + "    imulq   %r10, %rsi\n"@
        + "    addq    %rbp, %rsi\n"@ + "    movss   %xmm0, (%r11, %rsi, 4)\n"@
        + loop_tail("    incq    %rbp\n"@, "    jmp     .Lmm_j_"@, ".Lmm_j_end_"@, id)
        + loop_tail("    incq    %rax\n"@, "    jmp     .Lmm_i_"@, ".Lmm_i_end_"@, id)
}

/// What `emit_linear` requires of its arguments.
pub open spec fn linear_args_ok(
    n_inputs: nat,
    src_loc: BufferLoc,
    dst_loc: BufferLoc,
    weight_offset: nat,
    bias_offset: Option<usize>,
) -> bool {
    &&& n_inputs + 2 <= 6
    &&& biased_materialisable(n_inputs, src_loc, linear_push_bytes())
    &&& biased_materialisable(n_inputs, dst_loc, linear_push_bytes())
    &&& weight_offset * 4 <= usize::MAX
    &&& (bias_offset matches Some(off) ==> off * 4 <= usize::MAX)
}

/// The full linear op text.
pub open spec fn linear_text(
    n_inputs: nat,
    b: u64,
    k: u64,
    n: u64,
    id: Seq<char>,
    src_loc: BufferLoc,
    dst_loc: BufferLoc,
    weight_offset: nat,
    bias_offset: Option<usize>,
    posts: Seq<PostOp>,
    sym_prefix: Seq<char>,
) -> Seq<char> {
    let params = arg_regs()[n_inputs as int];
    let output = arg_regs()[(n_inputs + 1) as int];
    let has_bias = bias_offset is Some;
    let softmax_row = posts.contains(PostOp::SoftmaxRow);
    let preserve_output = has_bias && !softmax_row;
    let preserve_params = !softmax_row;
    let save_abi = n_inputs >= 2;
    linear_header_text(b, k, n, has_bias, posts.len() > 0)
        + "    pushq   %r14\n"@ + "    pushq   %r15\n"@
        + biased_materialise_text(n_inputs, src_loc, "%r14"@, linear_push_bytes())
        + biased_materialise_text(n_inputs, dst_loc, "%r11"@, linear_push_bytes())
        + params_ptr_text(params, weight_offset, "%r15"@)
        + (if posts.contains(PostOp::Relu) { "    xorps   %xmm4, %xmm4\n"@ } else { Seq::empty() })
        + (if preserve_output { "    movq    "@ + output + ", %xmm7\n"@ } else { Seq::empty() })
        + (match bias_offset {
            Some(off) => params_ptr_text(params, off as nat, output),
            None => Seq::empty(),
        })
        + (if preserve_params { "    movq    "@ + params + ", %xmm6\n"@ } else { Seq::empty() })
        + (if save_abi { "    pushq   %rdi\n"@ + "    pushq   %rsi\n"@ } else { Seq::empty() })
        + linear_loops_text(b, k, n, has_bias, output, posts, id)
        + (if save_abi { "    popq    %rsi\n"@ + "    popq    %rdi\n"@ } else { Seq::empty() })
        + "    popq    %r15\n"@ + "    popq    %r14\n"@
        + row_post_ops_text(posts, b, n, id, sym_prefix)
        + (if preserve_params { "    movq    %xmm6, "@ + params + "\n"@ } else { Seq::empty() })
        + (if preserve_output { "    movq    %xmm7, "@ + output + "\n"@ } else { Seq::empty() })
}

/// The row-wise softmax over the `[b, n]` output in `%r11`, in place.
pub open spec fn fused_softmax_tail_text(b: u64, n: u64, lid: Seq<char>, sym_prefix: Seq<char>) -> Seq<char> {
    "    # fused softmax_row: output ["@ + decimal(b as nat) + ","@ + decimal(n as nat) + "] in-place\n"@
        + "    movq    %r11, %rbx\n"@ + "    movq    %r11, %r12\n"@ + "    xorq    %r13, %r13\n"@
        + loop_head(".Lfsmx_i_"@, "    jge     .Lfsmx_i_end_"@, "%r13"@, (b as u32) as nat, lid)
        + imm32_to_r10_text((n as u32) as nat) + "    movq    %r13, %r15\n"@ + "    imulq   %r10, %r15\n"@
        + fused_max_pass(n, lid)
        + fused_exp_pass(n, lid, sym_prefix)
        + fused_norm_pass(n, lid)
        + loop_tail("    incq    %r13\n"@, "    jmp     .Lfsmx_i_"@, ".Lfsmx_i_end_"@, lid)
}

pub open spec fn fused_max_pass(n: u64, lid: Seq<char>) -> Seq<char> {
    "    movl    $0xFF800000, %r10d\n"@ + "    movd    %r10d, %xmm8\n"@ + "    xorq    %r14, %r14\n"@
        + loop_head(".Lfsmx_max_"@, "    jge     .Lfsmx_max_end_"@, "%r14"@, (n as u32) as nat, lid)
        + row_offset_text() + "    movss   (%rbx, %rax, 4), %xmm0\n"@ + "    maxss   %xmm0, %xmm8\n"@
        + loop_tail("    incq    %r14\n"@, "    jmp     .Lfsmx_max_"@, ".Lfsmx_max_end_"@, lid)
        + "    movss   %xmm8, (%rsp)\n"@
}

pub open spec fn fused_exp_pass(n: u64, lid: Seq<char>, sym_prefix: Seq<char>) -> Seq<char> {
    "    movl    $0, 8(%rsp)\n"@ + "    xorq    %r14, %r14\n"@
        + loop_head(".Lfsmx_exp_"@, "    jge     .Lfsmx_exp_end_"@, "%r14"@, (n as u32) as nat, lid)
        + row_offset_text() + "    movss   (%rbx, %rax, 4), %xmm0\n"@ + "    subss   (%rsp), %xmm0\n"@
        + exp_inline_text()
        + row_offset_text() + "    movss   %xmm0, (%r12, %rax, 4)\n"@ + "    movss   8(%rsp), %xmm1\n"@
        + "    addss   %xmm0, %xmm1\n"@ + "    movss   %xmm1, 8(%rsp)\n"@
        + loop_tail("    incq    %r14\n"@, "    jmp     .Lfsmx_exp_"@, ".Lfsmx_exp_end_"@, lid)
}

pub open spec fn fused_norm_pass(n: u64, lid: Seq<char>) -> Seq<char> {
    "    xorq    %r14, %r14\n"@
        + loop_head(".Lfsmx_norm_"@, "    jge     .Lfsmx_norm_end_"@, "%r14"@, (n as u32) as nat, lid)
        + row_offset_text() + "    movss   (%r12, %rax, 4), %xmm0\n"@ + "    divss   8(%rsp), %xmm0\n"@
        + "    movss   %xmm0, (%r12, %rax, 4)\n"@
        + loop_tail("    incq    %r14\n"@, "    jmp     .Lfsmx_norm_"@, ".Lfsmx_norm_end_"@, lid)
}

fn push_row_offset(s: &mut String)
    ensures
        final(s)@ == old(s)@ + row_offset_text(),
{
    push_str(s, "    movq    %r15, %rax\n");
    push_str(s, "    addq    %r14, %rax\n");
}

fn push_fused_max_pass(s: &mut String, n: u64, lid: &str)
    ensures
        final(s)@ == old(s)@ + fused_max_pass(n, lid@),
{
    let mut t = "    movl    $0xFF800000, %r10d\n".to_owned();
    push_str(&mut t, "    movd    %r10d, %xmm8\n");
    push_str(&mut t, "    xorq    %r14, %r14\n");
    push_loop_head(&mut t, ".Lfsmx_max_", "    jge     .Lfsmx_max_end_", "%r14", n as u32, lid);
    push_row_offset(&mut t);
    push_str(&mut t, "    movss   (%rbx, %rax, 4), %xmm0\n");
    push_str(&mut t, "    maxss   %xmm0, %xmm8\n");
    push_loop_tail(&mut t, "    incq    %r14\n", "    jmp     .Lfsmx_max_", ".Lfsmx_max_end_", lid);
    push_str(&mut t, "    movss   %xmm8, (%rsp)\n");
    push_str(s, t.as_str());
}

fn push_fused_exp_pass(s: &mut String, n: u64, lid: &str, sym_prefix: &str)
    ensures
        final(s)@ == old(s)@ + fused_exp_pass(n, lid@, sym_prefix@),
{
    let mut t = "    movl    $0, 8(%rsp)\n".to_owned();
    push_str(&mut t, "    xorq    %r14, %r14\n");
    push_loop_head(&mut t, ".Lfsmx_exp_", "    jge     .Lfsmx_exp_end_", "%r14", n as u32, lid);
    push_row_offset(&mut t);
    push_str(&mut t, "    movss   (%rbx, %rax, 4), %xmm0\n");
    push_str(&mut t, "    subss   (%rsp), %xmm0\n");
    push_exp_inline(&mut t);
    push_row_offset(&mut t);
    push_str(&mut t, "    movss   %xmm0, (%r12, %rax, 4)\n");
    push_str(&mut t, "    movss   8(%rsp), %xmm1\n");
    push_str(&mut t, "    addss   %xmm0, %xmm1\n");
    push_str(&mut t, "    movss   %xmm1, 8(%rsp)\n");
    push_loop_tail(&mut t, "    incq    %r14\n", "    jmp     .Lfsmx_exp_", ".Lfsmx_exp_end_", lid);
    push_str(s, t.as_str());
}

fn push_fused_norm_pass(s: &mut String, n: u64, lid: &str)
    ensures
        final(s)@ == old(s)@ + fused_norm_pass(n, lid@),
{
    let mut t = "    xorq    %r14, %r14\n".to_owned();
    push_loop_head(&mut t, ".Lfsmx_norm_", "    jge     .Lfsmx_norm_end_", "%r14", n as u32, lid);
    push_row_offset(&mut t);
    push_str(&mut t, "    movss   (%r12, %rax, 4), %xmm0\n");
    push_str(&mut t, "    divss   8(%rsp), %xmm0\n");
    push_str(&mut t, "    movss   %xmm0, (%r12, %rax, 4)\n");
    push_loop_tail(&mut t, "    incq    %r14\n", "    jmp     .Lfsmx_norm_", ".Lfsmx_norm_end_", lid);
    push_str(s, t.as_str());
}

/// The fused row-wise softmax tail, in place over the `[b, n]` output
/// whose pointer is in `%r11`; the row max and sum live at `(%rsp)` and
/// `8(%rsp)`, the slots that buffer assignment reserves for softmax models.
fn emit_fused_softmax_tail(b: u64, n: u64, lid: &str, sym_prefix: &str) -> (s: String)
    ensures
        s@ == fused_softmax_tail_text(b, n, lid@, sym_prefix@),
{
    let mut s = "    # fused softmax_row: output [".to_owned();
    push_decimal(&mut s, b);
    push_str(&mut s, ",");
    push_decimal(&mut s, n);
    push_str(&mut s, "] in-place\n");
    push_str(&mut s, "    movq    %r11, %rbx\n");
    push_str(&mut s, "    movq    %r11, %r12\n");
    push_str(&mut s, "    xorq    %r13, %r13\n");
    push_loop_head(&mut s, ".Lfsmx_i_", "    jge     .Lfsmx_i_end_", "%r13", b as u32, lid);
    push_imm32_to_r10(&mut s, n as u32);
    push_str(&mut s, "    movq    %r13, %r15\n");
    push_str(&mut s, "    imulq   %r10, %r15\n");
    push_fused_max_pass(&mut s, n, lid);
    push_fused_exp_pass(&mut s, n, lid, sym_prefix);
    push_fused_norm_pass(&mut s, n, lid);
    push_loop_tail(&mut s, "    incq    %r13\n", "    jmp     .Lfsmx_i_", ".Lfsmx_i_end_", lid);
    s
}

pub(crate) fn params_ptr(params: &str, offset: usize, dst: &str) -> (s: String)
    requires
        offset * 4 <= usize::MAX,
    ensures
        s@ == params_ptr_text(params@, offset as nat, dst@),
{
    if offset == 0 {
        let mut s = "    movq    ".to_owned();
        push_str(&mut s, params);
        push_str(&mut s, ", ");
        push_str(&mut s, dst);
        push_str(&mut s, "\n");
        s
    } else {
        let mut s = "    leaq    ".to_owned();
        push_decimal(&mut s, (offset * 4) as u64);
        push_str(&mut s, "(");
        push_str(&mut s, params);
        push_str(&mut s, "), ");
        push_str(&mut s, dst);
        push_str(&mut s, "\n");
        s
    }
}

fn contains_post_op(posts: &Vec<PostOp>, p: PostOp) -> (r: bool)
    ensures
        r == posts@.contains(p),
{
    let mut i: usize = 0;
    while i < posts.len()
        invariant
            i <= posts@.len(),
            forall|j: int| 0 <= j < i ==> posts@[j] != p,
        decreases posts@.len() - i,
    {
        if posts[i] == p {
            assert(posts@[i as int] == p);
            return true;
        }
        i = i + 1;
    }
    false
}

fn inline_post_ops(posts: &Vec<PostOp>) -> (s: String)
    ensures
        s@ == inline_post_ops_text(posts@),
{
    let mut s = String::new();
    let mut i: usize = 0;
    while i < posts.len()
        invariant
            i <= posts@.len(),
            s@ == inline_post_ops_text(posts@.take(i as int)),
        decreases posts@.len() - i,
    {
        assert(posts@.take(i + 1).drop_last() =~= posts@.take(i as int));
        match posts[i] {
            PostOp::Relu => push_str(&mut s, "    maxss   %xmm4, %xmm0\n"),
            PostOp::SoftmaxRow => {},
        }
        proof {
            assert(s@ =~= inline_post_ops_text(posts@.take(i + 1)));
        }
        i = i + 1;
    }
    assert(posts@.take(posts@.len() as int) =~= posts@);
    s
}

fn row_post_ops(posts: &Vec<PostOp>, b: u64, n: u64, lid: &str, sym_prefix: &str) -> (s: String)
    ensures
        s@ == row_post_ops_text(posts@, b, n, lid@, sym_prefix@),
{
    let mut s = String::new();
    let mut i: usize = 0;
    while i < posts.len()
        invariant
            i <= posts@.len(),
            s@ == row_post_ops_text(posts@.take(i as int), b, n, lid@, sym_prefix@),
        decreases posts@.len() - i,
    {
        assert(posts@.take(i + 1).drop_last() =~= posts@.take(i as int));
        match posts[i] {
            PostOp::Relu => {},
            PostOp::SoftmaxRow => {
                let tail = emit_fused_softmax_tail(b, n, lid, sym_prefix);
                push_str(&mut s, tail.as_str());
            },
        }
        proof {
            assert(s@ =~= row_post_ops_text(posts@.take(i + 1), b, n, lid@, sym_prefix@));
        }
        i = i + 1;
    }
    assert(posts@.take(posts@.len() as int) =~= posts@);
    s
}

fn linear_loops(
    b: u64,
    k: u64,
    n: u64,
    has_bias: bool,
    output: &str,
    posts: &Vec<PostOp>,
    id: &str,
) -> (s: String)
    ensures
        s@ == linear_loops_text(b, k, n, has_bias, output@, posts@, id@),
{
    let mut s = "    xorq    %rax, %rax\n".to_owned();
    push_loop_head(&mut s, ".Lmm_i_", "    jge     .Lmm_i_end_", "%rax", b as u32, id);
    push_str(&mut s, "    xorq    %rbp, %rbp\n");
    push_loop_head(&mut s, ".Lmm_j_", "    jge     .Lmm_j_end_", "%rbp", n as u32, id);
    push_str(&mut s, "    xorq    %rdi, %rdi\n");
    push_str(&mut s, "    xorps   %xmm0, %xmm0\n");
    push_loop_head(&mut s, ".Lmm_k_", "    jge     .Lmm_k_end_", "%rdi", k as u32, id);
    push_imm32_to_r10(&mut s, k as u32);
    push_str(&mut s, "    movq    %rax, %rsi\n");
    push_str(&mut s, "    imulq   %r10, %rsi\n");
    push_str(&mut s, "    addq    %rdi, %rsi\n");
    push_str(&mut s, "    movss   (%r14, %rsi, 4), %xmm1\n");
    push_imm32_to_r10(&mut s, n as u32);
    push_str(&mut s, "    movq    %rdi, %rsi\n");
    push_str(&mut s, "    imulq   %r10, %rsi\n");
    push_str(&mut s, "    addq    %rbp, %rsi\n");
    push_str(&mut s, "    movss   (%r15, %rsi, 4), %xmm2\n");
    push_str(&mut s, "    mulss   %xmm2, %xmm1\n");
    push_str(&mut s, "    addss   %xmm1, %xmm0\n");
    push_loop_tail(&mut s, "    incq    %rdi\n", "    jmp     .Lmm_k_", ".Lmm_k_end_", id);
    let bias_add = if has_bias {
        let mut t = "    movss   (".to_owned();
        push_str(&mut t, output);
        push_str(&mut t, ", %rbp, 4), %xmm5\n");
        push_str(&mut t, "    addss   %xmm5, %xmm0\n");
        t
    } else {
        String::new()
    };
    push_str(&mut s, bias_add.as_str());
    let inline_posts = inline_post_ops(posts);
    push_str(&mut s, inline_posts.as_str());
    push_imm32_to_r10(&mut s, n as u32);
    push_str(&mut s, "    movq    %rax, %rsi\n");
    push_str(&mut s, "    imulq   %r10, %rsi\n");
    push_str(&mut s, "    addq    %rbp, %rsi\n");
    push_str(&mut s, "    movss   %xmm0, (%r11, %rsi, 4)\n");
    push_loop_tail(&mut s, "    incq    %rbp\n", "    jmp     .Lmm_j_", ".Lmm_j_end_", id);
    push_loop_tail(&mut s, "    incq    %rax\n", "    jmp     .Lmm_i_", ".Lmm_i_end_", id);
    s
}

fn linear_header(b: u64, k: u64, n: u64, has_bias: bool, has_post: bool) -> (s: String)
    ensures
        s@ == linear_header_text(b, k, n, has_bias, has_post),
{
    let mut s = "    # matmul: input [".to_owned();
    push_decimal(&mut s, b);
    push_str(&mut s, ",");
    push_decimal(&mut s, k);
    push_str(&mut s, "] x weights [");
    push_decimal(&mut s, k);
    push_str(&mut s, ",");
    push_decimal(&mut s, n);
    push_str(&mut s, "] -> output [");
    push_decimal(&mut s, b);
    push_str(&mut s, ",");
    push_decimal(&mut s, n);
    push_str(&mut s, "]");
    let bias_note = if has_bias { " + bias".to_owned() } else { String::new() };
    push_str(&mut s, bias_note.as_str());
    let fused_note = if has_post { " + fused".to_owned() } else { String::new() };
    push_str(&mut s, fused_note.as_str());
    push_str(&mut s, "\n");
    s
}

fn optional(cond: bool, a: &str, b: &str, c: &str) -> (s: String)
    ensures
        s@ == if cond { a@ + b@ + c@ } else { Seq::empty() },
{
    if cond {
        let mut s = a.to_owned();
        push_str(&mut s, b);
        push_str(&mut s, c);
        s
    } else {
        String::new()
    }
}

/// Emits a linear layer over `[b, k]` with `[k, n]` weights at
/// `weight_offset` floats into the params buffer, an optional bias at
/// `bias_offset`, and the fused post-ops. Never fails: both post-ops are
/// supported.
pub fn emit_linear(
    abi: &AbiContext,
    b: u64,
    k: u64,
    n: u64,
    model_idx: usize,
    linear_idx: usize,
    src_loc: BufferLoc,
    dst_loc: BufferLoc,
    weight_offset: usize,
    bias_offset: Option<usize>,
    node_span: Span,
    fused_post_ops: &Vec<PostOp>,
    sym_prefix: &str,
) -> (r: Result<String, LowerError>)
    requires
        linear_args_ok(abi.n_inputs as nat, src_loc, dst_loc, weight_offset as nat, bias_offset),
    ensures
        r matches Ok(s) && s@ == linear_text(
            abi.n_inputs as nat,
            b,
            k,
            n,
            op_id(model_idx as nat, linear_idx as nat),
            src_loc,
            dst_loc,
            weight_offset as nat,
            bias_offset,
            fused_post_ops@,
            sym_prefix@,
        ),
{
    let lid = op_id_string(model_idx, linear_idx);
    let id = lid.as_str();
    let params_reg = abi.params_reg();
    let output_reg = abi.output_reg();
    let has_bias = bias_offset.is_some();
    let softmax_row = contains_post_op(fused_post_ops, PostOp::SoftmaxRow);
    let needs_zero = contains_post_op(fused_post_ops, PostOp::Relu);
    let preserve_output = has_bias && !softmax_row;
    let preserve_params = !softmax_row;
    let save_abi = abi.n_inputs >= 2;

    let mut s = linear_header(b, k, n, has_bias, fused_post_ops.len() > 0);
    push_str(&mut s, "    pushq   %r14\n");
    push_str(&mut s, "    pushq   %r15\n");
    materialise_ptr_with_rsp_bias(abi, src_loc, "%r14", 16, &mut s);
    materialise_ptr_with_rsp_bias(abi, dst_loc, "%r11", 16, &mut s);
    let weight = params_ptr(params_reg, weight_offset, "%r15");
    push_str(&mut s, weight.as_str());
    let zero = optional(needs_zero, "    xorps   %xmm4, %xmm4\n", "", "");
    push_str(&mut s, zero.as_str());
    let park_output = optional(preserve_output, "    movq    ", output_reg, ", %xmm7\n");
    push_str(&mut s, park_output.as_str());
    let bias_base = match bias_offset {
        Some(off) => params_ptr(params_reg, off, output_reg),
        None => String::new(),
    };
    push_str(&mut s, bias_base.as_str());
    let park_params = optional(preserve_params, "    movq    ", params_reg, ", %xmm6\n");
    push_str(&mut s, park_params.as_str());
    let save = optional(save_abi, "    pushq   %rdi\n", "    pushq   %rsi\n", "");
    push_str(&mut s, save.as_str());
    let loops = linear_loops(b, k, n, has_bias, output_reg, fused_post_ops, id);
    push_str(&mut s, loops.as_str());
    let restore = optional(save_abi, "    popq    %rsi\n", "    popq    %rdi\n", "");
    push_str(&mut s, restore.as_str());
    push_str(&mut s, "    popq    %r15\n");
    push_str(&mut s, "    popq    %r14\n");
    let tails = row_post_ops(fused_post_ops, b, n, id, sym_prefix);
    push_str(&mut s, tails.as_str());
    let unpark_params = optional(preserve_params, "    movq    %xmm6, ", params_reg, "\n");
    push_str(&mut s, unpark_params.as_str());
    let unpark_output = optional(preserve_output, "    movq    %xmm7, ", output_reg, "\n");
    push_str(&mut s, unpark_output.as_str());
    proof {
        assert("    xorps   %xmm4, %xmm4\n"@ + ""@ + ""@ =~= "    xorps   %xmm4, %xmm4\n"@) by {
            reveal_strlit("");
        }
        assert("    pushq   %rdi\n"@ + "    pushq   %rsi\n"@ + ""@ =~= "    pushq   %rdi\n"@ + "    pushq   %rsi\n"@) by {
            reveal_strlit("");
        }
        assert("    popq    %rsi\n"@ + "    popq    %rdi\n"@ + ""@ =~= "    popq    %rsi\n"@ + "    popq    %rdi\n"@) by {
            reveal_strlit("");
        }
    }
    Ok(s)
}


/// One pass of the linear k-loop: `acc += x[i*k + kk] * w[kk*n + j]`.
pub open spec fn linear_step(k: u64, n: u64) -> Term {
    fadd(
        init(Reg::Xmm0),
        fmul(
            load(init(Reg::R14), row_major(init(Reg::Rax), k as nat, init(Reg::Rdi))),
            load(init(Reg::R15), row_major(init(Reg::Rdi), n as nat, init(Reg::Rbp))),
        ),
    )
}

spec fn linear_body_text(k: u64, n: u64) -> Seq<char> {
    imm32_to_r10_text((k as u32) as nat)
        + "    movq    %rax, %rsi\n"@
        + "    imulq   %r10, %rsi\n"@
        + "    addq    %rdi, %rsi\n"@
        + "    movss   (%r14, %rsi, 4), %xmm1\n"@
        + imm32_to_r10_text((n as u32) as nat)
        + "    movq    %rdi, %rsi\n"@
        + "    imulq   %r10, %rsi\n"@
        + "    addq    %rbp, %rsi\n"@
        + "    movss   (%r15, %rsi, 4), %xmm2\n"@
        + "    mulss   %xmm2, %xmm1\n"@
        + "    addss   %xmm1, %xmm0\n"@
}

spec fn linear_store_text(n: u64) -> Seq<char> {
    imm32_to_r10_text((n as u32) as nat)
        + "    movq    %rax, %rsi\n"@
        + "    imulq   %r10, %rsi\n"@
        + "    addq    %rbp, %rsi\n"@
        + "    movss   %xmm0, (%r11, %rsi, 4)\n"@
}

proof fn lemma_linear_body(k: u64, n: u64) -> (p: Seq<Ins>)
    requires
        k <= u32::MAX,
        n <= u32::MAX,
    ensures
        lines(p) == linear_body_text(k, n),
        value(run(p), Reg::Xmm0) == linear_step(k, n),
{
    assert(Seq::<Ins>::empty().len() == 0);
    reveal_strlit("\n");
    reveal_strlit("    addq    ");
    reveal_strlit("    addq    %rbp, %rsi\n");
    reveal_strlit("    addq    %rdi, %rsi\n");
    reveal_strlit("    addss   ");
    reveal_strlit("    addss   %xmm1, %xmm0\n");
    reveal_strlit("    imulq   ");
    reveal_strlit("    imulq   %r10, %rsi\n");
    reveal_strlit("    movq    ");
    reveal_strlit("    movq    %rax, %rsi\n");
    reveal_strlit("    movq    %rdi, %rsi\n");
    reveal_strlit("    movss   (");
    reveal_strlit("    movss   (%r14, %rsi, 4), %xmm1\n");
    reveal_strlit("    movss   (%r15, %rsi, 4), %xmm2\n");
    reveal_strlit("    mulss   ");
    reveal_strlit("    mulss   %xmm2, %xmm1\n");
    reveal_strlit("%r10");
    reveal_strlit("%r14");
    reveal_strlit("%r15");
    reveal_strlit("%rax");
    reveal_strlit("%rbp");
    reveal_strlit("%rdi");
    reveal_strlit("%rsi");
    reveal_strlit("%xmm0");
    reveal_strlit("%xmm1");
    reveal_strlit("%xmm2");
    reveal_strlit(", ");
    reveal_strlit(", 4), ");
    let q1 = Seq::<Ins>::empty().push(Ins::MovImmR10(k as nat));
    lemma_push(Seq::<Ins>::empty(), Ins::MovImmR10(k as nat));
    let q2 = q1.push(Ins::MovQ(Reg::Rax, Reg::Rsi));
    lemma_push(q1, Ins::MovQ(Reg::Rax, Reg::Rsi));
    assert(line(Ins::MovQ(Reg::Rax, Reg::Rsi)) =~= "    movq    %rax, %rsi\n"@);
    let q3 = q2.push(Ins::ImulQ(Reg::R10, Reg::Rsi));
    lemma_push(q2, Ins::ImulQ(Reg::R10, Reg::Rsi));
    assert(line(Ins::ImulQ(Reg::R10, Reg::Rsi)) =~= "    imulq   %r10, %rsi\n"@);
    let q4 = q3.push(Ins::AddQ(Reg::Rdi, Reg::Rsi));
    lemma_push(q3, Ins::AddQ(Reg::Rdi, Reg::Rsi));
    assert(line(Ins::AddQ(Reg::Rdi, Reg::Rsi)) =~= "    addq    %rdi, %rsi\n"@);
    let q5 = q4.push(Ins::LoadSS(Reg::R14, Reg::Rsi, Reg::Xmm1));
    lemma_push(q4, Ins::LoadSS(Reg::R14, Reg::Rsi, Reg::Xmm1));
    assert(line(Ins::LoadSS(Reg::R14, Reg::Rsi, Reg::Xmm1)) =~= "    movss   (%r14, %rsi, 4), %xmm1\n"@);
    let q6 = q5.push(Ins::MovImmR10(n as nat));
    lemma_push(q5, Ins::MovImmR10(n as nat));
    let q7 = q6.push(Ins::MovQ(Reg::Rdi, Reg::Rsi));
    lemma_push(q6, Ins::MovQ(Reg::Rdi, Reg::Rsi));
    assert(line(Ins::MovQ(Reg::Rdi, Reg::Rsi)) =~= "    movq    %rdi, %rsi\n"@);
    let q8 = q7.push(Ins::ImulQ(Reg::R10, Reg::Rsi));
    lemma_push(q7, Ins::ImulQ(Reg::R10, Reg::Rsi));
    assert(line(Ins::ImulQ(Reg::R10, Reg::Rsi)) =~= "    imulq   %r10, %rsi\n"@);
    let q9 = q8.push(Ins::AddQ(Reg::Rbp, Reg::Rsi));
    lemma_push(q8, Ins::AddQ(Reg::Rbp, Reg::Rsi));
    assert(line(Ins::AddQ(Reg::Rbp, Reg::Rsi)) =~= "    addq    %rbp, %rsi\n"@);
    let q10 = q9.push(Ins::LoadSS(Reg::R15, Reg::Rsi, Reg::Xmm2));
    lemma_push(q9, Ins::LoadSS(Reg::R15, Reg::Rsi, Reg::Xmm2));
    assert(line(Ins::LoadSS(Reg::R15, Reg::Rsi, Reg::Xmm2)) =~= "    movss   (%r15, %rsi, 4), %xmm2\n"@);
    let q11 = q10.push(Ins::MulSS(Reg::Xmm2, Reg::Xmm1));
    lemma_push(q10, Ins::MulSS(Reg::Xmm2, Reg::Xmm1));
    assert(line(Ins::MulSS(Reg::Xmm2, Reg::Xmm1)) =~= "    mulss   %xmm2, %xmm1\n"@);
    let q12 = q11.push(Ins::AddSS(Reg::Xmm1, Reg::Xmm0));
    lemma_push(q11, Ins::AddSS(Reg::Xmm1, Reg::Xmm0));
    assert(line(Ins::AddSS(Reg::Xmm1, Reg::Xmm0)) =~= "    addss   %xmm1, %xmm0\n"@);
    assert(
        lines(q12) =~= imm32_to_r10_text((k as u32) as nat)
        + "    movq    %rax, %rsi\n"@
        + "    imulq   %r10, %rsi\n"@
        + "    addq    %rdi, %rsi\n"@
        + "    movss   (%r14, %rsi, 4), %xmm1\n"@
        + imm32_to_r10_text((n as u32) as nat)
        + "    movq    %rdi, %rsi\n"@
        + "    imulq   %r10, %rsi\n"@
        + "    addq    %rbp, %rsi\n"@
        + "    movss   (%r15, %rsi, 4), %xmm2\n"@
        + "    mulss   %xmm2, %xmm1\n"@
        + "    addss   %xmm1, %xmm0\n"@
    );
    q12
}

proof fn lemma_linear_store(n: u64) -> (p: Seq<Ins>)
    requires
        n <= u32::MAX,
    ensures
        lines(p) == linear_store_text(n),
        run(p).stores == seq![
            Store::Elem(init(Reg::R11), row_major(init(Reg::Rax), n as nat, init(Reg::Rbp)), init(Reg::Xmm0)),
        ],
{
    assert(Seq::<Ins>::empty().len() == 0);
    reveal_strlit("\n");
    reveal_strlit("    addq    ");
    reveal_strlit("    addq    %rbp, %rsi\n");
    reveal_strlit("    imulq   ");
    reveal_strlit("    imulq   %r10, %rsi\n");
    reveal_strlit("    movq    ");
    reveal_strlit("    movq    %rax, %rsi\n");
    reveal_strlit("    movss   ");
    reveal_strlit("    movss   %xmm0, (%r11, %rsi, 4)\n");
    reveal_strlit("%r10");
    reveal_strlit("%r11");
    reveal_strlit("%rax");
    reveal_strlit("%rbp");
    reveal_strlit("%rsi");
    reveal_strlit("%xmm0");
    reveal_strlit(", ");
    reveal_strlit(", (");
    reveal_strlit(", 4)\n");
    let s1 = Seq::<Ins>::empty().push(Ins::MovImmR10(n as nat));
    lemma_push(Seq::<Ins>::empty(), Ins::MovImmR10(n as nat));
    let s2 = s1.push(Ins::MovQ(Reg::Rax, Reg::Rsi));
    lemma_push(s1, Ins::MovQ(Reg::Rax, Reg::Rsi));
    assert(line(Ins::MovQ(Reg::Rax, Reg::Rsi)) =~= "    movq    %rax, %rsi\n"@);
    let s3 = s2.push(Ins::ImulQ(Reg::R10, Reg::Rsi));
    lemma_push(s2, Ins::ImulQ(Reg::R10, Reg::Rsi));
    assert(line(Ins::ImulQ(Reg::R10, Reg::Rsi)) =~= "    imulq   %r10, %rsi\n"@);
    let s4 = s3.push(Ins::AddQ(Reg::Rbp, Reg::Rsi));
    lemma_push(s3, Ins::AddQ(Reg::Rbp, Reg::Rsi));
    assert(line(Ins::AddQ(Reg::Rbp, Reg::Rsi)) =~= "    addq    %rbp, %rsi\n"@);
    let s5 = s4.push(Ins::StoreSS(Reg::Xmm0, Reg::R11, Reg::Rsi));
    lemma_push(s4, Ins::StoreSS(Reg::Xmm0, Reg::R11, Reg::Rsi));
    assert(line(Ins::StoreSS(Reg::Xmm0, Reg::R11, Reg::Rsi)) =~= "    movss   %xmm0, (%r11, %rsi, 4)\n"@);
    assert(
        lines(s5) =~= imm32_to_r10_text((n as u32) as nat)
        + "    movq    %rax, %rsi\n"@
        + "    imulq   %r10, %rsi\n"@
        + "    addq    %rbp, %rsi\n"@
        + "    movss   %xmm0, (%r11, %rsi, 4)\n"@
    );
    assert(run(s5).stores =~= seq![
        Store::Elem(init(Reg::R11), row_major(init(Reg::Rax), n as nat, init(Reg::Rbp)), init(Reg::Xmm0)),
    ]);
    s5
}

/// The k-loop body and the store of `y` stand in the loop text.
proof fn lemma_linear_loop_pieces(
    b: u64,
    k: u64,
    n: u64,
    has_bias: bool,
    output: Seq<char>,
    posts: Seq<PostOp>,
    id: Seq<char>,
)
    ensures
        has_piece(linear_loops_text(b, k, n, has_bias, output, posts, id), linear_body_text(k, n)),
        has_piece(linear_loops_text(b, k, n, has_bias, output, posts, id), linear_store_text(n)),
{
    broadcast use lemma_piece_left;

    let x_head = "    xorq    %rax, %rax\n"@
        + loop_head(".Lmm_i_"@, "    jge     .Lmm_i_end_"@, "%rax"@, (b as u32) as nat, id)
        + "    xorq    %rbp, %rbp\n"@
        + loop_head(".Lmm_j_"@, "    jge     .Lmm_j_end_"@, "%rbp"@, (n as u32) as nat, id)
        + "    xorq    %rdi, %rdi\n"@
        + "    xorps   %xmm0, %xmm0\n"@
        + loop_head(".Lmm_k_"@, "    jge     .Lmm_k_end_"@, "%rdi"@, (k as u32) as nat, id);
    lemma_ends_self(x_head, imm32_to_r10_text((k as u32) as nat));
    let mut x = x_head + imm32_to_r10_text((k as u32) as nat);
    let mut x_end = imm32_to_r10_text((k as u32) as nat);
    lemma_ends_grow(x, x_end, "    movq    %rax, %rsi\n"@);
    x = x + "    movq    %rax, %rsi\n"@;
    x_end = x_end + "    movq    %rax, %rsi\n"@;
    lemma_ends_grow(x, x_end, "    imulq   %r10, %rsi\n"@);
    x = x + "    imulq   %r10, %rsi\n"@;
    x_end = x_end + "    imulq   %r10, %rsi\n"@;
    lemma_ends_grow(x, x_end, "    addq    %rdi, %rsi\n"@);
    x = x + "    addq    %rdi, %rsi\n"@;
    x_end = x_end + "    addq    %rdi, %rsi\n"@;
    lemma_ends_grow(x, x_end, "    movss   (%r14, %rsi, 4), %xmm1\n"@);
    x = x + "    movss   (%r14, %rsi, 4), %xmm1\n"@;
    x_end = x_end + "    movss   (%r14, %rsi, 4), %xmm1\n"@;
    lemma_ends_grow(x, x_end, imm32_to_r10_text((n as u32) as nat));
    x = x + imm32_to_r10_text((n as u32) as nat);
    x_end = x_end + imm32_to_r10_text((n as u32) as nat);
    lemma_ends_grow(x, x_end, "    movq    %rdi, %rsi\n"@);
    x = x + "    movq    %rdi, %rsi\n"@;
    x_end = x_end + "    movq    %rdi, %rsi\n"@;
    lemma_ends_grow(x, x_end, "    imulq   %r10, %rsi\n"@);
    x = x + "    imulq   %r10, %rsi\n"@;
    x_end = x_end + "    imulq   %r10, %rsi\n"@;
    lemma_ends_grow(x, x_end, "    addq    %rbp, %rsi\n"@);
    x = x + "    addq    %rbp, %rsi\n"@;
    x_end = x_end + "    addq    %rbp, %rsi\n"@;
    lemma_ends_grow(x, x_end, "    movss   (%r15, %rsi, 4), %xmm2\n"@);
    x = x + "    movss   (%r15, %rsi, 4), %xmm2\n"@;
    x_end = x_end + "    movss   (%r15, %rsi, 4), %xmm2\n"@;
    lemma_ends_grow(x, x_end, "    mulss   %xmm2, %xmm1\n"@);
    x = x + "    mulss   %xmm2, %xmm1\n"@;
    x_end = x_end + "    mulss   %xmm2, %xmm1\n"@;
    lemma_ends_grow(x, x_end, "    addss   %xmm1, %xmm0\n"@);
    x = x + "    addss   %xmm1, %xmm0\n"@;
    x_end = x_end + "    addss   %xmm1, %xmm0\n"@;
    lemma_ends_piece(x, x_end);
    let y_head = x
        + loop_tail("    incq    %rdi\n"@, "    jmp     .Lmm_k_"@, ".Lmm_k_end_"@, id)
        + (if has_bias {
            "    movss   ("@ + output + ", %rbp, 4), %xmm5\n"@ + "    addss   %xmm5, %xmm0\n"@
        } else {
            Seq::empty()
        })
        + inline_post_ops_text(posts);
    lemma_ends_self(y_head, imm32_to_r10_text((n as u32) as nat));
    let mut y = y_head + imm32_to_r10_text((n as u32) as nat);
    let mut y_end = imm32_to_r10_text((n as u32) as nat);
    lemma_ends_grow(y, y_end, "    movq    %rax, %rsi\n"@);
    y = y + "    movq    %rax, %rsi\n"@;
    y_end = y_end + "    movq    %rax, %rsi\n"@;
    lemma_ends_grow(y, y_end, "    imulq   %r10, %rsi\n"@);
    y = y + "    imulq   %r10, %rsi\n"@;
    y_end = y_end + "    imulq   %r10, %rsi\n"@;
    lemma_ends_grow(y, y_end, "    addq    %rbp, %rsi\n"@);
    y = y + "    addq    %rbp, %rsi\n"@;
    y_end = y_end + "    addq    %rbp, %rsi\n"@;
    lemma_ends_grow(y, y_end, "    movss   %xmm0, (%r11, %rsi, 4)\n"@);
    y = y + "    movss   %xmm0, (%r11, %rsi, 4)\n"@;
    y_end = y_end + "    movss   %xmm0, (%r11, %rsi, 4)\n"@;
    lemma_ends_piece(y, y_end);
}

proof fn lemma_linear_loops_in_text(
    n_inputs: nat,
    b: u64,
    k: u64,
    n: u64,
    id: Seq<char>,
    src_loc: BufferLoc,
    dst_loc: BufferLoc,
    weight_offset: nat,
    bias_offset: Option<usize>,
    posts: Seq<PostOp>,
    sym_prefix: Seq<char>,
    t: Seq<char>,
)
    requires
        has_piece(
            linear_loops_text(b, k, n, bias_offset is Some, arg_regs()[(n_inputs + 1) as int], posts, id),
            t,
        ),
    ensures
        has_piece(
            linear_text(
                n_inputs,
                b,
                k,
                n,
                id,
                src_loc,
                dst_loc,
                weight_offset,
                bias_offset,
                posts,
                sym_prefix,
            ),
            t,
        ),
{
    broadcast use lemma_piece_left, lemma_piece_right;

}

/// The linear layer computes `y = x . W` for row-major `[k, n]` weights:
/// with `i`, `j`, `kk` in `%rax`, `%rbp`, `%rdi`, the input in `%r14` and
/// the weights in `%r15`, each pass of the k-loop adds to the accumulator
/// `%xmm0` the product of `x[i * k + kk]` and `W[kk * n + j]`, and the
/// finished element (after the bias and the inline post-ops) is stored as
/// `y[i * n + j]` through `%r11`.
pub proof fn lemma_linear_accumulates_products(
    n_inputs: nat,
    b: u64,
    k: u64,
    n: u64,
    id: Seq<char>,
    src_loc: BufferLoc,
    dst_loc: BufferLoc,
    weight_offset: nat,
    bias_offset: Option<usize>,
    posts: Seq<PostOp>,
    sym_prefix: Seq<char>,
)
    requires
        k <= u32::MAX,
        n <= u32::MAX,
    ensures
        computes(
            linear_text(
                n_inputs,
                b,
                k,
                n,
                id,
                src_loc,
                dst_loc,
                weight_offset,
                bias_offset,
                posts,
                sym_prefix,
            ),
            Reg::Xmm0,
            linear_step(k, n),
        ),
        stores(
            linear_text(
                n_inputs,
                b,
                k,
                n,
                id,
                src_loc,
                dst_loc,
                weight_offset,
                bias_offset,
                posts,
                sym_prefix,
            ),
            seq![
                Store::Elem(
                    init(Reg::R11),
                    row_major(init(Reg::Rax), n as nat, init(Reg::Rbp)),
                    init(Reg::Xmm0),
                ),
            ],
        ),
{
    let text = linear_text(
        n_inputs,
        b,
        k,
        n,
        id,
        src_loc,
        dst_loc,
        weight_offset,
        bias_offset,
        posts,
        sym_prefix,
    );
    let output = arg_regs()[(n_inputs + 1) as int];
    lemma_linear_loop_pieces(b, k, n, bias_offset is Some, output, posts, id);
    let p = lemma_linear_body(k, n);
    lemma_linear_loops_in_text(
        n_inputs, b, k, n, id, src_loc, dst_loc, weight_offset, bias_offset, posts, sym_prefix, lines(p));
    assert(has_piece(text, lines(p)));
    let sp = lemma_linear_store(n);
    lemma_linear_loops_in_text(
        n_inputs, b, k, n, id, src_loc, dst_loc, weight_offset, bias_offset, posts, sym_prefix, lines(sp));
    assert(has_piece(text, lines(sp)));
}


spec fn linear_bias_text(output: Seq<char>) -> Seq<char> {
    "    movss   ("@ + output + ", %rbp, 4), %xmm5\n"@ + "    addss   %xmm5, %xmm0\n"@
}

proof fn lemma_linear_bias_add(out: Reg) -> (p: Seq<Ins>)
    ensures
        lines(p) == linear_bias_text(reg_name(out)),
        value(run(p), Reg::Xmm0) == fadd(init(Reg::Xmm0), load(init(out), init(Reg::Rbp))),
{
    let i1 = Ins::LoadSS(out, Reg::Rbp, Reg::Xmm5);
    let i2 = Ins::AddSS(Reg::Xmm5, Reg::Xmm0);
    let p1 = Seq::<Ins>::empty().push(i1);
    let p = p1.push(i2);
    lemma_push(Seq::<Ins>::empty(), i1);
    lemma_push(p1, i2);
    assert(Seq::<Ins>::empty().len() == 0);
    reveal_strlit("    movss   (");
    reveal_strlit("    addss   ");
    reveal_strlit(", ");
    reveal_strlit(", 4), ");
    reveal_strlit(", %rbp, 4), %xmm5\n");
    reveal_strlit("    addss   %xmm5, %xmm0\n");
    reveal_strlit("\n");
    reveal_strlit("%rbp");
    reveal_strlit("%xmm5");
    reveal_strlit("%xmm0");
    assert(line(i1) =~= "    movss   ("@ + reg_name(out) + ", %rbp, 4), %xmm5\n"@);
    assert(line(i2) =~= "    addss   %xmm5, %xmm0\n"@);
    assert(lines(p) =~= linear_bias_text(reg_name(out)));
    p
}

proof fn lemma_linear_bias_piece(b: u64, k: u64, n: u64, output: Seq<char>, posts: Seq<PostOp>, id: Seq<char>)
    ensures
        has_piece(linear_loops_text(b, k, n, true, output, posts, id), linear_bias_text(output)),
{
    broadcast use lemma_piece_left, lemma_piece_right;

    lemma_piece_self(linear_bias_text(output));
}

/// With a bias, the linear layer adds `bias[j]` to the accumulator after
/// the k-loop: element `%rbp` of the bias, whose pointer is in the argument
/// register after the inputs and the params, is added to `%xmm0`.
pub proof fn lemma_linear_adds_bias(
    n_inputs: nat,
    b: u64,
    k: u64,
    n: u64,
    id: Seq<char>,
    src_loc: BufferLoc,
    dst_loc: BufferLoc,
    weight_offset: nat,
    bias_offset: Option<usize>,
    posts: Seq<PostOp>,
    sym_prefix: Seq<char>,
)
    requires
        n_inputs + 2 <= 6,
        bias_offset is Some,
    ensures
        computes(
            linear_text(
                n_inputs,
                b,
                k,
                n,
                id,
                src_loc,
                dst_loc,
                weight_offset,
                bias_offset,
                posts,
                sym_prefix,
            ),
            Reg::Xmm0,
            fadd(init(Reg::Xmm0), load(init(arg_reg((n_inputs + 1) as int)), init(Reg::Rbp))),
        ),
{
    let out = arg_reg((n_inputs + 1) as int);
    lemma_arg_reg((n_inputs + 1) as int);
    let p = lemma_linear_bias_add(out);
    lemma_linear_bias_piece(b, k, n, arg_regs()[(n_inputs + 1) as int], posts, id);
    lemma_linear_loops_in_text(
        n_inputs,
        b,
        k,
        n,
        id,
        src_loc,
        dst_loc,
        weight_offset,
        bias_offset,
        posts,
        sym_prefix,
        lines(p),
    );
    assert(has_piece(
        linear_text(n_inputs, b, k, n, id, src_loc, dst_loc, weight_offset, bias_offset, posts, sym_prefix),
        lines(p),
    ));
}

} // verus!
