//! Linear layer: `[b, k] x [k, n]` matmul accumulated with `fmadd`,
//! optional bias add, and fused post-ops (an inline ReLU, or a row-wise
//! softmax tail after the loops).
//!
//! Register plan: src in `x11`, dst in `x12`, weights in `x13`, bias in
//! `x14`; bounds hoisted into `x10` (b), `x15` (n), `x16` (k); counters `x3`
//! (i), `x4` (j), `x5` (k), offsets in `x6`/`x7`. Counters that are argument
//! registers at the model's arity (`x3` from two inputs, `x4` from three,
//! `x5` from four) are spilled around the loops in `xzr`-padded pairs.

use vstd::prelude::*;
use crate::text::{push_str, push_decimal, decimal, op_id, op_id_string};
use crate::types::{BufferLoc, LowerError, Span};
use crate::uir::PostOp;
use crate::arm64::abi::{AbiContext, arg_regs, materialisable, materialise_text};
use crate::arm64::frame::{movz_movk_text, push_movz_movk};
use crate::arm64::ops::softmax::{softmax_rows_text, push_softmax_rows};

verus! {

pub open spec fn linear_header_text(b: u64, k: u64, n: u64, has_bias: bool, has_post: bool) -> Seq<char> {
    "    ; matmul: input ["@ + decimal(b as nat) + ","@ + decimal(k as nat) + "] x weights ["@
        + decimal(k as nat) + ","@ + decimal(n as nat) + "] -> output ["@ + decimal(b as nat) + ","@
        + decimal(n as nat) + "]"@ + (if has_bias { " + bias"@ } else { Seq::empty() })
        + (if has_post { " + fused"@ } else { Seq::empty() }) + "\n"@
}

/// `<dst> = params + offset floats`.
pub open spec fn params_ptr_text(params: Seq<char>, offset: nat, dst: Seq<char>) -> Seq<char> {
    if offset == 0 {
        "    mov     "@ + dst + ", "@ + params + "\n"@
    } else {
        movz_movk_text("x9"@, offset) + "    add     "@ + dst + ", "@ + params + ", x9, lsl #2\n"@
    }
}

/// Spill of the loop counters that are argument registers.
pub open spec fn counter_saves_text(n_inputs: nat) -> Seq<char> {
    (if n_inputs >= 3 {
        "    stp     x3, x4, [sp, #-16]!\n"@
    } else if n_inputs >= 2 {
        "    stp     x3, xzr, [sp, #-16]!\n"@
    } else {
        Seq::empty()
    }) + if n_inputs >= 4 { "    stp     x5, xzr, [sp, #-16]!\n"@ } else { Seq::empty() }
}

/// The matching reloads, in reverse order.
pub open spec fn counter_restores_text(n_inputs: nat) -> Seq<char> {
    (if n_inputs >= 4 { "    ldp     x5, xzr, [sp], #16\n"@ } else { Seq::empty() }) + if n_inputs >= 3 {
        "    ldp     x3, x4, [sp], #16\n"@
    } else if n_inputs >= 2 {
        "    ldp     x3, xzr, [sp], #16\n"@
    } else {
        Seq::empty()
    }
}

/// The in-loop text of the elementwise post-ops, in order.
pub open spec fn inline_post_ops_text(posts: Seq<PostOp>) -> Seq<char>
    decreases posts.len(),
{
    if posts.len() == 0 {
        Seq::empty()
    } else {
        inline_post_ops_text(posts.drop_last()) + match posts.last() {
            PostOp::Relu => "    fmax    s0, s0, s4\n"@,
            PostOp::SoftmaxRow => Seq::empty(),
        }
    }
}

/// The row-wise softmax over the `[b, n]` output in `x12`, in place.
pub open spec fn fused_softmax_tail_text(b: u64, n: u64, lid: Seq<char>, sym_prefix: Seq<char>) -> Seq<char> {
    "    ; fused softmax_row: output ["@ + decimal(b as nat) + ","@ + decimal(n as nat) + "] in-place\n"@
        + "    mov     x22, x12\n"@ + "    mov     x23, x12\n"@
        + softmax_rows_text("fsmx"@, b, n, lid, sym_prefix)
}

/// The after-loop text of the row-wise post-ops, in order.
pub open spec fn row_post_ops_text(posts: Seq<PostOp>, b: u64, n: u64, id: Seq<char>, sym_prefix: Seq<char>) -> Seq<char>
    decreases posts.len(),
{
    if posts.len() == 0 {
        Seq::empty()
    } else {
        row_post_ops_text(posts.drop_last(), b, n, id, sym_prefix) + match posts.last() {
            PostOp::Relu => Seq::empty(),
            PostOp::SoftmaxRow => fused_softmax_tail_text(b, n, id, sym_prefix),
        }
    }
}

/// The loops: `sum_k src[i*k + kk] * w[kk*n + j]` by `fmadd`, bias, inline
/// post-ops, store to `dst[i*n + j]`.
pub open spec fn linear_loops_text(has_bias: bool, posts: Seq<PostOp>, id: Seq<char>) -> Seq<char> {
    "    mov     x3, #0\n"@ + ".Lmm_i_"@ + id + ":\n"@ + "    cmp     x3, x10\n"@ + "    b.ge    .Lmm_i_end_"@ + id + "\n"@
        + "    mov     x4, #0\n"@ + ".Lmm_j_"@ + id + ":\n"@ + "    cmp     x4, x15\n"@ + "    b.ge    .Lmm_j_end_"@ + id
        + "\n"@ + "    fmov    s0, wzr\n"@ + "    mov     x5, #0\n"@ + ".Lmm_k_"@ + id + ":\n"@
        + "    cmp     x5, x16\n"@ + "    b.ge    .Lmm_k_end_"@ + id + "\n"@ + "    mov     x8, x16\n"@
        + "    mul     x6, x3, x8\n"@ + "    add     x6, x6, x5\n"@ + "    ldr     s1, [x11, x6, lsl #2]\n"@
        + "    mov     x8, x15\n"@ + "    mul     x7, x5, x8\n"@ + "    add     x7, x7, x4\n"@
        + "    ldr     s2, [x13, x7, lsl #2]\n"@ + "    fmadd   s0, s1, s2, s0\n"@ + "    add     x5, x5, #1\n"@
        + "    b       .Lmm_k_"@ + id + "\n"@ + ".Lmm_k_end_"@ + id + ":\n"@
        + (if has_bias { "    ldr     s5, [x14, x4, lsl #2]\n"@ + "    fadd    s0, s0, s5\n"@ } else { Seq::empty() })
        + inline_post_ops_text(posts)
        + "    mov     x8, x15\n"@ + "    mul     x6, x3, x8\n"@ + "    add     x6, x6, x4\n"@
        + "    str     s0, [x12, x6, lsl #2]\n"@ + "    add     x4, x4, #1\n"@ + "    b       .Lmm_j_"@ + id + "\n"@
        + ".Lmm_j_end_"@ + id + ":\n"@ + "    add     x3, x3, #1\n"@ + "    b       .Lmm_i_"@ + id + "\n"@
        + ".Lmm_i_end_"@ + id + ":\n"@
}

/// What `emit_linear` requires of its arguments.
pub open spec fn linear_args_ok(
    n_inputs: nat,
    b: u64,
    k: u64,
    n: u64,
    src_loc: BufferLoc,
    dst_loc: BufferLoc,
    weight_offset: nat,
    bias_offset: Option<usize>,
) -> bool {
    &&& n_inputs + 2 <= 6
    &&& materialisable(n_inputs, src_loc)
    &&& materialisable(n_inputs, dst_loc)
    &&& b <= u32::MAX && k <= u32::MAX && n <= u32::MAX
    &&& weight_offset <= u32::MAX
    &&& (bias_offset matches Some(off) ==> off <= u32::MAX)
}

/// The full linear op text.
pub open spec fn linear_text(
    n_inputs: nat,
    b: u64,
    k: u64,
    n: u64,
    id: Seq<char>,
    src_loc: BufferLoc,
    dst_loc: BufferLoc,
    weight_offset: nat,
    bias_offset: Option<usize>,
    posts: Seq<PostOp>,
    sym_prefix: Seq<char>,
) -> Seq<char> {
    let params = arg_regs()[n_inputs as int];
    linear_header_text(b, k, n, bias_offset is Some, posts.len() > 0)
        + (if posts.contains(PostOp::Relu) { "    fmov    s4, wzr\n"@ } else { Seq::empty() })
        + materialise_text(n_inputs, src_loc, "x11"@)
        + materialise_text(n_inputs, dst_loc, "x12"@)
        + params_ptr_text(params, weight_offset, "x13"@)
        + (match bias_offset {
            Some(off) => params_ptr_text(params, off as nat, "x14"@),
            None => Seq::empty(),
        })
        + movz_movk_text("x10"@, b as nat) + movz_movk_text("x15"@, n as nat) + movz_movk_text("x16"@, k as nat)
        + counter_saves_text(n_inputs)
        + linear_loops_text(bias_offset is Some, posts, id)
        + counter_restores_text(n_inputs)
        + row_post_ops_text(posts, b, n, id, sym_prefix)
}

fn params_ptr(params: &str, offset: usize, dst: &str) -> (s: String)
    requires
        offset <= u32::MAX,
    ensures
        s@ == params_ptr_text(params@, offset as nat, dst@),
{
    if offset == 0 {
        let mut s = "    mov     ".to_owned();
        push_str(&mut s, dst);
        push_str(&mut s, ", ");
        push_str(&mut s, params);
        push_str(&mut s, "\n");
        s
    } else {
        let mut s = String::new();
        push_movz_movk(&mut s, "x9", offset as u64);
        push_str(&mut s, "    add     ");
        push_str(&mut s, dst);
        push_str(&mut s, ", ");
        push_str(&mut s, params);
        push_str(&mut s, ", x9, lsl #2\n");
        s
    }
}

fn contains_post_op(posts: &Vec<PostOp>, p: PostOp) -> (r: bool)
    ensures
        r == posts@.contains(p),
{
    let mut i: usize = 0;
    while i < posts.len()
        invariant
            i <= posts@.len(),
            forall|j: int| 0 <= j < i ==> posts@[j] != p,
        decreases posts@.len() - i,
    {
        if posts[i] == p {
            assert(posts@[i as int] == p);
            return true;
        }
        i = i + 1;
    }
    false
}

fn inline_post_ops(posts: &Vec<PostOp>) -> (s: String)
    ensures
        s@ == inline_post_ops_text(posts@),
{
    let mut s = String::new();
    let mut i: usize = 0;
    while i < posts.len()
        invariant
            i <= posts@.len(),
            s@ == inline_post_ops_text(posts@.take(i as int)),
        decreases posts@.len() - i,
    {
        assert(posts@.take(i + 1).drop_last() =~= posts@.take(i as int));
        match posts[i] {
            PostOp::Relu => push_str(&mut s, "    fmax    s0, s0, s4\n"),
            PostOp::SoftmaxRow => {},
        }
        i = i + 1;
    }
    assert(posts@.take(posts@.len() as int) =~= posts@);
    s
}

/// The row-wise softmax tail, in place over the `[b, n]` output in `x12`.
fn emit_fused_softmax_tail(b: u64, n: u64, lid: &str, sym_prefix: &str) -> (s: String)
    requires
        b <= u32::MAX,
        n <= u32::MAX,
    ensures
        s@ == fused_softmax_tail_text(b, n, lid@, sym_prefix@),
{
    let mut s = "    ; fused softmax_row: output [".to_owned();
    push_decimal(&mut s, b);
    push_str(&mut s, ",");
    push_decimal(&mut s, n);
    push_str(&mut s, "] in-place\n");
    push_str(&mut s, "    mov     x22, x12\n");
    push_str(&mut s, "    mov     x23, x12\n");
    push_softmax_rows(&mut s, "fsmx", b, n, lid, sym_prefix);
    s
}

fn row_post_ops(posts: &Vec<PostOp>, b: u64, n: u64, lid: &str, sym_prefix: &str) -> (s: String)
    requires
        b <= u32::MAX,
        n <= u32::MAX,
    ensures
        s@ == row_post_ops_text(posts@, b, n, lid@, sym_prefix@),
{
    let mut s = String::new();
    let mut i: usize = 0;
    while i < posts.len()
        invariant
            i <= posts@.len(),
            b <= u32::MAX,
            n <= u32::MAX,
            s@ == row_post_ops_text(posts@.take(i as int), b, n, lid@, sym_prefix@),
        decreases posts@.len() - i,
    {
        assert(posts@.take(i + 1).drop_last() =~= posts@.take(i as int));
        match posts[i] {
            PostOp::Relu => {},
            PostOp::SoftmaxRow => {
                let tail = emit_fused_softmax_tail(b, n, lid, sym_prefix);
                push_str(&mut s, tail.as_str());
            },
        }
        i = i + 1;
    }
    assert(posts@.take(posts@.len() as int) =~= posts@);
    s
}

fn counter_saves(n_inputs: usize) -> (s: String)
    ensures
        s@ == counter_saves_text(n_inputs as nat),
{
    let mut s = if n_inputs >= 3 {
        "    stp     x3, x4, [sp, #-16]!\n".to_owned()
    } else if n_inputs >= 2 {
        "    stp     x3, xzr, [sp, #-16]!\n".to_owned()
    } else {
        String::new()
    };
    if n_inputs >= 4 {
        push_str(&mut s, "    stp     x5, xzr, [sp, #-16]!\n");
    }
    s
}

fn counter_restores(n_inputs: usize) -> (s: String)
    ensures
        s@ == counter_restores_text(n_inputs as nat),
{
    let mut s = if n_inputs >= 4 { "    ldp     x5, xzr, [sp], #16\n".to_owned() } else { String::new() };
    if n_inputs >= 3 {
        push_str(&mut s, "    ldp     x3, x4, [sp], #16\n");
    } else if n_inputs >= 2 {
        push_str(&mut s, "    ldp     x3, xzr, [sp], #16\n");
    }
    s
}

fn linear_loops(has_bias: bool, posts: &Vec<PostOp>, id: &str) -> (s: String)
    ensures
        s@ == linear_loops_text(has_bias, posts@, id@),
{
    let mut s = "    mov     x3, #0\n".to_owned();
    push_str(&mut s, ".Lmm_i_");
    push_str(&mut s, id);
    push_str(&mut s, ":\n");
    push_str(&mut s, "    cmp     x3, x10\n");
    push_str(&mut s, "    b.ge    .Lmm_i_end_");
    push_str(&mut s, id);
    push_str(&mut s, "\n");
    push_str(&mut s, "    mov     x4, #0\n");
    push_str(&mut s, ".Lmm_j_");
    push_str(&mut s, id);
    push_str(&mut s, ":\n");
    push_str(&mut s, "    cmp     x4, x15\n");
    push_str(&mut s, "    b.ge    .Lmm_j_end_");
    push_str(&mut s, id);
    push_str(&mut s, "\n");
    push_str(&mut s, "    fmov    s0, wzr\n");
    push_str(&mut s, "    mov     x5, #0\n");
    push_str(&mut s, ".Lmm_k_");
    push_str(&mut s, id);
    push_str(&mut s, ":\n");
    push_str(&mut s, "    cmp     x5, x16\n");
    push_str(&mut s, "    b.ge    .Lmm_k_end_");
    push_str(&mut s, id);
    push_str(&mut s, "\n");
    push_str(&mut s, "    mov     x8, x16\n");
    push_str(&mut s, "    mul     x6, x3, x8\n");
    push_str(&mut s, "    add     x6, x6, x5\n");
    push_str(&mut s, "    ldr     s1, [x11, x6, lsl #2]\n");
    push_str(&mut s, "    mov     x8, x15\n");
    push_str(&mut s, "    mul     x7, x5, x8\n");
    push_str(&mut s, "    add     x7, x7, x4\n");
    push_str(&mut s, "    ldr     s2, [x13, x7, lsl #2]\n");
    push_str(&mut s, "    fmadd   s0, s1, s2, s0\n");
    push_str(&mut s, "    add     x5, x5, #1\n");
    push_str(&mut s, "    b       .Lmm_k_");
    push_str(&mut s, id);
    push_str(&mut s, "\n");
    push_str(&mut s, ".Lmm_k_end_");
    push_str(&mut s, id);
    push_str(&mut s, ":\n");
    let bias = if has_bias {
        let mut t = "    ldr     s5, [x14, x4, lsl #2]\n".to_owned();
        push_str(&mut t, "    fadd    s0, s0, s5\n");
        t
    } else {
        String::new()
    };
    push_str(&mut s, bias.as_str());
    let inline = inline_post_ops(posts);
    push_str(&mut s, inline.as_str());
    push_str(&mut s, "    mov     x8, x15\n");
    push_str(&mut s, "    mul     x6, x3, x8\n");
    push_str(&mut s, "    add     x6, x6, x4\n");
    push_str(&mut s, "    str     s0, [x12, x6, lsl #2]\n");
    push_str(&mut s, "    add     x4, x4, #1\n");
    push_str(&mut s, "    b       .Lmm_j_");
    push_str(&mut s, id);
    push_str(&mut s, "\n");
    push_str(&mut s, ".Lmm_j_end_");
    push_str(&mut s, id);
    push_str(&mut s, ":\n");
    push_str(&mut s, "    add     x3, x3, #1\n");
    push_str(&mut s, "    b       .Lmm_i_");
    push_str(&mut s, id);
    push_str(&mut s, "\n");
    push_str(&mut s, ".Lmm_i_end_");
    push_str(&mut s, id);
    push_str(&mut s, ":\n");
    s
}

fn linear_header(b: u64, k: u64, n: u64, has_bias: bool, has_post: bool) -> (s: String)
    ensures
        s@ == linear_header_text(b, k, n, has_bias, has_post),
{
    let mut s = "    ; matmul: input [".to_owned();
    push_decimal(&mut s, b);
    push_str(&mut s, ",");
    push_decimal(&mut s, k);
    push_str(&mut s, "] x weights [");
    push_decimal(&mut s, k);
    push_str(&mut s, ",");
    push_decimal(&mut s, n);
    push_str(&mut s, "] -> output [");
    push_decimal(&mut s, b);
    push_str(&mut s, ",");
    push_decimal(&mut s, n);
    push_str(&mut s, "]");
    let bias_note = if has_bias { " + bias".to_owned() } else { String::new() };
    push_str(&mut s, bias_note.as_str());
    let fused_note = if has_post { " + fused".to_owned() } else { String::new() };
    push_str(&mut s, fused_note.as_str());
    push_str(&mut s, "\n");
    s
}

/// Emits a linear layer over `[b, k]` with `[k, n]` weights at
/// `weight_offset` floats into the params buffer, an optional bias at
/// `bias_offset`, and the fused post-ops. Never fails: both post-ops are
/// supported.
pub fn emit_linear(
    abi: &AbiContext,
    b: u64,
    k: u64,
    n: u64,
    model_idx: usize,
    linear_idx: usize,
    src_loc: BufferLoc,
    dst_loc: BufferLoc,
    weight_offset: usize,
    bias_offset: Option<usize>,
    node_span: Span,
    fused_post_ops: &Vec<PostOp>,
    sym_prefix: &str,
) -> (r: Result<String, LowerError>)
    requires
        linear_args_ok(abi.n_inputs as nat, b, k, n, src_loc, dst_loc, weight_offset as nat, bias_offset),
    ensures
        r matches Ok(s) && s@ == linear_text(
            abi.n_inputs as nat,
            b,
            k,
            n,
            op_id(model_idx as nat, linear_idx as nat),
            src_loc,
            dst_loc,
            weight_offset as nat,
            bias_offset,
            fused_post_ops@,
            sym_prefix@,
        ),
{
    let lid = op_id_string(model_idx, linear_idx);
    let id = lid.as_str();
    let params_reg = abi.params_reg();
    let mut s = linear_header(b, k, n, bias_offset.is_some(), fused_post_ops.len() > 0);
    let zero = if contains_post_op(fused_post_ops, PostOp::Relu) {
        "    fmov    s4, wzr\n".to_owned()
    } else {
        String::new()
    };
    push_str(&mut s, zero.as_str());
    abi.materialise_ptr(src_loc, "x11", &mut s);
    abi.materialise_ptr(dst_loc, "x12", &mut s);
    let weight = params_ptr(params_reg, weight_offset, "x13");
    push_str(&mut s, weight.as_str());
    let bias = match bias_offset {
        Some(off) => params_ptr(params_reg, off, "x14"),
        None => String::new(),
    };
    push_str(&mut s, bias.as_str());
    push_movz_movk(&mut s, "x10", b);
    push_movz_movk(&mut s, "x15", n);
    push_movz_movk(&mut s, "x16", k);
    let saves = counter_saves(abi.n_inputs);
    push_str(&mut s, saves.as_str());
    let loops = linear_loops(bias_offset.is_some(), fused_post_ops, id);
    push_str(&mut s, loops.as_str());
    let restores = counter_restores(abi.n_inputs);
    push_str(&mut s, restores.as_str());
    let tails = row_post_ops(fused_post_ops, b, n, id, sym_prefix);
    push_str(&mut s, tails.as_str());
    Ok(s)
}

} // verus!
