//! What the AArch64 loop bodies compute, stated over the symbolic machine
//! of `arm64::dataflow`: the element-wise add, the matmul and linear
//! kernels, the layernorm passes, the softmax row passes, ReLU, dropout's
//! copy and mul_scalar; and the bounds the loops run to.

use vstd::prelude::*;
use crate::text::{
    decimal, hex_padded, labeled, has_piece, lemma_piece_self, lemma_piece_left, lemma_piece_right,
    lemma_piece_within,
    lemma_ends_self, lemma_ends_grow, lemma_ends_piece,
};
use crate::types::BufferLoc;
use crate::uir::PostOp;
use crate::f32bits::recip_bits;
use crate::arm64::abi::{arg_regs, materialise_text};
use crate::arm64::frame::{movz_movk_text, lemma_movz_movk_loads};
use crate::arm64::ops::loops::{loop_head, loop_tail};
use crate::arm64::ops::add::add_text;
use crate::arm64::ops::relu::relu_text;
use crate::arm64::ops::dropout::dropout_copy_text;
use crate::arm64::ops::mulscalar::mulscalar_text;
use crate::arm64::ops::matmul::{b_offset_text, matmul_kernel_text, matmul_text, slice_ptr_text};
use crate::arm64::ops::layernorm::{ln_pass, pass3_body, layernorm_rows_text, layernorm_text};
use crate::arm64::ops::linear::{
    linear_loops_text, linear_text, inline_post_ops_text, row_post_ops_text, fused_softmax_tail_text,
};
use crate::arm64::ops::softmax::{
    sm_label, sm_jump, sm_pass, max_body, exp_body, norm_body, softmax_rows_text, softmax_text,
};
use crate::arm64::ops::exp::exp_inline_text;
use crate::arm64::dataflow::{
    Ins, Reg, Store, Term, reg_name, compares, lemma_compares_within, line, lines, run, value, computes, stores, computes_and_stores,
    lemma_push, init, load,
    iadd, imul, fadd, fsub, fmul, fdiv, fsqrt, fmax, row_major,
};

verus! {

spec fn add_body_text() -> Seq<char> {
    "    ldr     s0, [x9, x12, lsl #2]\n"@
        + "    ldr     s1, [x10, x12, lsl #2]\n"@
        + "    fadd    s2, s0, s1\n"@
        + "    str     s2, [x11, x12, lsl #2]\n"@
}

proof fn lemma_add_body() -> (p: Seq<Ins>)
    ensures
        lines(p) == add_body_text(),
        run(p).stores == seq![
            Store::Elem(
                init(Reg::X11),
                init(Reg::X12),
                fadd(load(init(Reg::X9), init(Reg::X12)), load(init(Reg::X10), init(Reg::X12))),
            ),
        ],
{
    assert(Seq::<Ins>::empty().len() == 0);
    reveal_strlit("\n");
    reveal_strlit("    fadd    ");
    reveal_strlit("    fadd    s2, s0, s1\n");
    reveal_strlit("    ldr     ");
    reveal_strlit("    ldr     s0, [x9, x12, lsl #2]\n");
    reveal_strlit("    ldr     s1, [x10, x12, lsl #2]\n");
    reveal_strlit("    str     ");
    reveal_strlit("    str     s2, [x11, x12, lsl #2]\n");
    reveal_strlit(", ");
    reveal_strlit(", [");
    reveal_strlit(", lsl #2]\n");
    reveal_strlit("s0");
    reveal_strlit("s1");
    reveal_strlit("s2");
    reveal_strlit("x10");
    reveal_strlit("x11");
    reveal_strlit("x12");
    reveal_strlit("x9");
    let a1 = Seq::<Ins>::empty().push(Ins::Ldr(Reg::S0, Reg::X9, Reg::X12));
    lemma_push(Seq::<Ins>::empty(), Ins::Ldr(Reg::S0, Reg::X9, Reg::X12));
    assert(line(Ins::Ldr(Reg::S0, Reg::X9, Reg::X12)) =~= "    ldr     s0, [x9, x12, lsl #2]\n"@);
    let a2 = a1.push(Ins::Ldr(Reg::S1, Reg::X10, Reg::X12));
    lemma_push(a1, Ins::Ldr(Reg::S1, Reg::X10, Reg::X12));
    assert(line(Ins::Ldr(Reg::S1, Reg::X10, Reg::X12)) =~= "    ldr     s1, [x10, x12, lsl #2]\n"@);
    let a3 = a2.push(Ins::Fadd(Reg::S2, Reg::S0, Reg::S1));
    lemma_push(a2, Ins::Fadd(Reg::S2, Reg::S0, Reg::S1));
    assert(line(Ins::Fadd(Reg::S2, Reg::S0, Reg::S1)) =~= "    fadd    s2, s0, s1\n"@);
    let a4 = a3.push(Ins::Str(Reg::S2, Reg::X11, Reg::X12));
    lemma_push(a3, Ins::Str(Reg::S2, Reg::X11, Reg::X12));
    assert(line(Ins::Str(Reg::S2, Reg::X11, Reg::X12)) =~= "    str     s2, [x11, x12, lsl #2]\n"@);
    assert(
        lines(a4) =~= "    ldr     s0, [x9, x12, lsl #2]\n"@
        + "    ldr     s1, [x10, x12, lsl #2]\n"@
        + "    fadd    s2, s0, s1\n"@
        + "    str     s2, [x11, x12, lsl #2]\n"@
    );
    assert(run(a4).stores =~= seq![
        Store::Elem(
            init(Reg::X11),
            init(Reg::X12),
            fadd(load(init(Reg::X9), init(Reg::X12)), load(init(Reg::X10), init(Reg::X12))),
        ),
    ]);
    a4
}

/// Each pass of the add loop stores, at element `x12` of the destination
/// (`x11`), the sum of element `x12` of `a` (`x9`) and of `other` (`x10`):
/// `dst[i] = a[i] + other[i]`, and stores nothing else.
pub proof fn lemma_add_stores_the_sum(
    n_inputs: nat,
    total_elements: u64,
    model_idx: nat,
    op_idx: nat,
    a_loc: BufferLoc,
    other_loc: BufferLoc,
    dst_loc: BufferLoc,
)
    ensures
        stores(
            add_text(n_inputs, total_elements, model_idx, op_idx, a_loc, other_loc, dst_loc),
            seq![
                Store::Elem(
                    init(Reg::X11),
                    init(Reg::X12),
                    fadd(load(init(Reg::X9), init(Reg::X12)), load(init(Reg::X10), init(Reg::X12))),
                ),
            ],
        ),
{
    broadcast use lemma_piece_left;

    let p = lemma_add_body();
    let x_head = "    ; add: total_elements="@
        + decimal(total_elements as nat)
        + "\n"@
        + materialise_text(n_inputs, a_loc, "x9"@)
        + materialise_text(n_inputs, other_loc, "x10"@)
        + materialise_text(n_inputs, dst_loc, "x11"@)
        + "    mov     x12, #0\n"@
        + movz_movk_text("x13"@, total_elements as nat)
        + labeled(".Ladd_"@, model_idx, op_idx, ":\n"@)
        + "    cmp     x12, x13\n"@
        + labeled("    b.ge    .Ladd_end_"@, model_idx, op_idx, "\n"@);
    lemma_ends_self(x_head, "    ldr     s0, [x9, x12, lsl #2]\n"@);
    let mut x = x_head + "    ldr     s0, [x9, x12, lsl #2]\n"@;
    let mut x_end = "    ldr     s0, [x9, x12, lsl #2]\n"@;
    lemma_ends_grow(x, x_end, "    ldr     s1, [x10, x12, lsl #2]\n"@);
    x = x + "    ldr     s1, [x10, x12, lsl #2]\n"@;
    x_end = x_end + "    ldr     s1, [x10, x12, lsl #2]\n"@;
    lemma_ends_grow(x, x_end, "    fadd    s2, s0, s1\n"@);
    x = x + "    fadd    s2, s0, s1\n"@;
    x_end = x_end + "    fadd    s2, s0, s1\n"@;
    lemma_ends_grow(x, x_end, "    str     s2, [x11, x12, lsl #2]\n"@);
    x = x + "    str     s2, [x11, x12, lsl #2]\n"@;
    x_end = x_end + "    str     s2, [x11, x12, lsl #2]\n"@;
    lemma_ends_piece(x, x_end);
    assert(has_piece(
        add_text(n_inputs, total_elements, model_idx, op_idx, a_loc, other_loc, dst_loc),
        lines(p),
    ));
}

/// The B operand's index in the matmul kernel: `kk * N + j`, or
/// `j * K + kk` when B is stored transposed (`[N, K]`).
pub open spec fn matmul_b_index(k: u64, n: u64, transpose_b: bool) -> Term {
    if transpose_b {
        row_major(init(Reg::X17), k as nat, init(Reg::X7))
    } else {
        row_major(init(Reg::X7), n as nat, init(Reg::X17))
    }
}

/// One pass of the matmul k-loop: `acc += A[i*K + kk] * B[..]`.
pub open spec fn matmul_step(k: u64, n: u64, transpose_b: bool) -> Term {
    fadd(
        init(Reg::S0),
        fmul(
            load(init(Reg::X12), row_major(init(Reg::X16), k as nat, init(Reg::X7))),
            load(init(Reg::X13), matmul_b_index(k, n, transpose_b)),
        ),
    )
}

spec fn matmul_body_text(k: u64, n: u64, transpose_b: bool) -> Seq<char> {
    movz_movk_text("x8"@, k as nat)
        + "    mul     x6, x16, x8\n"@
        + "    add     x6, x6, x7\n"@
        + "    ldr     s1, [x12, x6, lsl #2]\n"@
        + b_offset_text(k, n, transpose_b)
        + "    ldr     s2, [x13, x6, lsl #2]\n"@
        + "    fmadd   s0, s1, s2, s0\n"@
}

spec fn matmul_store_text(n: u64) -> Seq<char> {
    movz_movk_text("x8"@, n as nat)
        + "    mul     x6, x16, x8\n"@
        + "    add     x6, x6, x17\n"@
        + "    str     s0, [x14, x6, lsl #2]\n"@
}

proof fn lemma_matmul_body_plain(k: u64, n: u64) -> (p: Seq<Ins>)
    requires
        k <= u32::MAX,
        n <= u32::MAX,
    ensures
        lines(p) == matmul_body_text(k, n, false),
        value(run(p), Reg::S0) == matmul_step(k, n, false),
{
    lemma_movz_movk_loads(k as nat);
    lemma_movz_movk_loads(n as nat);
    assert(Seq::<Ins>::empty().len() == 0);
    reveal_strlit("\n");
    reveal_strlit("    add     ");
    reveal_strlit("    add     x6, x6, x17\n");
    reveal_strlit("    add     x6, x6, x7\n");
    reveal_strlit("    fmadd   ");
    reveal_strlit("    fmadd   s0, s1, s2, s0\n");
    reveal_strlit("    ldr     ");
    reveal_strlit("    ldr     s1, [x12, x6, lsl #2]\n");
    reveal_strlit("    ldr     s2, [x13, x6, lsl #2]\n");
    reveal_strlit("    mul     ");
    reveal_strlit("    mul     x6, x16, x8\n");
    reveal_strlit("    mul     x6, x7, x8\n");
    reveal_strlit(", ");
    reveal_strlit(", [");
    reveal_strlit(", lsl #2]\n");
    reveal_strlit("s0");
    reveal_strlit("s1");
    reveal_strlit("s2");
    reveal_strlit("x12");
    reveal_strlit("x13");
    reveal_strlit("x16");
    reveal_strlit("x17");
    reveal_strlit("x6");
    reveal_strlit("x7");
    reveal_strlit("x8");
    let q1 = Seq::<Ins>::empty().push(Ins::MovzMovk(Reg::X8, k as nat));
    lemma_push(Seq::<Ins>::empty(), Ins::MovzMovk(Reg::X8, k as nat));
    let q2 = q1.push(Ins::Mul(Reg::X6, Reg::X16, Reg::X8));
    lemma_push(q1, Ins::Mul(Reg::X6, Reg::X16, Reg::X8));
    assert(line(Ins::Mul(Reg::X6, Reg::X16, Reg::X8)) =~= "    mul     x6, x16, x8\n"@);
    let q3 = q2.push(Ins::Add(Reg::X6, Reg::X6, Reg::X7));
    lemma_push(q2, Ins::Add(Reg::X6, Reg::X6, Reg::X7));
    assert(line(Ins::Add(Reg::X6, Reg::X6, Reg::X7)) =~= "    add     x6, x6, x7\n"@);
    let q4 = q3.push(Ins::Ldr(Reg::S1, Reg::X12, Reg::X6));
    lemma_push(q3, Ins::Ldr(Reg::S1, Reg::X12, Reg::X6));
    assert(line(Ins::Ldr(Reg::S1, Reg::X12, Reg::X6)) =~= "    ldr     s1, [x12, x6, lsl #2]\n"@);
    let q5 = q4.push(Ins::MovzMovk(Reg::X8, n as nat));
    lemma_push(q4, Ins::MovzMovk(Reg::X8, n as nat));
    let q6 = q5.push(Ins::Mul(Reg::X6, Reg::X7, Reg::X8));
    lemma_push(q5, Ins::Mul(Reg::X6, Reg::X7, Reg::X8));
    assert(line(Ins::Mul(Reg::X6, Reg::X7, Reg::X8)) =~= "    mul     x6, x7, x8\n"@);
    let q7 = q6.push(Ins::Add(Reg::X6, Reg::X6, Reg::X17));
    lemma_push(q6, Ins::Add(Reg::X6, Reg::X6, Reg::X17));
    assert(line(Ins::Add(Reg::X6, Reg::X6, Reg::X17)) =~= "    add     x6, x6, x17\n"@);
    let q8 = q7.push(Ins::Ldr(Reg::S2, Reg::X13, Reg::X6));
    lemma_push(q7, Ins::Ldr(Reg::S2, Reg::X13, Reg::X6));
    assert(line(Ins::Ldr(Reg::S2, Reg::X13, Reg::X6)) =~= "    ldr     s2, [x13, x6, lsl #2]\n"@);
    let q9 = q8.push(Ins::Fmadd(Reg::S0, Reg::S1, Reg::S2, Reg::S0));
    lemma_push(q8, Ins::Fmadd(Reg::S0, Reg::S1, Reg::S2, Reg::S0));
    assert(line(Ins::Fmadd(Reg::S0, Reg::S1, Reg::S2, Reg::S0)) =~= "    fmadd   s0, s1, s2, s0\n"@);
    assert(
        lines(q9) =~= movz_movk_text("x8"@, k as nat)
        + "    mul     x6, x16, x8\n"@
        + "    add     x6, x6, x7\n"@
        + "    ldr     s1, [x12, x6, lsl #2]\n"@
        + movz_movk_text("x8"@, n as nat)
        + "    mul     x6, x7, x8\n"@
        + "    add     x6, x6, x17\n"@
        + "    ldr     s2, [x13, x6, lsl #2]\n"@
        + "    fmadd   s0, s1, s2, s0\n"@
    );
    q9
}

proof fn lemma_matmul_body_transposed(k: u64, n: u64) -> (p: Seq<Ins>)
    requires
        k <= u32::MAX,
    ensures
        lines(p) == matmul_body_text(k, n, true),
        value(run(p), Reg::S0) == matmul_step(k, n, true),
{
    lemma_movz_movk_loads(k as nat);
    assert(Seq::<Ins>::empty().len() == 0);
    reveal_strlit("\n");
    reveal_strlit("    add     ");
    reveal_strlit("    add     x6, x6, x7\n");
    reveal_strlit("    fmadd   ");
    reveal_strlit("    fmadd   s0, s1, s2, s0\n");
    reveal_strlit("    ldr     ");
    reveal_strlit("    ldr     s1, [x12, x6, lsl #2]\n");
    reveal_strlit("    ldr     s2, [x13, x6, lsl #2]\n");
    reveal_strlit("    mul     ");
    reveal_strlit("    mul     x6, x16, x8\n");
    reveal_strlit("    mul     x6, x17, x8\n");
    reveal_strlit(", ");
    reveal_strlit(", [");
    reveal_strlit(", lsl #2]\n");
    reveal_strlit("s0");
    reveal_strlit("s1");
    reveal_strlit("s2");
    reveal_strlit("x12");
    reveal_strlit("x13");
    reveal_strlit("x16");
    reveal_strlit("x17");
    reveal_strlit("x6");
    reveal_strlit("x7");
    reveal_strlit("x8");
    let t1 = Seq::<Ins>::empty().push(Ins::MovzMovk(Reg::X8, k as nat));
    lemma_push(Seq::<Ins>::empty(), Ins::MovzMovk(Reg::X8, k as nat));
    let t2 = t1.push(Ins::Mul(Reg::X6, Reg::X16, Reg::X8));
    lemma_push(t1, Ins::Mul(Reg::X6, Reg::X16, Reg::X8));
    assert(line(Ins::Mul(Reg::X6, Reg::X16, Reg::X8)) =~= "    mul     x6, x16, x8\n"@);
    let t3 = t2.push(Ins::Add(Reg::X6, Reg::X6, Reg::X7));
    lemma_push(t2, Ins::Add(Reg::X6, Reg::X6, Reg::X7));
    assert(line(Ins::Add(Reg::X6, Reg::X6, Reg::X7)) =~= "    add     x6, x6, x7\n"@);
    let t4 = t3.push(Ins::Ldr(Reg::S1, Reg::X12, Reg::X6));
    lemma_push(t3, Ins::Ldr(Reg::S1, Reg::X12, Reg::X6));
    assert(line(Ins::Ldr(Reg::S1, Reg::X12, Reg::X6)) =~= "    ldr     s1, [x12, x6, lsl #2]\n"@);
    let t5 = t4.push(Ins::MovzMovk(Reg::X8, k as nat));
    lemma_push(t4, Ins::MovzMovk(Reg::X8, k as nat));
    let t6 = t5.push(Ins::Mul(Reg::X6, Reg::X17, Reg::X8));
    lemma_push(t5, Ins::Mul(Reg::X6, Reg::X17, Reg::X8));
    assert(line(Ins::Mul(Reg::X6, Reg::X17, Reg::X8)) =~= "    mul     x6, x17, x8\n"@);
    let t7 = t6.push(Ins::Add(Reg::X6, Reg::X6, Reg::X7));
    lemma_push(t6, Ins::Add(Reg::X6, Reg::X6, Reg::X7));
    assert(line(Ins::Add(Reg::X6, Reg::X6, Reg::X7)) =~= "    add     x6, x6, x7\n"@);
    let t8 = t7.push(Ins::Ldr(Reg::S2, Reg::X13, Reg::X6));
    lemma_push(t7, Ins::Ldr(Reg::S2, Reg::X13, Reg::X6));
    assert(line(Ins::Ldr(Reg::S2, Reg::X13, Reg::X6)) =~= "    ldr     s2, [x13, x6, lsl #2]\n"@);
    let t9 = t8.push(Ins::Fmadd(Reg::S0, Reg::S1, Reg::S2, Reg::S0));
    lemma_push(t8, Ins::Fmadd(Reg::S0, Reg::S1, Reg::S2, Reg::S0));
    assert(line(Ins::Fmadd(Reg::S0, Reg::S1, Reg::S2, Reg::S0)) =~= "    fmadd   s0, s1, s2, s0\n"@);
    assert(
        lines(t9) =~= movz_movk_text("x8"@, k as nat)
        + "    mul     x6, x16, x8\n"@
        + "    add     x6, x6, x7\n"@
        + "    ldr     s1, [x12, x6, lsl #2]\n"@
        + movz_movk_text("x8"@, k as nat)
        + "    mul     x6, x17, x8\n"@
        + "    add     x6, x6, x7\n"@
        + "    ldr     s2, [x13, x6, lsl #2]\n"@
        + "    fmadd   s0, s1, s2, s0\n"@
    );
    t9
}

proof fn lemma_matmul_store(n: u64) -> (p: Seq<Ins>)
    requires
        n <= u32::MAX,
    ensures
        lines(p) == matmul_store_text(n),
        run(p).stores == seq![
            Store::Elem(init(Reg::X14), row_major(init(Reg::X16), n as nat, init(Reg::X17)), init(Reg::S0)),
        ],
{
    lemma_movz_movk_loads(n as nat);
    assert(Seq::<Ins>::empty().len() == 0);
    reveal_strlit("\n");
    reveal_strlit("    add     ");
    reveal_strlit("    add     x6, x6, x17\n");
    reveal_strlit("    mul     ");
    reveal_strlit("    mul     x6, x16, x8\n");
    reveal_strlit("    str     ");
    reveal_strlit("    str     s0, [x14, x6, lsl #2]\n");
    reveal_strlit(", ");
    reveal_strlit(", [");
    reveal_strlit(", lsl #2]\n");
    reveal_strlit("s0");
    reveal_strlit("x14");
    reveal_strlit("x16");
    reveal_strlit("x17");
    reveal_strlit("x6");
    reveal_strlit("x8");
    let s1 = Seq::<Ins>::empty().push(Ins::MovzMovk(Reg::X8, n as nat));
    lemma_push(Seq::<Ins>::empty(), Ins::MovzMovk(Reg::X8, n as nat));
    let s2 = s1.push(Ins::Mul(Reg::X6, Reg::X16, Reg::X8));
    lemma_push(s1, Ins::Mul(Reg::X6, Reg::X16, Reg::X8));
    assert(line(Ins::Mul(Reg::X6, Reg::X16, Reg::X8)) =~= "    mul     x6, x16, x8\n"@);
    let s3 = s2.push(Ins::Add(Reg::X6, Reg::X6, Reg::X17));
    lemma_push(s2, Ins::Add(Reg::X6, Reg::X6, Reg::X17));
    assert(line(Ins::Add(Reg::X6, Reg::X6, Reg::X17)) =~= "    add     x6, x6, x17\n"@);
    let s4 = s3.push(Ins::Str(Reg::S0, Reg::X14, Reg::X6));
    lemma_push(s3, Ins::Str(Reg::S0, Reg::X14, Reg::X6));
    assert(line(Ins::Str(Reg::S0, Reg::X14, Reg::X6)) =~= "    str     s0, [x14, x6, lsl #2]\n"@);
    assert(
        lines(s4) =~= movz_movk_text("x8"@, n as nat)
        + "    mul     x6, x16, x8\n"@
        + "    add     x6, x6, x17\n"@
        + "    str     s0, [x14, x6, lsl #2]\n"@
    );
    assert(run(s4).stores =~= seq![
        Store::Elem(init(Reg::X14), row_major(init(Reg::X16), n as nat, init(Reg::X17)), init(Reg::S0)),
    ]);
    s4
}

proof fn lemma_matmul_kernel_pieces(m: u64, k: u64, n: u64, transpose_b: bool, id: Seq<char>)
    ensures
        has_piece(matmul_kernel_text(m, k, n, transpose_b, id), matmul_body_text(k, n, transpose_b)),
        has_piece(matmul_kernel_text(m, k, n, transpose_b, id), matmul_store_text(n)),
{
    broadcast use lemma_piece_left;

    let x_head = "    mov     x16, #0\n"@
        + loop_head(".Lmm4d_i_"@, "    b.ge    .Lmm4d_i_end_"@, "x16"@, "x8"@, m as nat, id)
        + "    mov     x17, #0\n"@
        + loop_head(".Lmm4d_j_"@, "    b.ge    .Lmm4d_j_end_"@, "x17"@, "x8"@, n as nat, id)
        + "    fmov    s0, wzr\n"@
        + "    mov     x7, #0\n"@
        + loop_head(".Lmm4d_k_"@, "    b.ge    .Lmm4d_k_end_"@, "x7"@, "x8"@, k as nat, id);
    lemma_ends_self(x_head, movz_movk_text("x8"@, k as nat));
    let mut x = x_head + movz_movk_text("x8"@, k as nat);
    let mut x_end = movz_movk_text("x8"@, k as nat);
    lemma_ends_grow(x, x_end, "    mul     x6, x16, x8\n"@);
    x = x + "    mul     x6, x16, x8\n"@;
    x_end = x_end + "    mul     x6, x16, x8\n"@;
    lemma_ends_grow(x, x_end, "    add     x6, x6, x7\n"@);
    x = x + "    add     x6, x6, x7\n"@;
    x_end = x_end + "    add     x6, x6, x7\n"@;
    lemma_ends_grow(x, x_end, "    ldr     s1, [x12, x6, lsl #2]\n"@);
    x = x + "    ldr     s1, [x12, x6, lsl #2]\n"@;
    x_end = x_end + "    ldr     s1, [x12, x6, lsl #2]\n"@;
    lemma_ends_grow(x, x_end, b_offset_text(k, n, transpose_b));
    x = x + b_offset_text(k, n, transpose_b);
    x_end = x_end + b_offset_text(k, n, transpose_b);
    lemma_ends_grow(x, x_end, "    ldr     s2, [x13, x6, lsl #2]\n"@);
    x = x + "    ldr     s2, [x13, x6, lsl #2]\n"@;
    x_end = x_end + "    ldr     s2, [x13, x6, lsl #2]\n"@;
    lemma_ends_grow(x, x_end, "    fmadd   s0, s1, s2, s0\n"@);
    x = x + "    fmadd   s0, s1, s2, s0\n"@;
    x_end = x_end + "    fmadd   s0, s1, s2, s0\n"@;
    lemma_ends_piece(x, x_end);
    let y_head = x
        + loop_tail("    add     x7, x7, #1\n"@, "    b       .Lmm4d_k_"@, ".Lmm4d_k_end_"@, id);
    lemma_ends_self(y_head, movz_movk_text("x8"@, n as nat));
    let mut y = y_head + movz_movk_text("x8"@, n as nat);
    let mut y_end = movz_movk_text("x8"@, n as nat);
    lemma_ends_grow(y, y_end, "    mul     x6, x16, x8\n"@);
    y = y + "    mul     x6, x16, x8\n"@;
    y_end = y_end + "    mul     x6, x16, x8\n"@;
    lemma_ends_grow(y, y_end, "    add     x6, x6, x17\n"@);
    y = y + "    add     x6, x6, x17\n"@;
    y_end = y_end + "    add     x6, x6, x17\n"@;
    lemma_ends_grow(y, y_end, "    str     s0, [x14, x6, lsl #2]\n"@);
    y = y + "    str     s0, [x14, x6, lsl #2]\n"@;
    y_end = y_end + "    str     s0, [x14, x6, lsl #2]\n"@;
    lemma_ends_piece(y, y_end);
}

proof fn lemma_matmul_kernel_in_text(
    n_inputs: nat,
    leading_count: u64,
    m: u64,
    k: u64,
    n: u64,
    transpose_b: bool,
    id: Seq<char>,
    a_loc: BufferLoc,
    b_loc: BufferLoc,
    dst_loc: BufferLoc,
    t: Seq<char>,
)
    requires
        has_piece(matmul_kernel_text(m, k, n, transpose_b, id), t),
    ensures
        has_piece(matmul_text(n_inputs, leading_count, m, k, n, transpose_b, id, a_loc, b_loc, dst_loc), t),
{
    broadcast use lemma_piece_left, lemma_piece_right;

}

/// The matmul kernel computes `C[i][j] = sum_kk A[i][kk] * B[kk][j]`: with
/// `i`, `j`, `kk` in `x16`, `x17`, `x7` and the slices of A, B, C in `x12`,
/// `x13`, `x14`, each pass of the k-loop adds to the accumulator `s0` the
/// product of A's element `i * K + kk` and B's element `kk * N + j`
/// (`j * K + kk` when B is transposed), and after the k-loop the
/// accumulator is stored as C's element `i * N + j`.
pub proof fn lemma_matmul_accumulates_products(
    n_inputs: nat,
    leading_count: u64,
    m: u64,
    k: u64,
    n: u64,
    transpose_b: bool,
    id: Seq<char>,
    a_loc: BufferLoc,
    b_loc: BufferLoc,
    dst_loc: BufferLoc,
)
    requires
        k <= u32::MAX,
        n <= u32::MAX,
    ensures
        computes(
            matmul_text(n_inputs, leading_count, m, k, n, transpose_b, id, a_loc, b_loc, dst_loc),
            Reg::S0,
            matmul_step(k, n, transpose_b),
        ),
        stores(
            matmul_text(n_inputs, leading_count, m, k, n, transpose_b, id, a_loc, b_loc, dst_loc),
            seq![
                Store::Elem(
                    init(Reg::X14),
                    row_major(init(Reg::X16), n as nat, init(Reg::X17)),
                    init(Reg::S0),
                ),
            ],
        ),
{
    let text = matmul_text(n_inputs, leading_count, m, k, n, transpose_b, id, a_loc, b_loc, dst_loc);
    lemma_matmul_kernel_pieces(m, k, n, transpose_b, id);
    let p = if transpose_b { lemma_matmul_body_transposed(k, n) } else { lemma_matmul_body_plain(k, n) };
    lemma_matmul_kernel_in_text(
        n_inputs,
        leading_count,
        m,
        k,
        n,
        transpose_b,
        id,
        a_loc,
        b_loc,
        dst_loc,
        lines(p),
    );
    assert(has_piece(text, lines(p)));
    let sp = lemma_matmul_store(n);
    lemma_matmul_kernel_in_text(
        n_inputs,
        leading_count,
        m,
        k,
        n,
        transpose_b,
        id,
        a_loc,
        b_loc,
        dst_loc,
        lines(sp),
    );
    assert(has_piece(text, lines(sp)));
}


/// One pass of the linear k-loop: `acc += x[i * k + kk] * W[kk * n + j]`,
/// with the strides `k` and `n` held in `x16` and `x15`.
pub open spec fn linear_step() -> Term {
    fadd(
        init(Reg::S0),
        fmul(
            load(init(Reg::X11), iadd(imul(init(Reg::X3), init(Reg::X16)), init(Reg::X5))),
            load(init(Reg::X13), iadd(imul(init(Reg::X5), init(Reg::X15)), init(Reg::X4))),
        ),
    )
}

spec fn linear_body_text() -> Seq<char> {
    "    mov     x8, x16\n"@
        + "    mul     x6, x3, x8\n"@
        + "    add     x6, x6, x5\n"@
        + "    ldr     s1, [x11, x6, lsl #2]\n"@
        + "    mov     x8, x15\n"@
        + "    mul     x7, x5, x8\n"@
        + "    add     x7, x7, x4\n"@
        + "    ldr     s2, [x13, x7, lsl #2]\n"@
        + "    fmadd   s0, s1, s2, s0\n"@
}

spec fn linear_store_text() -> Seq<char> {
    "    mov     x8, x15\n"@
        + "    mul     x6, x3, x8\n"@
        + "    add     x6, x6, x4\n"@
        + "    str     s0, [x12, x6, lsl #2]\n"@
}

proof fn lemma_linear_body() -> (p: Seq<Ins>)
    ensures
        lines(p) == linear_body_text(),
        value(run(p), Reg::S0) == linear_step(),
{
    assert(Seq::<Ins>::empty().len() == 0);
    reveal_strlit("\n");
    reveal_strlit("    add     ");
    reveal_strlit("    add     x6, x6, x5\n");
    reveal_strlit("    add     x7, x7, x4\n");
    reveal_strlit("    fmadd   ");
    reveal_strlit("    fmadd   s0, s1, s2, s0\n");
    reveal_strlit("    ldr     ");
    reveal_strlit("    ldr     s1, [x11, x6, lsl #2]\n");
    reveal_strlit("    ldr     s2, [x13, x7, lsl #2]\n");
    reveal_strlit("    mov     ");
    reveal_strlit("    mov     x8, x15\n");
    reveal_strlit("    mov     x8, x16\n");
    reveal_strlit("    mul     ");
    reveal_strlit("    mul     x6, x3, x8\n");
    reveal_strlit("    mul     x7, x5, x8\n");
    reveal_strlit(", ");
    reveal_strlit(", [");
    reveal_strlit(", lsl #2]\n");
    reveal_strlit("s0");
    reveal_strlit("s1");
    reveal_strlit("s2");
    reveal_strlit("x11");
    reveal_strlit("x13");
    reveal_strlit("x15");
    reveal_strlit("x16");
    reveal_strlit("x3");
    reveal_strlit("x4");
    reveal_strlit("x5");
    reveal_strlit("x6");
    reveal_strlit("x7");
    reveal_strlit("x8");
    let q1 = Seq::<Ins>::empty().push(Ins::Mov(Reg::X8, Reg::X16));
    lemma_push(Seq::<Ins>::empty(), Ins::Mov(Reg::X8, Reg::X16));
    assert(line(Ins::Mov(Reg::X8, Reg::X16)) =~= "    mov     x8, x16\n"@);
    let q2 = q1.push(Ins::Mul(Reg::X6, Reg::X3, Reg::X8));
    lemma_push(q1, Ins::Mul(Reg::X6, Reg::X3, Reg::X8));
    assert(line(Ins::Mul(Reg::X6, Reg::X3, Reg::X8)) =~= "    mul     x6, x3, x8\n"@);
    let q3 = q2.push(Ins::Add(Reg::X6, Reg::X6, Reg::X5));
    lemma_push(q2, Ins::Add(Reg::X6, Reg::X6, Reg::X5));
    assert(line(Ins::Add(Reg::X6, Reg::X6, Reg::X5)) =~= "    add     x6, x6, x5\n"@);
    let q4 = q3.push(Ins::Ldr(Reg::S1, Reg::X11, Reg::X6));
    lemma_push(q3, Ins::Ldr(Reg::S1, Reg::X11, Reg::X6));
    assert(line(Ins::Ldr(Reg::S1, Reg::X11, Reg::X6)) =~= "    ldr     s1, [x11, x6, lsl #2]\n"@);
    let q5 = q4.push(Ins::Mov(Reg::X8, Reg::X15));
    lemma_push(q4, Ins::Mov(Reg::X8, Reg::X15));
    assert(line(Ins::Mov(Reg::X8, Reg::X15)) =~= "    mov     x8, x15\n"@);
    let q6 = q5.push(Ins::Mul(Reg::X7, Reg::X5, Reg::X8));
    lemma_push(q5, Ins::Mul(Reg::X7, Reg::X5, Reg::X8));
    assert(line(Ins::Mul(Reg::X7, Reg::X5, Reg::X8)) =~= "    mul     x7, x5, x8\n"@);
    let q7 = q6.push(Ins::Add(Reg::X7, Reg::X7, Reg::X4));
    lemma_push(q6, Ins::Add(Reg::X7, Reg::X7, Reg::X4));
    assert(line(Ins::Add(Reg::X7, Reg::X7, Reg::X4)) =~= "    add     x7, x7, x4\n"@);
    let q8 = q7.push(Ins::Ldr(Reg::S2, Reg::X13, Reg::X7));
    lemma_push(q7, Ins::Ldr(Reg::S2, Reg::X13, Reg::X7));
    assert(line(Ins::Ldr(Reg::S2, Reg::X13, Reg::X7)) =~= "    ldr     s2, [x13, x7, lsl #2]\n"@);
    let q9 = q8.push(Ins::Fmadd(Reg::S0, Reg::S1, Reg::S2, Reg::S0));
    lemma_push(q8, Ins::Fmadd(Reg::S0, Reg::S1, Reg::S2, Reg::S0));
    assert(line(Ins::Fmadd(Reg::S0, Reg::S1, Reg::S2, Reg::S0)) =~= "    fmadd   s0, s1, s2, s0\n"@);
    assert(
        lines(q9) =~= "    mov     x8, x16\n"@
        + "    mul     x6, x3, x8\n"@
        + "    add     x6, x6, x5\n"@
        + "    ldr     s1, [x11, x6, lsl #2]\n"@
        + "    mov     x8, x15\n"@
        + "    mul     x7, x5, x8\n"@
        + "    add     x7, x7, x4\n"@
        + "    ldr     s2, [x13, x7, lsl #2]\n"@
        + "    fmadd   s0, s1, s2, s0\n"@
    );
    q9
}

proof fn lemma_linear_store() -> (p: Seq<Ins>)
    ensures
        lines(p) == linear_store_text(),
        run(p).stores == seq![
            Store::Elem(
                init(Reg::X12),
                iadd(imul(init(Reg::X3), init(Reg::X15)), init(Reg::X4)),
                init(Reg::S0),
            ),
        ],
{
    assert(Seq::<Ins>::empty().len() == 0);
    reveal_strlit("\n");
    reveal_strlit("    add     ");
    reveal_strlit("    add     x6, x6, x4\n");
    reveal_strlit("    mov     ");
    reveal_strlit("    mov     x8, x15\n");
    reveal_strlit("    mul     ");
    reveal_strlit("    mul     x6, x3, x8\n");
    reveal_strlit("    str     ");
    reveal_strlit("    str     s0, [x12, x6, lsl #2]\n");
    reveal_strlit(", ");
    reveal_strlit(", [");
    reveal_strlit(", lsl #2]\n");
    reveal_strlit("s0");
    reveal_strlit("x12");
    reveal_strlit("x15");
    reveal_strlit("x3");
    reveal_strlit("x4");
    reveal_strlit("x6");
    reveal_strlit("x8");
    let s1 = Seq::<Ins>::empty().push(Ins::Mov(Reg::X8, Reg::X15));
    lemma_push(Seq::<Ins>::empty(), Ins::Mov(Reg::X8, Reg::X15));
    assert(line(Ins::Mov(Reg::X8, Reg::X15)) =~= "    mov     x8, x15\n"@);
    let s2 = s1.push(Ins::Mul(Reg::X6, Reg::X3, Reg::X8));
    lemma_push(s1, Ins::Mul(Reg::X6, Reg::X3, Reg::X8));
    assert(line(Ins::Mul(Reg::X6, Reg::X3, Reg::X8)) =~= "    mul     x6, x3, x8\n"@);
    let s3 = s2.push(Ins::Add(Reg::X6, Reg::X6, Reg::X4));
    lemma_push(s2, Ins::Add(Reg::X6, Reg::X6, Reg::X4));
    assert(line(Ins::Add(Reg::X6, Reg::X6, Reg::X4)) =~= "    add     x6, x6, x4\n"@);
    let s4 = s3.push(Ins::Str(Reg::S0, Reg::X12, Reg::X6));
    lemma_push(s3, Ins::Str(Reg::S0, Reg::X12, Reg::X6));
    assert(line(Ins::Str(Reg::S0, Reg::X12, Reg::X6)) =~= "    str     s0, [x12, x6, lsl #2]\n"@);
    assert(
        lines(s4) =~= "    mov     x8, x15\n"@
        + "    mul     x6, x3, x8\n"@
        + "    add     x6, x6, x4\n"@
        + "    str     s0, [x12, x6, lsl #2]\n"@
    );
    assert(run(s4).stores =~= seq![
        Store::Elem(init(Reg::X12), iadd(imul(init(Reg::X3), init(Reg::X15)), init(Reg::X4)), init(Reg::S0)),
    ]);
    s4
}

proof fn lemma_linear_loop_pieces(has_bias: bool, posts: Seq<PostOp>, id: Seq<char>)
    ensures
        has_piece(linear_loops_text(has_bias, posts, id), linear_body_text()),
        has_piece(linear_loops_text(has_bias, posts, id), linear_store_text()),
{
    broadcast use lemma_piece_left;

    let x_head = "    mov     x3, #0\n"@
        + ".Lmm_i_"@
        + id
        + ":\n"@
        + "    cmp     x3, x10\n"@
        + "    b.ge    .Lmm_i_end_"@
        + id
        + "\n"@
        + "    mov     x4, #0\n"@
        + ".Lmm_j_"@
        + id
        + ":\n"@
        + "    cmp     x4, x15\n"@
        + "    b.ge    .Lmm_j_end_"@
        + id
        + "\n"@
        + "    fmov    s0, wzr\n"@
        + "    mov     x5, #0\n"@
        + ".Lmm_k_"@
        + id
        + ":\n"@
        + "    cmp     x5, x16\n"@
        + "    b.ge    .Lmm_k_end_"@
        + id
        + "\n"@;
    lemma_ends_self(x_head, "    mov     x8, x16\n"@);
    let mut x = x_head + "    mov     x8, x16\n"@;
    let mut x_end = "    mov     x8, x16\n"@;
    lemma_ends_grow(x, x_end, "    mul     x6, x3, x8\n"@);
    x = x + "    mul     x6, x3, x8\n"@;
    x_end = x_end + "    mul     x6, x3, x8\n"@;
    lemma_ends_grow(x, x_end, "    add     x6, x6, x5\n"@);
    x = x + "    add     x6, x6, x5\n"@;
    x_end = x_end + "    add     x6, x6, x5\n"@;
    lemma_ends_grow(x, x_end, "    ldr     s1, [x11, x6, lsl #2]\n"@);
    x = x + "    ldr     s1, [x11, x6, lsl #2]\n"@;
    x_end = x_end + "    ldr     s1, [x11, x6, lsl #2]\n"@;
    lemma_ends_grow(x, x_end, "    mov     x8, x15\n"@);
    x = x + "    mov     x8, x15\n"@;
    x_end = x_end + "    mov     x8, x15\n"@;
    lemma_ends_grow(x, x_end, "    mul     x7, x5, x8\n"@);
    x = x + "    mul     x7, x5, x8\n"@;
    x_end = x_end + "    mul     x7, x5, x8\n"@;
    lemma_ends_grow(x, x_end, "    add     x7, x7, x4\n"@);
    x = x + "    add     x7, x7, x4\n"@;
    x_end = x_end + "    add     x7, x7, x4\n"@;
    lemma_ends_grow(x, x_end, "    ldr     s2, [x13, x7, lsl #2]\n"@);
    x = x + "    ldr     s2, [x13, x7, lsl #2]\n"@;
    x_end = x_end + "    ldr     s2, [x13, x7, lsl #2]\n"@;
    lemma_ends_grow(x, x_end, "    fmadd   s0, s1, s2, s0\n"@);
    x = x + "    fmadd   s0, s1, s2, s0\n"@;
    x_end = x_end + "    fmadd   s0, s1, s2, s0\n"@;
    lemma_ends_piece(x, x_end);
    let y_head = x
        + "    add     x5, x5, #1\n"@
        + "    b       .Lmm_k_"@
        + id
        + "\n"@
        + ".Lmm_k_end_"@
        + id
        + ":\n"@
        + (if has_bias {
            "    ldr     s5, [x14, x4, lsl #2]\n"@ + "    fadd    s0, s0, s5\n"@
        } else {
            Seq::empty()
        })
        + inline_post_ops_text(posts);
    lemma_ends_self(y_head, "    mov     x8, x15\n"@);
    let mut y = y_head + "    mov     x8, x15\n"@;
    let mut y_end = "    mov     x8, x15\n"@;
    lemma_ends_grow(y, y_end, "    mul     x6, x3, x8\n"@);
    y = y + "    mul     x6, x3, x8\n"@;
    y_end = y_end + "    mul     x6, x3, x8\n"@;
    lemma_ends_grow(y, y_end, "    add     x6, x6, x4\n"@);
    y = y + "    add     x6, x6, x4\n"@;
    y_end = y_end + "    add     x6, x6, x4\n"@;
    lemma_ends_grow(y, y_end, "    str     s0, [x12, x6, lsl #2]\n"@);
    y = y + "    str     s0, [x12, x6, lsl #2]\n"@;
    y_end = y_end + "    str     s0, [x12, x6, lsl #2]\n"@;
    lemma_ends_piece(y, y_end);
}

proof fn lemma_linear_pieces_in_text(
    n_inputs: nat,
    b: u64,
    k: u64,
    n: u64,
    id: Seq<char>,
    src_loc: BufferLoc,
    dst_loc: BufferLoc,
    weight_offset: nat,
    bias_offset: Option<usize>,
    posts: Seq<PostOp>,
    sym_prefix: Seq<char>,
    t: Seq<char>,
)
    requires
        has_piece(linear_loops_text(bias_offset is Some, posts, id), t)
            || t == movz_movk_text("x15"@, n as nat) || t == movz_movk_text("x16"@, k as nat)
            || t == movz_movk_text("x10"@, b as nat),
    ensures
        has_piece(
            linear_text(
                n_inputs,
                b,
                k,
                n,
                id,
                src_loc,
                dst_loc,
                weight_offset,
                bias_offset,
                posts,
                sym_prefix,
            ),
            t,
        ),
{
    broadcast use lemma_piece_left, lemma_piece_right;

    lemma_piece_self(t);
}

proof fn lemma_wide_immediate(r: Reg, v: nat) -> (p: Seq<Ins>)
    requires
        v <= u32::MAX,
    ensures
        lines(p) == movz_movk_text(reg_name(r), v),
        value(run(p), r) == Term::Imm(v),
{
    lemma_movz_movk_loads(v);
    let p = Seq::<Ins>::empty().push(Ins::MovzMovk(r, v));
    lemma_push(Seq::<Ins>::empty(), Ins::MovzMovk(r, v));
    assert(Seq::<Ins>::empty().len() == 0);
    assert(lines(p) =~= movz_movk_text(reg_name(r), v));
    p
}

/// The linear layer computes `y = x . W` for row-major `[k, n]` weights:
/// the header loads `n` into `x15` and `k` into `x16`; with `i`, `j`, `kk`
/// in `x3`, `x4`, `x5`, the input in `x11` and the weights in `x13`, each
/// pass of the k-loop adds to the accumulator `s0` the product of
/// `x[i * k + kk]` and `W[kk * n + j]`, and the finished element (after the
/// bias and the inline post-ops) is stored as `y[i * n + j]` through `x12`.
pub proof fn lemma_linear_accumulates_products(
    n_inputs: nat,
    b: u64,
    k: u64,
    n: u64,
    id: Seq<char>,
    src_loc: BufferLoc,
    dst_loc: BufferLoc,
    weight_offset: nat,
    bias_offset: Option<usize>,
    posts: Seq<PostOp>,
    sym_prefix: Seq<char>,
)
    requires
        k <= u32::MAX,
        n <= u32::MAX,
    ensures
        computes(
            linear_text(
                n_inputs,
                b,
                k,
                n,
                id,
                src_loc,
                dst_loc,
                weight_offset,
                bias_offset,
                posts,
                sym_prefix,
            ),
            Reg::X15,
            Term::Imm(n as nat),
        ),
        computes(
            linear_text(
                n_inputs,
                b,
                k,
                n,
                id,
                src_loc,
                dst_loc,
                weight_offset,
                bias_offset,
                posts,
                sym_prefix,
            ),
            Reg::X16,
            Term::Imm(k as nat),
        ),
        computes(
            linear_text(
                n_inputs,
                b,
                k,
                n,
                id,
                src_loc,
                dst_loc,
                weight_offset,
                bias_offset,
                posts,
                sym_prefix,
            ),
            Reg::S0,
            linear_step(),
        ),
        stores(
            linear_text(
                n_inputs,
                b,
                k,
                n,
                id,
                src_loc,
                dst_loc,
                weight_offset,
                bias_offset,
                posts,
                sym_prefix,
            ),
            seq![
                Store::Elem(
                    init(Reg::X12),
                    iadd(imul(init(Reg::X3), init(Reg::X15)), init(Reg::X4)),
                    init(Reg::S0),
                ),
            ],
        ),
{
    let text = linear_text(
        n_inputs,
        b,
        k,
        n,
        id,
        src_loc,
        dst_loc,
        weight_offset,
        bias_offset,
        posts,
        sym_prefix,
    );
    lemma_linear_loop_pieces(bias_offset is Some, posts, id);
    let pn = lemma_wide_immediate(Reg::X15, n as nat);
    lemma_linear_pieces_in_text(
        n_inputs,
        b,
        k,
        n,
        id,
        src_loc,
        dst_loc,
        weight_offset,
        bias_offset,
        posts,
        sym_prefix,
        lines(pn),
    );
    assert(has_piece(text, lines(pn)));
    let pk = lemma_wide_immediate(Reg::X16, k as nat);
    lemma_linear_pieces_in_text(
        n_inputs,
        b,
        k,
        n,
        id,
        src_loc,
        dst_loc,
        weight_offset,
        bias_offset,
        posts,
        sym_prefix,
        lines(pk),
    );
    assert(has_piece(text, lines(pk)));
    let p = lemma_linear_body();
    lemma_linear_pieces_in_text(
        n_inputs,
        b,
        k,
        n,
        id,
        src_loc,
        dst_loc,
        weight_offset,
        bias_offset,
        posts,
        sym_prefix,
        lines(p),
    );
    assert(has_piece(text, lines(p)));
    let sp = lemma_linear_store();
    lemma_linear_pieces_in_text(
        n_inputs,
        b,
        k,
        n,
        id,
        src_loc,
        dst_loc,
        weight_offset,
        bias_offset,
        posts,
        sym_prefix,
        lines(sp),
    );
    assert(has_piece(text, lines(sp)));
}


/// A row element's deviation from the row mean: `x_j - mean`.
pub open spec fn layernorm_deviation() -> Term {
    fsub(load(init(Reg::X9), init(Reg::X11)), init(Reg::S1))
}

/// The normalised element: `(x_j - mean) * inv_std`, then `* gamma_j +
/// beta_j` when affine.
pub open spec fn layernorm_output(has_affine: bool) -> Term {
    let y = fmul(layernorm_deviation(), init(Reg::S5));
    if has_affine {
        fadd(fmul(y, load(init(Reg::X13), init(Reg::X11))), load(init(Reg::X14), init(Reg::X11)))
    } else {
        y
    }
}


spec fn layernorm_p1_text() -> Seq<char> {
    "    ldr     s6, [x9, x11, lsl #2]\n"@
        + "    fadd    s0, s0, s6\n"@
}

proof fn lemma_layernorm_p1() -> (p: Seq<Ins>)
    ensures
        lines(p) == layernorm_p1_text(),
        value(run(p), Reg::S0) == fadd(init(Reg::S0), load(init(Reg::X9), init(Reg::X11))),
{
    assert(Seq::<Ins>::empty().len() == 0);
    reveal_strlit("\n");
    reveal_strlit("    fadd    ");
    reveal_strlit("    fadd    s0, s0, s6\n");
    reveal_strlit("    ldr     ");
    reveal_strlit("    ldr     s6, [x9, x11, lsl #2]\n");
    reveal_strlit(", ");
    reveal_strlit(", [");
    reveal_strlit(", lsl #2]\n");
    reveal_strlit("s0");
    reveal_strlit("s6");
    reveal_strlit("x11");
    reveal_strlit("x9");
    let q1 = Seq::<Ins>::empty().push(Ins::Ldr(Reg::S6, Reg::X9, Reg::X11));
    lemma_push(Seq::<Ins>::empty(), Ins::Ldr(Reg::S6, Reg::X9, Reg::X11));
    assert(line(Ins::Ldr(Reg::S6, Reg::X9, Reg::X11)) =~= "    ldr     s6, [x9, x11, lsl #2]\n"@);
    let q2 = q1.push(Ins::Fadd(Reg::S0, Reg::S0, Reg::S6));
    lemma_push(q1, Ins::Fadd(Reg::S0, Reg::S0, Reg::S6));
    assert(line(Ins::Fadd(Reg::S0, Reg::S0, Reg::S6)) =~= "    fadd    s0, s0, s6\n"@);
    assert(lines(q2) =~= "    ldr     s6, [x9, x11, lsl #2]\n"@ + "    fadd    s0, s0, s6\n"@);
    q2
}


spec fn layernorm_mean_text() -> Seq<char> {
    "    fmul    s1, s0, s2\n"@
}

proof fn lemma_layernorm_mean() -> (p: Seq<Ins>)
    ensures
        lines(p) == layernorm_mean_text(),
        value(run(p), Reg::S1) == fmul(init(Reg::S0), init(Reg::S2)),
{
    assert(Seq::<Ins>::empty().len() == 0);
    reveal_strlit("\n");
    reveal_strlit("    fmul    ");
    reveal_strlit("    fmul    s1, s0, s2\n");
    reveal_strlit(", ");
    reveal_strlit("s0");
    reveal_strlit("s1");
    reveal_strlit("s2");
    let q1 = Seq::<Ins>::empty().push(Ins::Fmul(Reg::S1, Reg::S0, Reg::S2));
    lemma_push(Seq::<Ins>::empty(), Ins::Fmul(Reg::S1, Reg::S0, Reg::S2));
    assert(line(Ins::Fmul(Reg::S1, Reg::S0, Reg::S2)) =~= "    fmul    s1, s0, s2\n"@);
    assert(lines(q1) =~= "    fmul    s1, s0, s2\n"@);
    q1
}


spec fn layernorm_p2_text() -> Seq<char> {
    "    ldr     s6, [x9, x11, lsl #2]\n"@
        + "    fsub    s6, s6, s1\n"@
        + "    fmul    s6, s6, s6\n"@
        + "    fadd    s0, s0, s6\n"@
}

proof fn lemma_layernorm_p2() -> (p: Seq<Ins>)
    ensures
        lines(p) == layernorm_p2_text(),
        value(run(p), Reg::S0) == fadd(init(Reg::S0), fmul(layernorm_deviation(), layernorm_deviation())),
{
    assert(Seq::<Ins>::empty().len() == 0);
    reveal_strlit("\n");
    reveal_strlit("    fadd    ");
    reveal_strlit("    fadd    s0, s0, s6\n");
    reveal_strlit("    fmul    ");
    reveal_strlit("    fmul    s6, s6, s6\n");
    reveal_strlit("    fsub    ");
    reveal_strlit("    fsub    s6, s6, s1\n");
    reveal_strlit("    ldr     ");
    reveal_strlit("    ldr     s6, [x9, x11, lsl #2]\n");
    reveal_strlit(", ");
    reveal_strlit(", [");
    reveal_strlit(", lsl #2]\n");
    reveal_strlit("s0");
    reveal_strlit("s1");
    reveal_strlit("s6");
    reveal_strlit("x11");
    reveal_strlit("x9");
    let q1 = Seq::<Ins>::empty().push(Ins::Ldr(Reg::S6, Reg::X9, Reg::X11));
    lemma_push(Seq::<Ins>::empty(), Ins::Ldr(Reg::S6, Reg::X9, Reg::X11));
    assert(line(Ins::Ldr(Reg::S6, Reg::X9, Reg::X11)) =~= "    ldr     s6, [x9, x11, lsl #2]\n"@);
    let q2 = q1.push(Ins::Fsub(Reg::S6, Reg::S6, Reg::S1));
    lemma_push(q1, Ins::Fsub(Reg::S6, Reg::S6, Reg::S1));
    assert(line(Ins::Fsub(Reg::S6, Reg::S6, Reg::S1)) =~= "    fsub    s6, s6, s1\n"@);
    let q3 = q2.push(Ins::Fmul(Reg::S6, Reg::S6, Reg::S6));
    lemma_push(q2, Ins::Fmul(Reg::S6, Reg::S6, Reg::S6));
    assert(line(Ins::Fmul(Reg::S6, Reg::S6, Reg::S6)) =~= "    fmul    s6, s6, s6\n"@);
    let q4 = q3.push(Ins::Fadd(Reg::S0, Reg::S0, Reg::S6));
    lemma_push(q3, Ins::Fadd(Reg::S0, Reg::S0, Reg::S6));
    assert(line(Ins::Fadd(Reg::S0, Reg::S0, Reg::S6)) =~= "    fadd    s0, s0, s6\n"@);
    assert(
        lines(q4) =~= "    ldr     s6, [x9, x11, lsl #2]\n"@
        + "    fsub    s6, s6, s1\n"@
        + "    fmul    s6, s6, s6\n"@
        + "    fadd    s0, s0, s6\n"@
    );
    q4
}


spec fn layernorm_inv_text() -> Seq<char> {
    "    fmul    s0, s0, s2\n"@
        + "    fadd    s0, s0, s3\n"@
        + "    fsqrt   s0, s0\n"@
        + "    fdiv    s5, s4, s0\n"@
}

proof fn lemma_layernorm_inv() -> (p: Seq<Ins>)
    ensures
        lines(p) == layernorm_inv_text(),
        value(
            run(p),
            Reg::S5) == fdiv(init(Reg::S4),
            fsqrt(fadd(fmul(init(Reg::S0), init(Reg::S2)), init(Reg::S3))),
        ),
{
    assert(Seq::<Ins>::empty().len() == 0);
    reveal_strlit("\n");
    reveal_strlit("    fadd    ");
    reveal_strlit("    fadd    s0, s0, s3\n");
    reveal_strlit("    fdiv    ");
    reveal_strlit("    fdiv    s5, s4, s0\n");
    reveal_strlit("    fmul    ");
    reveal_strlit("    fmul    s0, s0, s2\n");
    reveal_strlit("    fsqrt   ");
    reveal_strlit("    fsqrt   s0, s0\n");
    reveal_strlit(", ");
    reveal_strlit("s0");
    reveal_strlit("s2");
    reveal_strlit("s3");
    reveal_strlit("s4");
    reveal_strlit("s5");
    let q1 = Seq::<Ins>::empty().push(Ins::Fmul(Reg::S0, Reg::S0, Reg::S2));
    lemma_push(Seq::<Ins>::empty(), Ins::Fmul(Reg::S0, Reg::S0, Reg::S2));
    assert(line(Ins::Fmul(Reg::S0, Reg::S0, Reg::S2)) =~= "    fmul    s0, s0, s2\n"@);
    let q2 = q1.push(Ins::Fadd(Reg::S0, Reg::S0, Reg::S3));
    lemma_push(q1, Ins::Fadd(Reg::S0, Reg::S0, Reg::S3));
    assert(line(Ins::Fadd(Reg::S0, Reg::S0, Reg::S3)) =~= "    fadd    s0, s0, s3\n"@);
    let q3 = q2.push(Ins::Fsqrt(Reg::S0, Reg::S0));
    lemma_push(q2, Ins::Fsqrt(Reg::S0, Reg::S0));
    assert(line(Ins::Fsqrt(Reg::S0, Reg::S0)) =~= "    fsqrt   s0, s0\n"@);
    let q4 = q3.push(Ins::Fdiv(Reg::S5, Reg::S4, Reg::S0));
    lemma_push(q3, Ins::Fdiv(Reg::S5, Reg::S4, Reg::S0));
    assert(line(Ins::Fdiv(Reg::S5, Reg::S4, Reg::S0)) =~= "    fdiv    s5, s4, s0\n"@);
    assert(
        lines(q4) =~= "    fmul    s0, s0, s2\n"@
        + "    fadd    s0, s0, s3\n"@
        + "    fsqrt   s0, s0\n"@
        + "    fdiv    s5, s4, s0\n"@
    );
    q4
}


proof fn lemma_layernorm_p3(has_affine: bool) -> (p: Seq<Ins>)
    ensures
        lines(p) == pass3_body(has_affine),
        run(p).stores == seq![Store::Elem(init(Reg::X10), init(Reg::X11), layernorm_output(has_affine))],
{
    if has_affine {
        assert(Seq::<Ins>::empty().len() == 0);
        reveal_strlit("\n");
        reveal_strlit("    fadd    ");
        reveal_strlit("    fadd    s6, s6, s2\n");
        reveal_strlit("    fmul    ");
        reveal_strlit("    fmul    s6, s6, s5\n");
        reveal_strlit("    fmul    s6, s6, s7\n");
        reveal_strlit("    fsub    ");
        reveal_strlit("    fsub    s6, s6, s1\n");
        reveal_strlit("    ldr     ");
        reveal_strlit("    ldr     s2, [x14, x11, lsl #2]\n");
        reveal_strlit("    ldr     s6, [x9, x11, lsl #2]\n");
        reveal_strlit("    ldr     s7, [x13, x11, lsl #2]\n");
        reveal_strlit("    str     ");
        reveal_strlit("    str     s6, [x10, x11, lsl #2]\n");
        reveal_strlit(", ");
        reveal_strlit(", [");
        reveal_strlit(", lsl #2]\n");
        reveal_strlit("s1");
        reveal_strlit("s2");
        reveal_strlit("s5");
        reveal_strlit("s6");
        reveal_strlit("s7");
        reveal_strlit("x10");
        reveal_strlit("x11");
        reveal_strlit("x13");
        reveal_strlit("x14");
        reveal_strlit("x9");
        let a1 = Seq::<Ins>::empty().push(Ins::Ldr(Reg::S6, Reg::X9, Reg::X11));
        lemma_push(Seq::<Ins>::empty(), Ins::Ldr(Reg::S6, Reg::X9, Reg::X11));
        assert(line(Ins::Ldr(Reg::S6, Reg::X9, Reg::X11)) =~= "    ldr     s6, [x9, x11, lsl #2]\n"@);
        let a2 = a1.push(Ins::Fsub(Reg::S6, Reg::S6, Reg::S1));
        lemma_push(a1, Ins::Fsub(Reg::S6, Reg::S6, Reg::S1));
        assert(line(Ins::Fsub(Reg::S6, Reg::S6, Reg::S1)) =~= "    fsub    s6, s6, s1\n"@);
        let a3 = a2.push(Ins::Fmul(Reg::S6, Reg::S6, Reg::S5));
        lemma_push(a2, Ins::Fmul(Reg::S6, Reg::S6, Reg::S5));
        assert(line(Ins::Fmul(Reg::S6, Reg::S6, Reg::S5)) =~= "    fmul    s6, s6, s5\n"@);
        let a4 = a3.push(Ins::Ldr(Reg::S7, Reg::X13, Reg::X11));
        lemma_push(a3, Ins::Ldr(Reg::S7, Reg::X13, Reg::X11));
        assert(line(Ins::Ldr(Reg::S7, Reg::X13, Reg::X11)) =~= "    ldr     s7, [x13, x11, lsl #2]\n"@);
        let a5 = a4.push(Ins::Fmul(Reg::S6, Reg::S6, Reg::S7));
        lemma_push(a4, Ins::Fmul(Reg::S6, Reg::S6, Reg::S7));
        assert(line(Ins::Fmul(Reg::S6, Reg::S6, Reg::S7)) =~= "    fmul    s6, s6, s7\n"@);
        let a6 = a5.push(Ins::Ldr(Reg::S2, Reg::X14, Reg::X11));
        lemma_push(a5, Ins::Ldr(Reg::S2, Reg::X14, Reg::X11));
        assert(line(Ins::Ldr(Reg::S2, Reg::X14, Reg::X11)) =~= "    ldr     s2, [x14, x11, lsl #2]\n"@);
        let a7 = a6.push(Ins::Fadd(Reg::S6, Reg::S6, Reg::S2));
        lemma_push(a6, Ins::Fadd(Reg::S6, Reg::S6, Reg::S2));
        assert(line(Ins::Fadd(Reg::S6, Reg::S6, Reg::S2)) =~= "    fadd    s6, s6, s2\n"@);
        let a8 = a7.push(Ins::Str(Reg::S6, Reg::X10, Reg::X11));
        lemma_push(a7, Ins::Str(Reg::S6, Reg::X10, Reg::X11));
        assert(line(Ins::Str(Reg::S6, Reg::X10, Reg::X11)) =~= "    str     s6, [x10, x11, lsl #2]\n"@);
        assert(
            lines(a8) =~= "    ldr     s6, [x9, x11, lsl #2]\n"@
            + "    fsub    s6, s6, s1\n"@
            + "    fmul    s6, s6, s5\n"@
            + "    ldr     s7, [x13, x11, lsl #2]\n"@
            + "    fmul    s6, s6, s7\n"@
            + "    ldr     s2, [x14, x11, lsl #2]\n"@
            + "    fadd    s6, s6, s2\n"@
            + "    str     s6, [x10, x11, lsl #2]\n"@
        );
        assert(run(a8).stores =~= seq![
            Store::Elem(init(Reg::X10), init(Reg::X11), layernorm_output(has_affine)),
        ]);
        a8
    } else {
        assert(Seq::<Ins>::empty().len() == 0);
        reveal_strlit("\n");
        reveal_strlit("    fmul    ");
        reveal_strlit("    fmul    s6, s6, s5\n");
        reveal_strlit("    fsub    ");
        reveal_strlit("    fsub    s6, s6, s1\n");
        reveal_strlit("    ldr     ");
        reveal_strlit("    ldr     s6, [x9, x11, lsl #2]\n");
        reveal_strlit("    str     ");
        reveal_strlit("    str     s6, [x10, x11, lsl #2]\n");
        reveal_strlit(", ");
        reveal_strlit(", [");
        reveal_strlit(", lsl #2]\n");
        reveal_strlit("s1");
        reveal_strlit("s5");
        reveal_strlit("s6");
        reveal_strlit("x10");
        reveal_strlit("x11");
        reveal_strlit("x9");
        let n1 = Seq::<Ins>::empty().push(Ins::Ldr(Reg::S6, Reg::X9, Reg::X11));
        lemma_push(Seq::<Ins>::empty(), Ins::Ldr(Reg::S6, Reg::X9, Reg::X11));
        assert(line(Ins::Ldr(Reg::S6, Reg::X9, Reg::X11)) =~= "    ldr     s6, [x9, x11, lsl #2]\n"@);
        let n2 = n1.push(Ins::Fsub(Reg::S6, Reg::S6, Reg::S1));
        lemma_push(n1, Ins::Fsub(Reg::S6, Reg::S6, Reg::S1));
        assert(line(Ins::Fsub(Reg::S6, Reg::S6, Reg::S1)) =~= "    fsub    s6, s6, s1\n"@);
        let n3 = n2.push(Ins::Fmul(Reg::S6, Reg::S6, Reg::S5));
        lemma_push(n2, Ins::Fmul(Reg::S6, Reg::S6, Reg::S5));
        assert(line(Ins::Fmul(Reg::S6, Reg::S6, Reg::S5)) =~= "    fmul    s6, s6, s5\n"@);
        let n4 = n3.push(Ins::Str(Reg::S6, Reg::X10, Reg::X11));
        lemma_push(n3, Ins::Str(Reg::S6, Reg::X10, Reg::X11));
        assert(line(Ins::Str(Reg::S6, Reg::X10, Reg::X11)) =~= "    str     s6, [x10, x11, lsl #2]\n"@);
        assert(
            lines(n4) =~= "    ldr     s6, [x9, x11, lsl #2]\n"@
            + "    fsub    s6, s6, s1\n"@
            + "    fmul    s6, s6, s5\n"@
            + "    str     s6, [x10, x11, lsl #2]\n"@
        );
        assert(run(n4).stores =~= seq![
            Store::Elem(init(Reg::X10), init(Reg::X11), layernorm_output(has_affine)),
        ]);
        n4
    }
}


proof fn lemma_layernorm_pieces(b: u64, d: u64, has_affine: bool, inv_d: u32, lid: Seq<char>)
    ensures
        has_piece(layernorm_rows_text(b, d, has_affine, inv_d, lid), layernorm_p1_text()),
        has_piece(layernorm_rows_text(b, d, has_affine, inv_d, lid), layernorm_mean_text()),
        has_piece(layernorm_rows_text(b, d, has_affine, inv_d, lid), layernorm_p2_text()),
        has_piece(layernorm_rows_text(b, d, has_affine, inv_d, lid), layernorm_inv_text()),
        has_piece(layernorm_rows_text(b, d, has_affine, inv_d, lid), pass3_body(has_affine)),
{
    broadcast use lemma_piece_left, lemma_piece_right;

    lemma_piece_self(layernorm_p1_text());
    lemma_piece_self(layernorm_p2_text());
    lemma_piece_self(pass3_body(has_affine));
    assert(has_piece(
        ln_pass("p1"@, d, lid, "    ldr     s6, [x9, x11, lsl #2]\n"@ + "    fadd    s0, s0, s6\n"@),
        layernorm_p1_text(),
    ));
    assert(has_piece(ln_pass("p2"@, d, lid, "    ldr     s6, [x9, x11, lsl #2]\n"@ + "    fsub    s6, s6, s1\n"@
            + "    fmul    s6, s6, s6\n"@ + "    fadd    s0, s0, s6\n"@), layernorm_p2_text()));
    assert(has_piece(ln_pass("p3"@, d, lid, pass3_body(has_affine)), pass3_body(has_affine)));
    let x_head = "    mov     x12, #0\n"@
        + loop_head(".Lln_row_"@, "    b.ge    .Lln_row_end_"@, "x12"@, "x6"@, b as nat, lid)
        + movz_movk_text("x6"@, (d * 4) as nat)
        + "    mul     x6, x12, x6\n"@
        + "    add     x9,  x16, x6\n"@
        + "    add     x10, x17, x6\n"@
        + "    fmov    s0, wzr\n"@
        + "    mov     x11, #0\n"@
        + ln_pass("p1"@, d, lid, "    ldr     s6, [x9, x11, lsl #2]\n"@ + "    fadd    s0, s0, s6\n"@);
    lemma_ends_self(x_head, "    fmul    s1, s0, s2\n"@);
    let mut x = x_head + "    fmul    s1, s0, s2\n"@;
    let mut x_end = "    fmul    s1, s0, s2\n"@;
    lemma_ends_piece(x, x_end);
    let y_head = x
        + "    fmov    s0, wzr\n"@
        + "    mov     x11, #0\n"@
        + ln_pass("p2"@, d, lid, "    ldr     s6, [x9, x11, lsl #2]\n"@ + "    fsub    s6, s6, s1\n"@
            + "    fmul    s6, s6, s6\n"@ + "    fadd    s0, s0, s6\n"@);
    lemma_ends_self(y_head, "    fmul    s0, s0, s2\n"@);
    let mut y = y_head + "    fmul    s0, s0, s2\n"@;
    let mut y_end = "    fmul    s0, s0, s2\n"@;
    lemma_ends_grow(y, y_end, "    fadd    s0, s0, s3\n"@);
    y = y + "    fadd    s0, s0, s3\n"@;
    y_end = y_end + "    fadd    s0, s0, s3\n"@;
    lemma_ends_grow(y, y_end, "    fsqrt   s0, s0\n"@);
    y = y + "    fsqrt   s0, s0\n"@;
    y_end = y_end + "    fsqrt   s0, s0\n"@;
    lemma_ends_grow(y, y_end, "    fdiv    s5, s4, s0\n"@);
    y = y + "    fdiv    s5, s4, s0\n"@;
    y_end = y_end + "    fdiv    s5, s4, s0\n"@;
    lemma_ends_piece(y, y_end);
}

proof fn lemma_layernorm_rows_in_text(
    n_inputs: nat,
    b: u64,
    d: u64,
    lid: Seq<char>,
    src_loc: BufferLoc,
    dst_loc: BufferLoc,
    gamma_offset: Option<usize>,
    beta_offset: Option<usize>,
    t: Seq<char>,
)
    requires
        has_piece(layernorm_rows_text(b, d, gamma_offset is Some, recip_bits(d as nat) as u32, lid), t),
    ensures
        has_piece(layernorm_text(n_inputs, b, d, lid, src_loc, dst_loc, gamma_offset, beta_offset), t),
{
    broadcast use lemma_piece_right;

}

/// Layernorm of a row (source in `x9`, destination in `x10`, element index
/// in `x11`; `s2`, `s3`, `s4` hold `1/d`, `eps` and `1`): pass 1 adds each
/// element to the accumulator `s0` and leaves the mean, `sum * (1/d)`, in
/// `s1`; pass 2 adds each squared deviation `(x_j - mean)^2` and leaves
/// `inv_std = 1 / sqrt(sum * (1/d) + eps)` in `s5`; pass 3 stores
/// `y_j = (x_j - mean) * inv_std`, times `gamma_j` plus `beta_j` when
/// affine, and nothing else.
pub proof fn lemma_layernorm_normalises(
    n_inputs: nat,
    b: u64,
    d: u64,
    lid: Seq<char>,
    src_loc: BufferLoc,
    dst_loc: BufferLoc,
    gamma_offset: Option<usize>,
    beta_offset: Option<usize>,
)
    ensures
        computes(
            layernorm_text(n_inputs, b, d, lid, src_loc, dst_loc, gamma_offset, beta_offset),
            Reg::S0,
            fadd(init(Reg::S0), load(init(Reg::X9), init(Reg::X11))),
        ),
        computes(
            layernorm_text(n_inputs, b, d, lid, src_loc, dst_loc, gamma_offset, beta_offset),
            Reg::S1,
            fmul(init(Reg::S0), init(Reg::S2)),
        ),
        computes(
            layernorm_text(n_inputs, b, d, lid, src_loc, dst_loc, gamma_offset, beta_offset),
            Reg::S0,
            fadd(init(Reg::S0), fmul(layernorm_deviation(), layernorm_deviation())),
        ),
        computes(
            layernorm_text(n_inputs, b, d, lid, src_loc, dst_loc, gamma_offset, beta_offset),
            Reg::S5,
            fdiv(init(Reg::S4), fsqrt(fadd(fmul(init(Reg::S0), init(Reg::S2)), init(Reg::S3)))),
        ),
        stores(
            layernorm_text(n_inputs, b, d, lid, src_loc, dst_loc, gamma_offset, beta_offset),
            seq![Store::Elem(init(Reg::X10), init(Reg::X11), layernorm_output(gamma_offset is Some))],
        ),
{
    let text = layernorm_text(n_inputs, b, d, lid, src_loc, dst_loc, gamma_offset, beta_offset);
    let has_affine = gamma_offset is Some;
    lemma_layernorm_pieces(b, d, has_affine, recip_bits(d as nat) as u32, lid);
    let p1 = lemma_layernorm_p1();
    lemma_layernorm_rows_in_text(n_inputs, b, d, lid, src_loc, dst_loc, gamma_offset, beta_offset, lines(p1));
    assert(has_piece(text, lines(p1)));
    let p2 = lemma_layernorm_mean();
    lemma_layernorm_rows_in_text(n_inputs, b, d, lid, src_loc, dst_loc, gamma_offset, beta_offset, lines(p2));
    assert(has_piece(text, lines(p2)));
    let p3 = lemma_layernorm_p2();
    lemma_layernorm_rows_in_text(n_inputs, b, d, lid, src_loc, dst_loc, gamma_offset, beta_offset, lines(p3));
    assert(has_piece(text, lines(p3)));
    let p4 = lemma_layernorm_inv();
    lemma_layernorm_rows_in_text(n_inputs, b, d, lid, src_loc, dst_loc, gamma_offset, beta_offset, lines(p4));
    assert(has_piece(text, lines(p4)));
    let p5 = lemma_layernorm_p3(has_affine);
    lemma_layernorm_rows_in_text(n_inputs, b, d, lid, src_loc, dst_loc, gamma_offset, beta_offset, lines(p5));
    assert(has_piece(text, lines(p5)));
}


/// The element of the current row: `row start + j` (`x20 + x21`).
pub open spec fn softmax_element() -> Term {
    iadd(init(Reg::X20), init(Reg::X21))
}

spec fn softmax_sum_text() -> Seq<char> {
    "    add     x6, x20, x21\n"@
        + "    str     s0, [x23, x6, lsl #2]\n"@
        + "    fadd    s9, s9, s0\n"@
}

spec fn softmax_row_start_text(k: u64) -> Seq<char> {
    movz_movk_text("x8"@, k as nat)
        + "    mul     x20, x19, x8\n"@
}

proof fn lemma_softmax_sum() -> (p: Seq<Ins>)
    ensures
        lines(p) == softmax_sum_text(),
        value(run(p), Reg::S9) == fadd(init(Reg::S9), init(Reg::S0)),
        run(p).stores == seq![Store::Elem(init(Reg::X23), softmax_element(), init(Reg::S0))],
{
    assert(Seq::<Ins>::empty().len() == 0);
    reveal_strlit("\n");
    reveal_strlit("    add     ");
    reveal_strlit("    add     x6, x20, x21\n");
    reveal_strlit("    fadd    ");
    reveal_strlit("    fadd    s9, s9, s0\n");
    reveal_strlit("    str     ");
    reveal_strlit("    str     s0, [x23, x6, lsl #2]\n");
    reveal_strlit(", ");
    reveal_strlit(", [");
    reveal_strlit(", lsl #2]\n");
    reveal_strlit("s0");
    reveal_strlit("s9");
    reveal_strlit("x20");
    reveal_strlit("x21");
    reveal_strlit("x23");
    reveal_strlit("x6");
    let a1 = Seq::<Ins>::empty().push(Ins::Add(Reg::X6, Reg::X20, Reg::X21));
    lemma_push(Seq::<Ins>::empty(), Ins::Add(Reg::X6, Reg::X20, Reg::X21));
    assert(line(Ins::Add(Reg::X6, Reg::X20, Reg::X21)) =~= "    add     x6, x20, x21\n"@);
    let a2 = a1.push(Ins::Str(Reg::S0, Reg::X23, Reg::X6));
    lemma_push(a1, Ins::Str(Reg::S0, Reg::X23, Reg::X6));
    assert(line(Ins::Str(Reg::S0, Reg::X23, Reg::X6)) =~= "    str     s0, [x23, x6, lsl #2]\n"@);
    let a3 = a2.push(Ins::Fadd(Reg::S9, Reg::S9, Reg::S0));
    lemma_push(a2, Ins::Fadd(Reg::S9, Reg::S9, Reg::S0));
    assert(line(Ins::Fadd(Reg::S9, Reg::S9, Reg::S0)) =~= "    fadd    s9, s9, s0\n"@);
    assert(
        lines(a3) =~= "    add     x6, x20, x21\n"@
        + "    str     s0, [x23, x6, lsl #2]\n"@
        + "    fadd    s9, s9, s0\n"@
    );
    assert(run(a3).stores =~= seq![Store::Elem(init(Reg::X23), softmax_element(), init(Reg::S0))]);
    a3
}

proof fn lemma_softmax_divide() -> (p: Seq<Ins>)
    ensures
        lines(p) == norm_body(),
        run(p).stores == seq![
            Store::Elem(
                init(Reg::X23),
                softmax_element(),
                fdiv(load(init(Reg::X23), softmax_element()), init(Reg::S9)),
            ),
        ],
{
    assert(Seq::<Ins>::empty().len() == 0);
    reveal_strlit("\n");
    reveal_strlit("    add     ");
    reveal_strlit("    add     x6, x20, x21\n");
    reveal_strlit("    fdiv    ");
    reveal_strlit("    fdiv    s0, s0, s9\n");
    reveal_strlit("    ldr     ");
    reveal_strlit("    ldr     s0, [x23, x6, lsl #2]\n");
    reveal_strlit("    str     ");
    reveal_strlit("    str     s0, [x23, x6, lsl #2]\n");
    reveal_strlit(", ");
    reveal_strlit(", [");
    reveal_strlit(", lsl #2]\n");
    reveal_strlit("s0");
    reveal_strlit("s9");
    reveal_strlit("x20");
    reveal_strlit("x21");
    reveal_strlit("x23");
    reveal_strlit("x6");
    let q1 = Seq::<Ins>::empty().push(Ins::Add(Reg::X6, Reg::X20, Reg::X21));
    lemma_push(Seq::<Ins>::empty(), Ins::Add(Reg::X6, Reg::X20, Reg::X21));
    assert(line(Ins::Add(Reg::X6, Reg::X20, Reg::X21)) =~= "    add     x6, x20, x21\n"@);
    let q2 = q1.push(Ins::Ldr(Reg::S0, Reg::X23, Reg::X6));
    lemma_push(q1, Ins::Ldr(Reg::S0, Reg::X23, Reg::X6));
    assert(line(Ins::Ldr(Reg::S0, Reg::X23, Reg::X6)) =~= "    ldr     s0, [x23, x6, lsl #2]\n"@);
    let q3 = q2.push(Ins::Fdiv(Reg::S0, Reg::S0, Reg::S9));
    lemma_push(q2, Ins::Fdiv(Reg::S0, Reg::S0, Reg::S9));
    assert(line(Ins::Fdiv(Reg::S0, Reg::S0, Reg::S9)) =~= "    fdiv    s0, s0, s9\n"@);
    let q4 = q3.push(Ins::Str(Reg::S0, Reg::X23, Reg::X6));
    lemma_push(q3, Ins::Str(Reg::S0, Reg::X23, Reg::X6));
    assert(line(Ins::Str(Reg::S0, Reg::X23, Reg::X6)) =~= "    str     s0, [x23, x6, lsl #2]\n"@);
    assert(
        lines(q4) =~= "    add     x6, x20, x21\n"@
        + "    ldr     s0, [x23, x6, lsl #2]\n"@
        + "    fdiv    s0, s0, s9\n"@
        + "    str     s0, [x23, x6, lsl #2]\n"@
    );
    assert(run(q4).stores =~= seq![
        Store::Elem(
            init(Reg::X23),
            softmax_element(),
            fdiv(load(init(Reg::X23), softmax_element()), init(Reg::S9)),
        ),
    ]);
    q4
}

proof fn lemma_softmax_row_start(k: u64) -> (p: Seq<Ins>)
    requires
        k <= u32::MAX,
    ensures
        lines(p) == softmax_row_start_text(k),
        value(run(p), Reg::X20) == imul(init(Reg::X19), Term::Imm(k as nat)),
{
    lemma_movz_movk_loads(k as nat);
    assert(Seq::<Ins>::empty().len() == 0);
    reveal_strlit("\n");
    reveal_strlit("    mul     ");
    reveal_strlit("    mul     x20, x19, x8\n");
    reveal_strlit(", ");
    reveal_strlit("x19");
    reveal_strlit("x20");
    reveal_strlit("x8");
    let r1 = Seq::<Ins>::empty().push(Ins::MovzMovk(Reg::X8, k as nat));
    lemma_push(Seq::<Ins>::empty(), Ins::MovzMovk(Reg::X8, k as nat));
    let r2 = r1.push(Ins::Mul(Reg::X20, Reg::X19, Reg::X8));
    lemma_push(r1, Ins::Mul(Reg::X20, Reg::X19, Reg::X8));
    assert(line(Ins::Mul(Reg::X20, Reg::X19, Reg::X8)) =~= "    mul     x20, x19, x8\n"@);
    assert(lines(r2) =~= movz_movk_text("x8"@, k as nat) + "    mul     x20, x19, x8\n"@);
    r2
}

proof fn lemma_softmax_row_pieces(stem: Seq<char>, b: u64, k: u64, id: Seq<char>, sym_prefix: Seq<char>)
    ensures
        has_piece(softmax_rows_text(stem, b, k, id, sym_prefix), softmax_sum_text()),
        has_piece(softmax_rows_text(stem, b, k, id, sym_prefix), norm_body()),
        has_piece(softmax_rows_text(stem, b, k, id, sym_prefix), softmax_row_start_text(k)),
{
    broadcast use lemma_piece_left, lemma_piece_right;

    {
        let x_head = "    add     x6, x20, x21\n"@
            + "    ldr     s0, [x22, x6, lsl #2]\n"@
            + "    fsub    s0, s0, s8\n"@
            + exp_inline_text();
        lemma_ends_self(x_head, "    add     x6, x20, x21\n"@);
        let mut x = x_head + "    add     x6, x20, x21\n"@;
        let mut x_end = "    add     x6, x20, x21\n"@;
        lemma_ends_grow(x, x_end, "    str     s0, [x23, x6, lsl #2]\n"@);
        x = x + "    str     s0, [x23, x6, lsl #2]\n"@;
        x_end = x_end + "    str     s0, [x23, x6, lsl #2]\n"@;
        lemma_ends_grow(x, x_end, "    fadd    s9, s9, s0\n"@);
        x = x + "    fadd    s9, s9, s0\n"@;
        x_end = x_end + "    fadd    s9, s9, s0\n"@;
        lemma_ends_piece(x, x_end);
        assert(has_piece(sm_pass(stem, "_exp"@, k, id, exp_body(sym_prefix)), softmax_sum_text()));
    }
    lemma_piece_self(norm_body());
    assert(has_piece(sm_pass(stem, "_norm"@, k, id, norm_body()), norm_body()));
    let y_head = "    mov     x19, #0\n"@
        + loop_head(
            sm_label(stem, "_i_"@),
            sm_jump("    b.ge    .L"@, stem, "_i_end_"@),
            "x19"@,
            "x10"@,
            b as nat,
            id,
        );
    lemma_ends_self(y_head, movz_movk_text("x8"@, k as nat));
    let mut y = y_head + movz_movk_text("x8"@, k as nat);
    let mut y_end = movz_movk_text("x8"@, k as nat);
    lemma_ends_grow(y, y_end, "    mul     x20, x19, x8\n"@);
    y = y + "    mul     x20, x19, x8\n"@;
    y_end = y_end + "    mul     x20, x19, x8\n"@;
    lemma_ends_piece(y, y_end);
}

/// Post-ops that include the row softmax emit its tail.
proof fn lemma_post_ops_hold_tail(posts: Seq<PostOp>, b: u64, n: u64, id: Seq<char>, sym_prefix: Seq<char>)
    requires
        posts.contains(PostOp::SoftmaxRow),
    ensures
        has_piece(
            row_post_ops_text(posts, b, n, id, sym_prefix),
            fused_softmax_tail_text(b, n, id, sym_prefix),
        ),
    decreases posts.len(),
{
    broadcast use lemma_piece_left, lemma_piece_right;

    let tail = fused_softmax_tail_text(b, n, id, sym_prefix);
    if posts.last() == PostOp::SoftmaxRow {
        lemma_piece_self(tail);
    } else {
        let j = choose|j: int| 0 <= j < posts.len() && posts[j] == PostOp::SoftmaxRow;
        assert(posts.drop_last()[j] == PostOp::SoftmaxRow);
        lemma_post_ops_hold_tail(posts.drop_last(), b, n, id, sym_prefix);
    }
}

proof fn lemma_softmax_rows_in_text(
    n_inputs: nat,
    b: u64,
    k: u64,
    id: Seq<char>,
    src_loc: BufferLoc,
    dst_loc: BufferLoc,
    sym_prefix: Seq<char>,
    t: Seq<char>,
)
    requires
        has_piece(softmax_rows_text("sm"@, b, k, id, sym_prefix), t),
    ensures
        has_piece(softmax_text(n_inputs, b, k, id, src_loc, dst_loc, sym_prefix), t),
{
    broadcast use lemma_piece_left, lemma_piece_right;

}

proof fn lemma_fused_rows_in_text(
    n_inputs: nat,
    b: u64,
    k: u64,
    n: u64,
    id: Seq<char>,
    src_loc: BufferLoc,
    dst_loc: BufferLoc,
    weight_offset: nat,
    bias_offset: Option<usize>,
    posts: Seq<PostOp>,
    sym_prefix: Seq<char>,
    t: Seq<char>,
)
    requires
        posts.contains(PostOp::SoftmaxRow),
        has_piece(softmax_rows_text("fsmx"@, b, n, id, sym_prefix), t),
    ensures
        has_piece(
            linear_text(
                n_inputs,
                b,
                k,
                n,
                id,
                src_loc,
                dst_loc,
                weight_offset,
                bias_offset,
                posts,
                sym_prefix,
            ),
            t,
        ),
{
    broadcast use lemma_piece_left, lemma_piece_right;

    lemma_post_ops_hold_tail(posts, b, n, id, sym_prefix);
    assert(has_piece(fused_softmax_tail_text(b, n, id, sym_prefix), t));
    lemma_piece_within(
        row_post_ops_text(posts, b, n, id, sym_prefix),
        fused_softmax_tail_text(b, n, id, sym_prefix),
        t,
    );
}

/// The standalone softmax divides each exponential by the sum of its row:
/// with the row start `row * k` in `x20` and `j` in `x21`, the exp pass
/// stores each element's exponential and adds it into the row sum `s9`,
/// and the normalise pass divides each stored element of the row by `s9`,
/// so every output row sums to one.
pub proof fn lemma_softmax_divides_by_row_sum(
    n_inputs: nat,
    b: u64,
    k: u64,
    id: Seq<char>,
    src_loc: BufferLoc,
    dst_loc: BufferLoc,
    sym_prefix: Seq<char>,
)
    requires
        k <= u32::MAX,
    ensures
        computes(
            softmax_text(n_inputs, b, k, id, src_loc, dst_loc, sym_prefix),
            Reg::X20,
            imul(init(Reg::X19), Term::Imm(k as nat)),
        ),
        computes_and_stores(
            softmax_text(n_inputs, b, k, id, src_loc, dst_loc, sym_prefix),
            Reg::S9,
            fadd(init(Reg::S9), init(Reg::S0)),
            seq![Store::Elem(init(Reg::X23), softmax_element(), init(Reg::S0))],
        ),
        stores(
            softmax_text(n_inputs, b, k, id, src_loc, dst_loc, sym_prefix),
            seq![
                Store::Elem(
                    init(Reg::X23),
                    softmax_element(),
                    fdiv(load(init(Reg::X23), softmax_element()), init(Reg::S9)),
                ),
            ],
        ),
{
    let text = softmax_text(n_inputs, b, k, id, src_loc, dst_loc, sym_prefix);
    lemma_softmax_row_pieces("sm"@, b, k, id, sym_prefix);
    let pa = lemma_softmax_sum();
    lemma_softmax_rows_in_text(n_inputs, b, k, id, src_loc, dst_loc, sym_prefix, lines(pa));
    assert(has_piece(text, lines(pa)));
    let pn = lemma_softmax_divide();
    lemma_softmax_rows_in_text(n_inputs, b, k, id, src_loc, dst_loc, sym_prefix, lines(pn));
    assert(has_piece(text, lines(pn)));
    let pr = lemma_softmax_row_start(k);
    lemma_softmax_rows_in_text(n_inputs, b, k, id, src_loc, dst_loc, sym_prefix, lines(pr));
    assert(has_piece(text, lines(pr)));
}

/// The row softmax fused into a linear layer divides each exponential by
/// the sum of its row in the same way: row start `row * n` in `x20`, each
/// exponential stored and added into `s9`, each stored element then divided
/// by `s9`.
pub proof fn lemma_fused_softmax_divides_by_row_sum(
    n_inputs: nat,
    b: u64,
    k: u64,
    n: u64,
    id: Seq<char>,
    src_loc: BufferLoc,
    dst_loc: BufferLoc,
    weight_offset: nat,
    bias_offset: Option<usize>,
    posts: Seq<PostOp>,
    sym_prefix: Seq<char>,
)
    requires
        n <= u32::MAX,
        posts.contains(PostOp::SoftmaxRow),
    ensures
        computes(
            linear_text(
                n_inputs,
                b,
                k,
                n,
                id,
                src_loc,
                dst_loc,
                weight_offset,
                bias_offset,
                posts,
                sym_prefix,
            ),
            Reg::X20,
            imul(init(Reg::X19), Term::Imm(n as nat)),
        ),
        computes_and_stores(
            linear_text(
                n_inputs,
                b,
                k,
                n,
                id,
                src_loc,
                dst_loc,
                weight_offset,
                bias_offset,
                posts,
                sym_prefix,
            ),
            Reg::S9,
            fadd(init(Reg::S9), init(Reg::S0)),
            seq![Store::Elem(init(Reg::X23), softmax_element(), init(Reg::S0))],
        ),
        stores(
            linear_text(
                n_inputs,
                b,
                k,
                n,
                id,
                src_loc,
                dst_loc,
                weight_offset,
                bias_offset,
                posts,
                sym_prefix,
            ),
            seq![
                Store::Elem(
                    init(Reg::X23),
                    softmax_element(),
                    fdiv(load(init(Reg::X23), softmax_element()), init(Reg::S9)),
                ),
            ],
        ),
{
    let text = linear_text(
        n_inputs,
        b,
        k,
        n,
        id,
        src_loc,
        dst_loc,
        weight_offset,
        bias_offset,
        posts,
        sym_prefix,
    );
    lemma_softmax_row_pieces("fsmx"@, b, n, id, sym_prefix);
    let pa = lemma_softmax_sum();
    lemma_fused_rows_in_text(
        n_inputs,
        b,
        k,
        n,
        id,
        src_loc,
        dst_loc,
        weight_offset,
        bias_offset,
        posts,
        sym_prefix,
        lines(pa),
    );
    assert(has_piece(text, lines(pa)));
    let pn = lemma_softmax_divide();
    lemma_fused_rows_in_text(
        n_inputs,
        b,
        k,
        n,
        id,
        src_loc,
        dst_loc,
        weight_offset,
        bias_offset,
        posts,
        sym_prefix,
        lines(pn),
    );
    assert(has_piece(text, lines(pn)));
    let pr = lemma_softmax_row_start(n);
    lemma_fused_rows_in_text(
        n_inputs,
        b,
        k,
        n,
        id,
        src_loc,
        dst_loc,
        weight_offset,
        bias_offset,
        posts,
        sym_prefix,
        lines(pr),
    );
    assert(has_piece(text, lines(pr)));
}

spec fn relu_zero_text() -> Seq<char> {
    "    fmov    s4, wzr\n"@
}

proof fn lemma_relu_zero() -> (p: Seq<Ins>)
    ensures
        lines(p) == relu_zero_text(),
        value(run(p), Reg::S4) == Term::FZero,
{
    assert(Seq::<Ins>::empty().len() == 0);
    reveal_strlit("    fmov    ");
    reveal_strlit("    fmov    s4, wzr\n");
    reveal_strlit(", wzr\n");
    reveal_strlit("s4");
    let q1 = Seq::<Ins>::empty().push(Ins::FmovZero(Reg::S4));
    lemma_push(Seq::<Ins>::empty(), Ins::FmovZero(Reg::S4));
    assert(line(Ins::FmovZero(Reg::S4)) =~= "    fmov    s4, wzr\n"@);
    assert(lines(q1) =~= "    fmov    s4, wzr\n"@);
    q1
}

spec fn relu_body_text() -> Seq<char> {
    "    ldr     s3, [x11, x9, lsl #2]\n"@
        + "    fmax    s3, s3, s4\n"@
        + "    str     s3, [x12, x9, lsl #2]\n"@
}

proof fn lemma_relu_body() -> (p: Seq<Ins>)
    ensures
        lines(p) == relu_body_text(),
        run(p).stores == seq![
            Store::Elem(
                init(Reg::X12),
                init(Reg::X9),
                fmax(load(init(Reg::X11), init(Reg::X9)), init(Reg::S4)),
            ),
        ],
{
    assert(Seq::<Ins>::empty().len() == 0);
    reveal_strlit("\n");
    reveal_strlit("    fmax    ");
    reveal_strlit("    fmax    s3, s3, s4\n");
    reveal_strlit("    ldr     ");
    reveal_strlit("    ldr     s3, [x11, x9, lsl #2]\n");
    reveal_strlit("    str     ");
    reveal_strlit("    str     s3, [x12, x9, lsl #2]\n");
    reveal_strlit(", ");
    reveal_strlit(", [");
    reveal_strlit(", lsl #2]\n");
    reveal_strlit("s3");
    reveal_strlit("s4");
    reveal_strlit("x11");
    reveal_strlit("x12");
    reveal_strlit("x9");
    let q1 = Seq::<Ins>::empty().push(Ins::Ldr(Reg::S3, Reg::X11, Reg::X9));
    lemma_push(Seq::<Ins>::empty(), Ins::Ldr(Reg::S3, Reg::X11, Reg::X9));
    assert(line(Ins::Ldr(Reg::S3, Reg::X11, Reg::X9)) =~= "    ldr     s3, [x11, x9, lsl #2]\n"@);
    let q2 = q1.push(Ins::Fmax(Reg::S3, Reg::S3, Reg::S4));
    lemma_push(q1, Ins::Fmax(Reg::S3, Reg::S3, Reg::S4));
    assert(line(Ins::Fmax(Reg::S3, Reg::S3, Reg::S4)) =~= "    fmax    s3, s3, s4\n"@);
    let q3 = q2.push(Ins::Str(Reg::S3, Reg::X12, Reg::X9));
    lemma_push(q2, Ins::Str(Reg::S3, Reg::X12, Reg::X9));
    assert(line(Ins::Str(Reg::S3, Reg::X12, Reg::X9)) =~= "    str     s3, [x12, x9, lsl #2]\n"@);
    assert(
        lines(q3) =~= "    ldr     s3, [x11, x9, lsl #2]\n"@
        + "    fmax    s3, s3, s4\n"@
        + "    str     s3, [x12, x9, lsl #2]\n"@
    );
    assert(run(q3).stores =~= seq![
        Store::Elem(init(Reg::X12), init(Reg::X9), fmax(load(init(Reg::X11), init(Reg::X9)), init(Reg::S4))),
    ]);
    q3
}

/// The ReLU loop stores `max(x[i], 0)`: `s4` is cleared to zero before
/// the loop, and each pass stores at element `x9` of the destination
/// (`x12`) the larger of element `x9` of the source (`x11`) and `s4`, and
/// stores nothing else.
pub proof fn lemma_relu_clamps_at_zero(
    n_inputs: nat,
    total_floats: u64,
    model_idx: nat,
    relu_idx: nat,
    src_loc: BufferLoc,
    dst_loc: BufferLoc,
)
    ensures
        computes(
            relu_text(n_inputs, total_floats, model_idx, relu_idx, src_loc, dst_loc),
            Reg::S4,
            Term::FZero,
        ),
        stores(
            relu_text(n_inputs, total_floats, model_idx, relu_idx, src_loc, dst_loc),
            seq![
                Store::Elem(
                    init(Reg::X12),
                    init(Reg::X9),
                    fmax(load(init(Reg::X11), init(Reg::X9)), init(Reg::S4)),
                ),
            ],
        ),
{
    broadcast use lemma_piece_left;

    let pz = lemma_relu_zero();
    let pb = lemma_relu_body();
    let x_head = "    ; relu: copy-clamp from src to dst ("@
        + decimal(total_floats as nat)
        + " elements)\n"@
        + materialise_text(n_inputs, src_loc, "x11"@)
        + materialise_text(n_inputs, dst_loc, "x12"@);
    lemma_ends_self(x_head, "    fmov    s4, wzr\n"@);
    let mut x = x_head + "    fmov    s4, wzr\n"@;
    let mut x_end = "    fmov    s4, wzr\n"@;
    lemma_ends_piece(x, x_end);
    let y_head = x
        + movz_movk_text("x10"@, total_floats as nat)
        + "    mov     x9, #0\n"@
        + labeled(".Lrelu_"@, model_idx, relu_idx, ":\n"@)
        + "    cmp     x9, x10\n"@
        + labeled("    b.ge    .Lrelu_end_"@, model_idx, relu_idx, "\n"@);
    lemma_ends_self(y_head, "    ldr     s3, [x11, x9, lsl #2]\n"@);
    let mut y = y_head + "    ldr     s3, [x11, x9, lsl #2]\n"@;
    let mut y_end = "    ldr     s3, [x11, x9, lsl #2]\n"@;
    lemma_ends_grow(y, y_end, "    fmax    s3, s3, s4\n"@);
    y = y + "    fmax    s3, s3, s4\n"@;
    y_end = y_end + "    fmax    s3, s3, s4\n"@;
    lemma_ends_grow(y, y_end, "    str     s3, [x12, x9, lsl #2]\n"@);
    y = y + "    str     s3, [x12, x9, lsl #2]\n"@;
    y_end = y_end + "    str     s3, [x12, x9, lsl #2]\n"@;
    lemma_ends_piece(y, y_end);
    assert(has_piece(relu_text(n_inputs, total_floats, model_idx, relu_idx, src_loc, dst_loc), lines(pz)));
    assert(has_piece(relu_text(n_inputs, total_floats, model_idx, relu_idx, src_loc, dst_loc), lines(pb)));
}

spec fn dropout_body_text() -> Seq<char> {
    "    ldr     s3, [x11, x9, lsl #2]\n"@
        + "    str     s3, [x12, x9, lsl #2]\n"@
}

proof fn lemma_dropout_body() -> (p: Seq<Ins>)
    ensures
        lines(p) == dropout_body_text(),
        run(p).stores == seq![
            Store::Elem(init(Reg::X12), init(Reg::X9), load(init(Reg::X11), init(Reg::X9))),
        ],
{
    assert(Seq::<Ins>::empty().len() == 0);
    reveal_strlit("    ldr     ");
    reveal_strlit("    ldr     s3, [x11, x9, lsl #2]\n");
    reveal_strlit("    str     ");
    reveal_strlit("    str     s3, [x12, x9, lsl #2]\n");
    reveal_strlit(", ");
    reveal_strlit(", [");
    reveal_strlit(", lsl #2]\n");
    reveal_strlit("s3");
    reveal_strlit("x11");
    reveal_strlit("x12");
    reveal_strlit("x9");
    let q1 = Seq::<Ins>::empty().push(Ins::Ldr(Reg::S3, Reg::X11, Reg::X9));
    lemma_push(Seq::<Ins>::empty(), Ins::Ldr(Reg::S3, Reg::X11, Reg::X9));
    assert(line(Ins::Ldr(Reg::S3, Reg::X11, Reg::X9)) =~= "    ldr     s3, [x11, x9, lsl #2]\n"@);
    let q2 = q1.push(Ins::Str(Reg::S3, Reg::X12, Reg::X9));
    lemma_push(q1, Ins::Str(Reg::S3, Reg::X12, Reg::X9));
    assert(line(Ins::Str(Reg::S3, Reg::X12, Reg::X9)) =~= "    str     s3, [x12, x9, lsl #2]\n"@);
    assert(lines(q2) =~= "    ldr     s3, [x11, x9, lsl #2]\n"@ + "    str     s3, [x12, x9, lsl #2]\n"@);
    assert(run(q2).stores =~= seq![
        Store::Elem(init(Reg::X12), init(Reg::X9), load(init(Reg::X11), init(Reg::X9))),
    ]);
    q2
}

/// Dropout at inference is the identity: each pass of its copy loop
/// stores at element `x9` of the output (`x12`) element `x9` of the operand
/// (`x11`), unchanged, and stores nothing else.
pub proof fn lemma_dropout_copies(
    n_inputs: nat,
    total_floats: u64,
    model_idx: nat,
    dropout_idx: nat,
    src_loc: BufferLoc,
    dst_loc: BufferLoc,
)
    ensures
        stores(
            dropout_copy_text(n_inputs, total_floats, model_idx, dropout_idx, src_loc, dst_loc),
            seq![Store::Elem(init(Reg::X12), init(Reg::X9), load(init(Reg::X11), init(Reg::X9)))],
        ),
{
    broadcast use lemma_piece_left;

    let p = lemma_dropout_body();
    let x_head = "    ; dropout-as-output: copy operand\u{2192}output ("@
        + decimal(total_floats as nat)
        + " elements)\n"@
        + materialise_text(n_inputs, src_loc, "x11"@)
        + materialise_text(n_inputs, dst_loc, "x12"@)
        + movz_movk_text("x10"@, total_floats as nat)
        + "    mov     x9, #0\n"@
        + labeled(".Ldropout_"@, model_idx, dropout_idx, ":\n"@)
        + "    cmp     x9, x10\n"@
        + labeled("    b.ge    .Ldropout_end_"@, model_idx, dropout_idx, "\n"@);
    lemma_ends_self(x_head, "    ldr     s3, [x11, x9, lsl #2]\n"@);
    let mut x = x_head + "    ldr     s3, [x11, x9, lsl #2]\n"@;
    let mut x_end = "    ldr     s3, [x11, x9, lsl #2]\n"@;
    lemma_ends_grow(x, x_end, "    str     s3, [x12, x9, lsl #2]\n"@);
    x = x + "    str     s3, [x12, x9, lsl #2]\n"@;
    x_end = x_end + "    str     s3, [x12, x9, lsl #2]\n"@;
    lemma_ends_piece(x, x_end);
    assert(has_piece(
        dropout_copy_text(n_inputs, total_floats, model_idx, dropout_idx, src_loc, dst_loc),
        lines(p),
    ));
}

spec fn mulscalar_const_text(scalar_bits: u32) -> Seq<char> {
    movz_movk_text("w9"@, scalar_bits as nat)
        + "    fmov    s4, w9\n"@
}

proof fn lemma_mulscalar_const(scalar_bits: u32) -> (p: Seq<Ins>)
    ensures
        lines(p) == mulscalar_const_text(scalar_bits),
        value(run(p), Reg::S4) == Term::Bits(Box::new(Term::Imm(scalar_bits as nat))),
{
    lemma_movz_movk_loads(scalar_bits as nat);
    assert(Seq::<Ins>::empty().len() == 0);
    reveal_strlit("\n");
    reveal_strlit("    fmov    ");
    reveal_strlit("    fmov    s4, w9\n");
    reveal_strlit(", ");
    reveal_strlit("s4");
    reveal_strlit("w9");
    let q1 = Seq::<Ins>::empty().push(Ins::MovzMovk(Reg::W9, scalar_bits as nat));
    lemma_push(Seq::<Ins>::empty(), Ins::MovzMovk(Reg::W9, scalar_bits as nat));
    let q2 = q1.push(Ins::FmovBits(Reg::S4, Reg::W9));
    lemma_push(q1, Ins::FmovBits(Reg::S4, Reg::W9));
    assert(line(Ins::FmovBits(Reg::S4, Reg::W9)) =~= "    fmov    s4, w9\n"@);
    assert(lines(q2) =~= movz_movk_text("w9"@, scalar_bits as nat) + "    fmov    s4, w9\n"@);
    q2
}

spec fn mulscalar_body_text() -> Seq<char> {
    "    ldr     s0, [x11, x13, lsl #2]\n"@
        + "    fmul    s0, s0, s4\n"@
        + "    str     s0, [x12, x13, lsl #2]\n"@
}

proof fn lemma_mulscalar_body() -> (p: Seq<Ins>)
    ensures
        lines(p) == mulscalar_body_text(),
        run(p).stores == seq![
            Store::Elem(
                init(Reg::X12),
                init(Reg::X13),
                fmul(load(init(Reg::X11), init(Reg::X13)), init(Reg::S4)),
            ),
        ],
{
    assert(Seq::<Ins>::empty().len() == 0);
    reveal_strlit("\n");
    reveal_strlit("    fmul    ");
    reveal_strlit("    fmul    s0, s0, s4\n");
    reveal_strlit("    ldr     ");
    reveal_strlit("    ldr     s0, [x11, x13, lsl #2]\n");
    reveal_strlit("    str     ");
    reveal_strlit("    str     s0, [x12, x13, lsl #2]\n");
    reveal_strlit(", ");
    reveal_strlit(", [");
    reveal_strlit(", lsl #2]\n");
    reveal_strlit("s0");
    reveal_strlit("s4");
    reveal_strlit("x11");
    reveal_strlit("x12");
    reveal_strlit("x13");
    let q1 = Seq::<Ins>::empty().push(Ins::Ldr(Reg::S0, Reg::X11, Reg::X13));
    lemma_push(Seq::<Ins>::empty(), Ins::Ldr(Reg::S0, Reg::X11, Reg::X13));
    assert(line(Ins::Ldr(Reg::S0, Reg::X11, Reg::X13)) =~= "    ldr     s0, [x11, x13, lsl #2]\n"@);
    let q2 = q1.push(Ins::Fmul(Reg::S0, Reg::S0, Reg::S4));
    lemma_push(q1, Ins::Fmul(Reg::S0, Reg::S0, Reg::S4));
    assert(line(Ins::Fmul(Reg::S0, Reg::S0, Reg::S4)) =~= "    fmul    s0, s0, s4\n"@);
    let q3 = q2.push(Ins::Str(Reg::S0, Reg::X12, Reg::X13));
    lemma_push(q2, Ins::Str(Reg::S0, Reg::X12, Reg::X13));
    assert(line(Ins::Str(Reg::S0, Reg::X12, Reg::X13)) =~= "    str     s0, [x12, x13, lsl #2]\n"@);
    assert(
        lines(q3) =~= "    ldr     s0, [x11, x13, lsl #2]\n"@
        + "    fmul    s0, s0, s4\n"@
        + "    str     s0, [x12, x13, lsl #2]\n"@
    );
    assert(run(q3).stores =~= seq![
        Store::Elem(
            init(Reg::X12),
            init(Reg::X13),
            fmul(load(init(Reg::X11), init(Reg::X13)), init(Reg::S4)),
        ),
    ]);
    q3
}

/// The mul_scalar loop multiplies by the scalar: `s4` is loaded with the
/// f32 whose bits are `scalar_bits`, and each pass stores at element `x13`
/// of the destination (`x12`) element `x13` of the source (`x11`) times
/// `s4`, and stores nothing else.
pub proof fn lemma_mulscalar_scales(
    n_inputs: nat,
    total_elements: u64,
    scalar_bits: u32,
    model_idx: nat,
    op_idx: nat,
    src_loc: BufferLoc,
    dst_loc: BufferLoc,
)
    ensures
        computes(
            mulscalar_text(n_inputs, total_elements, scalar_bits, model_idx, op_idx, src_loc, dst_loc),
            Reg::S4,
            Term::Bits(Box::new(Term::Imm(scalar_bits as nat))),
        ),
        stores(
            mulscalar_text(n_inputs, total_elements, scalar_bits, model_idx, op_idx, src_loc, dst_loc),
            seq![
                Store::Elem(
                    init(Reg::X12),
                    init(Reg::X13),
                    fmul(load(init(Reg::X11), init(Reg::X13)), init(Reg::S4)),
                ),
            ],
        ),
{
    broadcast use lemma_piece_left;

    let pc = lemma_mulscalar_const(scalar_bits);
    let pb = lemma_mulscalar_body();
    let x_head = "    ; mul_scalar: total_elements="@
        + decimal(total_elements as nat)
        + ", scalar_bits=0x"@
        + hex_padded(scalar_bits as nat, 8)
        + "\n"@;
    lemma_ends_self(x_head, movz_movk_text("w9"@, scalar_bits as nat));
    let mut x = x_head + movz_movk_text("w9"@, scalar_bits as nat);
    let mut x_end = movz_movk_text("w9"@, scalar_bits as nat);
    lemma_ends_grow(x, x_end, "    fmov    s4, w9\n"@);
    x = x + "    fmov    s4, w9\n"@;
    x_end = x_end + "    fmov    s4, w9\n"@;
    lemma_ends_piece(x, x_end);
    let y_head = x
        + materialise_text(n_inputs, src_loc, "x11"@)
        + materialise_text(n_inputs, dst_loc, "x12"@)
        + "    mov     x13, #0\n"@
        + labeled(".Lms_"@, model_idx, op_idx, ":\n"@)
        + movz_movk_text("x10"@, total_elements as nat)
        + "    cmp     x13, x10\n"@
        + labeled("    b.ge    .Lms_end_"@, model_idx, op_idx, "\n"@);
    lemma_ends_self(y_head, "    ldr     s0, [x11, x13, lsl #2]\n"@);
    let mut y = y_head + "    ldr     s0, [x11, x13, lsl #2]\n"@;
    let mut y_end = "    ldr     s0, [x11, x13, lsl #2]\n"@;
    lemma_ends_grow(y, y_end, "    fmul    s0, s0, s4\n"@);
    y = y + "    fmul    s0, s0, s4\n"@;
    y_end = y_end + "    fmul    s0, s0, s4\n"@;
    lemma_ends_grow(y, y_end, "    str     s0, [x12, x13, lsl #2]\n"@);
    y = y + "    str     s0, [x12, x13, lsl #2]\n"@;
    y_end = y_end + "    str     s0, [x12, x13, lsl #2]\n"@;
    lemma_ends_piece(y, y_end);
    assert(has_piece(
        mulscalar_text(n_inputs, total_elements, scalar_bits, model_idx, op_idx, src_loc, dst_loc),
        lines(pc),
    ));
    assert(has_piece(
        mulscalar_text(n_inputs, total_elements, scalar_bits, model_idx, op_idx, src_loc, dst_loc),
        lines(pb),
    ));
}


proof fn lemma_softmax_max_step() -> (p: Seq<Ins>)
    ensures
        lines(p) == max_body(),
        value(run(p), Reg::S8) == fmax(init(Reg::S8), load(init(Reg::X22), softmax_element())),
{
    assert(Seq::<Ins>::empty().len() == 0);
    reveal_strlit("\n");
    reveal_strlit("    add     ");
    reveal_strlit("    add     x6, x20, x21\n");
    reveal_strlit("    fmax    ");
    reveal_strlit("    fmax    s8, s8, s1\n");
    reveal_strlit("    ldr     ");
    reveal_strlit("    ldr     s1, [x22, x6, lsl #2]\n");
    reveal_strlit(", ");
    reveal_strlit(", [");
    reveal_strlit(", lsl #2]\n");
    reveal_strlit("s1");
    reveal_strlit("s8");
    reveal_strlit("x20");
    reveal_strlit("x21");
    reveal_strlit("x22");
    reveal_strlit("x6");
    let q1 = Seq::<Ins>::empty().push(Ins::Add(Reg::X6, Reg::X20, Reg::X21));
    lemma_push(Seq::<Ins>::empty(), Ins::Add(Reg::X6, Reg::X20, Reg::X21));
    assert(line(Ins::Add(Reg::X6, Reg::X20, Reg::X21)) =~= "    add     x6, x20, x21\n"@);
    let q2 = q1.push(Ins::Ldr(Reg::S1, Reg::X22, Reg::X6));
    lemma_push(q1, Ins::Ldr(Reg::S1, Reg::X22, Reg::X6));
    assert(line(Ins::Ldr(Reg::S1, Reg::X22, Reg::X6)) =~= "    ldr     s1, [x22, x6, lsl #2]\n"@);
    let q3 = q2.push(Ins::Fmax(Reg::S8, Reg::S8, Reg::S1));
    lemma_push(q2, Ins::Fmax(Reg::S8, Reg::S8, Reg::S1));
    assert(line(Ins::Fmax(Reg::S8, Reg::S8, Reg::S1)) =~= "    fmax    s8, s8, s1\n"@);
    assert(
        lines(q3) =~= "    add     x6, x20, x21\n"@
        + "    ldr     s1, [x22, x6, lsl #2]\n"@
        + "    fmax    s8, s8, s1\n"@
    );
    q3
}

spec fn softmax_sub_max_text() -> Seq<char> {
    "    add     x6, x20, x21\n"@
        + "    ldr     s0, [x22, x6, lsl #2]\n"@
        + "    fsub    s0, s0, s8\n"@
}

proof fn lemma_softmax_sub_max() -> (p: Seq<Ins>)
    ensures
        lines(p) == softmax_sub_max_text(),
        value(run(p), Reg::S0) == fsub(load(init(Reg::X22), softmax_element()), init(Reg::S8)),
{
    assert(Seq::<Ins>::empty().len() == 0);
    reveal_strlit("\n");
    reveal_strlit("    add     ");
    reveal_strlit("    add     x6, x20, x21\n");
    reveal_strlit("    fsub    ");
    reveal_strlit("    fsub    s0, s0, s8\n");
    reveal_strlit("    ldr     ");
    reveal_strlit("    ldr     s0, [x22, x6, lsl #2]\n");
    reveal_strlit(", ");
    reveal_strlit(", [");
    reveal_strlit(", lsl #2]\n");
    reveal_strlit("s0");
    reveal_strlit("s8");
    reveal_strlit("x20");
    reveal_strlit("x21");
    reveal_strlit("x22");
    reveal_strlit("x6");
    let q1 = Seq::<Ins>::empty().push(Ins::Add(Reg::X6, Reg::X20, Reg::X21));
    lemma_push(Seq::<Ins>::empty(), Ins::Add(Reg::X6, Reg::X20, Reg::X21));
    assert(line(Ins::Add(Reg::X6, Reg::X20, Reg::X21)) =~= "    add     x6, x20, x21\n"@);
    let q2 = q1.push(Ins::Ldr(Reg::S0, Reg::X22, Reg::X6));
    lemma_push(q1, Ins::Ldr(Reg::S0, Reg::X22, Reg::X6));
    assert(line(Ins::Ldr(Reg::S0, Reg::X22, Reg::X6)) =~= "    ldr     s0, [x22, x6, lsl #2]\n"@);
    let q3 = q2.push(Ins::Fsub(Reg::S0, Reg::S0, Reg::S8));
    lemma_push(q2, Ins::Fsub(Reg::S0, Reg::S0, Reg::S8));
    assert(line(Ins::Fsub(Reg::S0, Reg::S0, Reg::S8)) =~= "    fsub    s0, s0, s8\n"@);
    assert(
        lines(q3) =~= "    add     x6, x20, x21\n"@
        + "    ldr     s0, [x22, x6, lsl #2]\n"@
        + "    fsub    s0, s0, s8\n"@
    );
    q3
}

proof fn lemma_softmax_max_pieces(stem: Seq<char>, b: u64, k: u64, id: Seq<char>, sym_prefix: Seq<char>)
    ensures
        has_piece(softmax_rows_text(stem, b, k, id, sym_prefix), max_body()),
        has_piece(softmax_rows_text(stem, b, k, id, sym_prefix), softmax_sub_max_text()),
{
    broadcast use lemma_piece_left, lemma_piece_right;

    lemma_piece_self(max_body());
    assert(has_piece(sm_pass(stem, "_max"@, k, id, max_body()), max_body()));
    lemma_piece_self(softmax_sub_max_text());
    assert(has_piece(exp_body(sym_prefix), softmax_sub_max_text()));
    assert(has_piece(sm_pass(stem, "_exp"@, k, id, exp_body(sym_prefix)), softmax_sub_max_text()));
}

/// The standalone softmax subtracts the row maximum before the
/// exponential: its max pass takes in `s8` the larger of the running
/// maximum and each element of the row (source in `x22`, element
/// `x20 + x21`), and its exp pass starts from the element minus `s8`.
pub proof fn lemma_softmax_subtracts_row_max(
    n_inputs: nat,
    b: u64,
    k: u64,
    id: Seq<char>,
    src_loc: BufferLoc,
    dst_loc: BufferLoc,
    sym_prefix: Seq<char>,
)
    ensures
        computes(
            softmax_text(n_inputs, b, k, id, src_loc, dst_loc, sym_prefix),
            Reg::S8,
            fmax(init(Reg::S8), load(init(Reg::X22), softmax_element())),
        ),
        computes(
            softmax_text(n_inputs, b, k, id, src_loc, dst_loc, sym_prefix),
            Reg::S0,
            fsub(load(init(Reg::X22), softmax_element()), init(Reg::S8)),
        ),
{
    let text = softmax_text(n_inputs, b, k, id, src_loc, dst_loc, sym_prefix);
    lemma_softmax_max_pieces("sm"@, b, k, id, sym_prefix);
    let p1 = lemma_softmax_max_step();
    lemma_softmax_rows_in_text(n_inputs, b, k, id, src_loc, dst_loc, sym_prefix, lines(p1));
    assert(has_piece(text, lines(p1)));
    let p2 = lemma_softmax_sub_max();
    lemma_softmax_rows_in_text(n_inputs, b, k, id, src_loc, dst_loc, sym_prefix, lines(p2));
    assert(has_piece(text, lines(p2)));
}

/// The row softmax fused into a linear layer subtracts the row maximum in
/// the same way.
pub proof fn lemma_fused_softmax_subtracts_row_max(
    n_inputs: nat,
    b: u64,
    k: u64,
    n: u64,
    id: Seq<char>,
    src_loc: BufferLoc,
    dst_loc: BufferLoc,
    weight_offset: nat,
    bias_offset: Option<usize>,
    posts: Seq<PostOp>,
    sym_prefix: Seq<char>,
)
    requires
        posts.contains(PostOp::SoftmaxRow),
    ensures
        computes(
            linear_text(
                n_inputs,
                b,
                k,
                n,
                id,
                src_loc,
                dst_loc,
                weight_offset,
                bias_offset,
                posts,
                sym_prefix,
            ),
            Reg::S8,
            fmax(init(Reg::S8), load(init(Reg::X22), softmax_element())),
        ),
        computes(
            linear_text(
                n_inputs,
                b,
                k,
                n,
                id,
                src_loc,
                dst_loc,
                weight_offset,
                bias_offset,
                posts,
                sym_prefix,
            ),
            Reg::S0,
            fsub(load(init(Reg::X22), softmax_element()), init(Reg::S8)),
        ),
{
    let text = linear_text(
        n_inputs,
        b,
        k,
        n,
        id,
        src_loc,
        dst_loc,
        weight_offset,
        bias_offset,
        posts,
        sym_prefix,
    );
    lemma_softmax_max_pieces("fsmx"@, b, n, id, sym_prefix);
    let p1 = lemma_softmax_max_step();
    lemma_fused_rows_in_text(
        n_inputs,
        b,
        k,
        n,
        id,
        src_loc,
        dst_loc,
        weight_offset,
        bias_offset,
        posts,
        sym_prefix,
        lines(p1),
    );
    assert(has_piece(text, lines(p1)));
    let p2 = lemma_softmax_sub_max();
    lemma_fused_rows_in_text(
        n_inputs,
        b,
        k,
        n,
        id,
        src_loc,
        dst_loc,
        weight_offset,
        bias_offset,
        posts,
        sym_prefix,
        lines(p2),
    );
    assert(has_piece(text, lines(p2)));
}


/// A loop head compares its counter with its bound, loaded into the bound
/// register.
pub proof fn lemma_loop_head_compares(
    label: Seq<char>,
    exit_jump: Seq<char>,
    counter: Reg,
    bound_reg: Reg,
    bound: nat,
    id: Seq<char>,
)
    requires
        counter != bound_reg,
        bound <= u32::MAX,
    ensures
        compares(
            loop_head(label, exit_jump, reg_name(counter), reg_name(bound_reg), bound, id),
            init(counter),
            Term::Imm(bound),
        ),
{
    broadcast use lemma_piece_left;

    lemma_movz_movk_loads(bound);
    let i1 = Ins::MovzMovk(bound_reg, bound);
    let i2 = Ins::Cmp(counter, bound_reg);
    let p1 = Seq::<Ins>::empty().push(i1);
    let p = p1.push(i2);
    lemma_push(Seq::<Ins>::empty(), i1);
    lemma_push(p1, i2);
    assert(Seq::<Ins>::empty().len() == 0);
    assert(run(p).compares =~= seq![(init(counter), Term::Imm(bound))]);
    let load = movz_movk_text(reg_name(bound_reg), bound);
    let cmp = "    cmp     "@ + reg_name(counter) + ", "@ + reg_name(bound_reg) + "\n"@;
    assert(lines(p) =~= load + cmp);
    let head = label + id + ":\n"@;
    lemma_ends_self(head, load);
    lemma_ends_grow(head + load, load, "    cmp     "@);
    lemma_ends_grow(head + load + "    cmp     "@, load + "    cmp     "@, reg_name(counter));
    lemma_ends_grow(
        head + load + "    cmp     "@ + reg_name(counter),
        load + "    cmp     "@ + reg_name(counter),
        ", "@,
    );
    lemma_ends_grow(
        head + load + "    cmp     "@ + reg_name(counter) + ", "@,
        load + "    cmp     "@ + reg_name(counter) + ", "@,
        reg_name(bound_reg),
    );
    lemma_ends_grow(
        head + load + "    cmp     "@ + reg_name(counter) + ", "@ + reg_name(bound_reg),
        load + "    cmp     "@ + reg_name(counter) + ", "@ + reg_name(bound_reg),
        "\n"@,
    );
    lemma_ends_piece(
        head + load + "    cmp     "@ + reg_name(counter) + ", "@ + reg_name(bound_reg) + "\n"@,
        load + "    cmp     "@ + reg_name(counter) + ", "@ + reg_name(bound_reg) + "\n"@,
    );
    assert(load + "    cmp     "@ + reg_name(counter) + ", "@ + reg_name(bound_reg) + "\n"@ =~= lines(p));
    assert(has_piece(
        loop_head(label, exit_jump, reg_name(counter), reg_name(bound_reg), bound, id),
        lines(p),
    ));
}


/// The matmul loops run over the leading dimensions, `i < M`, `j < N` and
/// `kk < K`: each loop head compares its counter (`x15`, `x16`, `x17`,
/// `x7`) with that bound.
pub proof fn lemma_matmul_loop_bounds(
    n_inputs: nat,
    leading_count: u64,
    m: u64,
    k: u64,
    n: u64,
    transpose_b: bool,
    id: Seq<char>,
    a_loc: BufferLoc,
    b_loc: BufferLoc,
    dst_loc: BufferLoc,
)
    requires
        leading_count <= u32::MAX,
        m <= u32::MAX,
        k <= u32::MAX,
        n <= u32::MAX,
    ensures
        compares(
            matmul_text(n_inputs, leading_count, m, k, n, transpose_b, id, a_loc, b_loc, dst_loc),
            init(Reg::X15),
            Term::Imm(leading_count as nat),
        ),
        compares(
            matmul_text(n_inputs, leading_count, m, k, n, transpose_b, id, a_loc, b_loc, dst_loc),
            init(Reg::X16),
            Term::Imm(m as nat),
        ),
        compares(
            matmul_text(n_inputs, leading_count, m, k, n, transpose_b, id, a_loc, b_loc, dst_loc),
            init(Reg::X17),
            Term::Imm(n as nat),
        ),
        compares(
            matmul_text(n_inputs, leading_count, m, k, n, transpose_b, id, a_loc, b_loc, dst_loc),
            init(Reg::X7),
            Term::Imm(k as nat),
        ),
{
    broadcast use lemma_piece_left, lemma_piece_right;

    lemma_loop_head_compares(
        ".Lmm4d_outer_"@,
        "    b.ge    .Lmm4d_outer_end_"@,
        Reg::X15,
        Reg::X8,
        leading_count as nat,
        id,
    );
    lemma_piece_self(loop_head(".Lmm4d_outer_"@, "    b.ge    .Lmm4d_outer_end_"@, "x15"@, "x8"@, leading_count as nat, id));
    assert(has_piece(
        matmul_text(n_inputs, leading_count, m, k, n, transpose_b, id, a_loc, b_loc, dst_loc),
        loop_head(".Lmm4d_outer_"@, "    b.ge    .Lmm4d_outer_end_"@, "x15"@, "x8"@, leading_count as nat, id),
    ));
    lemma_compares_within(
        matmul_text(n_inputs, leading_count, m, k, n, transpose_b, id, a_loc, b_loc, dst_loc),
        loop_head(
            ".Lmm4d_outer_"@,
            "    b.ge    .Lmm4d_outer_end_"@,
            "x15"@,
            "x8"@,
            leading_count as nat,
            id,
        ),
        init(Reg::X15),
        Term::Imm(leading_count as nat),
    );
    lemma_loop_head_compares(".Lmm4d_i_"@, "    b.ge    .Lmm4d_i_end_"@, Reg::X16, Reg::X8, m as nat, id);
    lemma_piece_self(loop_head(".Lmm4d_i_"@, "    b.ge    .Lmm4d_i_end_"@, "x16"@, "x8"@, m as nat, id));
    assert(has_piece(
        matmul_text(n_inputs, leading_count, m, k, n, transpose_b, id, a_loc, b_loc, dst_loc),
        loop_head(".Lmm4d_i_"@, "    b.ge    .Lmm4d_i_end_"@, "x16"@, "x8"@, m as nat, id),
    ));
    lemma_compares_within(
        matmul_text(n_inputs, leading_count, m, k, n, transpose_b, id, a_loc, b_loc, dst_loc),
        loop_head(".Lmm4d_i_"@, "    b.ge    .Lmm4d_i_end_"@, "x16"@, "x8"@, m as nat, id),
        init(Reg::X16),
        Term::Imm(m as nat),
    );
    lemma_loop_head_compares(".Lmm4d_j_"@, "    b.ge    .Lmm4d_j_end_"@, Reg::X17, Reg::X8, n as nat, id);
    lemma_piece_self(loop_head(".Lmm4d_j_"@, "    b.ge    .Lmm4d_j_end_"@, "x17"@, "x8"@, n as nat, id));
    assert(has_piece(
        matmul_text(n_inputs, leading_count, m, k, n, transpose_b, id, a_loc, b_loc, dst_loc),
        loop_head(".Lmm4d_j_"@, "    b.ge    .Lmm4d_j_end_"@, "x17"@, "x8"@, n as nat, id),
    ));
    lemma_compares_within(
        matmul_text(n_inputs, leading_count, m, k, n, transpose_b, id, a_loc, b_loc, dst_loc),
        loop_head(".Lmm4d_j_"@, "    b.ge    .Lmm4d_j_end_"@, "x17"@, "x8"@, n as nat, id),
        init(Reg::X17),
        Term::Imm(n as nat),
    );
    lemma_loop_head_compares(".Lmm4d_k_"@, "    b.ge    .Lmm4d_k_end_"@, Reg::X7, Reg::X8, k as nat, id);
    lemma_piece_self(loop_head(".Lmm4d_k_"@, "    b.ge    .Lmm4d_k_end_"@, "x7"@, "x8"@, k as nat, id));
    assert(has_piece(
        matmul_text(n_inputs, leading_count, m, k, n, transpose_b, id, a_loc, b_loc, dst_loc),
        loop_head(".Lmm4d_k_"@, "    b.ge    .Lmm4d_k_end_"@, "x7"@, "x8"@, k as nat, id),
    ));
    lemma_compares_within(
        matmul_text(n_inputs, leading_count, m, k, n, transpose_b, id, a_loc, b_loc, dst_loc),
        loop_head(".Lmm4d_k_"@, "    b.ge    .Lmm4d_k_end_"@, "x7"@, "x8"@, k as nat, id),
        init(Reg::X7),
        Term::Imm(k as nat),
    );
}


proof fn lemma_layernorm_heads(b: u64, d: u64, has_affine: bool, inv_d: u32, lid: Seq<char>)
    ensures
        has_piece(
            layernorm_rows_text(b, d, has_affine, inv_d, lid),
            loop_head(".Lln_row_"@, "    b.ge    .Lln_row_end_"@, "x12"@, "x6"@, b as nat, lid),
        ),
        has_piece(
            layernorm_rows_text(b, d, has_affine, inv_d, lid),
            loop_head(
                ".Lln_"@ + "p1"@ + "_"@,
                "    b.ge    .Lln_"@ + "p1"@ + "_end_"@,
                "x11"@,
                "x6"@,
                d as nat,
                lid,
            ),
        ),
{
    broadcast use lemma_piece_left, lemma_piece_right;

    lemma_piece_self(loop_head(".Lln_row_"@, "    b.ge    .Lln_row_end_"@, "x12"@, "x6"@, b as nat, lid));
    lemma_piece_self(loop_head(".Lln_"@ + "p1"@ + "_"@, "    b.ge    .Lln_"@ + "p1"@ + "_end_"@, "x11"@, "x6"@, d as nat, lid));
    assert(has_piece(
        ln_pass("p1"@, d, lid, "    ldr     s6, [x9, x11, lsl #2]\n"@ + "    fadd    s0, s0, s6\n"@),
        loop_head(".Lln_"@ + "p1"@ + "_"@, "    b.ge    .Lln_"@ + "p1"@ + "_end_"@, "x11"@, "x6"@, d as nat, lid),
    ));
}

/// Layernorm runs over the rows, `row < b`, and over each row's elements,
/// `j < d`: the loop heads compare `x12` with `b` and `x11` with `d`.
pub proof fn lemma_layernorm_loop_bounds(
    n_inputs: nat,
    b: u64,
    d: u64,
    lid: Seq<char>,
    src_loc: BufferLoc,
    dst_loc: BufferLoc,
    gamma_offset: Option<usize>,
    beta_offset: Option<usize>,
)
    requires
        b <= u32::MAX,
        d <= u32::MAX,
    ensures
        compares(
            layernorm_text(n_inputs, b, d, lid, src_loc, dst_loc, gamma_offset, beta_offset),
            init(Reg::X12),
            Term::Imm(b as nat),
        ),
        compares(
            layernorm_text(n_inputs, b, d, lid, src_loc, dst_loc, gamma_offset, beta_offset),
            init(Reg::X11),
            Term::Imm(d as nat),
        ),
{
    lemma_layernorm_heads(b, d, gamma_offset is Some, recip_bits(d as nat) as u32, lid);
    lemma_loop_head_compares(".Lln_row_"@, "    b.ge    .Lln_row_end_"@, Reg::X12, Reg::X6, b as nat, lid);
    lemma_layernorm_rows_in_text(
        n_inputs,
        b,
        d,
        lid,
        src_loc,
        dst_loc,
        gamma_offset,
        beta_offset,
        loop_head(".Lln_row_"@, "    b.ge    .Lln_row_end_"@, "x12"@, "x6"@, b as nat, lid),
    );
    lemma_compares_within(
        layernorm_text(n_inputs, b, d, lid, src_loc, dst_loc, gamma_offset, beta_offset),
        loop_head(".Lln_row_"@, "    b.ge    .Lln_row_end_"@, "x12"@, "x6"@, b as nat, lid),
        init(Reg::X12),
        Term::Imm(b as nat),
    );
    lemma_loop_head_compares(
        ".Lln_"@ + "p1"@ + "_"@,
        "    b.ge    .Lln_"@ + "p1"@ + "_end_"@,
        Reg::X11,
        Reg::X6,
        d as nat,
        lid,
    );
    lemma_layernorm_rows_in_text(
        n_inputs,
        b,
        d,
        lid,
        src_loc,
        dst_loc,
        gamma_offset,
        beta_offset,
        loop_head(
            ".Lln_"@ + "p1"@ + "_"@,
            "    b.ge    .Lln_"@ + "p1"@ + "_end_"@,
            "x11"@,
            "x6"@,
            d as nat,
            lid,
        ),
    );
    lemma_compares_within(
        layernorm_text(n_inputs, b, d, lid, src_loc, dst_loc, gamma_offset, beta_offset),
        loop_head(
            ".Lln_"@ + "p1"@ + "_"@,
            "    b.ge    .Lln_"@ + "p1"@ + "_end_"@,
            "x11"@,
            "x6"@,
            d as nat,
            lid,
        ),
        init(Reg::X11),
        Term::Imm(d as nat),
    );
}


proof fn lemma_softmax_heads(stem: Seq<char>, b: u64, k: u64, id: Seq<char>, sym_prefix: Seq<char>)
    ensures
        has_piece(
            softmax_rows_text(stem, b, k, id, sym_prefix),
            loop_head(
                sm_label(stem, "_i_"@),
                sm_jump("    b.ge    .L"@, stem, "_i_end_"@),
                "x19"@,
                "x10"@,
                b as nat,
                id,
            ),
        ),
        has_piece(
            softmax_rows_text(stem, b, k, id, sym_prefix),
            loop_head(
                sm_label(stem, "_norm"@ + "_"@),
                sm_jump("    b.ge    .L"@, stem, "_norm"@ + "_end_"@),
                "x21"@,
                "x10"@,
                k as nat,
                id,
            ),
        ),
{
    broadcast use lemma_piece_left, lemma_piece_right;

    lemma_piece_self(loop_head(sm_label(stem, "_i_"@), sm_jump("    b.ge    .L"@, stem, "_i_end_"@), "x19"@, "x10"@, b as nat, id));
    lemma_piece_self(loop_head(sm_label(stem, "_norm"@ + "_"@), sm_jump("    b.ge    .L"@, stem, "_norm"@ + "_end_"@), "x21"@, "x10"@, k as nat, id));
    assert(has_piece(
        sm_pass(stem, "_norm"@, k, id, norm_body()),
        loop_head(
            sm_label(stem, "_norm"@ + "_"@),
            sm_jump("    b.ge    .L"@, stem, "_norm"@ + "_end_"@),
            "x21"@,
            "x10"@,
            k as nat,
            id,
        ),
    ));
}

/// The softmax runs over the rows, `row < b`, and over each row's
/// elements, `j < k`: the loop heads compare `x19` with `b` and `x21` with
/// `k`.
pub proof fn lemma_softmax_loop_bounds(
    n_inputs: nat,
    b: u64,
    k: u64,
    id: Seq<char>,
    src_loc: BufferLoc,
    dst_loc: BufferLoc,
    sym_prefix: Seq<char>,
)
    requires
        b <= u32::MAX,
        k <= u32::MAX,
    ensures
        compares(
            softmax_text(n_inputs, b, k, id, src_loc, dst_loc, sym_prefix),
            init(Reg::X19),
            Term::Imm(b as nat),
        ),
        compares(
            softmax_text(n_inputs, b, k, id, src_loc, dst_loc, sym_prefix),
            init(Reg::X21),
            Term::Imm(k as nat),
        ),
{
    let text = softmax_text(n_inputs, b, k, id, src_loc, dst_loc, sym_prefix);
    lemma_softmax_heads("sm"@, b, k, id, sym_prefix);
    lemma_loop_head_compares(
        sm_label("sm"@, "_i_"@),
        sm_jump("    b.ge    .L"@, "sm"@, "_i_end_"@),
        Reg::X19,
        Reg::X10,
        b as nat,
        id,
    );
    lemma_softmax_rows_in_text(
        n_inputs,
        b,
        k,
        id,
        src_loc,
        dst_loc,
        sym_prefix,
        loop_head(
            sm_label("sm"@, "_i_"@),
            sm_jump("    b.ge    .L"@, "sm"@, "_i_end_"@),
            "x19"@,
            "x10"@,
            b as nat,
            id,
        ),
    );
    lemma_compares_within(
        text,
        loop_head(
            sm_label("sm"@, "_i_"@),
            sm_jump("    b.ge    .L"@, "sm"@, "_i_end_"@),
            "x19"@,
            "x10"@,
            b as nat,
            id,
        ),
        init(Reg::X19),
        Term::Imm(b as nat),
    );
    lemma_loop_head_compares(
        sm_label("sm"@, "_norm"@ + "_"@),
        sm_jump("    b.ge    .L"@, "sm"@, "_norm"@ + "_end_"@),
        Reg::X21,
        Reg::X10,
        k as nat,
        id,
    );
    lemma_softmax_rows_in_text(
        n_inputs,
        b,
        k,
        id,
        src_loc,
        dst_loc,
        sym_prefix,
        loop_head(
            sm_label("sm"@, "_norm"@ + "_"@),
            sm_jump("    b.ge    .L"@, "sm"@, "_norm"@ + "_end_"@),
            "x21"@,
            "x10"@,
            k as nat,
            id,
        ),
    );
    lemma_compares_within(
        text,
        loop_head(
            sm_label("sm"@, "_norm"@ + "_"@),
            sm_jump("    b.ge    .L"@, "sm"@, "_norm"@ + "_end_"@),
            "x21"@,
            "x10"@,
            k as nat,
            id,
        ),
        init(Reg::X21),
        Term::Imm(k as nat),
    );
}

/// The row softmax fused into a linear layer runs over the rows, `row < b`,
/// and over each row's elements, `j < n`.
#[verifier::rlimit(60)]
pub proof fn lemma_fused_softmax_loop_bounds(
    n_inputs: nat,
    b: u64,
    k: u64,
    n: u64,
    id: Seq<char>,
    src_loc: BufferLoc,
    dst_loc: BufferLoc,
    weight_offset: nat,
    bias_offset: Option<usize>,
    posts: Seq<PostOp>,
    sym_prefix: Seq<char>,
)
    requires
        b <= u32::MAX,
        n <= u32::MAX,
        posts.contains(PostOp::SoftmaxRow),
    ensures
        compares(
            linear_text(n_inputs, b, k, n, id, src_loc, dst_loc, weight_offset, bias_offset, posts, sym_prefix),
            init(Reg::X19),
            Term::Imm(b as nat),
        ),
        compares(
            linear_text(n_inputs, b, k, n, id, src_loc, dst_loc, weight_offset, bias_offset, posts, sym_prefix),
            init(Reg::X21),
            Term::Imm(n as nat),
        ),
{
    let text = linear_text(
        n_inputs,
        b,
        k,
        n,
        id,
        src_loc,
        dst_loc,
        weight_offset,
        bias_offset,
        posts,
        sym_prefix,
    );
    lemma_softmax_heads("fsmx"@, b, n, id, sym_prefix);
    lemma_loop_head_compares(
        sm_label("fsmx"@, "_i_"@),
        sm_jump("    b.ge    .L"@, "fsmx"@, "_i_end_"@),
        Reg::X19,
        Reg::X10,
        b as nat,
        id,
    );
    lemma_fused_rows_in_text(
        n_inputs, b, k, n, id, src_loc, dst_loc, weight_offset, bias_offset, posts, sym_prefix,
        loop_head(sm_label("fsmx"@, "_i_"@), sm_jump("    b.ge    .L"@, "fsmx"@, "_i_end_"@), "x19"@, "x10"@, b as nat, id),
    );
    lemma_compares_within(
        text,
        loop_head(
            sm_label("fsmx"@, "_i_"@),
            sm_jump("    b.ge    .L"@, "fsmx"@, "_i_end_"@),
            "x19"@,
            "x10"@,
            b as nat,
            id,
        ),
        init(Reg::X19),
        Term::Imm(b as nat),
    );
    lemma_loop_head_compares(
        sm_label("fsmx"@, "_norm"@ + "_"@),
        sm_jump("    b.ge    .L"@, "fsmx"@, "_norm"@ + "_end_"@),
        Reg::X21,
        Reg::X10,
        n as nat,
        id,
    );
    lemma_fused_rows_in_text(
        n_inputs, b, k, n, id, src_loc, dst_loc, weight_offset, bias_offset, posts, sym_prefix,
        loop_head(sm_label("fsmx"@, "_norm"@ + "_"@), sm_jump("    b.ge    .L"@, "fsmx"@, "_norm"@ + "_end_"@), "x21"@, "x10"@, n as nat, id),
    );
    lemma_compares_within(
        text,
        loop_head(
            sm_label("fsmx"@, "_norm"@ + "_"@),
            sm_jump("    b.ge    .L"@, "fsmx"@, "_norm"@ + "_end_"@),
            "x21"@,
            "x10"@,
            n as nat,
            id,
        ),
        init(Reg::X21),
        Term::Imm(n as nat),
    );
}


proof fn lemma_linear_compare_pieces(has_bias: bool, posts: Seq<PostOp>, id: Seq<char>)
    ensures
        has_piece(
            linear_loops_text(has_bias, posts, id),
            "    cmp     "@ + reg_name(Reg::X3) + ", "@ + reg_name(Reg::X10) + "\n"@,
        ),
        has_piece(
            linear_loops_text(has_bias, posts, id),
            "    cmp     "@ + reg_name(Reg::X4) + ", "@ + reg_name(Reg::X15) + "\n"@,
        ),
        has_piece(
            linear_loops_text(has_bias, posts, id),
            "    cmp     "@ + reg_name(Reg::X5) + ", "@ + reg_name(Reg::X16) + "\n"@,
        ),
{
    broadcast use lemma_piece_left, lemma_piece_right;

    reveal_strlit("    cmp     ");
    reveal_strlit(", ");
    reveal_strlit("\n");
    reveal_strlit("x3");
    reveal_strlit("x4");
    reveal_strlit("x5");
    reveal_strlit("x10");
    reveal_strlit("x15");
    reveal_strlit("x16");
    reveal_strlit("    cmp     x3, x10\n");
    reveal_strlit("    cmp     x4, x15\n");
    reveal_strlit("    cmp     x5, x16\n");
    assert("    cmp     "@ + reg_name(Reg::X3) + ", "@ + reg_name(Reg::X10) + "\n"@ =~= "    cmp     x3, x10\n"@);
    assert("    cmp     "@ + reg_name(Reg::X4) + ", "@ + reg_name(Reg::X15) + "\n"@ =~= "    cmp     x4, x15\n"@);
    assert("    cmp     "@ + reg_name(Reg::X5) + ", "@ + reg_name(Reg::X16) + "\n"@ =~= "    cmp     x5, x16\n"@);
    lemma_piece_self("    cmp     x3, x10\n"@);
    lemma_piece_self("    cmp     x4, x15\n"@);
    lemma_piece_self("    cmp     x5, x16\n"@);
}

proof fn lemma_linear_compare_in_text(
    n_inputs: nat,
    b: u64,
    k: u64,
    n: u64,
    id: Seq<char>,
    src_loc: BufferLoc,
    dst_loc: BufferLoc,
    weight_offset: nat,
    bias_offset: Option<usize>,
    posts: Seq<PostOp>,
    sym_prefix: Seq<char>,
    counter: Reg,
    bound: Reg,
)
    requires
        has_piece(
            linear_loops_text(bias_offset is Some, posts, id),
            "    cmp     "@ + reg_name(counter) + ", "@ + reg_name(bound) + "\n"@,
        ),
    ensures
        compares(
            linear_text(
                n_inputs,
                b,
                k,
                n,
                id,
                src_loc,
                dst_loc,
                weight_offset,
                bias_offset,
                posts,
                sym_prefix,
            ),
            init(counter),
            init(bound),
        ),
{
    let p = Seq::<Ins>::empty().push(Ins::Cmp(counter, bound));
    lemma_push(Seq::<Ins>::empty(), Ins::Cmp(counter, bound));
    assert(Seq::<Ins>::empty().len() == 0);
    assert(lines(p) =~= "    cmp     "@ + reg_name(counter) + ", "@ + reg_name(bound) + "\n"@);
    assert(run(p).compares =~= seq![(init(counter), init(bound))]);
    lemma_linear_pieces_in_text(
        n_inputs,
        b,
        k,
        n,
        id,
        src_loc,
        dst_loc,
        weight_offset,
        bias_offset,
        posts,
        sym_prefix,
        lines(p),
    );
    assert(has_piece(
        linear_text(n_inputs, b, k, n, id, src_loc, dst_loc, weight_offset, bias_offset, posts, sym_prefix),
        lines(p),
    ));
}

/// The linear loops run over `i < b`, `j < n` and `kk < k`: the header
/// loads `b`, `n` and `k` into `x10`, `x15` and `x16`, and the loops compare
/// their counters `x3`, `x4` and `x5` with those registers.
pub proof fn lemma_linear_loop_bounds(
    n_inputs: nat,
    b: u64,
    k: u64,
    n: u64,
    id: Seq<char>,
    src_loc: BufferLoc,
    dst_loc: BufferLoc,
    weight_offset: nat,
    bias_offset: Option<usize>,
    posts: Seq<PostOp>,
    sym_prefix: Seq<char>,
)
    requires
        b <= u32::MAX,
    ensures
        computes(
            linear_text(
                n_inputs,
                b,
                k,
                n,
                id,
                src_loc,
                dst_loc,
                weight_offset,
                bias_offset,
                posts,
                sym_prefix,
            ),
            Reg::X10,
            Term::Imm(b as nat),
        ),
        compares(
            linear_text(
                n_inputs,
                b,
                k,
                n,
                id,
                src_loc,
                dst_loc,
                weight_offset,
                bias_offset,
                posts,
                sym_prefix,
            ),
            init(Reg::X3),
            init(Reg::X10),
        ),
        compares(
            linear_text(
                n_inputs,
                b,
                k,
                n,
                id,
                src_loc,
                dst_loc,
                weight_offset,
                bias_offset,
                posts,
                sym_prefix,
            ),
            init(Reg::X4),
            init(Reg::X15),
        ),
        compares(
            linear_text(
                n_inputs,
                b,
                k,
                n,
                id,
                src_loc,
                dst_loc,
                weight_offset,
                bias_offset,
                posts,
                sym_prefix,
            ),
            init(Reg::X5),
            init(Reg::X16),
        ),
{
    let pb = lemma_wide_immediate(Reg::X10, b as nat);
    lemma_linear_pieces_in_text(
        n_inputs,
        b,
        k,
        n,
        id,
        src_loc,
        dst_loc,
        weight_offset,
        bias_offset,
        posts,
        sym_prefix,
        lines(pb),
    );
    assert(has_piece(
        linear_text(n_inputs, b, k, n, id, src_loc, dst_loc, weight_offset, bias_offset, posts, sym_prefix),
        lines(pb),
    ));
    lemma_linear_compare_pieces(bias_offset is Some, posts, id);
    lemma_linear_compare_in_text(
        n_inputs,
        b,
        k,
        n,
        id,
        src_loc,
        dst_loc,
        weight_offset,
        bias_offset,
        posts,
        sym_prefix,
        Reg::X3,
        Reg::X10,
    );
    lemma_linear_compare_in_text(
        n_inputs,
        b,
        k,
        n,
        id,
        src_loc,
        dst_loc,
        weight_offset,
        bias_offset,
        posts,
        sym_prefix,
        Reg::X4,
        Reg::X15,
    );
    lemma_linear_compare_in_text(
        n_inputs,
        b,
        k,
        n,
        id,
        src_loc,
        dst_loc,
        weight_offset,
        bias_offset,
        posts,
        sym_prefix,
        Reg::X5,
        Reg::X16,
    );
}


/// Where slice `x15` of an operand of `size` elements starts: its base
/// plus `x15 * size` elements of 4 bytes.
pub open spec fn slice_start(base: Reg, size: nat) -> Term {
    Term::IAdd(
        Box::new(init(base)),
        Box::new(Term::IMul(Box::new(imul(init(Reg::X15), Term::Imm(size))), Box::new(Term::Imm(4)))),
    )
}

proof fn lemma_slice_pointer(size: nat, base: Reg, reg: Reg) -> (p: Seq<Ins>)
    requires
        size <= u32::MAX,
        base != Reg::X6 && base != Reg::X8,
    ensures
        lines(p) == slice_ptr_text(size, reg_name(base), reg_name(reg)),
        value(run(p), reg) == slice_start(base, size),
{
    lemma_movz_movk_loads(size);
    let i1 = Ins::MovzMovk(Reg::X8, size);
    let i2 = Ins::Mul(Reg::X6, Reg::X15, Reg::X8);
    let i3 = Ins::AddLsl2(reg, base, Reg::X6);
    let p1 = Seq::<Ins>::empty().push(i1);
    let p2 = p1.push(i2);
    let p = p2.push(i3);
    lemma_push(Seq::<Ins>::empty(), i1);
    lemma_push(p1, i2);
    lemma_push(p2, i3);
    assert(Seq::<Ins>::empty().len() == 0);
    reveal_strlit("    mul     ");
    reveal_strlit("    mul     x6, x15, x8\n");
    reveal_strlit("    add     ");
    reveal_strlit(", x6, lsl #2\n");
    reveal_strlit(", lsl #2\n");
    reveal_strlit(", ");
    reveal_strlit("\n");
    reveal_strlit("x6");
    reveal_strlit("x8");
    reveal_strlit("x15");
    assert(line(i2) =~= "    mul     x6, x15, x8\n"@);
    assert(line(i3) =~= "    add     "@ + reg_name(reg) + ", "@ + reg_name(base) + ", x6, lsl #2\n"@);
    assert(lines(p) =~= slice_ptr_text(size, reg_name(base), reg_name(reg)));
    p
}

/// Each matmul slice pointer starts where the slice of the outer loop's
/// index `x15` starts: A's (`x12`) at `x15 * M * K` elements from A's base
/// (`x9`), B's (`x13`) at `x15 * K * N` from B's (`x10`), C's (`x14`) at
/// `x15 * M * N` from C's (`x11`).
pub proof fn lemma_matmul_slices(
    n_inputs: nat,
    leading_count: u64,
    m: u64,
    k: u64,
    n: u64,
    transpose_b: bool,
    id: Seq<char>,
    a_loc: BufferLoc,
    b_loc: BufferLoc,
    dst_loc: BufferLoc,
)
    requires
        m * k <= u32::MAX,
        k * n <= u32::MAX,
        m * n <= u32::MAX,
    ensures
        computes(
            matmul_text(n_inputs, leading_count, m, k, n, transpose_b, id, a_loc, b_loc, dst_loc),
            Reg::X12,
            slice_start(Reg::X9, (m * k) as nat),
        ),
        computes(
            matmul_text(n_inputs, leading_count, m, k, n, transpose_b, id, a_loc, b_loc, dst_loc),
            Reg::X13,
            slice_start(Reg::X10, (k * n) as nat),
        ),
        computes(
            matmul_text(n_inputs, leading_count, m, k, n, transpose_b, id, a_loc, b_loc, dst_loc),
            Reg::X14,
            slice_start(Reg::X11, (m * n) as nat),
        ),
{
    broadcast use lemma_piece_left, lemma_piece_right;

    let text = matmul_text(n_inputs, leading_count, m, k, n, transpose_b, id, a_loc, b_loc, dst_loc);
    let pa = lemma_slice_pointer((m * k) as nat, Reg::X9, Reg::X12);
    lemma_piece_self(lines(pa));
    assert(has_piece(text, lines(pa)));
    let pb = lemma_slice_pointer((k * n) as nat, Reg::X10, Reg::X13);
    lemma_piece_self(lines(pb));
    assert(has_piece(text, lines(pb)));
    let pc = lemma_slice_pointer((m * n) as nat, Reg::X11, Reg::X14);
    lemma_piece_self(lines(pc));
    assert(has_piece(text, lines(pc)));
}

proof fn lemma_linear_bias_add() -> (p: Seq<Ins>)
    ensures
        lines(p) == "    ldr     s5, [x14, x4, lsl #2]\n"@ + "    fadd    s0, s0, s5\n"@,
        value(run(p), Reg::S0) == fadd(init(Reg::S0), load(init(Reg::X14), init(Reg::X4))),
{
    let i1 = Ins::Ldr(Reg::S5, Reg::X14, Reg::X4);
    let i2 = Ins::Fadd(Reg::S0, Reg::S0, Reg::S5);
    let p1 = Seq::<Ins>::empty().push(i1);
    let p = p1.push(i2);
    lemma_push(Seq::<Ins>::empty(), i1);
    lemma_push(p1, i2);
    assert(Seq::<Ins>::empty().len() == 0);
    reveal_strlit("    ldr     ");
    reveal_strlit("    fadd    ");
    reveal_strlit(", [");
    reveal_strlit(", ");
    reveal_strlit(", lsl #2]\n");
    reveal_strlit("\n");
    reveal_strlit("s0");
    reveal_strlit("s5");
    reveal_strlit("x14");
    reveal_strlit("x4");
    reveal_strlit("    ldr     s5, [x14, x4, lsl #2]\n");
    reveal_strlit("    fadd    s0, s0, s5\n");
    assert(line(i1) =~= "    ldr     s5, [x14, x4, lsl #2]\n"@);
    assert(line(i2) =~= "    fadd    s0, s0, s5\n"@);
    assert(lines(p) =~= "    ldr     s5, [x14, x4, lsl #2]\n"@ + "    fadd    s0, s0, s5\n"@);
    p
}

proof fn lemma_linear_bias_piece(posts: Seq<PostOp>, id: Seq<char>)
    ensures
        has_piece(
            linear_loops_text(true, posts, id),
            "    ldr     s5, [x14, x4, lsl #2]\n"@ + "    fadd    s0, s0, s5\n"@,
        ),
{
    broadcast use lemma_piece_left, lemma_piece_right;

    lemma_piece_self("    ldr     s5, [x14, x4, lsl #2]\n"@ + "    fadd    s0, s0, s5\n"@);
}

/// With a bias, the linear layer adds `bias[j]` to the accumulator after
/// the k-loop: element `x4` of the bias (`x14`) is added to `s0`.
pub proof fn lemma_linear_adds_bias(
    n_inputs: nat,
    b: u64,
    k: u64,
    n: u64,
    id: Seq<char>,
    src_loc: BufferLoc,
    dst_loc: BufferLoc,
    weight_offset: nat,
    bias_offset: Option<usize>,
    posts: Seq<PostOp>,
    sym_prefix: Seq<char>,
)
    requires
        bias_offset is Some,
    ensures
        computes(
            linear_text(
                n_inputs,
                b,
                k,
                n,
                id,
                src_loc,
                dst_loc,
                weight_offset,
                bias_offset,
                posts,
                sym_prefix,
            ),
            Reg::S0,
            fadd(init(Reg::S0), load(init(Reg::X14), init(Reg::X4))),
        ),
{
    let p = lemma_linear_bias_add();
    lemma_linear_bias_piece(posts, id);
    lemma_linear_pieces_in_text(
        n_inputs,
        b,
        k,
        n,
        id,
        src_loc,
        dst_loc,
        weight_offset,
        bias_offset,
        posts,
        sym_prefix,
        lines(p),
    );
    assert(has_piece(
        linear_text(n_inputs, b, k, n, id, src_loc, dst_loc, weight_offset, bias_offset, posts, sym_prefix),
        lines(p),
    ));
}

} // verus!
