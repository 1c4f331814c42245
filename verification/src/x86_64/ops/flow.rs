//! What the x86_64 element-wise loops compute, stated over the symbolic
//! machine of `x86_64::dataflow`: ReLU, dropout's copy and mul_scalar, and
//! the bounds the loops of the kernels run to.

use vstd::prelude::*;
use crate::text::{
    decimal, hex_padded, labeled, has_piece, lemma_piece_self, lemma_piece_left, lemma_piece_right,
    lemma_ends_self, lemma_ends_grow, lemma_ends_piece,
};
use crate::types::BufferLoc;
use crate::x86_64::abi::materialise_text;
use crate::x86_64::frame::imm32_to_r10_text;
use crate::x86_64::ops::relu::relu_text;
use crate::x86_64::ops::dropout::dropout_copy_text;
use crate::x86_64::ops::mulscalar::mulscalar_text;
use crate::x86_64::ops::loops::loop_head;
use crate::x86_64::ops::matmul::{matmul_text, slice_ptr_text};
use crate::x86_64::ops::linear::linear_text;
use crate::x86_64::ops::layernorm::layernorm_text;
use crate::x86_64::ops::softmax::softmax_text;
use crate::uir::PostOp;
use crate::x86_64::dataflow::{
    Ins, Reg, Store, Term, reg_name, line, lines, run, value, computes, stores, compares,
    lemma_compares_within,
    lemma_push, init, load, fmul, fmax,
};

verus! {

spec fn relu_zero_text() -> Seq<char> {
    "    xorps   %xmm1, %xmm1\n"@
}

proof fn lemma_relu_zero() -> (p: Seq<Ins>)
    ensures
        lines(p) == relu_zero_text(),
        value(run(p), Reg::Xmm1) == Term::FZero,
{
    assert(Seq::<Ins>::empty().len() == 0);
    reveal_strlit("\n");
    reveal_strlit("    xorps   ");
    reveal_strlit("    xorps   %xmm1, %xmm1\n");
    reveal_strlit("%xmm1");
    reveal_strlit(", ");
    let q1 = Seq::<Ins>::empty().push(Ins::ZeroPS(Reg::Xmm1));
    lemma_push(Seq::<Ins>::empty(), Ins::ZeroPS(Reg::Xmm1));
    assert(line(Ins::ZeroPS(Reg::Xmm1)) =~= "    xorps   %xmm1, %xmm1\n"@);
    assert(lines(q1) =~= "    xorps   %xmm1, %xmm1\n"@);
    q1
}

spec fn relu_body_text() -> Seq<char> {
    "    movss   (%rax, %rbp, 4), %xmm0\n"@
        + "    maxss   %xmm1, %xmm0\n"@
        + "    movss   %xmm0, (%r11, %rbp, 4)\n"@
}

proof fn lemma_relu_body() -> (p: Seq<Ins>)
    ensures
        lines(p) == relu_body_text(),
        run(p).stores == seq![
            Store::Elem(
                init(Reg::R11),
                init(Reg::Rbp),
                fmax(load(init(Reg::Rax), init(Reg::Rbp)), init(Reg::Xmm1)),
            ),
        ],
{
    assert(Seq::<Ins>::empty().len() == 0);
    reveal_strlit("\n");
    reveal_strlit("    maxss   ");
    reveal_strlit("    maxss   %xmm1, %xmm0\n");
    reveal_strlit("    movss   ");
    reveal_strlit("    movss   %xmm0, (%r11, %rbp, 4)\n");
    reveal_strlit("    movss   (");
    reveal_strlit("    movss   (%rax, %rbp, 4), %xmm0\n");
    reveal_strlit("%r11");
    reveal_strlit("%rax");
    reveal_strlit("%rbp");
    reveal_strlit("%xmm0");
    reveal_strlit("%xmm1");
    reveal_strlit(", ");
    reveal_strlit(", (");
    reveal_strlit(", 4)\n");
    reveal_strlit(", 4), ");
    let q1 = Seq::<Ins>::empty().push(Ins::LoadSS(Reg::Rax, Reg::Rbp, Reg::Xmm0));
    lemma_push(Seq::<Ins>::empty(), Ins::LoadSS(Reg::Rax, Reg::Rbp, Reg::Xmm0));
    assert(line(Ins::LoadSS(Reg::Rax, Reg::Rbp, Reg::Xmm0)) =~= "    movss   (%rax, %rbp, 4), %xmm0\n"@);
    let q2 = q1.push(Ins::MaxSS(Reg::Xmm1, Reg::Xmm0));
    lemma_push(q1, Ins::MaxSS(Reg::Xmm1, Reg::Xmm0));
    assert(line(Ins::MaxSS(Reg::Xmm1, Reg::Xmm0)) =~= "    maxss   %xmm1, %xmm0\n"@);
    let q3 = q2.push(Ins::StoreSS(Reg::Xmm0, Reg::R11, Reg::Rbp));
    lemma_push(q2, Ins::StoreSS(Reg::Xmm0, Reg::R11, Reg::Rbp));
    assert(line(Ins::StoreSS(Reg::Xmm0, Reg::R11, Reg::Rbp)) =~= "    movss   %xmm0, (%r11, %rbp, 4)\n"@);
    assert(
        lines(q3) =~= "    movss   (%rax, %rbp, 4), %xmm0\n"@
        + "    maxss   %xmm1, %xmm0\n"@
        + "    movss   %xmm0, (%r11, %rbp, 4)\n"@
    );
    assert(run(q3).stores =~= seq![
        Store::Elem(
            init(Reg::R11),
            init(Reg::Rbp),
            fmax(load(init(Reg::Rax), init(Reg::Rbp)), init(Reg::Xmm1)),
        ),
    ]);
    q3
}

/// The ReLU loop stores `max(x[i], 0)`: `%xmm1` is cleared to zero
/// before the loop, and each pass stores at element `%rbp` of the
/// destination (`%r11`) the larger of element `%rbp` of the source (`%rax`)
/// and `%xmm1`, and stores nothing else.
pub proof fn lemma_relu_clamps_at_zero(
    n_inputs: nat,
    total_floats: u64,
    model_idx: nat,
    relu_idx: nat,
    src_loc: BufferLoc,
    dst_loc: BufferLoc,
)
    ensures
        computes(
            relu_text(n_inputs, total_floats, model_idx, relu_idx, src_loc, dst_loc),
            Reg::Xmm1,
            Term::FZero,
        ),
        stores(
            relu_text(n_inputs, total_floats, model_idx, relu_idx, src_loc, dst_loc),
            seq![
                Store::Elem(
                    init(Reg::R11),
                    init(Reg::Rbp),
                    fmax(load(init(Reg::Rax), init(Reg::Rbp)), init(Reg::Xmm1)),
                ),
            ],
        ),
{
    broadcast use lemma_piece_left;

    let pz = lemma_relu_zero();
    let pb = lemma_relu_body();
    let x_head = "    # relu: copy-clamp src\u{2192}dst ("@
        + decimal(total_floats as nat)
        + " elements)\n"@
        + materialise_text(n_inputs, src_loc, "%rax"@)
        + materialise_text(n_inputs, dst_loc, "%r11"@);
    lemma_ends_self(x_head, "    xorps   %xmm1, %xmm1\n"@);
    let mut x = x_head + "    xorps   %xmm1, %xmm1\n"@;
    let mut x_end = "    xorps   %xmm1, %xmm1\n"@;
    lemma_ends_piece(x, x_end);
    let y_head = x
        + imm32_to_r10_text((total_floats as u32) as nat)
        + "    xorq    %rbp, %rbp\n"@
        + labeled(".Lrelu_"@, model_idx, relu_idx, ":\n"@)
        + "    cmpq    %r10, %rbp\n"@
        + labeled("    jge     .Lrelu_end_"@, model_idx, relu_idx, "\n"@);
    lemma_ends_self(y_head, "    movss   (%rax, %rbp, 4), %xmm0\n"@);
    let mut y = y_head + "    movss   (%rax, %rbp, 4), %xmm0\n"@;
    let mut y_end = "    movss   (%rax, %rbp, 4), %xmm0\n"@;
    lemma_ends_grow(y, y_end, "    maxss   %xmm1, %xmm0\n"@);
    y = y + "    maxss   %xmm1, %xmm0\n"@;
    y_end = y_end + "    maxss   %xmm1, %xmm0\n"@;
    lemma_ends_grow(y, y_end, "    movss   %xmm0, (%r11, %rbp, 4)\n"@);
    y = y + "    movss   %xmm0, (%r11, %rbp, 4)\n"@;
    y_end = y_end + "    movss   %xmm0, (%r11, %rbp, 4)\n"@;
    lemma_ends_piece(y, y_end);
    assert(has_piece(relu_text(n_inputs, total_floats, model_idx, relu_idx, src_loc, dst_loc), lines(pz)));
    assert(has_piece(relu_text(n_inputs, total_floats, model_idx, relu_idx, src_loc, dst_loc), lines(pb)));
}

spec fn dropout_body_text() -> Seq<char> {
    "    movss   (%rax, %rbp, 4), %xmm0\n"@
        + "    movss   %xmm0, (%r11, %rbp, 4)\n"@
}

proof fn lemma_dropout_body() -> (p: Seq<Ins>)
    ensures
        lines(p) == dropout_body_text(),
        run(p).stores == seq![
            Store::Elem(init(Reg::R11), init(Reg::Rbp), load(init(Reg::Rax), init(Reg::Rbp))),
        ],
{
    assert(Seq::<Ins>::empty().len() == 0);
    reveal_strlit("\n");
    reveal_strlit("    movss   ");
    reveal_strlit("    movss   %xmm0, (%r11, %rbp, 4)\n");
    reveal_strlit("    movss   (");
    reveal_strlit("    movss   (%rax, %rbp, 4), %xmm0\n");
    reveal_strlit("%r11");
    reveal_strlit("%rax");
    reveal_strlit("%rbp");
    reveal_strlit("%xmm0");
    reveal_strlit(", ");
    reveal_strlit(", (");
    reveal_strlit(", 4)\n");
    reveal_strlit(", 4), ");
    let q1 = Seq::<Ins>::empty().push(Ins::LoadSS(Reg::Rax, Reg::Rbp, Reg::Xmm0));
    lemma_push(Seq::<Ins>::empty(), Ins::LoadSS(Reg::Rax, Reg::Rbp, Reg::Xmm0));
    assert(line(Ins::LoadSS(Reg::Rax, Reg::Rbp, Reg::Xmm0)) =~= "    movss   (%rax, %rbp, 4), %xmm0\n"@);
    let q2 = q1.push(Ins::StoreSS(Reg::Xmm0, Reg::R11, Reg::Rbp));
    lemma_push(q1, Ins::StoreSS(Reg::Xmm0, Reg::R11, Reg::Rbp));
    assert(line(Ins::StoreSS(Reg::Xmm0, Reg::R11, Reg::Rbp)) =~= "    movss   %xmm0, (%r11, %rbp, 4)\n"@);
    assert(lines(q2) =~= "    movss   (%rax, %rbp, 4), %xmm0\n"@ + "    movss   %xmm0, (%r11, %rbp, 4)\n"@);
    assert(run(q2).stores =~= seq![
        Store::Elem(init(Reg::R11), init(Reg::Rbp), load(init(Reg::Rax), init(Reg::Rbp))),
    ]);
    q2
}

/// Dropout at inference is the identity: each pass of its copy loop
/// stores at element `%rbp` of the output (`%r11`) element `%rbp` of the
/// operand (`%rax`), unchanged, and stores nothing else.
pub proof fn lemma_dropout_copies(
    n_inputs: nat,
    total_floats: u64,
    model_idx: nat,
    dropout_idx: nat,
    src_loc: BufferLoc,
    dst_loc: BufferLoc,
)
    ensures
        stores(
            dropout_copy_text(n_inputs, total_floats, model_idx, dropout_idx, src_loc, dst_loc),
            seq![Store::Elem(init(Reg::R11), init(Reg::Rbp), load(init(Reg::Rax), init(Reg::Rbp)))],
        ),
{
    broadcast use lemma_piece_left;

    let p = lemma_dropout_body();
    let x_head = "    # dropout-as-output: copy operand\u{2192}output ("@
        + decimal(total_floats as nat)
        + " elements)\n"@
        + materialise_text(n_inputs, src_loc, "%rax"@)
        + materialise_text(n_inputs, dst_loc, "%r11"@)
        + imm32_to_r10_text((total_floats as u32) as nat)
        + "    xorq    %rbp, %rbp\n"@
        + labeled(".Ldropout_"@, model_idx, dropout_idx, ":\n"@)
        + "    cmpq    %r10, %rbp\n"@
        + labeled("    jge     .Ldropout_end_"@, model_idx, dropout_idx, "\n"@);
    lemma_ends_self(x_head, "    movss   (%rax, %rbp, 4), %xmm0\n"@);
    let mut x = x_head + "    movss   (%rax, %rbp, 4), %xmm0\n"@;
    let mut x_end = "    movss   (%rax, %rbp, 4), %xmm0\n"@;
    lemma_ends_grow(x, x_end, "    movss   %xmm0, (%r11, %rbp, 4)\n"@);
    x = x + "    movss   %xmm0, (%r11, %rbp, 4)\n"@;
    x_end = x_end + "    movss   %xmm0, (%r11, %rbp, 4)\n"@;
    lemma_ends_piece(x, x_end);
    assert(has_piece(
        dropout_copy_text(n_inputs, total_floats, model_idx, dropout_idx, src_loc, dst_loc),
        lines(p),
    ));
}

spec fn mulscalar_const_text(scalar_bits: u32) -> Seq<char> {
    "    movl    $0x"@ + hex_padded(scalar_bits as nat, 1) + ", %r10d\n"@
        + "    movd    %r10d, %xmm4\n"@
}

proof fn lemma_mulscalar_const(scalar_bits: u32) -> (p: Seq<Ins>)
    ensures
        lines(p) == mulscalar_const_text(scalar_bits),
        value(run(p), Reg::Xmm4) == Term::Bits(Box::new(Term::Imm(scalar_bits as nat))),
{
    assert(Seq::<Ins>::empty().len() == 0);
    reveal_strlit("\n");
    reveal_strlit("    movd    %r10d, ");
    reveal_strlit("    movd    %r10d, %xmm4\n");
    reveal_strlit("    movl    $0x");
    reveal_strlit("%xmm4");
    reveal_strlit(", %r10d\n");
    let q1 = Seq::<Ins>::empty().push(Ins::MovHexR10(scalar_bits as nat));
    lemma_push(Seq::<Ins>::empty(), Ins::MovHexR10(scalar_bits as nat));
    assert(
        line(Ins::MovHexR10(scalar_bits as nat)) =~= "    movl    $0x"@
        + hex_padded(scalar_bits as nat, 1)
        + ", %r10d\n"@
    );
    let q2 = q1.push(Ins::MovdR10(Reg::Xmm4));
    lemma_push(q1, Ins::MovdR10(Reg::Xmm4));
    assert(line(Ins::MovdR10(Reg::Xmm4)) =~= "    movd    %r10d, %xmm4\n"@);
    assert(
        lines(q2) =~= "    movl    $0x"@
        + hex_padded(scalar_bits as nat, 1)
        + ", %r10d\n"@
        + "    movd    %r10d, %xmm4\n"@
    );
    q2
}

spec fn mulscalar_body_text() -> Seq<char> {
    "    movss   (%rax, %rbp, 4), %xmm0\n"@
        + "    mulss   %xmm4, %xmm0\n"@
        + "    movss   %xmm0, (%r11, %rbp, 4)\n"@
}

proof fn lemma_mulscalar_body() -> (p: Seq<Ins>)
    ensures
        lines(p) == mulscalar_body_text(),
        run(p).stores == seq![
            Store::Elem(
                init(Reg::R11),
                init(Reg::Rbp),
                fmul(load(init(Reg::Rax), init(Reg::Rbp)), init(Reg::Xmm4)),
            ),
        ],
{
    assert(Seq::<Ins>::empty().len() == 0);
    reveal_strlit("\n");
    reveal_strlit("    movss   ");
    reveal_strlit("    movss   %xmm0, (%r11, %rbp, 4)\n");
    reveal_strlit("    movss   (");
    reveal_strlit("    movss   (%rax, %rbp, 4), %xmm0\n");
    reveal_strlit("    mulss   ");
    reveal_strlit("    mulss   %xmm4, %xmm0\n");
    reveal_strlit("%r11");
    reveal_strlit("%rax");
    reveal_strlit("%rbp");
    reveal_strlit("%xmm0");
    reveal_strlit("%xmm4");
    reveal_strlit(", ");
    reveal_strlit(", (");
    reveal_strlit(", 4)\n");
    reveal_strlit(", 4), ");
    let q1 = Seq::<Ins>::empty().push(Ins::LoadSS(Reg::Rax, Reg::Rbp, Reg::Xmm0));
    lemma_push(Seq::<Ins>::empty(), Ins::LoadSS(Reg::Rax, Reg::Rbp, Reg::Xmm0));
    assert(line(Ins::LoadSS(Reg::Rax, Reg::Rbp, Reg::Xmm0)) =~= "    movss   (%rax, %rbp, 4), %xmm0\n"@);
    let q2 = q1.push(Ins::MulSS(Reg::Xmm4, Reg::Xmm0));
    lemma_push(q1, Ins::MulSS(Reg::Xmm4, Reg::Xmm0));
    assert(line(Ins::MulSS(Reg::Xmm4, Reg::Xmm0)) =~= "    mulss   %xmm4, %xmm0\n"@);
    let q3 = q2.push(Ins::StoreSS(Reg::Xmm0, Reg::R11, Reg::Rbp));
    lemma_push(q2, Ins::StoreSS(Reg::Xmm0, Reg::R11, Reg::Rbp));
    assert(line(Ins::StoreSS(Reg::Xmm0, Reg::R11, Reg::Rbp)) =~= "    movss   %xmm0, (%r11, %rbp, 4)\n"@);
    assert(
        lines(q3) =~= "    movss   (%rax, %rbp, 4), %xmm0\n"@
        + "    mulss   %xmm4, %xmm0\n"@
        + "    movss   %xmm0, (%r11, %rbp, 4)\n"@
    );
    assert(run(q3).stores =~= seq![
        Store::Elem(
            init(Reg::R11),
            init(Reg::Rbp),
            fmul(load(init(Reg::Rax), init(Reg::Rbp)), init(Reg::Xmm4)),
        ),
    ]);
    q3
}

/// The mul_scalar loop multiplies by the scalar: `%xmm4` is loaded with
/// the f32 whose bits are `scalar_bits`, and each pass stores at element
/// `%rbp` of the destination (`%r11`) element `%rbp` of the source (`%rax`)
/// times `%xmm4`, and stores nothing else.
pub proof fn lemma_mulscalar_scales(
    n_inputs: nat,
    total_elements: u64,
    scalar_bits: u32,
    model_idx: nat,
    op_idx: nat,
    src_loc: BufferLoc,
    dst_loc: BufferLoc,
)
    ensures
        computes(
            mulscalar_text(n_inputs, total_elements, scalar_bits, model_idx, op_idx, src_loc, dst_loc),
            Reg::Xmm4,
            Term::Bits(Box::new(Term::Imm(scalar_bits as nat))),
        ),
        stores(
            mulscalar_text(n_inputs, total_elements, scalar_bits, model_idx, op_idx, src_loc, dst_loc),
            seq![
                Store::Elem(
                    init(Reg::R11),
                    init(Reg::Rbp),
                    fmul(load(init(Reg::Rax), init(Reg::Rbp)), init(Reg::Xmm4)),
                ),
            ],
        ),
{
    broadcast use lemma_piece_left;

    let pc = lemma_mulscalar_const(scalar_bits);
    let pb = lemma_mulscalar_body();
    let x_head = "    # mul_scalar: total_elements="@
        + decimal(total_elements as nat)
        + ", scalar_bits=0x"@
        + hex_padded(scalar_bits as nat, 8)
        + "\n"@;
    lemma_ends_self(x_head, "    movl    $0x"@);
    let mut x = x_head + "    movl    $0x"@;
    let mut x_end = "    movl    $0x"@;
    lemma_ends_grow(x, x_end, hex_padded(scalar_bits as nat, 1));
    x = x + hex_padded(scalar_bits as nat, 1);
    x_end = x_end + hex_padded(scalar_bits as nat, 1);
    lemma_ends_grow(x, x_end, ", %r10d\n"@);
    x = x + ", %r10d\n"@;
    x_end = x_end + ", %r10d\n"@;
    lemma_ends_grow(x, x_end, "    movd    %r10d, %xmm4\n"@);
    x = x + "    movd    %r10d, %xmm4\n"@;
    x_end = x_end + "    movd    %r10d, %xmm4\n"@;
    lemma_ends_piece(x, x_end);
    let y_head = x
        + materialise_text(n_inputs, src_loc, "%rax"@)
        + materialise_text(n_inputs, dst_loc, "%r11"@)
        + "    movq    $0, %rbp\n"@
        + labeled(".Lms_"@, model_idx, op_idx, ":\n"@)
        + imm32_to_r10_text((total_elements as u32) as nat)
        + "    cmpq    %r10, %rbp\n"@
        + labeled("    jge     .Lms_end_"@, model_idx, op_idx, "\n"@);
    lemma_ends_self(y_head, "    movss   (%rax, %rbp, 4), %xmm0\n"@);
    let mut y = y_head + "    movss   (%rax, %rbp, 4), %xmm0\n"@;
    let mut y_end = "    movss   (%rax, %rbp, 4), %xmm0\n"@;
    lemma_ends_grow(y, y_end, "    mulss   %xmm4, %xmm0\n"@);
    y = y + "    mulss   %xmm4, %xmm0\n"@;
    y_end = y_end + "    mulss   %xmm4, %xmm0\n"@;
    lemma_ends_grow(y, y_end, "    movss   %xmm0, (%r11, %rbp, 4)\n"@);
    y = y + "    movss   %xmm0, (%r11, %rbp, 4)\n"@;
    y_end = y_end + "    movss   %xmm0, (%r11, %rbp, 4)\n"@;
    lemma_ends_piece(y, y_end);
    assert(has_piece(
        mulscalar_text(n_inputs, total_elements, scalar_bits, model_idx, op_idx, src_loc, dst_loc),
        lines(pc),
    ));
    assert(has_piece(
        mulscalar_text(n_inputs, total_elements, scalar_bits, model_idx, op_idx, src_loc, dst_loc),
        lines(pb),
    ));
}


/// A loop head compares its counter with its bound.
pub proof fn lemma_loop_head_compares(
    label: Seq<char>,
    exit_jump: Seq<char>,
    r: Reg,
    bound: nat,
    id: Seq<char>,
)
    requires
        r != Reg::R10,
    ensures
        compares(loop_head(label, exit_jump, reg_name(r), bound, id), init(r), Term::Imm(bound)),
{
    broadcast use lemma_piece_left;

    let i1 = Ins::MovImmR10(bound);
    let i2 = Ins::CmpR10(r);
    let p1 = Seq::<Ins>::empty().push(i1);
    let p = p1.push(i2);
    lemma_push(Seq::<Ins>::empty(), i1);
    lemma_push(p1, i2);
    assert(Seq::<Ins>::empty().len() == 0);
    reveal_strlit("    cmpq    ");
    reveal_strlit("    cmpq    %r10, ");
    reveal_strlit("%r10");
    reveal_strlit(", ");
    let cmp = "    cmpq    %r10, "@ + reg_name(r) + "\n"@;
    assert(line(i2) =~= cmp);
    assert(lines(p) =~= imm32_to_r10_text(bound) + cmp);
    assert(run(p).compares =~= seq![(init(r), Term::Imm(bound))]);
    let head = label + id + ":\n"@;
    lemma_ends_self(head, imm32_to_r10_text(bound));
    lemma_ends_grow(head + imm32_to_r10_text(bound), imm32_to_r10_text(bound), "    cmpq    %r10, "@);
    lemma_ends_grow(
        head + imm32_to_r10_text(bound) + "    cmpq    %r10, "@,
        imm32_to_r10_text(bound) + "    cmpq    %r10, "@,
        reg_name(r),
    );
    lemma_ends_grow(
        head + imm32_to_r10_text(bound) + "    cmpq    %r10, "@ + reg_name(r),
        imm32_to_r10_text(bound) + "    cmpq    %r10, "@ + reg_name(r),
        "\n"@,
    );
    lemma_ends_piece(
        head + imm32_to_r10_text(bound) + "    cmpq    %r10, "@ + reg_name(r) + "\n"@,
        imm32_to_r10_text(bound) + "    cmpq    %r10, "@ + reg_name(r) + "\n"@,
    );
    assert(imm32_to_r10_text(bound) + "    cmpq    %r10, "@ + reg_name(r) + "\n"@ =~= lines(p));
    assert(has_piece(loop_head(label, exit_jump, reg_name(r), bound, id), lines(p)));
}

/// The matmul loops run over the leading dimensions, `i < M`, `j < N`
/// and `kk < K`: each loop head compares its counter (`%r15`, `%rbx`,
/// `%rbp`, `%r11`) with that bound.
pub proof fn lemma_matmul_loop_bounds(
    n_inputs: nat,
    leading_count: u64,
    m: u64,
    k: u64,
    n: u64,
    transpose_b: bool,
    id: Seq<char>,
    a_loc: BufferLoc,
    b_loc: BufferLoc,
    dst_loc: BufferLoc,
)
    requires
        leading_count <= u32::MAX,
        m <= u32::MAX,
        k <= u32::MAX,
        n <= u32::MAX,
    ensures
        compares(
            matmul_text(n_inputs, leading_count, m, k, n, transpose_b, id, a_loc, b_loc, dst_loc),
            init(Reg::R15),
            Term::Imm(leading_count as nat),
        ),
        compares(
            matmul_text(n_inputs, leading_count, m, k, n, transpose_b, id, a_loc, b_loc, dst_loc),
            init(Reg::Rbx),
            Term::Imm(m as nat),
        ),
        compares(
            matmul_text(n_inputs, leading_count, m, k, n, transpose_b, id, a_loc, b_loc, dst_loc),
            init(Reg::Rbp),
            Term::Imm(n as nat),
        ),
        compares(
            matmul_text(n_inputs, leading_count, m, k, n, transpose_b, id, a_loc, b_loc, dst_loc),
            init(Reg::R11),
            Term::Imm(k as nat),
        ),
{
    broadcast use lemma_piece_left, lemma_piece_right;

    lemma_loop_head_compares(
        ".Lmm4d_outer_"@,
        "    jge     .Lmm4d_outer_end_"@,
        Reg::R15,
        (leading_count as u32) as nat,
        id,
    );
    lemma_piece_self(loop_head(".Lmm4d_outer_"@, "    jge     .Lmm4d_outer_end_"@, "%r15"@, (leading_count as u32) as nat, id));
    assert(has_piece(
        matmul_text(n_inputs, leading_count, m, k, n, transpose_b, id, a_loc, b_loc, dst_loc),
        loop_head(
            ".Lmm4d_outer_"@,
            "    jge     .Lmm4d_outer_end_"@,
            "%r15"@,
            (leading_count as u32) as nat,
            id,
        ),
    ));
    lemma_compares_within(
        matmul_text(n_inputs, leading_count, m, k, n, transpose_b, id, a_loc, b_loc, dst_loc),
        loop_head(
            ".Lmm4d_outer_"@,
            "    jge     .Lmm4d_outer_end_"@,
            "%r15"@,
            (leading_count as u32) as nat,
            id,
        ),
        init(Reg::R15),
        Term::Imm(leading_count as nat),
    );
    lemma_loop_head_compares(".Lmm4d_i_"@, "    jge     .Lmm4d_i_end_"@, Reg::Rbx, (m as u32) as nat, id);
    lemma_piece_self(loop_head(".Lmm4d_i_"@, "    jge     .Lmm4d_i_end_"@, "%rbx"@, (m as u32) as nat, id));
    assert(has_piece(
        matmul_text(n_inputs, leading_count, m, k, n, transpose_b, id, a_loc, b_loc, dst_loc),
        loop_head(".Lmm4d_i_"@, "    jge     .Lmm4d_i_end_"@, "%rbx"@, (m as u32) as nat, id),
    ));
    lemma_compares_within(
        matmul_text(n_inputs, leading_count, m, k, n, transpose_b, id, a_loc, b_loc, dst_loc),
        loop_head(".Lmm4d_i_"@, "    jge     .Lmm4d_i_end_"@, "%rbx"@, (m as u32) as nat, id),
        init(Reg::Rbx),
        Term::Imm(m as nat),
    );
    lemma_loop_head_compares(".Lmm4d_j_"@, "    jge     .Lmm4d_j_end_"@, Reg::Rbp, (n as u32) as nat, id);
    lemma_piece_self(loop_head(".Lmm4d_j_"@, "    jge     .Lmm4d_j_end_"@, "%rbp"@, (n as u32) as nat, id));
    assert(has_piece(
        matmul_text(n_inputs, leading_count, m, k, n, transpose_b, id, a_loc, b_loc, dst_loc),
        loop_head(".Lmm4d_j_"@, "    jge     .Lmm4d_j_end_"@, "%rbp"@, (n as u32) as nat, id),
    ));
    lemma_compares_within(
        matmul_text(n_inputs, leading_count, m, k, n, transpose_b, id, a_loc, b_loc, dst_loc),
        loop_head(".Lmm4d_j_"@, "    jge     .Lmm4d_j_end_"@, "%rbp"@, (n as u32) as nat, id),
        init(Reg::Rbp),
        Term::Imm(n as nat),
    );
    lemma_loop_head_compares(".Lmm4d_k_"@, "    jge     .Lmm4d_k_end_"@, Reg::R11, (k as u32) as nat, id);
    lemma_piece_self(loop_head(".Lmm4d_k_"@, "    jge     .Lmm4d_k_end_"@, "%r11"@, (k as u32) as nat, id));
    assert(has_piece(
        matmul_text(n_inputs, leading_count, m, k, n, transpose_b, id, a_loc, b_loc, dst_loc),
        loop_head(".Lmm4d_k_"@, "    jge     .Lmm4d_k_end_"@, "%r11"@, (k as u32) as nat, id),
    ));
    lemma_compares_within(
        matmul_text(n_inputs, leading_count, m, k, n, transpose_b, id, a_loc, b_loc, dst_loc),
        loop_head(".Lmm4d_k_"@, "    jge     .Lmm4d_k_end_"@, "%r11"@, (k as u32) as nat, id),
        init(Reg::R11),
        Term::Imm(k as nat),
    );
}

/// The linear loops run over `i < b`, `j < n` and `kk < k`: each loop
/// head compares its counter (`%rax`, `%rbp`, `%rdi`) with that bound.
pub proof fn lemma_linear_loop_bounds(
    n_inputs: nat,
    b: u64,
    k: u64,
    n: u64,
    id: Seq<char>,
    src_loc: BufferLoc,
    dst_loc: BufferLoc,
    weight_offset: nat,
    bias_offset: Option<usize>,
    posts: Seq<PostOp>,
    sym_prefix: Seq<char>,
)
    requires
        b <= u32::MAX,
        k <= u32::MAX,
        n <= u32::MAX,
    ensures
        compares(
            linear_text(
                n_inputs,
                b,
                k,
                n,
                id,
                src_loc,
                dst_loc,
                weight_offset,
                bias_offset,
                posts,
                sym_prefix,
            ),
            init(Reg::Rax),
            Term::Imm(b as nat),
        ),
        compares(
            linear_text(
                n_inputs,
                b,
                k,
                n,
                id,
                src_loc,
                dst_loc,
                weight_offset,
                bias_offset,
                posts,
                sym_prefix,
            ),
            init(Reg::Rbp),
            Term::Imm(n as nat),
        ),
        compares(
            linear_text(
                n_inputs,
                b,
                k,
                n,
                id,
                src_loc,
                dst_loc,
                weight_offset,
                bias_offset,
                posts,
                sym_prefix,
            ),
            init(Reg::Rdi),
            Term::Imm(k as nat),
        ),
{
    broadcast use lemma_piece_left, lemma_piece_right;

    lemma_loop_head_compares(".Lmm_i_"@, "    jge     .Lmm_i_end_"@, Reg::Rax, (b as u32) as nat, id);
    lemma_piece_self(loop_head(".Lmm_i_"@, "    jge     .Lmm_i_end_"@, "%rax"@, (b as u32) as nat, id));
    assert(has_piece(
        linear_text(n_inputs, b, k, n, id, src_loc, dst_loc, weight_offset, bias_offset, posts, sym_prefix),
        loop_head(".Lmm_i_"@, "    jge     .Lmm_i_end_"@, "%rax"@, (b as u32) as nat, id),
    ));
    lemma_compares_within(
        linear_text(n_inputs, b, k, n, id, src_loc, dst_loc, weight_offset, bias_offset, posts, sym_prefix),
        loop_head(".Lmm_i_"@, "    jge     .Lmm_i_end_"@, "%rax"@, (b as u32) as nat, id),
        init(Reg::Rax),
        Term::Imm(b as nat),
    );
    lemma_loop_head_compares(".Lmm_j_"@, "    jge     .Lmm_j_end_"@, Reg::Rbp, (n as u32) as nat, id);
    lemma_piece_self(loop_head(".Lmm_j_"@, "    jge     .Lmm_j_end_"@, "%rbp"@, (n as u32) as nat, id));
    assert(has_piece(
        linear_text(n_inputs, b, k, n, id, src_loc, dst_loc, weight_offset, bias_offset, posts, sym_prefix),
        loop_head(".Lmm_j_"@, "    jge     .Lmm_j_end_"@, "%rbp"@, (n as u32) as nat, id),
    ));
    lemma_compares_within(
        linear_text(n_inputs, b, k, n, id, src_loc, dst_loc, weight_offset, bias_offset, posts, sym_prefix),
        loop_head(".Lmm_j_"@, "    jge     .Lmm_j_end_"@, "%rbp"@, (n as u32) as nat, id),
        init(Reg::Rbp),
        Term::Imm(n as nat),
    );
    lemma_loop_head_compares(".Lmm_k_"@, "    jge     .Lmm_k_end_"@, Reg::Rdi, (k as u32) as nat, id);
    lemma_piece_self(loop_head(".Lmm_k_"@, "    jge     .Lmm_k_end_"@, "%rdi"@, (k as u32) as nat, id));
    assert(has_piece(
        linear_text(n_inputs, b, k, n, id, src_loc, dst_loc, weight_offset, bias_offset, posts, sym_prefix),
        loop_head(".Lmm_k_"@, "    jge     .Lmm_k_end_"@, "%rdi"@, (k as u32) as nat, id),
    ));
    lemma_compares_within(
        linear_text(n_inputs, b, k, n, id, src_loc, dst_loc, weight_offset, bias_offset, posts, sym_prefix),
        loop_head(".Lmm_k_"@, "    jge     .Lmm_k_end_"@, "%rdi"@, (k as u32) as nat, id),
        init(Reg::Rdi),
        Term::Imm(k as nat),
    );
}

/// Layernorm runs over the rows, `row < b`, and each of its three passes
/// over the row's elements, `j < d`: the loop heads compare `%r11` with `b`
/// and `%rax` with `d`.
pub proof fn lemma_layernorm_loop_bounds(
    n_inputs: nat,
    b: u64,
    d: u64,
    lid: Seq<char>,
    src_loc: BufferLoc,
    dst_loc: BufferLoc,
    gamma_offset: Option<usize>,
    beta_offset: Option<usize>,
)
    requires
        b <= u32::MAX,
        d <= u32::MAX,
    ensures
        compares(
            layernorm_text(n_inputs, b, d, lid, src_loc, dst_loc, gamma_offset, beta_offset),
            init(Reg::R11),
            Term::Imm(b as nat),
        ),
        compares(
            layernorm_text(n_inputs, b, d, lid, src_loc, dst_loc, gamma_offset, beta_offset),
            init(Reg::Rax),
            Term::Imm(d as nat),
        ),
{
    broadcast use lemma_piece_left, lemma_piece_right;

    lemma_loop_head_compares(".Lln_row_"@, "    jge     .Lln_row_end_"@, Reg::R11, (b as u32) as nat, lid);
    lemma_piece_self(loop_head(".Lln_row_"@, "    jge     .Lln_row_end_"@, "%r11"@, (b as u32) as nat, lid));
    assert(has_piece(
        layernorm_text(n_inputs, b, d, lid, src_loc, dst_loc, gamma_offset, beta_offset),
        loop_head(".Lln_row_"@, "    jge     .Lln_row_end_"@, "%r11"@, (b as u32) as nat, lid),
    ));
    lemma_compares_within(
        layernorm_text(n_inputs, b, d, lid, src_loc, dst_loc, gamma_offset, beta_offset),
        loop_head(".Lln_row_"@, "    jge     .Lln_row_end_"@, "%r11"@, (b as u32) as nat, lid),
        init(Reg::R11),
        Term::Imm(b as nat),
    );
    lemma_loop_head_compares(".Lln_p1_"@, "    jge     .Lln_p1_end_"@, Reg::Rax, (d as u32) as nat, lid);
    lemma_piece_self(loop_head(".Lln_p1_"@, "    jge     .Lln_p1_end_"@, "%rax"@, (d as u32) as nat, lid));
    assert(has_piece(
        layernorm_text(n_inputs, b, d, lid, src_loc, dst_loc, gamma_offset, beta_offset),
        loop_head(".Lln_p1_"@, "    jge     .Lln_p1_end_"@, "%rax"@, (d as u32) as nat, lid),
    ));
    lemma_compares_within(
        layernorm_text(n_inputs, b, d, lid, src_loc, dst_loc, gamma_offset, beta_offset),
        loop_head(".Lln_p1_"@, "    jge     .Lln_p1_end_"@, "%rax"@, (d as u32) as nat, lid),
        init(Reg::Rax),
        Term::Imm(d as nat),
    );
}

/// The softmax runs over the rows, `row < b`, and its passes over the
/// row's elements, `j < k`: the loop heads compare `%r13` with `b` and
/// `%r14` with `k`.
pub proof fn lemma_softmax_loop_bounds(
    n_inputs: nat,
    b: u64,
    k: u64,
    id: Seq<char>,
    src_loc: BufferLoc,
    dst_loc: BufferLoc,
    sym_prefix: Seq<char>,
)
    requires
        b <= u32::MAX,
        k <= u32::MAX,
    ensures
        compares(
            softmax_text(n_inputs, b, k, id, src_loc, dst_loc, sym_prefix),
            init(Reg::R13),
            Term::Imm(b as nat),
        ),
        compares(
            softmax_text(n_inputs, b, k, id, src_loc, dst_loc, sym_prefix),
            init(Reg::R14),
            Term::Imm(k as nat),
        ),
{
    broadcast use lemma_piece_left, lemma_piece_right;

    lemma_loop_head_compares(".Lsm_i_"@, "    jge     .Lsm_i_end_"@, Reg::R13, (b as u32) as nat, id);
    lemma_piece_self(loop_head(".Lsm_i_"@, "    jge     .Lsm_i_end_"@, "%r13"@, (b as u32) as nat, id));
    assert(has_piece(
        softmax_text(n_inputs, b, k, id, src_loc, dst_loc, sym_prefix),
        loop_head(".Lsm_i_"@, "    jge     .Lsm_i_end_"@, "%r13"@, (b as u32) as nat, id),
    ));
    lemma_compares_within(
        softmax_text(n_inputs, b, k, id, src_loc, dst_loc, sym_prefix),
        loop_head(".Lsm_i_"@, "    jge     .Lsm_i_end_"@, "%r13"@, (b as u32) as nat, id),
        init(Reg::R13),
        Term::Imm(b as nat),
    );
    lemma_loop_head_compares(".Lsm_norm_"@, "    jge     .Lsm_norm_end_"@, Reg::R14, (k as u32) as nat, id);
    lemma_piece_self(loop_head(".Lsm_norm_"@, "    jge     .Lsm_norm_end_"@, "%r14"@, (k as u32) as nat, id));
    assert(has_piece(
        softmax_text(n_inputs, b, k, id, src_loc, dst_loc, sym_prefix),
        loop_head(".Lsm_norm_"@, "    jge     .Lsm_norm_end_"@, "%r14"@, (k as u32) as nat, id),
    ));
    lemma_compares_within(
        softmax_text(n_inputs, b, k, id, src_loc, dst_loc, sym_prefix),
        loop_head(".Lsm_norm_"@, "    jge     .Lsm_norm_end_"@, "%r14"@, (k as u32) as nat, id),
        init(Reg::R14),
        Term::Imm(k as nat),
    );
}



/// Where slice `%r15` of an operand of `size` elements starts: its base
/// plus `%r15 * size` elements of 4 bytes.
pub open spec fn slice_start(base: Reg, size: nat) -> Term {
    Term::IAdd(
        Box::new(init(base)),
        Box::new(Term::IMul(
            Box::new(Term::IMul(Box::new(init(Reg::R15)), Box::new(Term::Imm(size)))),
            Box::new(Term::Imm(4)),
        )),
    )
}

proof fn lemma_slice_pointer(size: nat, base: Reg, reg: Reg) -> (p: Seq<Ins>)
    requires
        size <= u32::MAX,
        base != Reg::Rax && base != Reg::Eax && base != Reg::R10,
        reg != Reg::Rax && reg != Reg::Eax && reg != Reg::R10,
    ensures
        lines(p) == slice_ptr_text(size, reg_name(base), reg_name(reg)),
        value(run(p), reg) == slice_start(base, size),
{
    let i1 = Ins::MovImmR10(size);
    let i2 = Ins::MovQ(Reg::R15, Reg::Rax);
    let i3 = Ins::ImulQ(Reg::R10, Reg::Rax);
    let i4 = Ins::MovQ(base, reg);
    let i5 = Ins::LeaQ4(reg, Reg::Rax, reg);
    let p1 = Seq::<Ins>::empty().push(i1);
    let p2 = p1.push(i2);
    let p3 = p2.push(i3);
    let p4 = p3.push(i4);
    let p = p4.push(i5);
    lemma_push(Seq::<Ins>::empty(), i1);
    lemma_push(p1, i2);
    lemma_push(p2, i3);
    lemma_push(p3, i4);
    lemma_push(p4, i5);
    assert(Seq::<Ins>::empty().len() == 0);
    reveal_strlit("    movq    ");
    reveal_strlit("    imulq   ");
    reveal_strlit("    leaq    (");
    reveal_strlit("    movq    %r15, %rax\n");
    reveal_strlit("    imulq   %r10, %rax\n");
    reveal_strlit(", %rax, 4), ");
    reveal_strlit(", 4), ");
    reveal_strlit(", ");
    reveal_strlit("\n");
    reveal_strlit("%r15");
    reveal_strlit("%r10");
    reveal_strlit("%rax");
    assert(line(i2) =~= "    movq    %r15, %rax\n"@);
    assert(line(i3) =~= "    imulq   %r10, %rax\n"@);
    assert(line(i5) =~= "    leaq    ("@ + reg_name(reg) + ", %rax, 4), "@ + reg_name(reg) + "\n"@);
    assert(lines(p) =~= slice_ptr_text(size, reg_name(base), reg_name(reg)));
    p
}

/// Each matmul slice pointer starts where the slice of the outer loop's
/// index `%r15` starts: A's (`%r12`) at `%r15 * M * K` elements from A's
/// base (`%xmm8`), B's (`%r13`) at `%r15 * K * N` from B's (`%xmm6`), C's
/// (`%r14`) at `%r15 * M * N` from C's (`%xmm7`).
pub proof fn lemma_matmul_slices(
    n_inputs: nat,
    leading_count: u64,
    m: u64,
    k: u64,
    n: u64,
    transpose_b: bool,
    id: Seq<char>,
    a_loc: BufferLoc,
    b_loc: BufferLoc,
    dst_loc: BufferLoc,
)
    requires
        m * k <= u32::MAX,
        k * n <= u32::MAX,
        m * n <= u32::MAX,
    ensures
        computes(
            matmul_text(n_inputs, leading_count, m, k, n, transpose_b, id, a_loc, b_loc, dst_loc),
            Reg::R12,
            slice_start(Reg::Xmm8, (m * k) as nat),
        ),
        computes(
            matmul_text(n_inputs, leading_count, m, k, n, transpose_b, id, a_loc, b_loc, dst_loc),
            Reg::R13,
            slice_start(Reg::Xmm6, (k * n) as nat),
        ),
        computes(
            matmul_text(n_inputs, leading_count, m, k, n, transpose_b, id, a_loc, b_loc, dst_loc),
            Reg::R14,
            slice_start(Reg::Xmm7, (m * n) as nat),
        ),
{
    broadcast use lemma_piece_left, lemma_piece_right;

    let text = matmul_text(n_inputs, leading_count, m, k, n, transpose_b, id, a_loc, b_loc, dst_loc);
    let pa = lemma_slice_pointer((m * k) as nat, Reg::Xmm8, Reg::R12);
    lemma_piece_self(lines(pa));
    assert(has_piece(text, lines(pa)));
    let pb = lemma_slice_pointer((k * n) as nat, Reg::Xmm6, Reg::R13);
    lemma_piece_self(lines(pb));
    assert(has_piece(text, lines(pb)));
    let pc = lemma_slice_pointer((m * n) as nat, Reg::Xmm7, Reg::R14);
    lemma_piece_self(lines(pc));
    assert(has_piece(text, lines(pc)));
}

} // verus!
