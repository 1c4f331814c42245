//! What the softmax texts compute: each exponential is added into the
//! row's sum slot, and the normalise pass divides every element of the row
//! by that same slot, for the standalone softmax and for the row softmax
//! fused into a linear layer; and the max pass, whose maximum the exp pass
//! subtracts first.

use vstd::prelude::*;
use crate::text::{
    decimal, digit_char, has_piece, lemma_piece_self, lemma_piece_left, lemma_piece_right, lemma_piece_within,
    lemma_ends_self, lemma_ends_grow, lemma_ends_piece,
};
use crate::uir::PostOp;
use crate::types::BufferLoc;
use crate::x86_64::abi::{materialise_text, ffi_save_text};
use crate::x86_64::frame::imm32_to_r10_text;
use crate::x86_64::ops::loops::{loop_head, loop_tail};
use crate::x86_64::ops::flow::lemma_loop_head_compares;
use crate::x86_64::ops::exp::exp_inline_text;
use crate::x86_64::ops::linear::{
    linear_text, row_post_ops_text, fused_softmax_tail_text, fused_max_pass, fused_exp_pass, fused_norm_pass,
};
use crate::x86_64::ops::softmax::{
    ffi_spill_bytes, row_offset_text, softmax_max_pass, softmax_exp_pass, softmax_norm_pass, softmax_text,
};
use crate::x86_64::dataflow::{
    Ins, Reg, Store, Term, line, lines, run, value, computes, stores, compares, lemma_compares_within,
    lemma_push,
    init, load, fadd, fsub, fmul, fdiv, fmax, iadd,
};

verus! {

/// The element of the current row: `row start + j` (`%r15 + %r14`).
pub open spec fn softmax_element() -> Term {
    iadd(init(Reg::R15), init(Reg::R14))
}

spec fn softmax_sum_text(sum_slot: nat) -> Seq<char> {
    row_offset_text()
        + "    movss   %xmm0, (%r12, %rax, 4)\n"@
        + "    movss   "@ + decimal(sum_slot) + "(%rsp), %xmm1\n"@
        + "    addss   %xmm0, %xmm1\n"@
        + "    movss   %xmm1, "@ + decimal(sum_slot) + "(%rsp)\n"@
}

spec fn softmax_divide_text(sum_slot: nat) -> Seq<char> {
    row_offset_text()
        + "    movss   (%r12, %rax, 4), %xmm0\n"@
        + "    divss   "@ + decimal(sum_slot) + "(%rsp), %xmm0\n"@
        + "    movss   %xmm0, (%r12, %rax, 4)\n"@
}

spec fn softmax_row_start_text(k: u64) -> Seq<char> {
    imm32_to_r10_text((k as u32) as nat)
        + "    movq    %r13, %r15\n"@
        + "    imulq   %r10, %r15\n"@
}

proof fn lemma_softmax_sum(sum_slot: nat) -> (p: Seq<Ins>)
    ensures
        lines(p) == softmax_sum_text(sum_slot),
        run(p).stores == seq![
            Store::Elem(init(Reg::R12), softmax_element(), init(Reg::Xmm0)),
            Store::Slot(sum_slot, fadd(Term::Slot(sum_slot), init(Reg::Xmm0))),
        ],
{
    assert(Seq::<Ins>::empty().len() == 0);
    reveal_strlit("\n");
    reveal_strlit("    addq    ");
    reveal_strlit("    addq    %r14, %rax\n");
    reveal_strlit("    addss   ");
    reveal_strlit("    addss   %xmm0, %xmm1\n");
    reveal_strlit("    movq    ");
    reveal_strlit("    movq    %r15, %rax\n");
    reveal_strlit("    movss   ");
    reveal_strlit("    movss   %xmm0, (%r12, %rax, 4)\n");
    reveal_strlit("    movss   %xmm1, ");
    reveal_strlit("%r12");
    reveal_strlit("%r14");
    reveal_strlit("%r15");
    reveal_strlit("%rax");
    reveal_strlit("%xmm0");
    reveal_strlit("%xmm1");
    reveal_strlit("(%rsp)\n");
    reveal_strlit("(%rsp), ");
    reveal_strlit("(%rsp), %xmm1\n");
    reveal_strlit(", ");
    reveal_strlit(", (");
    reveal_strlit(", 4)\n");
    let a1 = Seq::<Ins>::empty().push(Ins::MovQ(Reg::R15, Reg::Rax));
    lemma_push(Seq::<Ins>::empty(), Ins::MovQ(Reg::R15, Reg::Rax));
    assert(line(Ins::MovQ(Reg::R15, Reg::Rax)) =~= "    movq    %r15, %rax\n"@);
    let a2 = a1.push(Ins::AddQ(Reg::R14, Reg::Rax));
    lemma_push(a1, Ins::AddQ(Reg::R14, Reg::Rax));
    assert(line(Ins::AddQ(Reg::R14, Reg::Rax)) =~= "    addq    %r14, %rax\n"@);
    let a3 = a2.push(Ins::StoreSS(Reg::Xmm0, Reg::R12, Reg::Rax));
    lemma_push(a2, Ins::StoreSS(Reg::Xmm0, Reg::R12, Reg::Rax));
    assert(line(Ins::StoreSS(Reg::Xmm0, Reg::R12, Reg::Rax)) =~= "    movss   %xmm0, (%r12, %rax, 4)\n"@);
    let a4 = a3.push(Ins::LoadSlot(sum_slot, Reg::Xmm1));
    lemma_push(a3, Ins::LoadSlot(sum_slot, Reg::Xmm1));
    assert(
        line(Ins::LoadSlot(sum_slot, Reg::Xmm1)) =~= "    movss   "@
        + decimal(sum_slot)
        + "(%rsp), %xmm1\n"@
    );
    let a5 = a4.push(Ins::AddSS(Reg::Xmm0, Reg::Xmm1));
    lemma_push(a4, Ins::AddSS(Reg::Xmm0, Reg::Xmm1));
    assert(line(Ins::AddSS(Reg::Xmm0, Reg::Xmm1)) =~= "    addss   %xmm0, %xmm1\n"@);
    let a6 = a5.push(Ins::StoreSlot(Reg::Xmm1, sum_slot));
    lemma_push(a5, Ins::StoreSlot(Reg::Xmm1, sum_slot));
    assert(
        line(Ins::StoreSlot(Reg::Xmm1, sum_slot)) =~= "    movss   %xmm1, "@
        + decimal(sum_slot)
        + "(%rsp)\n"@
    );
    assert(
        lines(a6) =~= "    movq    %r15, %rax\n"@
        + "    addq    %r14, %rax\n"@
        + "    movss   %xmm0, (%r12, %rax, 4)\n"@
        + "    movss   "@
        + decimal(sum_slot)
        + "(%rsp), %xmm1\n"@
        + "    addss   %xmm0, %xmm1\n"@
        + "    movss   %xmm1, "@
        + decimal(sum_slot)
        + "(%rsp)\n"@
    );
    assert(run(a6).stores =~= seq![
            Store::Elem(init(Reg::R12), softmax_element(), init(Reg::Xmm0)),
            Store::Slot(sum_slot, fadd(Term::Slot(sum_slot), init(Reg::Xmm0))),
        ]);
    a6
}

proof fn lemma_softmax_divide(sum_slot: nat) -> (p: Seq<Ins>)
    ensures
        lines(p) == softmax_divide_text(sum_slot),
        run(p).stores == seq![
            Store::Elem(
                init(Reg::R12),
                softmax_element(),
                fdiv(load(init(Reg::R12), softmax_element()), Term::Slot(sum_slot)),
            ),
        ],
{
    assert(Seq::<Ins>::empty().len() == 0);
    reveal_strlit("\n");
    reveal_strlit("    addq    ");
    reveal_strlit("    addq    %r14, %rax\n");
    reveal_strlit("    divss   ");
    reveal_strlit("    movq    ");
    reveal_strlit("    movq    %r15, %rax\n");
    reveal_strlit("    movss   ");
    reveal_strlit("    movss   %xmm0, (%r12, %rax, 4)\n");
    reveal_strlit("    movss   (");
    reveal_strlit("    movss   (%r12, %rax, 4), %xmm0\n");
    reveal_strlit("%r12");
    reveal_strlit("%r14");
    reveal_strlit("%r15");
    reveal_strlit("%rax");
    reveal_strlit("%xmm0");
    reveal_strlit("(%rsp), ");
    reveal_strlit("(%rsp), %xmm0\n");
    reveal_strlit(", ");
    reveal_strlit(", (");
    reveal_strlit(", 4)\n");
    reveal_strlit(", 4), ");
    let q1 = Seq::<Ins>::empty().push(Ins::MovQ(Reg::R15, Reg::Rax));
    lemma_push(Seq::<Ins>::empty(), Ins::MovQ(Reg::R15, Reg::Rax));
    assert(line(Ins::MovQ(Reg::R15, Reg::Rax)) =~= "    movq    %r15, %rax\n"@);
    let q2 = q1.push(Ins::AddQ(Reg::R14, Reg::Rax));
    lemma_push(q1, Ins::AddQ(Reg::R14, Reg::Rax));
    assert(line(Ins::AddQ(Reg::R14, Reg::Rax)) =~= "    addq    %r14, %rax\n"@);
    let q3 = q2.push(Ins::LoadSS(Reg::R12, Reg::Rax, Reg::Xmm0));
    lemma_push(q2, Ins::LoadSS(Reg::R12, Reg::Rax, Reg::Xmm0));
    assert(line(Ins::LoadSS(Reg::R12, Reg::Rax, Reg::Xmm0)) =~= "    movss   (%r12, %rax, 4), %xmm0\n"@);
    let q4 = q3.push(Ins::DivSSSlot(sum_slot, Reg::Xmm0));
    lemma_push(q3, Ins::DivSSSlot(sum_slot, Reg::Xmm0));
    assert(
        line(Ins::DivSSSlot(sum_slot, Reg::Xmm0)) =~= "    divss   "@
        + decimal(sum_slot)
        + "(%rsp), %xmm0\n"@
    );
    let q5 = q4.push(Ins::StoreSS(Reg::Xmm0, Reg::R12, Reg::Rax));
    lemma_push(q4, Ins::StoreSS(Reg::Xmm0, Reg::R12, Reg::Rax));
    assert(line(Ins::StoreSS(Reg::Xmm0, Reg::R12, Reg::Rax)) =~= "    movss   %xmm0, (%r12, %rax, 4)\n"@);
    assert(
        lines(q5) =~= "    movq    %r15, %rax\n"@
        + "    addq    %r14, %rax\n"@
        + "    movss   (%r12, %rax, 4), %xmm0\n"@
        + "    divss   "@
        + decimal(sum_slot)
        + "(%rsp), %xmm0\n"@
        + "    movss   %xmm0, (%r12, %rax, 4)\n"@
    );
    assert(run(q5).stores =~= seq![
        Store::Elem(
            init(Reg::R12),
            softmax_element(),
            fdiv(load(init(Reg::R12), softmax_element()), Term::Slot(sum_slot)),
        ),
    ]);
    q5
}

proof fn lemma_softmax_row_start(k: u64) -> (p: Seq<Ins>)
    requires
        k <= u32::MAX,
    ensures
        lines(p) == softmax_row_start_text(k),
        value(run(p), Reg::R15) == Term::IMul(Box::new(init(Reg::R13)), Box::new(Term::Imm(k as nat))),
{
    assert(Seq::<Ins>::empty().len() == 0);
    reveal_strlit("\n");
    reveal_strlit("    imulq   ");
    reveal_strlit("    imulq   %r10, %r15\n");
    reveal_strlit("    movq    ");
    reveal_strlit("    movq    %r13, %r15\n");
    reveal_strlit("%r10");
    reveal_strlit("%r13");
    reveal_strlit("%r15");
    reveal_strlit(", ");
    let r1 = Seq::<Ins>::empty().push(Ins::MovImmR10(k as nat));
    lemma_push(Seq::<Ins>::empty(), Ins::MovImmR10(k as nat));
    let r2 = r1.push(Ins::MovQ(Reg::R13, Reg::R15));
    lemma_push(r1, Ins::MovQ(Reg::R13, Reg::R15));
    assert(line(Ins::MovQ(Reg::R13, Reg::R15)) =~= "    movq    %r13, %r15\n"@);
    let r3 = r2.push(Ins::ImulQ(Reg::R10, Reg::R15));
    lemma_push(r2, Ins::ImulQ(Reg::R10, Reg::R15));
    assert(line(Ins::ImulQ(Reg::R10, Reg::R15)) =~= "    imulq   %r10, %r15\n"@);
    assert(
        lines(r3) =~= imm32_to_r10_text((k as u32) as nat)
        + "    movq    %r13, %r15\n"@
        + "    imulq   %r10, %r15\n"@
    );
    r3
}

proof fn lemma_softmax_pass_pieces(k: u64, max_slot: nat, sum_slot: nat, id: Seq<char>, sym_prefix: Seq<char>)
    ensures
        has_piece(softmax_exp_pass(k, max_slot, sum_slot, id, sym_prefix), softmax_sum_text(sum_slot)),
        has_piece(softmax_norm_pass(k, sum_slot, id), softmax_divide_text(sum_slot)),
{
    broadcast use lemma_piece_left;

    {
        let x_head = "    movl    $0, "@
            + decimal(sum_slot)
            + "(%rsp)\n"@
            + "    xorq    %r14, %r14\n"@
            + loop_head(".Lsm_exp_"@, "    jge     .Lsm_exp_end_"@, "%r14"@, (k as u32) as nat, id)
            + row_offset_text()
            + "    movss   (%rbx, %rax, 4), %xmm0\n"@
            + "    subss   "@
            + decimal(max_slot)
            + "(%rsp), %xmm0\n"@
            + exp_inline_text();
        lemma_ends_self(x_head, row_offset_text());
        let mut x = x_head + row_offset_text();
        let mut x_end = row_offset_text();
        lemma_ends_grow(x, x_end, "    movss   %xmm0, (%r12, %rax, 4)\n"@);
        x = x + "    movss   %xmm0, (%r12, %rax, 4)\n"@;
        x_end = x_end + "    movss   %xmm0, (%r12, %rax, 4)\n"@;
        lemma_ends_grow(x, x_end, "    movss   "@);
        x = x + "    movss   "@;
        x_end = x_end + "    movss   "@;
        lemma_ends_grow(x, x_end, decimal(sum_slot));
        x = x + decimal(sum_slot);
        x_end = x_end + decimal(sum_slot);
        lemma_ends_grow(x, x_end, "(%rsp), %xmm1\n"@);
        x = x + "(%rsp), %xmm1\n"@;
        x_end = x_end + "(%rsp), %xmm1\n"@;
        lemma_ends_grow(x, x_end, "    addss   %xmm0, %xmm1\n"@);
        x = x + "    addss   %xmm0, %xmm1\n"@;
        x_end = x_end + "    addss   %xmm0, %xmm1\n"@;
        lemma_ends_grow(x, x_end, "    movss   %xmm1, "@);
        x = x + "    movss   %xmm1, "@;
        x_end = x_end + "    movss   %xmm1, "@;
        lemma_ends_grow(x, x_end, decimal(sum_slot));
        x = x + decimal(sum_slot);
        x_end = x_end + decimal(sum_slot);
        lemma_ends_grow(x, x_end, "(%rsp)\n"@);
        x = x + "(%rsp)\n"@;
        x_end = x_end + "(%rsp)\n"@;
        lemma_ends_piece(x, x_end);
    }
    let x_head = "    xorq    %r14, %r14\n"@
        + loop_head(".Lsm_norm_"@, "    jge     .Lsm_norm_end_"@, "%r14"@, (k as u32) as nat, id);
    lemma_ends_self(x_head, row_offset_text());
    let mut x = x_head + row_offset_text();
    let mut x_end = row_offset_text();
    lemma_ends_grow(x, x_end, "    movss   (%r12, %rax, 4), %xmm0\n"@);
    x = x + "    movss   (%r12, %rax, 4), %xmm0\n"@;
    x_end = x_end + "    movss   (%r12, %rax, 4), %xmm0\n"@;
    lemma_ends_grow(x, x_end, "    divss   "@);
    x = x + "    divss   "@;
    x_end = x_end + "    divss   "@;
    lemma_ends_grow(x, x_end, decimal(sum_slot));
    x = x + decimal(sum_slot);
    x_end = x_end + decimal(sum_slot);
    lemma_ends_grow(x, x_end, "(%rsp), %xmm0\n"@);
    x = x + "(%rsp), %xmm0\n"@;
    x_end = x_end + "(%rsp), %xmm0\n"@;
    lemma_ends_grow(x, x_end, "    movss   %xmm0, (%r12, %rax, 4)\n"@);
    x = x + "    movss   %xmm0, (%r12, %rax, 4)\n"@;
    x_end = x_end + "    movss   %xmm0, (%r12, %rax, 4)\n"@;
    lemma_ends_piece(x, x_end);
}

proof fn lemma_softmax_row_start_piece(
    n_inputs: nat,
    b: u64,
    k: u64,
    id: Seq<char>,
    src_loc: BufferLoc,
    dst_loc: BufferLoc,
    sym_prefix: Seq<char>,
)
    ensures
        has_piece(softmax_text(n_inputs, b, k, id, src_loc, dst_loc, sym_prefix), softmax_row_start_text(k)),
{
    broadcast use lemma_piece_left;

    let x_head = "    # softmax (3-pass): input ["@ + decimal(b as nat) + ","@ + decimal(k as nat)
            + "] -> output ["@ + decimal(b as nat) + ","@ + decimal(k as nat) + "]\n"@
        + materialise_text(n_inputs, src_loc, "%rbx"@)
        + materialise_text(n_inputs, dst_loc, "%r12"@)
        + ffi_save_text(n_inputs)
        + "    xorq    %r13, %r13\n"@
        + loop_head(".Lsm_i_"@, "    jge     .Lsm_i_end_"@, "%r13"@, (b as u32) as nat, id);
    lemma_ends_self(x_head, imm32_to_r10_text((k as u32) as nat));
    let mut x = x_head + imm32_to_r10_text((k as u32) as nat);
    let mut x_end = imm32_to_r10_text((k as u32) as nat);
    lemma_ends_grow(x, x_end, "    movq    %r13, %r15\n"@);
    x = x + "    movq    %r13, %r15\n"@;
    x_end = x_end + "    movq    %r13, %r15\n"@;
    lemma_ends_grow(x, x_end, "    imulq   %r10, %r15\n"@);
    x = x + "    imulq   %r10, %r15\n"@;
    x_end = x_end + "    imulq   %r10, %r15\n"@;
    lemma_ends_piece(x, x_end);
}

proof fn lemma_softmax_passes_in_text(
    n_inputs: nat,
    b: u64,
    k: u64,
    id: Seq<char>,
    src_loc: BufferLoc,
    dst_loc: BufferLoc,
    sym_prefix: Seq<char>,
    t: Seq<char>,
)
    requires
        has_piece(
            softmax_exp_pass(k, ffi_spill_bytes(n_inputs), ffi_spill_bytes(n_inputs) + 8, id, sym_prefix),
            t,
        ) || has_piece(softmax_norm_pass(k, ffi_spill_bytes(n_inputs) + 8, id), t)
            || has_piece(softmax_max_pass(k, ffi_spill_bytes(n_inputs), id), t),
    ensures
        has_piece(softmax_text(n_inputs, b, k, id, src_loc, dst_loc, sym_prefix), t),
{
    broadcast use lemma_piece_left, lemma_piece_right;

}

/// The standalone softmax divides each exponential by the sum of its row:
/// with the row start `row * k` in `%r15` and `j` in `%r14`, the exp pass
/// stores each element's exponential and adds it into the stack slot just
/// above the saved argument registers (`16 * ceil((N + 2) / 2) + 8`), and
/// the normalise pass divides each stored element of the row by that same
/// slot, so every output row sums to one.
pub proof fn lemma_softmax_divides_by_row_sum(
    n_inputs: nat,
    b: u64,
    k: u64,
    id: Seq<char>,
    src_loc: BufferLoc,
    dst_loc: BufferLoc,
    sym_prefix: Seq<char>,
)
    requires
        k <= u32::MAX,
    ensures
        computes(
            softmax_text(n_inputs, b, k, id, src_loc, dst_loc, sym_prefix),
            Reg::R15,
            Term::IMul(Box::new(init(Reg::R13)), Box::new(Term::Imm(k as nat))),
        ),
        ({
            let sum_slot = ffi_spill_bytes(n_inputs) + 8;
            &&& stores(
                softmax_text(n_inputs, b, k, id, src_loc, dst_loc, sym_prefix),
                seq![
                    Store::Elem(init(Reg::R12), softmax_element(), init(Reg::Xmm0)),
                    Store::Slot(sum_slot, fadd(Term::Slot(sum_slot), init(Reg::Xmm0))),
                ],
            )
            &&& stores(
                softmax_text(n_inputs, b, k, id, src_loc, dst_loc, sym_prefix),
                seq![
                    Store::Elem(
                        init(Reg::R12),
                        softmax_element(),
                        fdiv(load(init(Reg::R12), softmax_element()), Term::Slot(sum_slot)),
                    ),
                ],
            )
        }),
{
    let text = softmax_text(n_inputs, b, k, id, src_loc, dst_loc, sym_prefix);
    let sum_slot = ffi_spill_bytes(n_inputs) + 8;
    lemma_softmax_pass_pieces(k, ffi_spill_bytes(n_inputs), sum_slot, id, sym_prefix);
    let pa = lemma_softmax_sum(sum_slot);
    lemma_softmax_passes_in_text(n_inputs, b, k, id, src_loc, dst_loc, sym_prefix, lines(pa));
    assert(has_piece(text, lines(pa)));
    let pn = lemma_softmax_divide(sum_slot);
    lemma_softmax_passes_in_text(n_inputs, b, k, id, src_loc, dst_loc, sym_prefix, lines(pn));
    assert(has_piece(text, lines(pn)));
    lemma_softmax_row_start_piece(n_inputs, b, k, id, src_loc, dst_loc, sym_prefix);
    let pr = lemma_softmax_row_start(k);
    assert(has_piece(text, lines(pr)));
}



proof fn lemma_decimal_eight()
    ensures
        decimal(8) == "8"@,
{
    reveal_strlit("8");
    assert(digit_char(8) == '8');
    assert(decimal(8) =~= "8"@);
}

spec fn fused_sum_text() -> Seq<char> {
    row_offset_text()
        + "    movss   %xmm0, (%r12, %rax, 4)\n"@
        + "    movss   8(%rsp), %xmm1\n"@
        + "    addss   %xmm0, %xmm1\n"@
        + "    movss   %xmm1, 8(%rsp)\n"@
}

spec fn fused_divide_text() -> Seq<char> {
    row_offset_text()
        + "    movss   (%r12, %rax, 4), %xmm0\n"@
        + "    divss   8(%rsp), %xmm0\n"@
        + "    movss   %xmm0, (%r12, %rax, 4)\n"@
}

proof fn lemma_fused_sum() -> (p: Seq<Ins>)
    ensures
        lines(p) == fused_sum_text(),
        run(p).stores == seq![
            Store::Elem(init(Reg::R12), softmax_element(), init(Reg::Xmm0)),
            Store::Slot(8, fadd(Term::Slot(8), init(Reg::Xmm0))),
        ],
{
    assert(Seq::<Ins>::empty().len() == 0);
    lemma_decimal_eight();
    reveal_strlit("\n");
    reveal_strlit("    addq    ");
    reveal_strlit("    addq    %r14, %rax\n");
    reveal_strlit("    addss   ");
    reveal_strlit("    addss   %xmm0, %xmm1\n");
    reveal_strlit("    movq    ");
    reveal_strlit("    movq    %r15, %rax\n");
    reveal_strlit("    movss   ");
    reveal_strlit("    movss   %xmm0, (%r12, %rax, 4)\n");
    reveal_strlit("    movss   %xmm1, 8(%rsp)\n");
    reveal_strlit("    movss   8(%rsp), %xmm1\n");
    reveal_strlit("%r12");
    reveal_strlit("%r14");
    reveal_strlit("%r15");
    reveal_strlit("%rax");
    reveal_strlit("%xmm0");
    reveal_strlit("%xmm1");
    reveal_strlit("(%rsp)\n");
    reveal_strlit("(%rsp), ");
    reveal_strlit(", ");
    reveal_strlit(", (");
    reveal_strlit(", 4)\n");
    let a1 = Seq::<Ins>::empty().push(Ins::MovQ(Reg::R15, Reg::Rax));
    lemma_push(Seq::<Ins>::empty(), Ins::MovQ(Reg::R15, Reg::Rax));
    assert(line(Ins::MovQ(Reg::R15, Reg::Rax)) =~= "    movq    %r15, %rax\n"@);
    let a2 = a1.push(Ins::AddQ(Reg::R14, Reg::Rax));
    lemma_push(a1, Ins::AddQ(Reg::R14, Reg::Rax));
    assert(line(Ins::AddQ(Reg::R14, Reg::Rax)) =~= "    addq    %r14, %rax\n"@);
    let a3 = a2.push(Ins::StoreSS(Reg::Xmm0, Reg::R12, Reg::Rax));
    lemma_push(a2, Ins::StoreSS(Reg::Xmm0, Reg::R12, Reg::Rax));
    assert(line(Ins::StoreSS(Reg::Xmm0, Reg::R12, Reg::Rax)) =~= "    movss   %xmm0, (%r12, %rax, 4)\n"@);
    let a4 = a3.push(Ins::LoadSlot(8, Reg::Xmm1));
    lemma_push(a3, Ins::LoadSlot(8, Reg::Xmm1));
    assert(line(Ins::LoadSlot(8, Reg::Xmm1)) =~= "    movss   8(%rsp), %xmm1\n"@);
    let a5 = a4.push(Ins::AddSS(Reg::Xmm0, Reg::Xmm1));
    lemma_push(a4, Ins::AddSS(Reg::Xmm0, Reg::Xmm1));
    assert(line(Ins::AddSS(Reg::Xmm0, Reg::Xmm1)) =~= "    addss   %xmm0, %xmm1\n"@);
    let a6 = a5.push(Ins::StoreSlot(Reg::Xmm1, 8));
    lemma_push(a5, Ins::StoreSlot(Reg::Xmm1, 8));
    assert(line(Ins::StoreSlot(Reg::Xmm1, 8)) =~= "    movss   %xmm1, 8(%rsp)\n"@);
    assert(
        lines(a6) =~= "    movq    %r15, %rax\n"@
        + "    addq    %r14, %rax\n"@
        + "    movss   %xmm0, (%r12, %rax, 4)\n"@
        + "    movss   8(%rsp), %xmm1\n"@
        + "    addss   %xmm0, %xmm1\n"@
        + "    movss   %xmm1, 8(%rsp)\n"@
    );
    assert(run(a6).stores =~= seq![
            Store::Elem(init(Reg::R12), softmax_element(), init(Reg::Xmm0)),
            Store::Slot(8, fadd(Term::Slot(8), init(Reg::Xmm0))),
        ]);
    a6
}

proof fn lemma_fused_divide() -> (p: Seq<Ins>)
    ensures
        lines(p) == fused_divide_text(),
        run(p).stores == seq![
            Store::Elem(
                init(Reg::R12),
                softmax_element(),
                fdiv(load(init(Reg::R12), softmax_element()), Term::Slot(8)),
            ),
        ],
{
    assert(Seq::<Ins>::empty().len() == 0);
    lemma_decimal_eight();
    reveal_strlit("\n");
    reveal_strlit("    addq    ");
    reveal_strlit("    addq    %r14, %rax\n");
    reveal_strlit("    divss   ");
    reveal_strlit("    divss   8(%rsp), %xmm0\n");
    reveal_strlit("    movq    ");
    reveal_strlit("    movq    %r15, %rax\n");
    reveal_strlit("    movss   ");
    reveal_strlit("    movss   %xmm0, (%r12, %rax, 4)\n");
    reveal_strlit("    movss   (");
    reveal_strlit("    movss   (%r12, %rax, 4), %xmm0\n");
    reveal_strlit("%r12");
    reveal_strlit("%r14");
    reveal_strlit("%r15");
    reveal_strlit("%rax");
    reveal_strlit("%xmm0");
    reveal_strlit("(%rsp), ");
    reveal_strlit(", ");
    reveal_strlit(", (");
    reveal_strlit(", 4)\n");
    reveal_strlit(", 4), ");
    let q1 = Seq::<Ins>::empty().push(Ins::MovQ(Reg::R15, Reg::Rax));
    lemma_push(Seq::<Ins>::empty(), Ins::MovQ(Reg::R15, Reg::Rax));
    assert(line(Ins::MovQ(Reg::R15, Reg::Rax)) =~= "    movq    %r15, %rax\n"@);
    let q2 = q1.push(Ins::AddQ(Reg::R14, Reg::Rax));
    lemma_push(q1, Ins::AddQ(Reg::R14, Reg::Rax));
    assert(line(Ins::AddQ(Reg::R14, Reg::Rax)) =~= "    addq    %r14, %rax\n"@);
    let q3 = q2.push(Ins::LoadSS(Reg::R12, Reg::Rax, Reg::Xmm0));
    lemma_push(q2, Ins::LoadSS(Reg::R12, Reg::Rax, Reg::Xmm0));
    assert(line(Ins::LoadSS(Reg::R12, Reg::Rax, Reg::Xmm0)) =~= "    movss   (%r12, %rax, 4), %xmm0\n"@);
    let q4 = q3.push(Ins::DivSSSlot(8, Reg::Xmm0));
    lemma_push(q3, Ins::DivSSSlot(8, Reg::Xmm0));
    assert(line(Ins::DivSSSlot(8, Reg::Xmm0)) =~= "    divss   8(%rsp), %xmm0\n"@);
    let q5 = q4.push(Ins::StoreSS(Reg::Xmm0, Reg::R12, Reg::Rax));
    lemma_push(q4, Ins::StoreSS(Reg::Xmm0, Reg::R12, Reg::Rax));
    assert(line(Ins::StoreSS(Reg::Xmm0, Reg::R12, Reg::Rax)) =~= "    movss   %xmm0, (%r12, %rax, 4)\n"@);
    assert(
        lines(q5) =~= "    movq    %r15, %rax\n"@
        + "    addq    %r14, %rax\n"@
        + "    movss   (%r12, %rax, 4), %xmm0\n"@
        + "    divss   8(%rsp), %xmm0\n"@
        + "    movss   %xmm0, (%r12, %rax, 4)\n"@
    );
    assert(run(q5).stores =~= seq![
        Store::Elem(
            init(Reg::R12),
            softmax_element(),
            fdiv(load(init(Reg::R12), softmax_element()), Term::Slot(8)),
        ),
    ]);
    q5
}

proof fn lemma_fused_pass_pieces(n: u64, lid: Seq<char>, sym_prefix: Seq<char>)
    ensures
        has_piece(fused_exp_pass(n, lid, sym_prefix), fused_sum_text()),
        has_piece(fused_norm_pass(n, lid), fused_divide_text()),
{
    broadcast use lemma_piece_left;

    {
        let x_head = "    movl    $0, 8(%rsp)\n"@
            + "    xorq    %r14, %r14\n"@
            + loop_head(".Lfsmx_exp_"@, "    jge     .Lfsmx_exp_end_"@, "%r14"@, (n as u32) as nat, lid)
            + row_offset_text()
            + "    movss   (%rbx, %rax, 4), %xmm0\n"@
            + "    subss   (%rsp), %xmm0\n"@
            + exp_inline_text();
        lemma_ends_self(x_head, row_offset_text());
        let mut x = x_head + row_offset_text();
        let mut x_end = row_offset_text();
        lemma_ends_grow(x, x_end, "    movss   %xmm0, (%r12, %rax, 4)\n"@);
        x = x + "    movss   %xmm0, (%r12, %rax, 4)\n"@;
        x_end = x_end + "    movss   %xmm0, (%r12, %rax, 4)\n"@;
        lemma_ends_grow(x, x_end, "    movss   8(%rsp), %xmm1\n"@);
        x = x + "    movss   8(%rsp), %xmm1\n"@;
        x_end = x_end + "    movss   8(%rsp), %xmm1\n"@;
        lemma_ends_grow(x, x_end, "    addss   %xmm0, %xmm1\n"@);
        x = x + "    addss   %xmm0, %xmm1\n"@;
        x_end = x_end + "    addss   %xmm0, %xmm1\n"@;
        lemma_ends_grow(x, x_end, "    movss   %xmm1, 8(%rsp)\n"@);
        x = x + "    movss   %xmm1, 8(%rsp)\n"@;
        x_end = x_end + "    movss   %xmm1, 8(%rsp)\n"@;
        lemma_ends_piece(x, x_end);
    }
    let x_head = "    xorq    %r14, %r14\n"@
        + loop_head(".Lfsmx_norm_"@, "    jge     .Lfsmx_norm_end_"@, "%r14"@, (n as u32) as nat, lid);
    lemma_ends_self(x_head, row_offset_text());
    let mut x = x_head + row_offset_text();
    let mut x_end = row_offset_text();
    lemma_ends_grow(x, x_end, "    movss   (%r12, %rax, 4), %xmm0\n"@);
    x = x + "    movss   (%r12, %rax, 4), %xmm0\n"@;
    x_end = x_end + "    movss   (%r12, %rax, 4), %xmm0\n"@;
    lemma_ends_grow(x, x_end, "    divss   8(%rsp), %xmm0\n"@);
    x = x + "    divss   8(%rsp), %xmm0\n"@;
    x_end = x_end + "    divss   8(%rsp), %xmm0\n"@;
    lemma_ends_grow(x, x_end, "    movss   %xmm0, (%r12, %rax, 4)\n"@);
    x = x + "    movss   %xmm0, (%r12, %rax, 4)\n"@;
    x_end = x_end + "    movss   %xmm0, (%r12, %rax, 4)\n"@;
    lemma_ends_piece(x, x_end);
}

/// Post-ops that include the row softmax emit its tail.
proof fn lemma_post_ops_hold_tail(posts: Seq<PostOp>, b: u64, n: u64, id: Seq<char>, sym_prefix: Seq<char>)
    requires
        posts.contains(PostOp::SoftmaxRow),
    ensures
        has_piece(
            row_post_ops_text(posts, b, n, id, sym_prefix),
            fused_softmax_tail_text(b, n, id, sym_prefix),
        ),
    decreases posts.len(),
{
    broadcast use lemma_piece_left, lemma_piece_right;

    let tail = fused_softmax_tail_text(b, n, id, sym_prefix);
    if posts.last() == PostOp::SoftmaxRow {
        lemma_piece_self(tail);
    } else {
        let j = choose|j: int| 0 <= j < posts.len() && posts[j] == PostOp::SoftmaxRow;
        assert(posts.drop_last()[j] == PostOp::SoftmaxRow);
        lemma_post_ops_hold_tail(posts.drop_last(), b, n, id, sym_prefix);
    }
}

proof fn lemma_fused_passes_in_text(
    n_inputs: nat,
    b: u64,
    k: u64,
    n: u64,
    id: Seq<char>,
    src_loc: BufferLoc,
    dst_loc: BufferLoc,
    weight_offset: nat,
    bias_offset: Option<usize>,
    posts: Seq<PostOp>,
    sym_prefix: Seq<char>,
    t: Seq<char>,
)
    requires
        posts.contains(PostOp::SoftmaxRow),
        has_piece(fused_exp_pass(n, id, sym_prefix), t) || has_piece(fused_norm_pass(n, id), t)
            || has_piece(
                fused_max_pass(n, id),
                t) || has_piece(fused_softmax_tail_text(b, n, id, sym_prefix),
                t,
            ),
    ensures
        has_piece(
            linear_text(
                n_inputs,
                b,
                k,
                n,
                id,
                src_loc,
                dst_loc,
                weight_offset,
                bias_offset,
                posts,
                sym_prefix,
            ),
            t,
        ),
{
    broadcast use lemma_piece_left, lemma_piece_right;

    lemma_post_ops_hold_tail(posts, b, n, id, sym_prefix);
    lemma_piece_within(
        row_post_ops_text(posts, b, n, id, sym_prefix),
        fused_softmax_tail_text(b, n, id, sym_prefix),
        t,
    );
}

/// The row softmax fused into a linear layer divides each exponential by
/// the sum of its row: its exp pass stores each element's exponential and
/// adds it into the slot `8(%rsp)`, and its normalise pass divides each
/// stored element of the row by that same slot.
pub proof fn lemma_fused_softmax_divides_by_row_sum(
    n_inputs: nat,
    b: u64,
    k: u64,
    n: u64,
    id: Seq<char>,
    src_loc: BufferLoc,
    dst_loc: BufferLoc,
    weight_offset: nat,
    bias_offset: Option<usize>,
    posts: Seq<PostOp>,
    sym_prefix: Seq<char>,
)
    requires
        posts.contains(PostOp::SoftmaxRow),
    ensures
        stores(
            linear_text(
                n_inputs,
                b,
                k,
                n,
                id,
                src_loc,
                dst_loc,
                weight_offset,
                bias_offset,
                posts,
                sym_prefix,
            ),
            seq![
                Store::Elem(init(Reg::R12), softmax_element(), init(Reg::Xmm0)),
                Store::Slot(8, fadd(Term::Slot(8), init(Reg::Xmm0))),
            ],
        ),
        stores(
            linear_text(
                n_inputs,
                b,
                k,
                n,
                id,
                src_loc,
                dst_loc,
                weight_offset,
                bias_offset,
                posts,
                sym_prefix,
            ),
            seq![
                Store::Elem(
                    init(Reg::R12),
                    softmax_element(),
                    fdiv(load(init(Reg::R12), softmax_element()), Term::Slot(8)),
                ),
            ],
        ),
{
    let text = linear_text(
        n_inputs,
        b,
        k,
        n,
        id,
        src_loc,
        dst_loc,
        weight_offset,
        bias_offset,
        posts,
        sym_prefix,
    );
    lemma_fused_pass_pieces(n, id, sym_prefix);
    let pa = lemma_fused_sum();
    lemma_fused_passes_in_text(
        n_inputs, b, k, n, id, src_loc, dst_loc, weight_offset, bias_offset, posts, sym_prefix, lines(pa));
    assert(has_piece(text, lines(pa)));
    let pn = lemma_fused_divide();
    lemma_fused_passes_in_text(
        n_inputs, b, k, n, id, src_loc, dst_loc, weight_offset, bias_offset, posts, sym_prefix, lines(pn));
    assert(has_piece(text, lines(pn)));
}

spec fn softmax_max_step_text() -> Seq<char> {
    row_offset_text()
        + "    movss   (%rbx, %rax, 4), %xmm0\n"@
        + "    maxss   %xmm0, %xmm8\n"@
}

proof fn lemma_softmax_max_step() -> (p: Seq<Ins>)
    ensures
        lines(p) == softmax_max_step_text(),
        value(run(p), Reg::Xmm8) == fmax(init(Reg::Xmm8), load(init(Reg::Rbx), softmax_element())),
{
    assert(Seq::<Ins>::empty().len() == 0);
    reveal_strlit("\n");
    reveal_strlit("    addq    ");
    reveal_strlit("    addq    %r14, %rax\n");
    reveal_strlit("    maxss   ");
    reveal_strlit("    maxss   %xmm0, %xmm8\n");
    reveal_strlit("    movq    ");
    reveal_strlit("    movq    %r15, %rax\n");
    reveal_strlit("    movss   (");
    reveal_strlit("    movss   (%rbx, %rax, 4), %xmm0\n");
    reveal_strlit("%r14");
    reveal_strlit("%r15");
    reveal_strlit("%rax");
    reveal_strlit("%rbx");
    reveal_strlit("%xmm0");
    reveal_strlit("%xmm8");
    reveal_strlit(", ");
    reveal_strlit(", 4), ");
    let q1 = Seq::<Ins>::empty().push(Ins::MovQ(Reg::R15, Reg::Rax));
    lemma_push(Seq::<Ins>::empty(), Ins::MovQ(Reg::R15, Reg::Rax));
    assert(line(Ins::MovQ(Reg::R15, Reg::Rax)) =~= "    movq    %r15, %rax\n"@);
    let q2 = q1.push(Ins::AddQ(Reg::R14, Reg::Rax));
    lemma_push(q1, Ins::AddQ(Reg::R14, Reg::Rax));
    assert(line(Ins::AddQ(Reg::R14, Reg::Rax)) =~= "    addq    %r14, %rax\n"@);
    let q3 = q2.push(Ins::LoadSS(Reg::Rbx, Reg::Rax, Reg::Xmm0));
    lemma_push(q2, Ins::LoadSS(Reg::Rbx, Reg::Rax, Reg::Xmm0));
    assert(line(Ins::LoadSS(Reg::Rbx, Reg::Rax, Reg::Xmm0)) =~= "    movss   (%rbx, %rax, 4), %xmm0\n"@);
    let q4 = q3.push(Ins::MaxSS(Reg::Xmm0, Reg::Xmm8));
    lemma_push(q3, Ins::MaxSS(Reg::Xmm0, Reg::Xmm8));
    assert(line(Ins::MaxSS(Reg::Xmm0, Reg::Xmm8)) =~= "    maxss   %xmm0, %xmm8\n"@);
    assert(
        lines(q4) =~= "    movq    %r15, %rax\n"@
        + "    addq    %r14, %rax\n"@
        + "    movss   (%rbx, %rax, 4), %xmm0\n"@
        + "    maxss   %xmm0, %xmm8\n"@
    );
    q4
}

spec fn softmax_sub_max_text(max_slot: nat) -> Seq<char> {
    row_offset_text()
        + "    movss   (%rbx, %rax, 4), %xmm0\n"@
        + "    subss   "@ + decimal(max_slot) + "(%rsp), %xmm0\n"@
}

proof fn lemma_softmax_sub_max(max_slot: nat) -> (p: Seq<Ins>)
    ensures
        lines(p) == softmax_sub_max_text(max_slot),
        value(run(p), Reg::Xmm0) == fsub(load(init(Reg::Rbx), softmax_element()), Term::Slot(max_slot)),
{
    assert(Seq::<Ins>::empty().len() == 0);
    reveal_strlit("\n");
    reveal_strlit("    addq    ");
    reveal_strlit("    addq    %r14, %rax\n");
    reveal_strlit("    movq    ");
    reveal_strlit("    movq    %r15, %rax\n");
    reveal_strlit("    movss   (");
    reveal_strlit("    movss   (%rbx, %rax, 4), %xmm0\n");
    reveal_strlit("    subss   ");
    reveal_strlit("%r14");
    reveal_strlit("%r15");
    reveal_strlit("%rax");
    reveal_strlit("%rbx");
    reveal_strlit("%xmm0");
    reveal_strlit("(%rsp), ");
    reveal_strlit("(%rsp), %xmm0\n");
    reveal_strlit(", ");
    reveal_strlit(", 4), ");
    let q1 = Seq::<Ins>::empty().push(Ins::MovQ(Reg::R15, Reg::Rax));
    lemma_push(Seq::<Ins>::empty(), Ins::MovQ(Reg::R15, Reg::Rax));
    assert(line(Ins::MovQ(Reg::R15, Reg::Rax)) =~= "    movq    %r15, %rax\n"@);
    let q2 = q1.push(Ins::AddQ(Reg::R14, Reg::Rax));
    lemma_push(q1, Ins::AddQ(Reg::R14, Reg::Rax));
    assert(line(Ins::AddQ(Reg::R14, Reg::Rax)) =~= "    addq    %r14, %rax\n"@);
    let q3 = q2.push(Ins::LoadSS(Reg::Rbx, Reg::Rax, Reg::Xmm0));
    lemma_push(q2, Ins::LoadSS(Reg::Rbx, Reg::Rax, Reg::Xmm0));
    assert(line(Ins::LoadSS(Reg::Rbx, Reg::Rax, Reg::Xmm0)) =~= "    movss   (%rbx, %rax, 4), %xmm0\n"@);
    let q4 = q3.push(Ins::SubSSSlot(max_slot, Reg::Xmm0));
    lemma_push(q3, Ins::SubSSSlot(max_slot, Reg::Xmm0));
    assert(
        line(Ins::SubSSSlot(max_slot, Reg::Xmm0)) =~= "    subss   "@
        + decimal(max_slot)
        + "(%rsp), %xmm0\n"@
    );
    assert(
        lines(q4) =~= "    movq    %r15, %rax\n"@
        + "    addq    %r14, %rax\n"@
        + "    movss   (%rbx, %rax, 4), %xmm0\n"@
        + "    subss   "@
        + decimal(max_slot)
        + "(%rsp), %xmm0\n"@
    );
    q4
}

spec fn fused_sub_max_text() -> Seq<char> {
    row_offset_text()
        + "    movss   (%rbx, %rax, 4), %xmm0\n"@
        + "    subss   (%rsp), %xmm0\n"@
}

proof fn lemma_fused_sub_max() -> (p: Seq<Ins>)
    ensures
        lines(p) == fused_sub_max_text(),
        value(run(p), Reg::Xmm0) == fsub(load(init(Reg::Rbx), softmax_element()), Term::Slot(0)),
{
    assert(Seq::<Ins>::empty().len() == 0);
    reveal_strlit("\n");
    reveal_strlit("    addq    ");
    reveal_strlit("    addq    %r14, %rax\n");
    reveal_strlit("    movq    ");
    reveal_strlit("    movq    %r15, %rax\n");
    reveal_strlit("    movss   (");
    reveal_strlit("    movss   (%rbx, %rax, 4), %xmm0\n");
    reveal_strlit("    subss   (%rsp), ");
    reveal_strlit("    subss   (%rsp), %xmm0\n");
    reveal_strlit("%r14");
    reveal_strlit("%r15");
    reveal_strlit("%rax");
    reveal_strlit("%rbx");
    reveal_strlit("%xmm0");
    reveal_strlit(", ");
    reveal_strlit(", 4), ");
    let q1 = Seq::<Ins>::empty().push(Ins::MovQ(Reg::R15, Reg::Rax));
    lemma_push(Seq::<Ins>::empty(), Ins::MovQ(Reg::R15, Reg::Rax));
    assert(line(Ins::MovQ(Reg::R15, Reg::Rax)) =~= "    movq    %r15, %rax\n"@);
    let q2 = q1.push(Ins::AddQ(Reg::R14, Reg::Rax));
    lemma_push(q1, Ins::AddQ(Reg::R14, Reg::Rax));
    assert(line(Ins::AddQ(Reg::R14, Reg::Rax)) =~= "    addq    %r14, %rax\n"@);
    let q3 = q2.push(Ins::LoadSS(Reg::Rbx, Reg::Rax, Reg::Xmm0));
    lemma_push(q2, Ins::LoadSS(Reg::Rbx, Reg::Rax, Reg::Xmm0));
    assert(line(Ins::LoadSS(Reg::Rbx, Reg::Rax, Reg::Xmm0)) =~= "    movss   (%rbx, %rax, 4), %xmm0\n"@);
    let q4 = q3.push(Ins::SubSSTop(Reg::Xmm0));
    lemma_push(q3, Ins::SubSSTop(Reg::Xmm0));
    assert(line(Ins::SubSSTop(Reg::Xmm0)) =~= "    subss   (%rsp), %xmm0\n"@);
    assert(
        lines(q4) =~= "    movq    %r15, %rax\n"@
        + "    addq    %r14, %rax\n"@
        + "    movss   (%rbx, %rax, 4), %xmm0\n"@
        + "    subss   (%rsp), %xmm0\n"@
    );
    q4
}

proof fn lemma_softmax_max_store(max_slot: nat) -> (p: Seq<Ins>)
    ensures
        lines(p) == "    movss   %xmm8, "@ + decimal(max_slot) + "(%rsp)\n"@,
        run(p).stores == seq![Store::Slot(max_slot, init(Reg::Xmm8))],
{
    assert(Seq::<Ins>::empty().len() == 0);
    reveal_strlit("    movss   ");
    reveal_strlit("    movss   %xmm8, ");
    reveal_strlit("%xmm8");
    reveal_strlit("(%rsp)\n");
    reveal_strlit(", ");
    let q1 = Seq::<Ins>::empty().push(Ins::StoreSlot(Reg::Xmm8, max_slot));
    lemma_push(Seq::<Ins>::empty(), Ins::StoreSlot(Reg::Xmm8, max_slot));
    assert(
        line(Ins::StoreSlot(Reg::Xmm8, max_slot)) =~= "    movss   %xmm8, "@
        + decimal(max_slot)
        + "(%rsp)\n"@
    );
    assert(lines(q1) =~= "    movss   %xmm8, "@ + decimal(max_slot) + "(%rsp)\n"@);
    assert(run(q1).stores =~= seq![Store::Slot(max_slot, init(Reg::Xmm8))]);
    q1
}

proof fn lemma_fused_max_store() -> (p: Seq<Ins>)
    ensures
        lines(p) == "    movss   %xmm8, (%rsp)\n"@,
        run(p).stores == seq![Store::Slot(0, init(Reg::Xmm8))],
{
    assert(Seq::<Ins>::empty().len() == 0);
    reveal_strlit("    movss   ");
    reveal_strlit("    movss   %xmm8, (%rsp)\n");
    reveal_strlit("%xmm8");
    reveal_strlit(", (%rsp)\n");
    let q1 = Seq::<Ins>::empty().push(Ins::StoreTop(Reg::Xmm8));
    lemma_push(Seq::<Ins>::empty(), Ins::StoreTop(Reg::Xmm8));
    assert(line(Ins::StoreTop(Reg::Xmm8)) =~= "    movss   %xmm8, (%rsp)\n"@);
    assert(lines(q1) =~= "    movss   %xmm8, (%rsp)\n"@);
    assert(run(q1).stores =~= seq![Store::Slot(0, init(Reg::Xmm8))]);
    q1
}

proof fn lemma_softmax_max_pieces(k: u64, max_slot: nat, sum_slot: nat, id: Seq<char>, sym_prefix: Seq<char>)
    ensures
        has_piece(softmax_max_pass(k, max_slot, id), softmax_max_step_text()),
        has_piece(
            softmax_max_pass(k, max_slot, id),
            "    movss   %xmm8, "@ + decimal(max_slot) + "(%rsp)\n"@,
        ),
        has_piece(softmax_exp_pass(k, max_slot, sum_slot, id, sym_prefix), softmax_sub_max_text(max_slot)),
{
    broadcast use lemma_piece_left;

    let x_head = "    movl    $0xFF800000, %r10d\n"@
        + "    movd    %r10d, %xmm8\n"@
        + "    xorq    %r14, %r14\n"@
        + loop_head(".Lsm_max_"@, "    jge     .Lsm_max_end_"@, "%r14"@, (k as u32) as nat, id);
    lemma_ends_self(x_head, row_offset_text());
    let mut x = x_head + row_offset_text();
    let mut x_end = row_offset_text();
    lemma_ends_grow(x, x_end, "    movss   (%rbx, %rax, 4), %xmm0\n"@);
    x = x + "    movss   (%rbx, %rax, 4), %xmm0\n"@;
    x_end = x_end + "    movss   (%rbx, %rax, 4), %xmm0\n"@;
    lemma_ends_grow(x, x_end, "    maxss   %xmm0, %xmm8\n"@);
    x = x + "    maxss   %xmm0, %xmm8\n"@;
    x_end = x_end + "    maxss   %xmm0, %xmm8\n"@;
    lemma_ends_piece(x, x_end);
    let y_head = x
        + loop_tail("    incq    %r14\n"@, "    jmp     .Lsm_max_"@, ".Lsm_max_end_"@, id);
    lemma_ends_self(y_head, "    movss   %xmm8, "@);
    let mut y = y_head + "    movss   %xmm8, "@;
    let mut y_end = "    movss   %xmm8, "@;
    lemma_ends_grow(y, y_end, decimal(max_slot));
    y = y + decimal(max_slot);
    y_end = y_end + decimal(max_slot);
    lemma_ends_grow(y, y_end, "(%rsp)\n"@);
    y = y + "(%rsp)\n"@;
    y_end = y_end + "(%rsp)\n"@;
    lemma_ends_piece(y, y_end);
    let z_head = "    movl    $0, "@
        + decimal(sum_slot)
        + "(%rsp)\n"@
        + "    xorq    %r14, %r14\n"@
        + loop_head(".Lsm_exp_"@, "    jge     .Lsm_exp_end_"@, "%r14"@, (k as u32) as nat, id);
    lemma_ends_self(z_head, row_offset_text());
    let mut z = z_head + row_offset_text();
    let mut z_end = row_offset_text();
    lemma_ends_grow(z, z_end, "    movss   (%rbx, %rax, 4), %xmm0\n"@);
    z = z + "    movss   (%rbx, %rax, 4), %xmm0\n"@;
    z_end = z_end + "    movss   (%rbx, %rax, 4), %xmm0\n"@;
    lemma_ends_grow(z, z_end, "    subss   "@);
    z = z + "    subss   "@;
    z_end = z_end + "    subss   "@;
    lemma_ends_grow(z, z_end, decimal(max_slot));
    z = z + decimal(max_slot);
    z_end = z_end + decimal(max_slot);
    lemma_ends_grow(z, z_end, "(%rsp), %xmm0\n"@);
    z = z + "(%rsp), %xmm0\n"@;
    z_end = z_end + "(%rsp), %xmm0\n"@;
    lemma_ends_piece(z, z_end);
}

proof fn lemma_fused_max_pieces(n: u64, lid: Seq<char>, sym_prefix: Seq<char>)
    ensures
        has_piece(fused_max_pass(n, lid), softmax_max_step_text()),
        has_piece(fused_max_pass(n, lid), "    movss   %xmm8, (%rsp)\n"@),
        has_piece(fused_exp_pass(n, lid, sym_prefix), fused_sub_max_text()),
{
    broadcast use lemma_piece_left;

    let x_head = "    movl    $0xFF800000, %r10d\n"@
        + "    movd    %r10d, %xmm8\n"@
        + "    xorq    %r14, %r14\n"@
        + loop_head(".Lfsmx_max_"@, "    jge     .Lfsmx_max_end_"@, "%r14"@, (n as u32) as nat, lid);
    lemma_ends_self(x_head, row_offset_text());
    let mut x = x_head + row_offset_text();
    let mut x_end = row_offset_text();
    lemma_ends_grow(x, x_end, "    movss   (%rbx, %rax, 4), %xmm0\n"@);
    x = x + "    movss   (%rbx, %rax, 4), %xmm0\n"@;
    x_end = x_end + "    movss   (%rbx, %rax, 4), %xmm0\n"@;
    lemma_ends_grow(x, x_end, "    maxss   %xmm0, %xmm8\n"@);
    x = x + "    maxss   %xmm0, %xmm8\n"@;
    x_end = x_end + "    maxss   %xmm0, %xmm8\n"@;
    lemma_ends_piece(x, x_end);
    let y_head = x
        + loop_tail("    incq    %r14\n"@, "    jmp     .Lfsmx_max_"@, ".Lfsmx_max_end_"@, lid);
    lemma_ends_self(y_head, "    movss   %xmm8, (%rsp)\n"@);
    let mut y = y_head + "    movss   %xmm8, (%rsp)\n"@;
    let mut y_end = "    movss   %xmm8, (%rsp)\n"@;
    lemma_ends_piece(y, y_end);
    let z_head = "    movl    $0, 8(%rsp)\n"@
        + "    xorq    %r14, %r14\n"@
        + loop_head(".Lfsmx_exp_"@, "    jge     .Lfsmx_exp_end_"@, "%r14"@, (n as u32) as nat, lid);
    lemma_ends_self(z_head, row_offset_text());
    let mut z = z_head + row_offset_text();
    let mut z_end = row_offset_text();
    lemma_ends_grow(z, z_end, "    movss   (%rbx, %rax, 4), %xmm0\n"@);
    z = z + "    movss   (%rbx, %rax, 4), %xmm0\n"@;
    z_end = z_end + "    movss   (%rbx, %rax, 4), %xmm0\n"@;
    lemma_ends_grow(z, z_end, "    subss   (%rsp), %xmm0\n"@);
    z = z + "    subss   (%rsp), %xmm0\n"@;
    z_end = z_end + "    subss   (%rsp), %xmm0\n"@;
    lemma_ends_piece(z, z_end);
}

/// The standalone softmax subtracts the row maximum before the
/// exponential: its max pass takes in `%xmm8` the larger of the running
/// maximum and each element of the row (source in `%rbx`, element
/// `%r15 + %r14`), stores the maximum in the slot just above the saved
/// argument registers, and its exp pass starts from the element minus
/// that slot.
pub proof fn lemma_softmax_subtracts_row_max(
    n_inputs: nat,
    b: u64,
    k: u64,
    id: Seq<char>,
    src_loc: BufferLoc,
    dst_loc: BufferLoc,
    sym_prefix: Seq<char>,
)
    ensures
        computes(
            softmax_text(n_inputs, b, k, id, src_loc, dst_loc, sym_prefix),
            Reg::Xmm8,
            fmax(init(Reg::Xmm8), load(init(Reg::Rbx), softmax_element())),
        ),
        stores(
            softmax_text(n_inputs, b, k, id, src_loc, dst_loc, sym_prefix),
            seq![Store::Slot(ffi_spill_bytes(n_inputs), init(Reg::Xmm8))],
        ),
        computes(
            softmax_text(n_inputs, b, k, id, src_loc, dst_loc, sym_prefix),
            Reg::Xmm0,
            fsub(load(init(Reg::Rbx), softmax_element()), Term::Slot(ffi_spill_bytes(n_inputs))),
        ),
{
    let text = softmax_text(n_inputs, b, k, id, src_loc, dst_loc, sym_prefix);
    let max_slot = ffi_spill_bytes(n_inputs);
    lemma_softmax_max_pieces(k, max_slot, max_slot + 8, id, sym_prefix);
    let p1 = lemma_softmax_max_step();
    lemma_softmax_passes_in_text(n_inputs, b, k, id, src_loc, dst_loc, sym_prefix, lines(p1));
    assert(has_piece(text, lines(p1)));
    let p2 = lemma_softmax_max_store(max_slot);
    lemma_softmax_passes_in_text(n_inputs, b, k, id, src_loc, dst_loc, sym_prefix, lines(p2));
    assert(has_piece(text, lines(p2)));
    let p3 = lemma_softmax_sub_max(max_slot);
    lemma_softmax_passes_in_text(n_inputs, b, k, id, src_loc, dst_loc, sym_prefix, lines(p3));
    assert(has_piece(text, lines(p3)));
}

/// The row softmax fused into a linear layer subtracts the row maximum in
/// the same way, with the maximum kept in the slot `(%rsp)`.
pub proof fn lemma_fused_softmax_subtracts_row_max(
    n_inputs: nat,
    b: u64,
    k: u64,
    n: u64,
    id: Seq<char>,
    src_loc: BufferLoc,
    dst_loc: BufferLoc,
    weight_offset: nat,
    bias_offset: Option<usize>,
    posts: Seq<PostOp>,
    sym_prefix: Seq<char>,
)
    requires
        posts.contains(PostOp::SoftmaxRow),
    ensures
        computes(
            linear_text(
                n_inputs,
                b,
                k,
                n,
                id,
                src_loc,
                dst_loc,
                weight_offset,
                bias_offset,
                posts,
                sym_prefix,
            ),
            Reg::Xmm8,
            fmax(init(Reg::Xmm8), load(init(Reg::Rbx), softmax_element())),
        ),
        stores(
            linear_text(
                n_inputs,
                b,
                k,
                n,
                id,
                src_loc,
                dst_loc,
                weight_offset,
                bias_offset,
                posts,
                sym_prefix,
            ),
            seq![Store::Slot(0, init(Reg::Xmm8))],
        ),
        computes(
            linear_text(
                n_inputs,
                b,
                k,
                n,
                id,
                src_loc,
                dst_loc,
                weight_offset,
                bias_offset,
                posts,
                sym_prefix,
            ),
            Reg::Xmm0,
            fsub(load(init(Reg::Rbx), softmax_element()), Term::Slot(0)),
        ),
{
    let text = linear_text(
        n_inputs,
        b,
        k,
        n,
        id,
        src_loc,
        dst_loc,
        weight_offset,
        bias_offset,
        posts,
        sym_prefix,
    );
    lemma_fused_max_pieces(n, id, sym_prefix);
    let p1 = lemma_softmax_max_step();
    lemma_fused_passes_in_text(
        n_inputs, b, k, n, id, src_loc, dst_loc, weight_offset, bias_offset, posts, sym_prefix, lines(p1));
    assert(has_piece(text, lines(p1)));
    let p2 = lemma_fused_max_store();
    lemma_fused_passes_in_text(
        n_inputs, b, k, n, id, src_loc, dst_loc, weight_offset, bias_offset, posts, sym_prefix, lines(p2));
    assert(has_piece(text, lines(p2)));
    let p3 = lemma_fused_sub_max();
    lemma_fused_passes_in_text(
        n_inputs, b, k, n, id, src_loc, dst_loc, weight_offset, bias_offset, posts, sym_prefix, lines(p3));
    assert(has_piece(text, lines(p3)));
}


/// The row softmax fused into a linear layer runs over the rows,
/// `row < b`, and its passes over the row's elements, `j < n`: the loop
/// heads compare `%r13` with `b` and `%r14` with `n`.
pub proof fn lemma_fused_softmax_loop_bounds(
    n_inputs: nat,
    b: u64,
    k: u64,
    n: u64,
    id: Seq<char>,
    src_loc: BufferLoc,
    dst_loc: BufferLoc,
    weight_offset: nat,
    bias_offset: Option<usize>,
    posts: Seq<PostOp>,
    sym_prefix: Seq<char>,
)
    requires
        b <= u32::MAX,
        n <= u32::MAX,
        posts.contains(PostOp::SoftmaxRow),
    ensures
        compares(
            linear_text(
                n_inputs,
                b,
                k,
                n,
                id,
                src_loc,
                dst_loc,
                weight_offset,
                bias_offset,
                posts,
                sym_prefix,
            ),
            init(Reg::R13),
            Term::Imm(b as nat),
        ),
        compares(
            linear_text(
                n_inputs,
                b,
                k,
                n,
                id,
                src_loc,
                dst_loc,
                weight_offset,
                bias_offset,
                posts,
                sym_prefix,
            ),
            init(Reg::R14),
            Term::Imm(n as nat),
        ),
{
    let text = linear_text(
        n_inputs,
        b,
        k,
        n,
        id,
        src_loc,
        dst_loc,
        weight_offset,
        bias_offset,
        posts,
        sym_prefix,
    );
    lemma_loop_head_compares(".Lfsmx_i_"@, "    jge     .Lfsmx_i_end_"@, Reg::R13, (b as u32) as nat, id);
    lemma_fused_heads(b, n, id, sym_prefix);
    lemma_fused_passes_in_text(
        n_inputs,
        b,
        k,
        n,
        id,
        src_loc,
        dst_loc,
        weight_offset,
        bias_offset,
        posts,
        sym_prefix,
        loop_head(".Lfsmx_i_"@, "    jge     .Lfsmx_i_end_"@, "%r13"@, (b as u32) as nat, id),
    );
    lemma_compares_within(
        text,
        loop_head(".Lfsmx_i_"@, "    jge     .Lfsmx_i_end_"@, "%r13"@, (b as u32) as nat, id),
        init(Reg::R13),
        Term::Imm(b as nat),
    );
    lemma_loop_head_compares(
        ".Lfsmx_norm_"@,
        "    jge     .Lfsmx_norm_end_"@,
        Reg::R14,
        (n as u32) as nat,
        id,
    );
    lemma_fused_passes_in_text(
        n_inputs,
        b,
        k,
        n,
        id,
        src_loc,
        dst_loc,
        weight_offset,
        bias_offset,
        posts,
        sym_prefix,
        loop_head(".Lfsmx_norm_"@, "    jge     .Lfsmx_norm_end_"@, "%r14"@, (n as u32) as nat, id),
    );
    lemma_compares_within(
        text,
        loop_head(".Lfsmx_norm_"@, "    jge     .Lfsmx_norm_end_"@, "%r14"@, (n as u32) as nat, id),
        init(Reg::R14),
        Term::Imm(n as nat),
    );
}

proof fn lemma_fused_heads(b: u64, n: u64, id: Seq<char>, sym_prefix: Seq<char>)
    ensures
        has_piece(
            fused_softmax_tail_text(b, n, id, sym_prefix),
            loop_head(".Lfsmx_i_"@, "    jge     .Lfsmx_i_end_"@, "%r13"@, (b as u32) as nat, id),
        ),
        has_piece(
            fused_norm_pass(n, id),
            loop_head(".Lfsmx_norm_"@, "    jge     .Lfsmx_norm_end_"@, "%r14"@, (n as u32) as nat, id),
        ),
{
    broadcast use lemma_piece_left, lemma_piece_right;

    lemma_piece_self(loop_head(".Lfsmx_i_"@, "    jge     .Lfsmx_i_end_"@, "%r13"@, (b as u32) as nat, id));
    lemma_piece_self(loop_head(".Lfsmx_norm_"@, "    jge     .Lfsmx_norm_end_"@, "%r14"@, (n as u32) as nat, id));
}


/// The constant at a label of the constant pool.
pub open spec fn pool(label: Seq<char>) -> Term {
    Term::Const(label)
}

/// What the inline `exp` leaves in `%xmm0` when it starts from `x`:
/// `z = round(x * log2e)`, `r = x - z * ln2_hi - z * ln2_lo`, the degree-7
/// polynomial in `r` by Horner from `c7` down to `c0`, times the f32 whose
/// bits are `z + 127` shifted into the exponent field, or `+0` when
/// `z + 127 <= 0`.
pub open spec fn exp_of(x: Term) -> Term {
    let z = Term::Round(Box::new(fmul(pool(".Lexp_log2e"@), x)));
    let zf = Term::ToFloat(Box::new(z));
    let r = fsub(fsub(x, fmul(pool(".Lexp_ln2hi"@), zf)), fmul(pool(".Lexp_ln2lo"@), zf));
    let h6 = fadd(fmul(pool(".Lexp_c7"@), r), pool(".Lexp_c6"@));
    let h5 = fadd(fmul(h6, r), pool(".Lexp_c5"@));
    let h4 = fadd(fmul(h5, r), pool(".Lexp_c4"@));
    let h3 = fadd(fmul(h4, r), pool(".Lexp_c3"@));
    let h2 = fadd(fmul(h3, r), pool(".Lexp_c2"@));
    let h1 = fadd(fmul(h2, r), pool(".Lexp_c1"@));
    let h0 = fadd(fmul(h1, r), pool(".Lexp_c0"@));
    let e = Term::IAdd(Box::new(z), Box::new(Term::Imm(127)));
    let scale = Term::Bits(Box::new(Term::Shl(Box::new(Term::IfNonPos(Box::new(e), Box::new(Term::Imm(0)), Box::new(e))), 23)));
    fmul(h0, scale)
}

proof fn lemma_decimal_exponent_constants()
    ensures
        decimal(127) == "127"@,
        decimal(23) == "23"@,
{
    reveal_strlit("127");
    reveal_strlit("23");
    assert(digit_char(1) == '1');
    assert(digit_char(2) == '2');
    assert(digit_char(3) == '3');
    assert(digit_char(7) == '7');
    assert(decimal(1) =~= seq!['1']);
    assert(decimal(12) =~= seq!['1', '2']);
    assert(decimal(127) =~= "127"@);
    assert(decimal(2) =~= seq!['2']);
    assert(decimal(23) =~= "23"@);
}

/// Appending the inline `exp` to a piece that leaves `x` in `%xmm0` gives a
/// piece that leaves `exp_of(x)` there.
#[verifier::rlimit(90)]
proof fn lemma_exp_piece(p0: Seq<Ins>) -> (p: Seq<Ins>)
    ensures
        lines(p) == lines(p0) + exp_inline_text(),
        value(run(p), Reg::Xmm0) == exp_of(value(run(p0), Reg::Xmm0)),
        run(p).stores == run(p0).stores,
        forall|r: Reg|
            r != Reg::Xmm0 && r != Reg::Xmm1 && r != Reg::Xmm2 && r != Reg::Xmm3 && r != Reg::Rax && r != Reg::Eax
                && r != Reg::R10 ==> #[trigger] value(run(p), r) == value(run(p0), r),
{
    reveal(exp_inline_text);
    lemma_decimal_exponent_constants();
    reveal_strlit("127");
    reveal_strlit("23");
    reveal_strlit("\n");
    reveal_strlit("    addl    $");
    reveal_strlit("    addl    $127, %eax\n");
    reveal_strlit("    addss   ");
    reveal_strlit("    addss   .Lexp_c0(%rip), %xmm1\n");
    reveal_strlit("    addss   .Lexp_c1(%rip), %xmm1\n");
    reveal_strlit("    addss   .Lexp_c2(%rip), %xmm1\n");
    reveal_strlit("    addss   .Lexp_c3(%rip), %xmm1\n");
    reveal_strlit("    addss   .Lexp_c4(%rip), %xmm1\n");
    reveal_strlit("    addss   .Lexp_c5(%rip), %xmm1\n");
    reveal_strlit("    addss   .Lexp_c6(%rip), %xmm1\n");
    reveal_strlit("    cmovle  %r10d, ");
    reveal_strlit("    cmovle  %r10d, %eax\n");
    reveal_strlit("    cvtsi2ss ");
    reveal_strlit("    cvtsi2ss %eax, %xmm2\n");
    reveal_strlit("    cvtss2si ");
    reveal_strlit("    cvtss2si %xmm1, %eax\n");
    reveal_strlit("    movd    ");
    reveal_strlit("    movd    %eax, %xmm2\n");
    reveal_strlit("    movss   ");
    reveal_strlit("    movss   %xmm1, %xmm0\n");
    reveal_strlit("    movss   .Lexp_c7(%rip), %xmm1\n");
    reveal_strlit("    movss   .Lexp_ln2hi(%rip), %xmm3\n");
    reveal_strlit("    movss   .Lexp_ln2lo(%rip), %xmm3\n");
    reveal_strlit("    movss   .Lexp_log2e(%rip), %xmm1\n");
    reveal_strlit("    mulss   ");
    reveal_strlit("    mulss   %xmm0, %xmm1\n");
    reveal_strlit("    mulss   %xmm2, %xmm1\n");
    reveal_strlit("    mulss   %xmm2, %xmm3\n");
    reveal_strlit("    shll    $");
    reveal_strlit("    shll    $23, %eax\n");
    reveal_strlit("    subss   ");
    reveal_strlit("    subss   %xmm3, %xmm0\n");
    reveal_strlit("    testl   ");
    reveal_strlit("    testl   %eax, %eax\n");
    reveal_strlit("    xorl    %r10d, %r10d\n");
    reveal_strlit("%eax");
    reveal_strlit("%xmm0");
    reveal_strlit("%xmm1");
    reveal_strlit("%xmm2");
    reveal_strlit("%xmm3");
    reveal_strlit("(%rip), ");
    reveal_strlit(", ");
    reveal_strlit(".Lexp_c0");
    reveal_strlit(".Lexp_c1");
    reveal_strlit(".Lexp_c2");
    reveal_strlit(".Lexp_c3");
    reveal_strlit(".Lexp_c4");
    reveal_strlit(".Lexp_c5");
    reveal_strlit(".Lexp_c6");
    reveal_strlit(".Lexp_c7");
    reveal_strlit(".Lexp_ln2hi");
    reveal_strlit(".Lexp_ln2lo");
    reveal_strlit(".Lexp_log2e");
    let e1 = p0.push(Ins::LoadRip(".Lexp_log2e"@, Reg::Xmm1));
    lemma_push(p0, Ins::LoadRip(".Lexp_log2e"@, Reg::Xmm1));
    assert(line(Ins::LoadRip(".Lexp_log2e"@, Reg::Xmm1)) =~= "    movss   .Lexp_log2e(%rip), %xmm1\n"@);
    let e2 = e1.push(Ins::MulSS(Reg::Xmm0, Reg::Xmm1));
    lemma_push(e1, Ins::MulSS(Reg::Xmm0, Reg::Xmm1));
    assert(line(Ins::MulSS(Reg::Xmm0, Reg::Xmm1)) =~= "    mulss   %xmm0, %xmm1\n"@);
    let e3 = e2.push(Ins::Cvtss2si(Reg::Xmm1, Reg::Eax));
    lemma_push(e2, Ins::Cvtss2si(Reg::Xmm1, Reg::Eax));
    assert(line(Ins::Cvtss2si(Reg::Xmm1, Reg::Eax)) =~= "    cvtss2si %xmm1, %eax\n"@);
    let e4 = e3.push(Ins::Cvtsi2ss(Reg::Eax, Reg::Xmm2));
    lemma_push(e3, Ins::Cvtsi2ss(Reg::Eax, Reg::Xmm2));
    assert(line(Ins::Cvtsi2ss(Reg::Eax, Reg::Xmm2)) =~= "    cvtsi2ss %eax, %xmm2\n"@);
    let e5 = e4.push(Ins::LoadRip(".Lexp_ln2hi"@, Reg::Xmm3));
    lemma_push(e4, Ins::LoadRip(".Lexp_ln2hi"@, Reg::Xmm3));
    assert(line(Ins::LoadRip(".Lexp_ln2hi"@, Reg::Xmm3)) =~= "    movss   .Lexp_ln2hi(%rip), %xmm3\n"@);
    let e6 = e5.push(Ins::MulSS(Reg::Xmm2, Reg::Xmm3));
    lemma_push(e5, Ins::MulSS(Reg::Xmm2, Reg::Xmm3));
    assert(line(Ins::MulSS(Reg::Xmm2, Reg::Xmm3)) =~= "    mulss   %xmm2, %xmm3\n"@);
    let e7 = e6.push(Ins::SubSS(Reg::Xmm3, Reg::Xmm0));
    lemma_push(e6, Ins::SubSS(Reg::Xmm3, Reg::Xmm0));
    assert(line(Ins::SubSS(Reg::Xmm3, Reg::Xmm0)) =~= "    subss   %xmm3, %xmm0\n"@);
    let e8 = e7.push(Ins::LoadRip(".Lexp_ln2lo"@, Reg::Xmm3));
    lemma_push(e7, Ins::LoadRip(".Lexp_ln2lo"@, Reg::Xmm3));
    assert(line(Ins::LoadRip(".Lexp_ln2lo"@, Reg::Xmm3)) =~= "    movss   .Lexp_ln2lo(%rip), %xmm3\n"@);
    let e9 = e8.push(Ins::MulSS(Reg::Xmm2, Reg::Xmm3));
    lemma_push(e8, Ins::MulSS(Reg::Xmm2, Reg::Xmm3));
    assert(line(Ins::MulSS(Reg::Xmm2, Reg::Xmm3)) =~= "    mulss   %xmm2, %xmm3\n"@);
    let e10 = e9.push(Ins::SubSS(Reg::Xmm3, Reg::Xmm0));
    lemma_push(e9, Ins::SubSS(Reg::Xmm3, Reg::Xmm0));
    assert(line(Ins::SubSS(Reg::Xmm3, Reg::Xmm0)) =~= "    subss   %xmm3, %xmm0\n"@);
    let e11 = e10.push(Ins::LoadRip(".Lexp_c7"@, Reg::Xmm1));
    lemma_push(e10, Ins::LoadRip(".Lexp_c7"@, Reg::Xmm1));
    assert(line(Ins::LoadRip(".Lexp_c7"@, Reg::Xmm1)) =~= "    movss   .Lexp_c7(%rip), %xmm1\n"@);
    let e12 = e11.push(Ins::MulSS(Reg::Xmm0, Reg::Xmm1));
    lemma_push(e11, Ins::MulSS(Reg::Xmm0, Reg::Xmm1));
    assert(line(Ins::MulSS(Reg::Xmm0, Reg::Xmm1)) =~= "    mulss   %xmm0, %xmm1\n"@);
    let e13 = e12.push(Ins::AddSSRip(".Lexp_c6"@, Reg::Xmm1));
    lemma_push(e12, Ins::AddSSRip(".Lexp_c6"@, Reg::Xmm1));
    assert(line(Ins::AddSSRip(".Lexp_c6"@, Reg::Xmm1)) =~= "    addss   .Lexp_c6(%rip), %xmm1\n"@);
    let e14 = e13.push(Ins::MulSS(Reg::Xmm0, Reg::Xmm1));
    lemma_push(e13, Ins::MulSS(Reg::Xmm0, Reg::Xmm1));
    assert(line(Ins::MulSS(Reg::Xmm0, Reg::Xmm1)) =~= "    mulss   %xmm0, %xmm1\n"@);
    let e15 = e14.push(Ins::AddSSRip(".Lexp_c5"@, Reg::Xmm1));
    lemma_push(e14, Ins::AddSSRip(".Lexp_c5"@, Reg::Xmm1));
    assert(line(Ins::AddSSRip(".Lexp_c5"@, Reg::Xmm1)) =~= "    addss   .Lexp_c5(%rip), %xmm1\n"@);
    let e16 = e15.push(Ins::MulSS(Reg::Xmm0, Reg::Xmm1));
    lemma_push(e15, Ins::MulSS(Reg::Xmm0, Reg::Xmm1));
    assert(line(Ins::MulSS(Reg::Xmm0, Reg::Xmm1)) =~= "    mulss   %xmm0, %xmm1\n"@);
    let e17 = e16.push(Ins::AddSSRip(".Lexp_c4"@, Reg::Xmm1));
    lemma_push(e16, Ins::AddSSRip(".Lexp_c4"@, Reg::Xmm1));
    assert(line(Ins::AddSSRip(".Lexp_c4"@, Reg::Xmm1)) =~= "    addss   .Lexp_c4(%rip), %xmm1\n"@);
    let e18 = e17.push(Ins::MulSS(Reg::Xmm0, Reg::Xmm1));
    lemma_push(e17, Ins::MulSS(Reg::Xmm0, Reg::Xmm1));
    assert(line(Ins::MulSS(Reg::Xmm0, Reg::Xmm1)) =~= "    mulss   %xmm0, %xmm1\n"@);
    let e19 = e18.push(Ins::AddSSRip(".Lexp_c3"@, Reg::Xmm1));
    lemma_push(e18, Ins::AddSSRip(".Lexp_c3"@, Reg::Xmm1));
    assert(line(Ins::AddSSRip(".Lexp_c3"@, Reg::Xmm1)) =~= "    addss   .Lexp_c3(%rip), %xmm1\n"@);
    let e20 = e19.push(Ins::MulSS(Reg::Xmm0, Reg::Xmm1));
    lemma_push(e19, Ins::MulSS(Reg::Xmm0, Reg::Xmm1));
    assert(line(Ins::MulSS(Reg::Xmm0, Reg::Xmm1)) =~= "    mulss   %xmm0, %xmm1\n"@);
    let e21 = e20.push(Ins::AddSSRip(".Lexp_c2"@, Reg::Xmm1));
    lemma_push(e20, Ins::AddSSRip(".Lexp_c2"@, Reg::Xmm1));
    assert(line(Ins::AddSSRip(".Lexp_c2"@, Reg::Xmm1)) =~= "    addss   .Lexp_c2(%rip), %xmm1\n"@);
    let e22 = e21.push(Ins::MulSS(Reg::Xmm0, Reg::Xmm1));
    lemma_push(e21, Ins::MulSS(Reg::Xmm0, Reg::Xmm1));
    assert(line(Ins::MulSS(Reg::Xmm0, Reg::Xmm1)) =~= "    mulss   %xmm0, %xmm1\n"@);
    let e23 = e22.push(Ins::AddSSRip(".Lexp_c1"@, Reg::Xmm1));
    lemma_push(e22, Ins::AddSSRip(".Lexp_c1"@, Reg::Xmm1));
    assert(line(Ins::AddSSRip(".Lexp_c1"@, Reg::Xmm1)) =~= "    addss   .Lexp_c1(%rip), %xmm1\n"@);
    let e24 = e23.push(Ins::MulSS(Reg::Xmm0, Reg::Xmm1));
    lemma_push(e23, Ins::MulSS(Reg::Xmm0, Reg::Xmm1));
    assert(line(Ins::MulSS(Reg::Xmm0, Reg::Xmm1)) =~= "    mulss   %xmm0, %xmm1\n"@);
    let e25 = e24.push(Ins::AddSSRip(".Lexp_c0"@, Reg::Xmm1));
    lemma_push(e24, Ins::AddSSRip(".Lexp_c0"@, Reg::Xmm1));
    assert(line(Ins::AddSSRip(".Lexp_c0"@, Reg::Xmm1)) =~= "    addss   .Lexp_c0(%rip), %xmm1\n"@);
    let e26 = e25.push(Ins::AddlImm(127, Reg::Eax));
    lemma_push(e25, Ins::AddlImm(127, Reg::Eax));
    assert(line(Ins::AddlImm(127, Reg::Eax)) =~= "    addl    $127, %eax\n"@);
    let e27 = e26.push(Ins::ZeroR10d);
    lemma_push(e26, Ins::ZeroR10d);
    assert(line(Ins::ZeroR10d) =~= "    xorl    %r10d, %r10d\n"@);
    let e28 = e27.push(Ins::ClampNonPos(Reg::Eax));
    lemma_push(e27, Ins::ClampNonPos(Reg::Eax));
    assert(line(Ins::ClampNonPos(Reg::Eax)) =~= "    testl   %eax, %eax\n"@ + "    cmovle  %r10d, %eax\n"@);
    let e29 = e28.push(Ins::ShllImm(23, Reg::Eax));
    lemma_push(e28, Ins::ShllImm(23, Reg::Eax));
    assert(line(Ins::ShllImm(23, Reg::Eax)) =~= "    shll    $23, %eax\n"@);
    let e30 = e29.push(Ins::MovdGp(Reg::Eax, Reg::Xmm2));
    lemma_push(e29, Ins::MovdGp(Reg::Eax, Reg::Xmm2));
    assert(line(Ins::MovdGp(Reg::Eax, Reg::Xmm2)) =~= "    movd    %eax, %xmm2\n"@);
    let e31 = e30.push(Ins::MulSS(Reg::Xmm2, Reg::Xmm1));
    lemma_push(e30, Ins::MulSS(Reg::Xmm2, Reg::Xmm1));
    assert(line(Ins::MulSS(Reg::Xmm2, Reg::Xmm1)) =~= "    mulss   %xmm2, %xmm1\n"@);
    let e32 = e31.push(Ins::MovSS(Reg::Xmm1, Reg::Xmm0));
    lemma_push(e31, Ins::MovSS(Reg::Xmm1, Reg::Xmm0));
    assert(line(Ins::MovSS(Reg::Xmm1, Reg::Xmm0)) =~= "    movss   %xmm1, %xmm0\n"@);
    assert(lines(e32) =~= lines(p0) + exp_inline_text());
    e32
}


spec fn softmax_exp_body_text(max_slot: nat, sum_slot: nat) -> Seq<char> {
    row_offset_text()
        + "    movss   (%rbx, %rax, 4), %xmm0\n"@
        + "    subss   "@
        + decimal(max_slot)
        + "(%rsp), %xmm0\n"@
        + exp_inline_text()
        + row_offset_text()
        + "    movss   %xmm0, (%r12, %rax, 4)\n"@
        + "    movss   "@
        + decimal(sum_slot)
        + "(%rsp), %xmm1\n"@
        + "    addss   %xmm0, %xmm1\n"@
        + "    movss   %xmm1, "@
        + decimal(sum_slot)
        + "(%rsp)\n"@
}

spec fn fused_exp_body_text() -> Seq<char> {
    row_offset_text()
        + "    movss   (%rbx, %rax, 4), %xmm0\n"@
        + "    subss   (%rsp), %xmm0\n"@
        + exp_inline_text()
        + row_offset_text()
        + "    movss   %xmm0, (%r12, %rax, 4)\n"@
        + "    movss   8(%rsp), %xmm1\n"@
        + "    addss   %xmm0, %xmm1\n"@
        + "    movss   %xmm1, 8(%rsp)\n"@
}

#[verifier::rlimit(60)]
proof fn lemma_softmax_exp_body(max_slot: nat, sum_slot: nat) -> (p: Seq<Ins>)
    ensures
        lines(p) == softmax_exp_body_text(max_slot, sum_slot),
        run(p).stores == seq![
            Store::Elem(init(Reg::R12), softmax_element(), exp_of(fsub(load(init(Reg::Rbx), softmax_element()), Term::Slot(max_slot)))),
            Store::Slot(sum_slot, fadd(Term::Slot(sum_slot), exp_of(fsub(load(init(Reg::Rbx), softmax_element()), Term::Slot(max_slot))))),
        ],
{
    assert(Seq::<Ins>::empty().len() == 0);
    reveal_strlit("\n");
    reveal_strlit("    addq    ");
    reveal_strlit("    addq    %r14, %rax\n");
    reveal_strlit("    movq    ");
    reveal_strlit("    movq    %r15, %rax\n");
    reveal_strlit("    movss   (");
    reveal_strlit("    movss   (%rbx, %rax, 4), %xmm0\n");
    reveal_strlit("    subss   ");
    reveal_strlit("%r14");
    reveal_strlit("%r15");
    reveal_strlit("%rax");
    reveal_strlit("%rbx");
    reveal_strlit("%xmm0");
    reveal_strlit("(%rsp), ");
    reveal_strlit("(%rsp), %xmm0\n");
    reveal_strlit(", ");
    reveal_strlit(", 4), ");
    let a1 = Seq::<Ins>::empty().push(Ins::MovQ(Reg::R15, Reg::Rax));
    lemma_push(Seq::<Ins>::empty(), Ins::MovQ(Reg::R15, Reg::Rax));
    assert(line(Ins::MovQ(Reg::R15, Reg::Rax)) =~= "    movq    %r15, %rax\n"@);
    let a2 = a1.push(Ins::AddQ(Reg::R14, Reg::Rax));
    lemma_push(a1, Ins::AddQ(Reg::R14, Reg::Rax));
    assert(line(Ins::AddQ(Reg::R14, Reg::Rax)) =~= "    addq    %r14, %rax\n"@);
    let a3 = a2.push(Ins::LoadSS(Reg::Rbx, Reg::Rax, Reg::Xmm0));
    lemma_push(a2, Ins::LoadSS(Reg::Rbx, Reg::Rax, Reg::Xmm0));
    assert(line(Ins::LoadSS(Reg::Rbx, Reg::Rax, Reg::Xmm0)) =~= "    movss   (%rbx, %rax, 4), %xmm0\n"@);
    let a4 = a3.push(Ins::SubSSSlot(max_slot, Reg::Xmm0));
    lemma_push(a3, Ins::SubSSSlot(max_slot, Reg::Xmm0));
    assert(line(Ins::SubSSSlot(max_slot, Reg::Xmm0)) =~= "    subss   "@ + decimal(max_slot) + "(%rsp), %xmm0\n"@);
    assert(value(run(a4), Reg::Xmm0) == fsub(load(init(Reg::Rbx), softmax_element()), Term::Slot(max_slot)));
    let e = lemma_exp_piece(a4);
    assert(value(run(e), Reg::R15) == value(run(a4), Reg::R15));
    assert(value(run(e), Reg::R14) == value(run(a4), Reg::R14));
    assert(value(run(e), Reg::R12) == value(run(a4), Reg::R12));
    assert(value(run(a4), Reg::R15) == init(Reg::R15));
    assert(value(run(a4), Reg::R14) == init(Reg::R14));
    assert(value(run(a4), Reg::R12) == init(Reg::R12));
    assert(run(a4).stores =~= Seq::<Store>::empty());
    reveal_strlit("\n");
    reveal_strlit("    addq    ");
    reveal_strlit("    addq    %r14, %rax\n");
    reveal_strlit("    addss   ");
    reveal_strlit("    addss   %xmm0, %xmm1\n");
    reveal_strlit("    movq    ");
    reveal_strlit("    movq    %r15, %rax\n");
    reveal_strlit("    movss   ");
    reveal_strlit("    movss   %xmm0, (%r12, %rax, 4)\n");
    reveal_strlit("    movss   %xmm1, ");
    reveal_strlit("%r12");
    reveal_strlit("%r14");
    reveal_strlit("%r15");
    reveal_strlit("%rax");
    reveal_strlit("%xmm0");
    reveal_strlit("%xmm1");
    reveal_strlit("(%rsp)\n");
    reveal_strlit("(%rsp), ");
    reveal_strlit("(%rsp), %xmm1\n");
    reveal_strlit(", ");
    reveal_strlit(", (");
    reveal_strlit(", 4)\n");
    let b1 = e.push(Ins::MovQ(Reg::R15, Reg::Rax));
    lemma_push(e, Ins::MovQ(Reg::R15, Reg::Rax));
    assert(line(Ins::MovQ(Reg::R15, Reg::Rax)) =~= "    movq    %r15, %rax\n"@);
    let b2 = b1.push(Ins::AddQ(Reg::R14, Reg::Rax));
    lemma_push(b1, Ins::AddQ(Reg::R14, Reg::Rax));
    assert(line(Ins::AddQ(Reg::R14, Reg::Rax)) =~= "    addq    %r14, %rax\n"@);
    let b3 = b2.push(Ins::StoreSS(Reg::Xmm0, Reg::R12, Reg::Rax));
    lemma_push(b2, Ins::StoreSS(Reg::Xmm0, Reg::R12, Reg::Rax));
    assert(line(Ins::StoreSS(Reg::Xmm0, Reg::R12, Reg::Rax)) =~= "    movss   %xmm0, (%r12, %rax, 4)\n"@);
    let b4 = b3.push(Ins::LoadSlot(sum_slot, Reg::Xmm1));
    lemma_push(b3, Ins::LoadSlot(sum_slot, Reg::Xmm1));
    assert(line(Ins::LoadSlot(sum_slot, Reg::Xmm1)) =~= "    movss   "@ + decimal(sum_slot) + "(%rsp), %xmm1\n"@);
    let b5 = b4.push(Ins::AddSS(Reg::Xmm0, Reg::Xmm1));
    lemma_push(b4, Ins::AddSS(Reg::Xmm0, Reg::Xmm1));
    assert(line(Ins::AddSS(Reg::Xmm0, Reg::Xmm1)) =~= "    addss   %xmm0, %xmm1\n"@);
    let b6 = b5.push(Ins::StoreSlot(Reg::Xmm1, sum_slot));
    lemma_push(b5, Ins::StoreSlot(Reg::Xmm1, sum_slot));
    assert(line(Ins::StoreSlot(Reg::Xmm1, sum_slot)) =~= "    movss   %xmm1, "@ + decimal(sum_slot) + "(%rsp)\n"@);
    assert(lines(b6) =~= softmax_exp_body_text(max_slot, sum_slot));
    assert(run(b6).stores =~= seq![
            Store::Elem(init(Reg::R12), softmax_element(), exp_of(fsub(load(init(Reg::Rbx), softmax_element()), Term::Slot(max_slot)))),
            Store::Slot(sum_slot, fadd(Term::Slot(sum_slot), exp_of(fsub(load(init(Reg::Rbx), softmax_element()), Term::Slot(max_slot))))),
        ]);
    b6
}

#[verifier::rlimit(60)]
proof fn lemma_fused_exp_body() -> (p: Seq<Ins>)
    ensures
        lines(p) == fused_exp_body_text(),
        run(p).stores == seq![
            Store::Elem(init(Reg::R12), softmax_element(), exp_of(fsub(load(init(Reg::Rbx), softmax_element()), Term::Slot(0)))),
            Store::Slot(8, fadd(Term::Slot(8), exp_of(fsub(load(init(Reg::Rbx), softmax_element()), Term::Slot(0))))),
        ],
{
    assert(Seq::<Ins>::empty().len() == 0);
    lemma_decimal_eight();
    reveal_strlit("\n");
    reveal_strlit("    addq    ");
    reveal_strlit("    addq    %r14, %rax\n");
    reveal_strlit("    movq    ");
    reveal_strlit("    movq    %r15, %rax\n");
    reveal_strlit("    movss   (");
    reveal_strlit("    movss   (%rbx, %rax, 4), %xmm0\n");
    reveal_strlit("    subss   (%rsp), ");
    reveal_strlit("    subss   (%rsp), %xmm0\n");
    reveal_strlit("%r14");
    reveal_strlit("%r15");
    reveal_strlit("%rax");
    reveal_strlit("%rbx");
    reveal_strlit("%xmm0");
    reveal_strlit(", ");
    reveal_strlit(", 4), ");
    let a1 = Seq::<Ins>::empty().push(Ins::MovQ(Reg::R15, Reg::Rax));
    lemma_push(Seq::<Ins>::empty(), Ins::MovQ(Reg::R15, Reg::Rax));
    assert(line(Ins::MovQ(Reg::R15, Reg::Rax)) =~= "    movq    %r15, %rax\n"@);
    let a2 = a1.push(Ins::AddQ(Reg::R14, Reg::Rax));
    lemma_push(a1, Ins::AddQ(Reg::R14, Reg::Rax));
    assert(line(Ins::AddQ(Reg::R14, Reg::Rax)) =~= "    addq    %r14, %rax\n"@);
    let a3 = a2.push(Ins::LoadSS(Reg::Rbx, Reg::Rax, Reg::Xmm0));
    lemma_push(a2, Ins::LoadSS(Reg::Rbx, Reg::Rax, Reg::Xmm0));
    assert(line(Ins::LoadSS(Reg::Rbx, Reg::Rax, Reg::Xmm0)) =~= "    movss   (%rbx, %rax, 4), %xmm0\n"@);
    let a4 = a3.push(Ins::SubSSTop(Reg::Xmm0));
    lemma_push(a3, Ins::SubSSTop(Reg::Xmm0));
    assert(line(Ins::SubSSTop(Reg::Xmm0)) =~= "    subss   (%rsp), %xmm0\n"@);
    assert(value(run(a4), Reg::Xmm0) == fsub(load(init(Reg::Rbx), softmax_element()), Term::Slot(0)));
    let e = lemma_exp_piece(a4);
    assert(value(run(e), Reg::R15) == value(run(a4), Reg::R15));
    assert(value(run(e), Reg::R14) == value(run(a4), Reg::R14));
    assert(value(run(e), Reg::R12) == value(run(a4), Reg::R12));
    assert(value(run(a4), Reg::R15) == init(Reg::R15));
    assert(value(run(a4), Reg::R14) == init(Reg::R14));
    assert(value(run(a4), Reg::R12) == init(Reg::R12));
    assert(run(a4).stores =~= Seq::<Store>::empty());
    reveal_strlit("\n");
    reveal_strlit("    addq    ");
    reveal_strlit("    addq    %r14, %rax\n");
    reveal_strlit("    addss   ");
    reveal_strlit("    addss   %xmm0, %xmm1\n");
    reveal_strlit("    movq    ");
    reveal_strlit("    movq    %r15, %rax\n");
    reveal_strlit("    movss   ");
    reveal_strlit("    movss   %xmm0, (%r12, %rax, 4)\n");
    reveal_strlit("    movss   %xmm1, 8(%rsp)\n");
    reveal_strlit("    movss   8(%rsp), %xmm1\n");
    reveal_strlit("%r12");
    reveal_strlit("%r14");
    reveal_strlit("%r15");
    reveal_strlit("%rax");
    reveal_strlit("%xmm0");
    reveal_strlit("%xmm1");
    reveal_strlit("(%rsp)\n");
    reveal_strlit("(%rsp), ");
    reveal_strlit(", ");
    reveal_strlit(", (");
    reveal_strlit(", 4)\n");
    let b1 = e.push(Ins::MovQ(Reg::R15, Reg::Rax));
    lemma_push(e, Ins::MovQ(Reg::R15, Reg::Rax));
    assert(line(Ins::MovQ(Reg::R15, Reg::Rax)) =~= "    movq    %r15, %rax\n"@);
    let b2 = b1.push(Ins::AddQ(Reg::R14, Reg::Rax));
    lemma_push(b1, Ins::AddQ(Reg::R14, Reg::Rax));
    assert(line(Ins::AddQ(Reg::R14, Reg::Rax)) =~= "    addq    %r14, %rax\n"@);
    let b3 = b2.push(Ins::StoreSS(Reg::Xmm0, Reg::R12, Reg::Rax));
    lemma_push(b2, Ins::StoreSS(Reg::Xmm0, Reg::R12, Reg::Rax));
    assert(line(Ins::StoreSS(Reg::Xmm0, Reg::R12, Reg::Rax)) =~= "    movss   %xmm0, (%r12, %rax, 4)\n"@);
    let b4 = b3.push(Ins::LoadSlot(8, Reg::Xmm1));
    lemma_push(b3, Ins::LoadSlot(8, Reg::Xmm1));
    assert(line(Ins::LoadSlot(8, Reg::Xmm1)) =~= "    movss   8(%rsp), %xmm1\n"@);
    let b5 = b4.push(Ins::AddSS(Reg::Xmm0, Reg::Xmm1));
    lemma_push(b4, Ins::AddSS(Reg::Xmm0, Reg::Xmm1));
    assert(line(Ins::AddSS(Reg::Xmm0, Reg::Xmm1)) =~= "    addss   %xmm0, %xmm1\n"@);
    let b6 = b5.push(Ins::StoreSlot(Reg::Xmm1, 8));
    lemma_push(b5, Ins::StoreSlot(Reg::Xmm1, 8));
    assert(line(Ins::StoreSlot(Reg::Xmm1, 8)) =~= "    movss   %xmm1, 8(%rsp)\n"@);
    assert(lines(b6) =~= fused_exp_body_text());
    assert(run(b6).stores =~= seq![
            Store::Elem(init(Reg::R12), softmax_element(), exp_of(fsub(load(init(Reg::Rbx), softmax_element()), Term::Slot(0)))),
            Store::Slot(8, fadd(Term::Slot(8), exp_of(fsub(load(init(Reg::Rbx), softmax_element()), Term::Slot(0))))),
        ]);
    b6
}

proof fn lemma_exp_body_pieces(k: u64, n: u64, max_slot: nat, sum_slot: nat, id: Seq<char>, lid: Seq<char>, sym_prefix: Seq<char>)
    ensures
        has_piece(softmax_exp_pass(k, max_slot, sum_slot, id, sym_prefix), softmax_exp_body_text(max_slot, sum_slot)),
        has_piece(fused_exp_pass(n, lid, sym_prefix), fused_exp_body_text()),
{
    broadcast use lemma_piece_left;

    {
        let x_head = "    movl    $0, "@
            + decimal(sum_slot)
            + "(%rsp)\n"@
            + "    xorq    %r14, %r14\n"@
            + loop_head(".Lsm_exp_"@, "    jge     .Lsm_exp_end_"@, "%r14"@, (k as u32) as nat, id);
        lemma_ends_self(x_head, row_offset_text());
        let mut x = x_head + row_offset_text();
        let mut x_end = row_offset_text();
        lemma_ends_grow(x, x_end, "    movss   (%rbx, %rax, 4), %xmm0\n"@);
        x = x + "    movss   (%rbx, %rax, 4), %xmm0\n"@;
        x_end = x_end + "    movss   (%rbx, %rax, 4), %xmm0\n"@;
        lemma_ends_grow(x, x_end, "    subss   "@);
        x = x + "    subss   "@;
        x_end = x_end + "    subss   "@;
        lemma_ends_grow(x, x_end, decimal(max_slot));
        x = x + decimal(max_slot);
        x_end = x_end + decimal(max_slot);
        lemma_ends_grow(x, x_end, "(%rsp), %xmm0\n"@);
        x = x + "(%rsp), %xmm0\n"@;
        x_end = x_end + "(%rsp), %xmm0\n"@;
        lemma_ends_grow(x, x_end, exp_inline_text());
        x = x + exp_inline_text();
        x_end = x_end + exp_inline_text();
        lemma_ends_grow(x, x_end, row_offset_text());
        x = x + row_offset_text();
        x_end = x_end + row_offset_text();
        lemma_ends_grow(x, x_end, "    movss   %xmm0, (%r12, %rax, 4)\n"@);
        x = x + "    movss   %xmm0, (%r12, %rax, 4)\n"@;
        x_end = x_end + "    movss   %xmm0, (%r12, %rax, 4)\n"@;
        lemma_ends_grow(x, x_end, "    movss   "@);
        x = x + "    movss   "@;
        x_end = x_end + "    movss   "@;
        lemma_ends_grow(x, x_end, decimal(sum_slot));
        x = x + decimal(sum_slot);
        x_end = x_end + decimal(sum_slot);
        lemma_ends_grow(x, x_end, "(%rsp), %xmm1\n"@);
        x = x + "(%rsp), %xmm1\n"@;
        x_end = x_end + "(%rsp), %xmm1\n"@;
        lemma_ends_grow(x, x_end, "    addss   %xmm0, %xmm1\n"@);
        x = x + "    addss   %xmm0, %xmm1\n"@;
        x_end = x_end + "    addss   %xmm0, %xmm1\n"@;
        lemma_ends_grow(x, x_end, "    movss   %xmm1, "@);
        x = x + "    movss   %xmm1, "@;
        x_end = x_end + "    movss   %xmm1, "@;
        lemma_ends_grow(x, x_end, decimal(sum_slot));
        x = x + decimal(sum_slot);
        x_end = x_end + decimal(sum_slot);
        lemma_ends_grow(x, x_end, "(%rsp)\n"@);
        x = x + "(%rsp)\n"@;
        x_end = x_end + "(%rsp)\n"@;
        lemma_ends_piece(x, x_end);
    }
    let x_head = "    movl    $0, 8(%rsp)\n"@
        + "    xorq    %r14, %r14\n"@
        + loop_head(".Lfsmx_exp_"@, "    jge     .Lfsmx_exp_end_"@, "%r14"@, (n as u32) as nat, lid);
    lemma_ends_self(x_head, row_offset_text());
    let mut x = x_head + row_offset_text();
    let mut x_end = row_offset_text();
    lemma_ends_grow(x, x_end, "    movss   (%rbx, %rax, 4), %xmm0\n"@);
    x = x + "    movss   (%rbx, %rax, 4), %xmm0\n"@;
    x_end = x_end + "    movss   (%rbx, %rax, 4), %xmm0\n"@;
    lemma_ends_grow(x, x_end, "    subss   (%rsp), %xmm0\n"@);
    x = x + "    subss   (%rsp), %xmm0\n"@;
    x_end = x_end + "    subss   (%rsp), %xmm0\n"@;
    lemma_ends_grow(x, x_end, exp_inline_text());
    x = x + exp_inline_text();
    x_end = x_end + exp_inline_text();
    lemma_ends_grow(x, x_end, row_offset_text());
    x = x + row_offset_text();
    x_end = x_end + row_offset_text();
    lemma_ends_grow(x, x_end, "    movss   %xmm0, (%r12, %rax, 4)\n"@);
    x = x + "    movss   %xmm0, (%r12, %rax, 4)\n"@;
    x_end = x_end + "    movss   %xmm0, (%r12, %rax, 4)\n"@;
    lemma_ends_grow(x, x_end, "    movss   8(%rsp), %xmm1\n"@);
    x = x + "    movss   8(%rsp), %xmm1\n"@;
    x_end = x_end + "    movss   8(%rsp), %xmm1\n"@;
    lemma_ends_grow(x, x_end, "    addss   %xmm0, %xmm1\n"@);
    x = x + "    addss   %xmm0, %xmm1\n"@;
    x_end = x_end + "    addss   %xmm0, %xmm1\n"@;
    lemma_ends_grow(x, x_end, "    movss   %xmm1, 8(%rsp)\n"@);
    x = x + "    movss   %xmm1, 8(%rsp)\n"@;
    x_end = x_end + "    movss   %xmm1, 8(%rsp)\n"@;
    lemma_ends_piece(x, x_end);
}

/// Each pass of the standalone softmax's exp loop replaces element `j` of
/// the row by `E = exp_of(x_j - max)`, the inline `exp` of the element
/// minus the row maximum, and adds `E` into the row's sum slot; it stores
/// nothing else.
pub proof fn lemma_softmax_exp_pass(
    n_inputs: nat,
    b: u64,
    k: u64,
    id: Seq<char>,
    src_loc: BufferLoc,
    dst_loc: BufferLoc,
    sym_prefix: Seq<char>,
)
    ensures
        ({
            let max_slot = ffi_spill_bytes(n_inputs);
            let sum_slot = ffi_spill_bytes(n_inputs) + 8;
            stores(
                softmax_text(n_inputs, b, k, id, src_loc, dst_loc, sym_prefix),
                seq![
                    Store::Elem(init(Reg::R12), softmax_element(), exp_of(fsub(load(init(Reg::Rbx), softmax_element()), Term::Slot(max_slot)))),
                    Store::Slot(sum_slot, fadd(Term::Slot(sum_slot), exp_of(fsub(load(init(Reg::Rbx), softmax_element()), Term::Slot(max_slot))))),
                ],
            )
        }),
{
    let max_slot = ffi_spill_bytes(n_inputs);
    let sum_slot = max_slot + 8;
    lemma_exp_body_pieces(k, k, max_slot, sum_slot, id, id, sym_prefix);
    let p = lemma_softmax_exp_body(max_slot, sum_slot);
    lemma_softmax_passes_in_text(n_inputs, b, k, id, src_loc, dst_loc, sym_prefix, lines(p));
    assert(has_piece(softmax_text(n_inputs, b, k, id, src_loc, dst_loc, sym_prefix), lines(p)));
}

/// Each pass of the fused row softmax's exp loop replaces element `j` of
/// the row by `exp_of(x_j - max)`, with the maximum in `(%rsp)`, and adds
/// it into the sum slot `8(%rsp)`; it stores nothing else.
pub proof fn lemma_fused_softmax_exp_pass(
    n_inputs: nat,
    b: u64,
    k: u64,
    n: u64,
    id: Seq<char>,
    src_loc: BufferLoc,
    dst_loc: BufferLoc,
    weight_offset: nat,
    bias_offset: Option<usize>,
    posts: Seq<PostOp>,
    sym_prefix: Seq<char>,
)
    requires
        posts.contains(PostOp::SoftmaxRow),
    ensures
        stores(
            linear_text(n_inputs, b, k, n, id, src_loc, dst_loc, weight_offset, bias_offset, posts, sym_prefix),
            seq![
                Store::Elem(init(Reg::R12), softmax_element(), exp_of(fsub(load(init(Reg::Rbx), softmax_element()), Term::Slot(0)))),
                Store::Slot(8, fadd(Term::Slot(8), exp_of(fsub(load(init(Reg::Rbx), softmax_element()), Term::Slot(0))))),
            ],
        ),
{
    lemma_exp_body_pieces(n, n, 0, 8, id, id, sym_prefix);
    let p = lemma_fused_exp_body();
    lemma_fused_passes_in_text(
        n_inputs, b, k, n, id, src_loc, dst_loc, weight_offset, bias_offset, posts, sym_prefix, lines(p));
    assert(has_piece(
        linear_text(n_inputs, b, k, n, id, src_loc, dst_loc, weight_offset, bias_offset, posts, sym_prefix),
        lines(p),
    ));
}

} // verus!
