//! Elementwise addition of two tensors: `dst[i] = a[i] + other[i]`.

use vstd::prelude::*;
use crate::text::{push_str, push_decimal, push_labeled, decimal, labeled, has_piece};
use crate::types::BufferLoc;
use crate::x86_64::abi::{AbiContext, materialisable, materialise_text};
use crate::x86_64::dataflow::{Ins, Reg, Store, lines, run, stores, lemma_push, init, load, fadd};
use crate::x86_64::arg_writes::{
    scan, scan_at, writes_no_arg_reg, lemma_scan_append, lemma_scan_literal, lemma_scan_sound,
    lemma_decimal_scan, lemma_materialise_scan, lemma_labeled_scan, lemma_common_lines,
    lemma_scratch_pointers,
};

verus! {

/// The addition loop: pointers in `%rax`, `%r10`, `%r11`; counter in `%rbp`
/// compared against an immediate bound.
pub open spec fn add_text(
    n_inputs: nat,
    total_elements: u64,
    model_idx: nat,
    op_idx: nat,
    a_loc: BufferLoc,
    other_loc: BufferLoc,
    dst_loc: BufferLoc,
) -> Seq<char> {
    "    # add: total_elements="@ + decimal(total_elements as nat) + "\n"@
        + materialise_text(n_inputs, a_loc, "%rax"@)
        + materialise_text(n_inputs, other_loc, "%r10"@)
        + materialise_text(n_inputs, dst_loc, "%r11"@)
        + "    movq    $0, %rbp\n"@
        + labeled(".Ladd_"@, model_idx, op_idx, ":\n"@)
        + "    cmpq    $"@ + decimal(total_elements as nat) + ", %rbp\n"@
        + labeled("    jge     .Ladd_end_"@, model_idx, op_idx, "\n"@)
        + "    movss   (%rax, %rbp, 4), %xmm0\n"@
        + "    movss   (%r10, %rbp, 4), %xmm1\n"@
        + "    addss   %xmm1, %xmm0\n"@
        + "    movss   %xmm0, (%r11, %rbp, 4)\n"@
        + "    addq    $1, %rbp\n"@
        + labeled("    jmp     .Ladd_"@, model_idx, op_idx, "\n"@)
        + labeled(".Ladd_end_"@, model_idx, op_idx, ":\n"@)
}

proof fn lemma_add_line_0()
    ensures
        scan(0, "    # add: total_elements="@) == 0,
{
    reveal_strlit("    # add: total_elements=");
    lemma_scan_literal(0, "    # add: total_elements="@);
    reveal_with_fuel(scan_at, 27);
}

proof fn lemma_add_line_1()
    ensures
        scan(0, ".Ladd_"@) == 0,
{
    reveal_strlit(".Ladd_");
    lemma_scan_literal(0, ".Ladd_"@);
    reveal_with_fuel(scan_at, 7);
}

proof fn lemma_add_line_2()
    ensures
        scan(0, "    cmpq    $"@) == 0,
{
    reveal_strlit("    cmpq    $");
    lemma_scan_literal(0, "    cmpq    $"@);
    reveal_with_fuel(scan_at, 14);
}

proof fn lemma_add_line_3()
    ensures
        scan(0, ", %rbp\n"@) == 0,
{
    reveal_strlit(", %rbp\n");
    lemma_scan_literal(0, ", %rbp\n"@);
    reveal_with_fuel(scan_at, 8);
}

proof fn lemma_add_line_4()
    ensures
        scan(0, "    jge     .Ladd_end_"@) == 0,
{
    reveal_strlit("    jge     .Ladd_end_");
    lemma_scan_literal(0, "    jge     .Ladd_end_"@);
    reveal_with_fuel(scan_at, 23);
}

proof fn lemma_add_line_5()
    ensures
        scan(0, "    movss   (%r10, %rbp, 4), %xmm1\n"@) == 0,
{
    reveal_strlit("    movss   (%r10, %rbp, 4), %xmm1\n");
    lemma_scan_literal(0, "    movss   (%r10, %rbp, 4), %xmm1\n"@);
    reveal_with_fuel(scan_at, 36);
}

proof fn lemma_add_line_6()
    ensures
        scan(0, "    addss   %xmm1, %xmm0\n"@) == 0,
{
    reveal_strlit("    addss   %xmm1, %xmm0\n");
    lemma_scan_literal(0, "    addss   %xmm1, %xmm0\n"@);
    reveal_with_fuel(scan_at, 26);
}

proof fn lemma_add_line_7()
    ensures
        scan(0, "    jmp     .Ladd_"@) == 0,
{
    reveal_strlit("    jmp     .Ladd_");
    lemma_scan_literal(0, "    jmp     .Ladd_"@);
    reveal_with_fuel(scan_at, 19);
}

proof fn lemma_add_line_8()
    ensures
        scan(0, ".Ladd_end_"@) == 0,
{
    reveal_strlit(".Ladd_end_");
    lemma_scan_literal(0, ".Ladd_end_"@);
    reveal_with_fuel(scan_at, 11);
}

/// Where the automaton stands after each fixed piece of the addition loop text.
proof fn lemma_add_lines()
    ensures
        scan(0, "    # add: total_elements="@) == 0,
        scan(0, ".Ladd_"@) == 0,
        scan(0, "    cmpq    $"@) == 0,
        scan(0, ", %rbp\n"@) == 0,
        scan(0, "    jge     .Ladd_end_"@) == 0,
        scan(0, "    movss   (%r10, %rbp, 4), %xmm1\n"@) == 0,
        scan(0, "    addss   %xmm1, %xmm0\n"@) == 0,
        scan(0, "    jmp     .Ladd_"@) == 0,
        scan(0, ".Ladd_end_"@) == 0,
{
    lemma_add_line_0();
    lemma_add_line_1();
    lemma_add_line_2();
    lemma_add_line_3();
    lemma_add_line_4();
    lemma_add_line_5();
    lemma_add_line_6();
    lemma_add_line_7();
    lemma_add_line_8();
}

/// The addition loop writes no argument register, at any number of inputs.
proof fn lemma_add_writes_no_arg_reg(
    n_inputs: nat,
    total_elements: u64,
    model_idx: nat,
    op_idx: nat,
    a_loc: BufferLoc,
    other_loc: BufferLoc,
    dst_loc: BufferLoc,
)
    requires
        n_inputs + 2 <= 6,
        materialisable(n_inputs, a_loc),
        materialisable(n_inputs, other_loc),
        materialisable(n_inputs, dst_loc),
    ensures
        writes_no_arg_reg(add_text(n_inputs, total_elements, model_idx, op_idx, a_loc, other_loc, dst_loc)),
{
    broadcast use lemma_scan_append;
    lemma_common_lines();
    lemma_scratch_pointers();
    lemma_add_lines();
    lemma_decimal_scan(total_elements as nat);
    lemma_materialise_scan(n_inputs, a_loc, "%rax"@);
    lemma_materialise_scan(n_inputs, other_loc, "%r10"@);
    lemma_materialise_scan(n_inputs, dst_loc, "%r11"@);
    lemma_labeled_scan(".Ladd_"@, model_idx, op_idx, ":\n"@);
    lemma_labeled_scan("    jge     .Ladd_end_"@, model_idx, op_idx, "\n"@);
    lemma_labeled_scan("    jmp     .Ladd_"@, model_idx, op_idx, "\n"@);
    lemma_labeled_scan(".Ladd_end_"@, model_idx, op_idx, ":\n"@);
    lemma_scan_sound(add_text(n_inputs, total_elements, model_idx, op_idx, a_loc, other_loc, dst_loc));
}

/// Emits `dst[i] = a[i] + other[i]` over `total_elements` elements.
pub fn emit_add(
    abi: &AbiContext,
    total_elements: u64,
    model_idx: usize,
    op_idx: usize,
    a_loc: BufferLoc,
    other_loc: BufferLoc,
    dst_loc: BufferLoc,
) -> (s: String)
    requires
        abi.n_inputs + 2 <= 6,
        materialisable(abi.n_inputs as nat, a_loc),
        materialisable(abi.n_inputs as nat, other_loc),
        materialisable(abi.n_inputs as nat, dst_loc),
    ensures
        s@ == add_text(
            abi.n_inputs as nat,
            total_elements,
            model_idx as nat,
            op_idx as nat,
            a_loc,
            other_loc,
            dst_loc,
        ),
        writes_no_arg_reg(s@),
{
    let mut s = String::new();
    push_str(&mut s, "    # add: total_elements=");
    push_decimal(&mut s, total_elements);
    push_str(&mut s, "\n");
    abi.materialise_ptr(a_loc, "%rax", &mut s);
    abi.materialise_ptr(other_loc, "%r10", &mut s);
    abi.materialise_ptr(dst_loc, "%r11", &mut s);
    push_str(&mut s, "    movq    $0, %rbp\n");
    push_labeled(&mut s, ".Ladd_", model_idx, op_idx, ":\n");
    push_str(&mut s, "    cmpq    $");
    push_decimal(&mut s, total_elements);
    push_str(&mut s, ", %rbp\n");
    push_labeled(&mut s, "    jge     .Ladd_end_", model_idx, op_idx, "\n");
    push_str(&mut s, "    movss   (%rax, %rbp, 4), %xmm0\n");
    push_str(&mut s, "    movss   (%r10, %rbp, 4), %xmm1\n");
    push_str(&mut s, "    addss   %xmm1, %xmm0\n");
    push_str(&mut s, "    movss   %xmm0, (%r11, %rbp, 4)\n");
    push_str(&mut s, "    addq    $1, %rbp\n");
    push_labeled(&mut s, "    jmp     .Ladd_", model_idx, op_idx, "\n");
    push_labeled(&mut s, ".Ladd_end_", model_idx, op_idx, ":\n");
    proof {
        lemma_add_writes_no_arg_reg(
            abi.n_inputs as nat,
            total_elements,
            model_idx as nat,
            op_idx as nat,
            a_loc,
            other_loc,
            dst_loc,
        );
    }
    s
}


/// Each pass of the add loop stores, at element `%rbp` of the destination
/// (`%r11`), the sum of element `%rbp` of `a` (`%rax`) and of `other`
/// (`%r10`): `dst[i] = a[i] + other[i]`, and stores nothing else.
pub proof fn lemma_add_stores_the_sum(
    n_inputs: nat,
    total_elements: u64,
    model_idx: nat,
    op_idx: nat,
    a_loc: BufferLoc,
    other_loc: BufferLoc,
    dst_loc: BufferLoc,
)
    ensures
        stores(
            add_text(n_inputs, total_elements, model_idx, op_idx, a_loc, other_loc, dst_loc),
            seq![
                Store::Elem(
                    init(Reg::R11),
                    init(Reg::Rbp),
                    fadd(load(init(Reg::Rax), init(Reg::Rbp)), load(init(Reg::R10), init(Reg::Rbp))),
                ),
            ],
        ),
{
    let i1 = Ins::LoadSS(Reg::Rax, Reg::Rbp, Reg::Xmm0);
    let i2 = Ins::LoadSS(Reg::R10, Reg::Rbp, Reg::Xmm1);
    let i3 = Ins::AddSS(Reg::Xmm1, Reg::Xmm0);
    let i4 = Ins::StoreSS(Reg::Xmm0, Reg::R11, Reg::Rbp);
    let p1 = Seq::<Ins>::empty().push(i1);
    let p2 = p1.push(i2);
    let p3 = p2.push(i3);
    let p = p3.push(i4);
    lemma_push(Seq::<Ins>::empty(), i1);
    lemma_push(p1, i2);
    lemma_push(p2, i3);
    lemma_push(p3, i4);
    assert(Seq::<Ins>::empty().len() == 0);
    reveal_strlit("    movss   (%rax, %rbp, 4), %xmm0\n");
    reveal_strlit("    movss   (%r10, %rbp, 4), %xmm1\n");
    reveal_strlit("    addss   %xmm1, %xmm0\n");
    reveal_strlit("    movss   %xmm0, (%r11, %rbp, 4)\n");
    reveal_strlit("    movss   (");
    reveal_strlit("    movss   ");
    reveal_strlit("    addss   ");
    reveal_strlit(", ");
    reveal_strlit(", 4), ");
    reveal_strlit(", (");
    reveal_strlit(", 4)\n");
    reveal_strlit("\n");
    reveal_strlit("%rax");
    reveal_strlit("%rbp");
    reveal_strlit("%r10");
    reveal_strlit("%r11");
    reveal_strlit("%xmm0");
    reveal_strlit("%xmm1");
    let chunk = "    movss   (%rax, %rbp, 4), %xmm0\n"@ + "    movss   (%r10, %rbp, 4), %xmm1\n"@
        + "    addss   %xmm1, %xmm0\n"@ + "    movss   %xmm0, (%r11, %rbp, 4)\n"@;
    assert(lines(p) =~= chunk);
    let head = "    # add: total_elements="@ + decimal(total_elements as nat) + "\n"@
        + materialise_text(n_inputs, a_loc, "%rax"@)
        + materialise_text(n_inputs, other_loc, "%r10"@)
        + materialise_text(n_inputs, dst_loc, "%r11"@)
        + "    movq    $0, %rbp\n"@
        + labeled(".Ladd_"@, model_idx, op_idx, ":\n"@)
        + "    cmpq    $"@ + decimal(total_elements as nat) + ", %rbp\n"@
        + labeled("    jge     .Ladd_end_"@, model_idx, op_idx, "\n"@);
    let tail = "    addq    $1, %rbp\n"@
        + labeled("    jmp     .Ladd_"@, model_idx, op_idx, "\n"@)
        + labeled(".Ladd_end_"@, model_idx, op_idx, ":\n"@);
    assert(add_text(n_inputs, total_elements, model_idx, op_idx, a_loc, other_loc, dst_loc) =~= head + lines(p)
        + tail);
    assert(has_piece(
        add_text(n_inputs, total_elements, model_idx, op_idx, a_loc, other_loc, dst_loc),
        lines(p),
    ));
    assert(run(p).stores =~= seq![
        Store::Elem(
            init(Reg::R11),
            init(Reg::Rbp),
            fadd(load(init(Reg::Rax), init(Reg::Rbp)), load(init(Reg::R10), init(Reg::Rbp))),
        ),
    ]);
}

} // verus!
