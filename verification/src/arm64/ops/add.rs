//! Elementwise addition of two tensors: `dst[i] = a[i] + other[i]`, with
//! only non-argument scratch registers (`x9`..`x13`).

use vstd::prelude::*;
use crate::text::{push_str, push_decimal, push_labeled, decimal, labeled};
use crate::types::BufferLoc;
use crate::arm64::abi::{AbiContext, materialisable, materialise_text};
use crate::arm64::frame::{movz_movk_text, push_movz_movk};
use crate::arm64::arg_writes::{
    scan, scan_at, writes_no_arg_reg, lemma_scan_append, lemma_scan_literal, lemma_scan_sound, lemma_decimal_scan,
    lemma_movz_movk_scan, lemma_materialise_scan, lemma_labeled_scan, lemma_common_lines,
};

verus! {

/// The addition loop: pointers in `x9`, `x10`, `x11`; counter `x12`; bound
/// `x13`.
pub open spec fn add_text(
    n_inputs: nat,
    total_elements: u64,
    model_idx: nat,
    op_idx: nat,
    a_loc: BufferLoc,
    other_loc: BufferLoc,
    dst_loc: BufferLoc,
) -> Seq<char> {
    "    ; add: total_elements="@ + decimal(total_elements as nat) + "\n"@
        + materialise_text(n_inputs, a_loc, "x9"@)
        + materialise_text(n_inputs, other_loc, "x10"@)
        + materialise_text(n_inputs, dst_loc, "x11"@)
        + "    mov     x12, #0\n"@
        + movz_movk_text("x13"@, total_elements as nat)
        + labeled(".Ladd_"@, model_idx, op_idx, ":\n"@)
        + "    cmp     x12, x13\n"@
        + labeled("    b.ge    .Ladd_end_"@, model_idx, op_idx, "\n"@)
        + "    ldr     s0, [x9, x12, lsl #2]\n"@
        + "    ldr     s1, [x10, x12, lsl #2]\n"@
        + "    fadd    s2, s0, s1\n"@
        + "    str     s2, [x11, x12, lsl #2]\n"@
        + "    add     x12, x12, #1\n"@
        + labeled("    b       .Ladd_"@, model_idx, op_idx, "\n"@)
        + labeled(".Ladd_end_"@, model_idx, op_idx, ":\n"@)
}

proof fn lemma_add_line_0(k: nat)
    requires
        k <= 6,
    ensures
        scan(k, 0, "    ; add: total_elements="@) == 0,
{
    reveal_strlit("    ; add: total_elements=");
    lemma_scan_literal(k, 0, "    ; add: total_elements="@);
    reveal_with_fuel(scan_at, 27);
}

proof fn lemma_add_line_1(k: nat)
    requires
        k <= 6,
    ensures
        scan(k, 0, ".Ladd_"@) == 0,
{
    reveal_strlit(".Ladd_");
    lemma_scan_literal(k, 0, ".Ladd_"@);
    reveal_with_fuel(scan_at, 7);
}

proof fn lemma_add_line_2(k: nat)
    requires
        k <= 6,
    ensures
        scan(k, 0, "    cmp     x12, x13\n"@) == 0,
{
    reveal_strlit("    cmp     x12, x13\n");
    lemma_scan_literal(k, 0, "    cmp     x12, x13\n"@);
    reveal_with_fuel(scan_at, 22);
}

proof fn lemma_add_line_3(k: nat)
    requires
        k <= 6,
    ensures
        scan(k, 0, "    b.ge    .Ladd_end_"@) == 0,
{
    reveal_strlit("    b.ge    .Ladd_end_");
    lemma_scan_literal(k, 0, "    b.ge    .Ladd_end_"@);
    reveal_with_fuel(scan_at, 23);
}

proof fn lemma_add_line_4(k: nat)
    requires
        k <= 6,
    ensures
        scan(k, 0, "    ldr     s0, [x9, x12, lsl #2]\n"@) == 0,
{
    reveal_strlit("    ldr     s0, [x9, x12, lsl #2]\n");
    lemma_scan_literal(k, 0, "    ldr     s0, [x9, x12, lsl #2]\n"@);
    reveal_with_fuel(scan_at, 35);
}

proof fn lemma_add_line_5(k: nat)
    requires
        k <= 6,
    ensures
        scan(k, 0, "    ldr     s1, [x10, x12, lsl #2]\n"@) == 0,
{
    reveal_strlit("    ldr     s1, [x10, x12, lsl #2]\n");
    lemma_scan_literal(k, 0, "    ldr     s1, [x10, x12, lsl #2]\n"@);
    reveal_with_fuel(scan_at, 36);
}

proof fn lemma_add_line_6(k: nat)
    requires
        k <= 6,
    ensures
        scan(k, 0, "    fadd    s2, s0, s1\n"@) == 0,
{
    reveal_strlit("    fadd    s2, s0, s1\n");
    lemma_scan_literal(k, 0, "    fadd    s2, s0, s1\n"@);
    reveal_with_fuel(scan_at, 24);
}

proof fn lemma_add_line_7(k: nat)
    requires
        k <= 6,
    ensures
        scan(k, 0, "    str     s2, [x11, x12, lsl #2]\n"@) == 0,
{
    reveal_strlit("    str     s2, [x11, x12, lsl #2]\n");
    lemma_scan_literal(k, 0, "    str     s2, [x11, x12, lsl #2]\n"@);
    reveal_with_fuel(scan_at, 36);
}

proof fn lemma_add_line_8(k: nat)
    requires
        k <= 6,
    ensures
        scan(k, 0, "    b       .Ladd_"@) == 0,
{
    reveal_strlit("    b       .Ladd_");
    lemma_scan_literal(k, 0, "    b       .Ladd_"@);
    reveal_with_fuel(scan_at, 19);
}

proof fn lemma_add_line_9(k: nat)
    requires
        k <= 6,
    ensures
        scan(k, 0, ".Ladd_end_"@) == 0,
{
    reveal_strlit(".Ladd_end_");
    lemma_scan_literal(k, 0, ".Ladd_end_"@);
    reveal_with_fuel(scan_at, 11);
}

proof fn lemma_add_line_10(k: nat)
    requires
        k <= 6,
    ensures
        scan(k, 2, "x9"@) == 0,
{
    reveal_strlit("x9");
    lemma_scan_literal(k, 2, "x9"@);
    reveal_with_fuel(scan_at, 3);
}

/// Where the automaton stands after each fixed piece of the addition loop text.
proof fn lemma_add_lines(k: nat)
    requires
        k <= 6,
    ensures
        scan(k, 0, "    ; add: total_elements="@) == 0,
        scan(k, 0, ".Ladd_"@) == 0,
        scan(k, 0, "    cmp     x12, x13\n"@) == 0,
        scan(k, 0, "    b.ge    .Ladd_end_"@) == 0,
        scan(k, 0, "    ldr     s0, [x9, x12, lsl #2]\n"@) == 0,
        scan(k, 0, "    ldr     s1, [x10, x12, lsl #2]\n"@) == 0,
        scan(k, 0, "    fadd    s2, s0, s1\n"@) == 0,
        scan(k, 0, "    str     s2, [x11, x12, lsl #2]\n"@) == 0,
        scan(k, 0, "    b       .Ladd_"@) == 0,
        scan(k, 0, ".Ladd_end_"@) == 0,
        scan(k, 2, "x9"@) == 0,
{
    lemma_add_line_0(k);
    lemma_add_line_1(k);
    lemma_add_line_2(k);
    lemma_add_line_3(k);
    lemma_add_line_4(k);
    lemma_add_line_5(k);
    lemma_add_line_6(k);
    lemma_add_line_7(k);
    lemma_add_line_8(k);
    lemma_add_line_9(k);
    lemma_add_line_10(k);
}

/// The addition loop names no argument register in use as a destination,
/// at any number of inputs.
proof fn lemma_add_writes_no_arg_reg(
    n_inputs: nat,
    total_elements: u64,
    model_idx: nat,
    op_idx: nat,
    a_loc: BufferLoc,
    other_loc: BufferLoc,
    dst_loc: BufferLoc,
)
    requires
        n_inputs + 2 <= 6,
        materialisable(n_inputs, a_loc),
        materialisable(n_inputs, other_loc),
        materialisable(n_inputs, dst_loc),
    ensures
        writes_no_arg_reg(add_text(n_inputs, total_elements, model_idx, op_idx, a_loc, other_loc, dst_loc), n_inputs + 2),
{
    let k = n_inputs + 2;
    broadcast use lemma_scan_append;
    lemma_common_lines(k);
    lemma_add_lines(k);
    lemma_decimal_scan(k, 0, total_elements as nat);
    lemma_movz_movk_scan(k, "x13"@, total_elements as nat);
    lemma_materialise_scan(k, n_inputs, a_loc, "x9"@);
    lemma_materialise_scan(k, n_inputs, other_loc, "x10"@);
    lemma_materialise_scan(k, n_inputs, dst_loc, "x11"@);
    lemma_labeled_scan(k, ".Ladd_"@, model_idx, op_idx, ":\n"@);
    lemma_labeled_scan(k, "    b.ge    .Ladd_end_"@, model_idx, op_idx, "\n"@);
    lemma_labeled_scan(k, "    b       .Ladd_"@, model_idx, op_idx, "\n"@);
    lemma_labeled_scan(k, ".Ladd_end_"@, model_idx, op_idx, ":\n"@);
    lemma_scan_sound(add_text(n_inputs, total_elements, model_idx, op_idx, a_loc, other_loc, dst_loc), k);
}

/// Emits `dst[i] = a[i] + other[i]` over `total_elements` elements.
pub fn emit_add(
    abi: &AbiContext,
    total_elements: u64,
    model_idx: usize,
    op_idx: usize,
    a_loc: BufferLoc,
    other_loc: BufferLoc,
    dst_loc: BufferLoc,
) -> (s: String)
    requires
        abi.n_inputs + 2 <= 6,
        materialisable(abi.n_inputs as nat, a_loc),
        materialisable(abi.n_inputs as nat, other_loc),
        materialisable(abi.n_inputs as nat, dst_loc),
        total_elements <= u32::MAX,
    ensures
        s@ == add_text(abi.n_inputs as nat, total_elements, model_idx as nat, op_idx as nat, a_loc, other_loc, dst_loc),
        writes_no_arg_reg(s@, (abi.n_inputs + 2) as nat),
{
    let mut s = String::new();
    push_str(&mut s, "    ; add: total_elements=");
    push_decimal(&mut s, total_elements);
    push_str(&mut s, "\n");
    abi.materialise_ptr(a_loc, "x9", &mut s);
    abi.materialise_ptr(other_loc, "x10", &mut s);
    abi.materialise_ptr(dst_loc, "x11", &mut s);
    push_str(&mut s, "    mov     x12, #0\n");
    push_movz_movk(&mut s, "x13", total_elements);
    push_labeled(&mut s, ".Ladd_", model_idx, op_idx, ":\n");
    push_str(&mut s, "    cmp     x12, x13\n");
    push_labeled(&mut s, "    b.ge    .Ladd_end_", model_idx, op_idx, "\n");
    push_str(&mut s, "    ldr     s0, [x9, x12, lsl #2]\n");
    push_str(&mut s, "    ldr     s1, [x10, x12, lsl #2]\n");
    push_str(&mut s, "    fadd    s2, s0, s1\n");
    push_str(&mut s, "    str     s2, [x11, x12, lsl #2]\n");
    push_str(&mut s, "    add     x12, x12, #1\n");
    push_labeled(&mut s, "    b       .Ladd_", model_idx, op_idx, "\n");
    push_labeled(&mut s, ".Ladd_end_", model_idx, op_idx, ":\n");
    proof {
        lemma_add_writes_no_arg_reg(abi.n_inputs as nat, total_elements, model_idx as nat, op_idx as nat, a_loc, other_loc, dst_loc);
    }
    s
}

} // verus!
