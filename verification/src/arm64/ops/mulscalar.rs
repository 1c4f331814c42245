//! Multiply by a scalar: `dst[i] = src[i] * scalar`. The scalar arrives as
//! the bit pattern of an f32 and is loaded once into `s4` through `w9`.

use vstd::prelude::*;
use crate::text::{push_str, push_decimal, push_hex, push_labeled, decimal, hex_padded, labeled};
use crate::types::BufferLoc;
use crate::arm64::abi::{AbiContext, materialisable, materialise_text};
use crate::arm64::frame::{movz_movk_text, push_movz_movk};
use crate::arm64::arg_writes::{
    scan, scan_at, writes_no_arg_reg, lemma_scan_append, lemma_scan_literal, lemma_scan_sound, lemma_decimal_scan,
    lemma_movz_movk_scan, lemma_materialise_scan, lemma_labeled_scan, lemma_common_lines, lemma_hex_scan,
};

verus! {

/// The scaling loop: pointers in `x11`/`x12`, counter `x13`, bound
/// re-materialised into `x10` at each test.
pub open spec fn mulscalar_text(
    n_inputs: nat,
    total_elements: u64,
    scalar_bits: u32,
    model_idx: nat,
    op_idx: nat,
    src_loc: BufferLoc,
    dst_loc: BufferLoc,
) -> Seq<char> {
    "    ; mul_scalar: total_elements="@ + decimal(total_elements as nat) + ", scalar_bits=0x"@
        + hex_padded(scalar_bits as nat, 8) + "\n"@
        + movz_movk_text("w9"@, scalar_bits as nat)
        + "    fmov    s4, w9\n"@
        + materialise_text(n_inputs, src_loc, "x11"@)
        + materialise_text(n_inputs, dst_loc, "x12"@)
        + "    mov     x13, #0\n"@
        + labeled(".Lms_"@, model_idx, op_idx, ":\n"@)
        + movz_movk_text("x10"@, total_elements as nat)
        + "    cmp     x13, x10\n"@
        + labeled("    b.ge    .Lms_end_"@, model_idx, op_idx, "\n"@)
        + "    ldr     s0, [x11, x13, lsl #2]\n"@
        + "    fmul    s0, s0, s4\n"@
        + "    str     s0, [x12, x13, lsl #2]\n"@
        + "    add     x13, x13, #1\n"@
        + labeled("    b       .Lms_"@, model_idx, op_idx, "\n"@)
        + labeled(".Lms_end_"@, model_idx, op_idx, ":\n"@)
}

proof fn lemma_mulscalar_line_0(k: nat)
    requires
        k <= 6,
    ensures
        scan(k, 0, "    ; mul_scalar: total_elements="@) == 0,
{
    reveal_strlit("    ; mul_scalar: total_elements=");
    lemma_scan_literal(k, 0, "    ; mul_scalar: total_elements="@);
    reveal_with_fuel(scan_at, 34);
}

proof fn lemma_mulscalar_line_1(k: nat)
    requires
        k <= 6,
    ensures
        scan(k, 0, ", scalar_bits=0x"@) == 0,
{
    reveal_strlit(", scalar_bits=0x");
    lemma_scan_literal(k, 0, ", scalar_bits=0x"@);
    reveal_with_fuel(scan_at, 17);
}

proof fn lemma_mulscalar_line_2(k: nat)
    requires
        k <= 6,
    ensures
        scan(k, 0, "    fmov    s4, w9\n"@) == 0,
{
    reveal_strlit("    fmov    s4, w9\n");
    lemma_scan_literal(k, 0, "    fmov    s4, w9\n"@);
    reveal_with_fuel(scan_at, 20);
}

proof fn lemma_mulscalar_line_3(k: nat)
    requires
        k <= 6,
    ensures
        scan(k, 0, "    mov     x13, #0\n"@) == 0,
{
    reveal_strlit("    mov     x13, #0\n");
    lemma_scan_literal(k, 0, "    mov     x13, #0\n"@);
    reveal_with_fuel(scan_at, 21);
}

proof fn lemma_mulscalar_line_4(k: nat)
    requires
        k <= 6,
    ensures
        scan(k, 0, ".Lms_"@) == 0,
{
    reveal_strlit(".Lms_");
    lemma_scan_literal(k, 0, ".Lms_"@);
    reveal_with_fuel(scan_at, 6);
}

proof fn lemma_mulscalar_line_5(k: nat)
    requires
        k <= 6,
    ensures
        scan(k, 0, "    cmp     x13, x10\n"@) == 0,
{
    reveal_strlit("    cmp     x13, x10\n");
    lemma_scan_literal(k, 0, "    cmp     x13, x10\n"@);
    reveal_with_fuel(scan_at, 22);
}

proof fn lemma_mulscalar_line_6(k: nat)
    requires
        k <= 6,
    ensures
        scan(k, 0, "    b.ge    .Lms_end_"@) == 0,
{
    reveal_strlit("    b.ge    .Lms_end_");
    lemma_scan_literal(k, 0, "    b.ge    .Lms_end_"@);
    reveal_with_fuel(scan_at, 22);
}

proof fn lemma_mulscalar_line_7(k: nat)
    requires
        k <= 6,
    ensures
        scan(k, 0, "    ldr     s0, [x11, x13, lsl #2]\n"@) == 0,
{
    reveal_strlit("    ldr     s0, [x11, x13, lsl #2]\n");
    lemma_scan_literal(k, 0, "    ldr     s0, [x11, x13, lsl #2]\n"@);
    reveal_with_fuel(scan_at, 36);
}

proof fn lemma_mulscalar_line_8(k: nat)
    requires
        k <= 6,
    ensures
        scan(k, 0, "    fmul    s0, s0, s4\n"@) == 0,
{
    reveal_strlit("    fmul    s0, s0, s4\n");
    lemma_scan_literal(k, 0, "    fmul    s0, s0, s4\n"@);
    reveal_with_fuel(scan_at, 24);
}

proof fn lemma_mulscalar_line_9(k: nat)
    requires
        k <= 6,
    ensures
        scan(k, 0, "    str     s0, [x12, x13, lsl #2]\n"@) == 0,
{
    reveal_strlit("    str     s0, [x12, x13, lsl #2]\n");
    lemma_scan_literal(k, 0, "    str     s0, [x12, x13, lsl #2]\n"@);
    reveal_with_fuel(scan_at, 36);
}

proof fn lemma_mulscalar_line_10(k: nat)
    requires
        k <= 6,
    ensures
        scan(k, 0, "    add     x13, x13, #1\n"@) == 0,
{
    reveal_strlit("    add     x13, x13, #1\n");
    lemma_scan_literal(k, 0, "    add     x13, x13, #1\n"@);
    reveal_with_fuel(scan_at, 26);
}

proof fn lemma_mulscalar_line_11(k: nat)
    requires
        k <= 6,
    ensures
        scan(k, 0, "    b       .Lms_"@) == 0,
{
    reveal_strlit("    b       .Lms_");
    lemma_scan_literal(k, 0, "    b       .Lms_"@);
    reveal_with_fuel(scan_at, 18);
}

proof fn lemma_mulscalar_line_12(k: nat)
    requires
        k <= 6,
    ensures
        scan(k, 0, ".Lms_end_"@) == 0,
{
    reveal_strlit(".Lms_end_");
    lemma_scan_literal(k, 0, ".Lms_end_"@);
    reveal_with_fuel(scan_at, 10);
}

/// Where the automaton stands after each fixed piece of the scaling loop text.
proof fn lemma_mulscalar_lines(k: nat)
    requires
        k <= 6,
    ensures
        scan(k, 0, "    ; mul_scalar: total_elements="@) == 0,
        scan(k, 0, ", scalar_bits=0x"@) == 0,
        scan(k, 0, "    fmov    s4, w9\n"@) == 0,
        scan(k, 0, "    mov     x13, #0\n"@) == 0,
        scan(k, 0, ".Lms_"@) == 0,
        scan(k, 0, "    cmp     x13, x10\n"@) == 0,
        scan(k, 0, "    b.ge    .Lms_end_"@) == 0,
        scan(k, 0, "    ldr     s0, [x11, x13, lsl #2]\n"@) == 0,
        scan(k, 0, "    fmul    s0, s0, s4\n"@) == 0,
        scan(k, 0, "    str     s0, [x12, x13, lsl #2]\n"@) == 0,
        scan(k, 0, "    add     x13, x13, #1\n"@) == 0,
        scan(k, 0, "    b       .Lms_"@) == 0,
        scan(k, 0, ".Lms_end_"@) == 0,
{
    lemma_mulscalar_line_0(k);
    lemma_mulscalar_line_1(k);
    lemma_mulscalar_line_2(k);
    lemma_mulscalar_line_3(k);
    lemma_mulscalar_line_4(k);
    lemma_mulscalar_line_5(k);
    lemma_mulscalar_line_6(k);
    lemma_mulscalar_line_7(k);
    lemma_mulscalar_line_8(k);
    lemma_mulscalar_line_9(k);
    lemma_mulscalar_line_10(k);
    lemma_mulscalar_line_11(k);
    lemma_mulscalar_line_12(k);
}

/// The scaling loop names no argument register in use as a destination, at
/// any number of inputs: its counter is `x13`.
proof fn lemma_mulscalar_writes_no_arg_reg(
    n_inputs: nat,
    total_elements: u64,
    scalar_bits: u32,
    model_idx: nat,
    op_idx: nat,
    src_loc: BufferLoc,
    dst_loc: BufferLoc,
)
    requires
        n_inputs + 2 <= 6,
        materialisable(n_inputs, src_loc),
        materialisable(n_inputs, dst_loc),
    ensures
        writes_no_arg_reg(mulscalar_text(n_inputs, total_elements, scalar_bits, model_idx, op_idx, src_loc, dst_loc), n_inputs + 2),
{
    let k = n_inputs + 2;
    broadcast use lemma_scan_append;
    lemma_common_lines(k);
    lemma_mulscalar_lines(k);
    lemma_decimal_scan(k, 0, total_elements as nat);
    lemma_hex_scan(k, scalar_bits as nat, 8);
    lemma_movz_movk_scan(k, "w9"@, scalar_bits as nat);
    lemma_movz_movk_scan(k, "x10"@, total_elements as nat);
    lemma_materialise_scan(k, n_inputs, src_loc, "x11"@);
    lemma_materialise_scan(k, n_inputs, dst_loc, "x12"@);
    lemma_labeled_scan(k, ".Lms_"@, model_idx, op_idx, ":\n"@);
    lemma_labeled_scan(k, "    b.ge    .Lms_end_"@, model_idx, op_idx, "\n"@);
    lemma_labeled_scan(k, "    b       .Lms_"@, model_idx, op_idx, "\n"@);
    lemma_labeled_scan(k, ".Lms_end_"@, model_idx, op_idx, ":\n"@);
    lemma_scan_sound(mulscalar_text(n_inputs, total_elements, scalar_bits, model_idx, op_idx, src_loc, dst_loc), k);
}

/// Emits `dst[i] = src[i] * scalar` over `total_elements` elements.
pub fn emit_mulscalar(
    abi: &AbiContext,
    total_elements: u64,
    scalar_bits: u32,
    model_idx: usize,
    op_idx: usize,
    src_loc: BufferLoc,
    dst_loc: BufferLoc,
) -> (s: String)
    requires
        abi.n_inputs + 2 <= 6,
        materialisable(abi.n_inputs as nat, src_loc),
        materialisable(abi.n_inputs as nat, dst_loc),
        total_elements <= u32::MAX,
    ensures
        s@ == mulscalar_text(abi.n_inputs as nat, total_elements, scalar_bits, model_idx as nat, op_idx as nat, src_loc, dst_loc),
        writes_no_arg_reg(s@, (abi.n_inputs + 2) as nat),
{
    let mut s = String::new();
    push_str(&mut s, "    ; mul_scalar: total_elements=");
    push_decimal(&mut s, total_elements);
    push_str(&mut s, ", scalar_bits=0x");
    push_hex(&mut s, scalar_bits as u64, 8);
    push_str(&mut s, "\n");
    push_movz_movk(&mut s, "w9", scalar_bits as u64);
    push_str(&mut s, "    fmov    s4, w9\n");
    abi.materialise_ptr(src_loc, "x11", &mut s);
    abi.materialise_ptr(dst_loc, "x12", &mut s);
    push_str(&mut s, "    mov     x13, #0\n");
    push_labeled(&mut s, ".Lms_", model_idx, op_idx, ":\n");
    push_movz_movk(&mut s, "x10", total_elements);
    push_str(&mut s, "    cmp     x13, x10\n");
    push_labeled(&mut s, "    b.ge    .Lms_end_", model_idx, op_idx, "\n");
    push_str(&mut s, "    ldr     s0, [x11, x13, lsl #2]\n");
    push_str(&mut s, "    fmul    s0, s0, s4\n");
    push_str(&mut s, "    str     s0, [x12, x13, lsl #2]\n");
    push_str(&mut s, "    add     x13, x13, #1\n");
    push_labeled(&mut s, "    b       .Lms_", model_idx, op_idx, "\n");
    push_labeled(&mut s, ".Lms_end_", model_idx, op_idx, ":\n");
    proof {
        lemma_mulscalar_writes_no_arg_reg(abi.n_inputs as nat, total_elements, scalar_bits, model_idx as nat, op_idx as nat, src_loc, dst_loc);
    }
    s
}

} // verus!
