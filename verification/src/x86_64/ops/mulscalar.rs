//! Multiply by a scalar: `dst[i] = src[i] * scalar`. The scalar arrives as
//! the bit pattern of an f32 and is loaded once into `%xmm4`.

use vstd::prelude::*;
use crate::text::{push_str, push_decimal, push_hex, push_labeled, decimal, hex_padded, labeled};
use crate::types::BufferLoc;
use crate::x86_64::abi::{AbiContext, materialisable, materialise_text};
use crate::x86_64::frame::{push_imm32_to_r10, imm32_to_r10_text};
use crate::x86_64::arg_writes::{
    scan, scan_at, writes_no_arg_reg, lemma_scan_append, lemma_scan_literal, lemma_scan_sound, lemma_decimal_scan,
    lemma_imm32_scan, lemma_materialise_scan, lemma_labeled_scan, lemma_common_lines, lemma_scratch_pointers, lemma_hex_scan,
};

verus! {

/// The scaling loop: scalar via `%r10d` into `%xmm4`, pointers in
/// `%rax`/`%r11`, counter in `%rbp`.
pub open spec fn mulscalar_text(
    n_inputs: nat,
    total_elements: u64,
    scalar_bits: u32,
    model_idx: nat,
    op_idx: nat,
    src_loc: BufferLoc,
    dst_loc: BufferLoc,
) -> Seq<char> {
    "    # mul_scalar: total_elements="@ + decimal(total_elements as nat) + ", scalar_bits=0x"@
        + hex_padded(scalar_bits as nat, 8) + "\n"@
        + "    movl    $0x"@ + hex_padded(scalar_bits as nat, 1) + ", %r10d\n"@
        + "    movd    %r10d, %xmm4\n"@
        + materialise_text(n_inputs, src_loc, "%rax"@)
        + materialise_text(n_inputs, dst_loc, "%r11"@)
        + "    movq    $0, %rbp\n"@
        + labeled(".Lms_"@, model_idx, op_idx, ":\n"@)
        + imm32_to_r10_text((total_elements as u32) as nat)
        + "    cmpq    %r10, %rbp\n"@
        + labeled("    jge     .Lms_end_"@, model_idx, op_idx, "\n"@)
        + "    movss   (%rax, %rbp, 4), %xmm0\n"@
        + "    mulss   %xmm4, %xmm0\n"@
        + "    movss   %xmm0, (%r11, %rbp, 4)\n"@
        + "    addq    $1, %rbp\n"@
        + labeled("    jmp     .Lms_"@, model_idx, op_idx, "\n"@)
        + labeled(".Lms_end_"@, model_idx, op_idx, ":\n"@)
}

proof fn lemma_mulscalar_line_0()
    ensures
        scan(0, "    # mul_scalar: total_elements="@) == 0,
{
    reveal_strlit("    # mul_scalar: total_elements=");
    lemma_scan_literal(0, "    # mul_scalar: total_elements="@);
    reveal_with_fuel(scan_at, 34);
}

proof fn lemma_mulscalar_line_1()
    ensures
        scan(0, ", scalar_bits=0x"@) == 0,
{
    reveal_strlit(", scalar_bits=0x");
    lemma_scan_literal(0, ", scalar_bits=0x"@);
    reveal_with_fuel(scan_at, 17);
}

proof fn lemma_mulscalar_line_2()
    ensures
        scan(0, "    movl    $0x"@) == 0,
{
    reveal_strlit("    movl    $0x");
    lemma_scan_literal(0, "    movl    $0x"@);
    reveal_with_fuel(scan_at, 16);
}

proof fn lemma_mulscalar_line_3()
    ensures
        scan(0, ", %r10d\n"@) == 0,
{
    reveal_strlit(", %r10d\n");
    lemma_scan_literal(0, ", %r10d\n"@);
    reveal_with_fuel(scan_at, 9);
}

proof fn lemma_mulscalar_line_4()
    ensures
        scan(0, "    movd    %r10d, %xmm4\n"@) == 0,
{
    reveal_strlit("    movd    %r10d, %xmm4\n");
    lemma_scan_literal(0, "    movd    %r10d, %xmm4\n"@);
    reveal_with_fuel(scan_at, 26);
}

proof fn lemma_mulscalar_line_5()
    ensures
        scan(0, ".Lms_"@) == 0,
{
    reveal_strlit(".Lms_");
    lemma_scan_literal(0, ".Lms_"@);
    reveal_with_fuel(scan_at, 6);
}

proof fn lemma_mulscalar_line_6()
    ensures
        scan(0, "    jge     .Lms_end_"@) == 0,
{
    reveal_strlit("    jge     .Lms_end_");
    lemma_scan_literal(0, "    jge     .Lms_end_"@);
    reveal_with_fuel(scan_at, 22);
}

proof fn lemma_mulscalar_line_7()
    ensures
        scan(0, "    mulss   %xmm4, %xmm0\n"@) == 0,
{
    reveal_strlit("    mulss   %xmm4, %xmm0\n");
    lemma_scan_literal(0, "    mulss   %xmm4, %xmm0\n"@);
    reveal_with_fuel(scan_at, 26);
}

proof fn lemma_mulscalar_line_8()
    ensures
        scan(0, "    jmp     .Lms_"@) == 0,
{
    reveal_strlit("    jmp     .Lms_");
    lemma_scan_literal(0, "    jmp     .Lms_"@);
    reveal_with_fuel(scan_at, 18);
}

proof fn lemma_mulscalar_line_9()
    ensures
        scan(0, ".Lms_end_"@) == 0,
{
    reveal_strlit(".Lms_end_");
    lemma_scan_literal(0, ".Lms_end_"@);
    reveal_with_fuel(scan_at, 10);
}

/// Where the automaton stands after each fixed piece of the scaling loop text.
proof fn lemma_mulscalar_lines()
    ensures
        scan(0, "    # mul_scalar: total_elements="@) == 0,
        scan(0, ", scalar_bits=0x"@) == 0,
        scan(0, "    movl    $0x"@) == 0,
        scan(0, ", %r10d\n"@) == 0,
        scan(0, "    movd    %r10d, %xmm4\n"@) == 0,
        scan(0, ".Lms_"@) == 0,
        scan(0, "    jge     .Lms_end_"@) == 0,
        scan(0, "    mulss   %xmm4, %xmm0\n"@) == 0,
        scan(0, "    jmp     .Lms_"@) == 0,
        scan(0, ".Lms_end_"@) == 0,
{
    lemma_mulscalar_line_0();
    lemma_mulscalar_line_1();
    lemma_mulscalar_line_2();
    lemma_mulscalar_line_3();
    lemma_mulscalar_line_4();
    lemma_mulscalar_line_5();
    lemma_mulscalar_line_6();
    lemma_mulscalar_line_7();
    lemma_mulscalar_line_8();
    lemma_mulscalar_line_9();
}

/// The scaling loop writes no argument register, at any number of inputs.
proof fn lemma_mulscalar_writes_no_arg_reg(
    n_inputs: nat,
    total_elements: u64,
    scalar_bits: u32,
    model_idx: nat,
    op_idx: nat,
    src_loc: BufferLoc,
    dst_loc: BufferLoc,
)
    requires
        n_inputs + 2 <= 6,
        materialisable(n_inputs, src_loc),
        materialisable(n_inputs, dst_loc),
    ensures
        writes_no_arg_reg(mulscalar_text(n_inputs, total_elements, scalar_bits, model_idx, op_idx, src_loc, dst_loc)),
{
    broadcast use lemma_scan_append;
    lemma_common_lines();
    lemma_scratch_pointers();
    lemma_mulscalar_lines();
    lemma_decimal_scan(total_elements as nat);
    lemma_hex_scan(scalar_bits as nat, 8);
    lemma_hex_scan(scalar_bits as nat, 1);
    lemma_imm32_scan((total_elements as u32) as nat);
    lemma_materialise_scan(n_inputs, src_loc, "%rax"@);
    lemma_materialise_scan(n_inputs, dst_loc, "%r11"@);
    lemma_labeled_scan(".Lms_"@, model_idx, op_idx, ":\n"@);
    lemma_labeled_scan("    jge     .Lms_end_"@, model_idx, op_idx, "\n"@);
    lemma_labeled_scan("    jmp     .Lms_"@, model_idx, op_idx, "\n"@);
    lemma_labeled_scan(".Lms_end_"@, model_idx, op_idx, ":\n"@);
    lemma_scan_sound(mulscalar_text(n_inputs, total_elements, scalar_bits, model_idx, op_idx, src_loc, dst_loc));
}

/// Emits `dst[i] = src[i] * scalar` over `total_elements` elements.
pub fn emit_mulscalar(
    abi: &AbiContext,
    total_elements: u64,
    scalar_bits: u32,
    model_idx: usize,
    op_idx: usize,
    src_loc: BufferLoc,
    dst_loc: BufferLoc,
) -> (s: String)
    requires
        abi.n_inputs + 2 <= 6,
        materialisable(abi.n_inputs as nat, src_loc),
        materialisable(abi.n_inputs as nat, dst_loc),
    ensures
        s@ == mulscalar_text(
            abi.n_inputs as nat,
            total_elements,
            scalar_bits,
            model_idx as nat,
            op_idx as nat,
            src_loc,
            dst_loc,
        ),
        writes_no_arg_reg(s@),
{
    let mut s = String::new();
    push_str(&mut s, "    # mul_scalar: total_elements=");
    push_decimal(&mut s, total_elements);
    push_str(&mut s, ", scalar_bits=0x");
    push_hex(&mut s, scalar_bits as u64, 8);
    push_str(&mut s, "\n");
    push_str(&mut s, "    movl    $0x");
    push_hex(&mut s, scalar_bits as u64, 1);
    push_str(&mut s, ", %r10d\n");
    push_str(&mut s, "    movd    %r10d, %xmm4\n");
    abi.materialise_ptr(src_loc, "%rax", &mut s);
    abi.materialise_ptr(dst_loc, "%r11", &mut s);
    push_str(&mut s, "    movq    $0, %rbp\n");
    push_labeled(&mut s, ".Lms_", model_idx, op_idx, ":\n");
    push_imm32_to_r10(&mut s, total_elements as u32);
    push_str(&mut s, "    cmpq    %r10, %rbp\n");
    push_labeled(&mut s, "    jge     .Lms_end_", model_idx, op_idx, "\n");
    push_str(&mut s, "    movss   (%rax, %rbp, 4), %xmm0\n");
    push_str(&mut s, "    mulss   %xmm4, %xmm0\n");
    push_str(&mut s, "    movss   %xmm0, (%r11, %rbp, 4)\n");
    push_str(&mut s, "    addq    $1, %rbp\n");
    push_labeled(&mut s, "    jmp     .Lms_", model_idx, op_idx, "\n");
    push_labeled(&mut s, ".Lms_end_", model_idx, op_idx, ":\n");
    proof {
        lemma_mulscalar_writes_no_arg_reg(abi.n_inputs as nat, total_elements, scalar_bits, model_idx as nat, op_idx as nat, src_loc, dst_loc);
    }
    s
}

} // verus!
