//! Elementwise ReLU: `dst[i] = max(src[i], 0)`.

use vstd::prelude::*;
use crate::text::{push_str, push_decimal, push_labeled, decimal, labeled};
use crate::types::BufferLoc;
use crate::x86_64::abi::{AbiContext, materialisable, materialise_text};
use crate::x86_64::frame::{push_imm32_to_r10, imm32_to_r10_text};
use crate::x86_64::arg_writes::{
    scan, scan_at, writes_no_arg_reg, lemma_scan_append, lemma_scan_literal, lemma_scan_sound, lemma_decimal_scan,
    lemma_imm32_scan, lemma_materialise_scan, lemma_labeled_scan, lemma_common_lines, lemma_scratch_pointers,
};

verus! {

/// The ReLU loop: pointers in `%rax`/`%r11`, zero in `%xmm1`, bound in
/// `%r10`, counter in `%rbp` (saved by every prologue).
pub open spec fn relu_text(
    n_inputs: nat,
    total_floats: u64,
    model_idx: nat,
    relu_idx: nat,
    src_loc: BufferLoc,
    dst_loc: BufferLoc,
) -> Seq<char> {
    "    # relu: copy-clamp src\u{2192}dst ("@ + decimal(total_floats as nat) + " elements)\n"@
        + materialise_text(n_inputs, src_loc, "%rax"@)
        + materialise_text(n_inputs, dst_loc, "%r11"@)
        + "    xorps   %xmm1, %xmm1\n"@
        + imm32_to_r10_text((total_floats as u32) as nat)
        + "    xorq    %rbp, %rbp\n"@
        + labeled(".Lrelu_"@, model_idx, relu_idx, ":\n"@)
        + "    cmpq    %r10, %rbp\n"@
        + labeled("    jge     .Lrelu_end_"@, model_idx, relu_idx, "\n"@)
        + "    movss   (%rax, %rbp, 4), %xmm0\n"@
        + "    maxss   %xmm1, %xmm0\n"@
        + "    movss   %xmm0, (%r11, %rbp, 4)\n"@
        + "    incq    %rbp\n"@
        + labeled("    jmp     .Lrelu_"@, model_idx, relu_idx, "\n"@)
        + labeled(".Lrelu_end_"@, model_idx, relu_idx, ":\n"@)
}

proof fn lemma_relu_line_0()
    ensures
        scan(0, "    # relu: copy-clamp src\u{2192}dst ("@) == 0,
{
    reveal_strlit("    # relu: copy-clamp src\u{2192}dst (");
    lemma_scan_literal(0, "    # relu: copy-clamp src\u{2192}dst ("@);
    reveal_with_fuel(scan_at, 33);
}

proof fn lemma_relu_line_1()
    ensures
        scan(0, "    xorps   %xmm1, %xmm1\n"@) == 0,
{
    reveal_strlit("    xorps   %xmm1, %xmm1\n");
    lemma_scan_literal(0, "    xorps   %xmm1, %xmm1\n"@);
    reveal_with_fuel(scan_at, 26);
}

proof fn lemma_relu_line_2()
    ensures
        scan(0, ".Lrelu_"@) == 0,
{
    reveal_strlit(".Lrelu_");
    lemma_scan_literal(0, ".Lrelu_"@);
    reveal_with_fuel(scan_at, 8);
}

proof fn lemma_relu_line_3()
    ensures
        scan(0, "    jge     .Lrelu_end_"@) == 0,
{
    reveal_strlit("    jge     .Lrelu_end_");
    lemma_scan_literal(0, "    jge     .Lrelu_end_"@);
    reveal_with_fuel(scan_at, 24);
}

proof fn lemma_relu_line_4()
    ensures
        scan(0, "    maxss   %xmm1, %xmm0\n"@) == 0,
{
    reveal_strlit("    maxss   %xmm1, %xmm0\n");
    lemma_scan_literal(0, "    maxss   %xmm1, %xmm0\n"@);
    reveal_with_fuel(scan_at, 26);
}

proof fn lemma_relu_line_5()
    ensures
        scan(0, "    jmp     .Lrelu_"@) == 0,
{
    reveal_strlit("    jmp     .Lrelu_");
    lemma_scan_literal(0, "    jmp     .Lrelu_"@);
    reveal_with_fuel(scan_at, 20);
}

proof fn lemma_relu_line_6()
    ensures
        scan(0, ".Lrelu_end_"@) == 0,
{
    reveal_strlit(".Lrelu_end_");
    lemma_scan_literal(0, ".Lrelu_end_"@);
    reveal_with_fuel(scan_at, 12);
}

/// Where the automaton stands after each fixed piece of the ReLU text.
proof fn lemma_relu_lines()
    ensures
        scan(0, "    # relu: copy-clamp src\u{2192}dst ("@) == 0,
        scan(0, "    xorps   %xmm1, %xmm1\n"@) == 0,
        scan(0, ".Lrelu_"@) == 0,
        scan(0, "    jge     .Lrelu_end_"@) == 0,
        scan(0, "    maxss   %xmm1, %xmm0\n"@) == 0,
        scan(0, "    jmp     .Lrelu_"@) == 0,
        scan(0, ".Lrelu_end_"@) == 0,
{
    lemma_relu_line_0();
    lemma_relu_line_1();
    lemma_relu_line_2();
    lemma_relu_line_3();
    lemma_relu_line_4();
    lemma_relu_line_5();
    lemma_relu_line_6();
}

/// The ReLU loop writes no argument register, at any number of inputs.
proof fn lemma_relu_writes_no_arg_reg(
    n_inputs: nat,
    total_floats: u64,
    model_idx: nat,
    relu_idx: nat,
    src_loc: BufferLoc,
    dst_loc: BufferLoc,
)
    requires
        n_inputs + 2 <= 6,
        materialisable(n_inputs, src_loc),
        materialisable(n_inputs, dst_loc),
    ensures
        writes_no_arg_reg(relu_text(n_inputs, total_floats, model_idx, relu_idx, src_loc, dst_loc)),
{
    broadcast use lemma_scan_append;
    lemma_common_lines();
    lemma_scratch_pointers();
    lemma_relu_lines();
    lemma_decimal_scan(total_floats as nat);
    lemma_imm32_scan((total_floats as u32) as nat);
    lemma_materialise_scan(n_inputs, src_loc, "%rax"@);
    lemma_materialise_scan(n_inputs, dst_loc, "%r11"@);
    lemma_labeled_scan(".Lrelu_"@, model_idx, relu_idx, ":\n"@);
    lemma_labeled_scan("    jge     .Lrelu_end_"@, model_idx, relu_idx, "\n"@);
    lemma_labeled_scan("    jmp     .Lrelu_"@, model_idx, relu_idx, "\n"@);
    lemma_labeled_scan(".Lrelu_end_"@, model_idx, relu_idx, ":\n"@);
    lemma_scan_sound(relu_text(n_inputs, total_floats, model_idx, relu_idx, src_loc, dst_loc));
}

/// Emits an elementwise ReLU over `total_floats` elements.
pub fn emit_relu(
    abi: &AbiContext,
    total_floats: u64,
    model_idx: usize,
    relu_idx: usize,
    src_loc: BufferLoc,
    dst_loc: BufferLoc,
) -> (s: String)
    requires
        abi.n_inputs + 2 <= 6,
        materialisable(abi.n_inputs as nat, src_loc),
        materialisable(abi.n_inputs as nat, dst_loc),
    ensures
        s@ == relu_text(abi.n_inputs as nat, total_floats, model_idx as nat, relu_idx as nat, src_loc, dst_loc),
        writes_no_arg_reg(s@),
{
    let mut s = String::new();
    push_str(&mut s, "    # relu: copy-clamp src\u{2192}dst (");
    push_decimal(&mut s, total_floats);
    push_str(&mut s, " elements)\n");
    abi.materialise_ptr(src_loc, "%rax", &mut s);
    abi.materialise_ptr(dst_loc, "%r11", &mut s);
    push_str(&mut s, "    xorps   %xmm1, %xmm1\n");
    push_imm32_to_r10(&mut s, total_floats as u32);
    push_str(&mut s, "    xorq    %rbp, %rbp\n");
    push_labeled(&mut s, ".Lrelu_", model_idx, relu_idx, ":\n");
    push_str(&mut s, "    cmpq    %r10, %rbp\n");
    push_labeled(&mut s, "    jge     .Lrelu_end_", model_idx, relu_idx, "\n");
    push_str(&mut s, "    movss   (%rax, %rbp, 4), %xmm0\n");
    push_str(&mut s, "    maxss   %xmm1, %xmm0\n");
    push_str(&mut s, "    movss   %xmm0, (%r11, %rbp, 4)\n");
    push_str(&mut s, "    incq    %rbp\n");
    push_labeled(&mut s, "    jmp     .Lrelu_", model_idx, relu_idx, "\n");
    push_labeled(&mut s, ".Lrelu_end_", model_idx, relu_idx, ":\n");
    proof {
        lemma_relu_writes_no_arg_reg(abi.n_inputs as nat, total_floats, model_idx as nat, relu_idx as nat, src_loc, dst_loc);
    }
    s
}

} // verus!
