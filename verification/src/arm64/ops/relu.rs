//! Elementwise ReLU: `dst[i] = max(src[i], 0)`.

use vstd::prelude::*;
use crate::text::{push_str, push_decimal, push_labeled, decimal, labeled};
use crate::types::BufferLoc;
use crate::arm64::abi::{AbiContext, materialisable, materialise_text};
use crate::arm64::frame::{movz_movk_text, push_movz_movk};
use crate::arm64::arg_writes::{
    scan, scan_at, writes_no_arg_reg, lemma_scan_append, lemma_scan_literal, lemma_scan_sound, lemma_decimal_scan,
    lemma_movz_movk_scan, lemma_materialise_scan, lemma_labeled_scan, lemma_common_lines,
};

verus! {

/// The ReLU loop: pointers in `x11`/`x12`, zero in `s4`, bound hoisted into
/// `x10`, counter in `x9`.
pub open spec fn relu_text(
    n_inputs: nat,
    total_floats: u64,
    model_idx: nat,
    relu_idx: nat,
    src_loc: BufferLoc,
    dst_loc: BufferLoc,
) -> Seq<char> {
    "    ; relu: copy-clamp from src to dst ("@ + decimal(total_floats as nat) + " elements)\n"@
        + materialise_text(n_inputs, src_loc, "x11"@)
        + materialise_text(n_inputs, dst_loc, "x12"@)
        + "    fmov    s4, wzr\n"@
        + movz_movk_text("x10"@, total_floats as nat)
        + "    mov     x9, #0\n"@
        + labeled(".Lrelu_"@, model_idx, relu_idx, ":\n"@)
        + "    cmp     x9, x10\n"@
        + labeled("    b.ge    .Lrelu_end_"@, model_idx, relu_idx, "\n"@)
        + "    ldr     s3, [x11, x9, lsl #2]\n"@
        + "    fmax    s3, s3, s4\n"@
        + "    str     s3, [x12, x9, lsl #2]\n"@
        + "    add     x9, x9, #1\n"@
        + labeled("    b       .Lrelu_"@, model_idx, relu_idx, "\n"@)
        + labeled(".Lrelu_end_"@, model_idx, relu_idx, ":\n"@)
}

proof fn lemma_relu_line_0(k: nat)
    requires
        k <= 6,
    ensures
        scan(k, 0, "    ; relu: copy-clamp from src to dst ("@) == 0,
{
    reveal_strlit("    ; relu: copy-clamp from src to dst (");
    lemma_scan_literal(k, 0, "    ; relu: copy-clamp from src to dst ("@);
    reveal_with_fuel(scan_at, 41);
}

proof fn lemma_relu_line_1(k: nat)
    requires
        k <= 6,
    ensures
        scan(k, 0, "    fmov    s4, wzr\n"@) == 0,
{
    reveal_strlit("    fmov    s4, wzr\n");
    lemma_scan_literal(k, 0, "    fmov    s4, wzr\n"@);
    reveal_with_fuel(scan_at, 21);
}

proof fn lemma_relu_line_2(k: nat)
    requires
        k <= 6,
    ensures
        scan(k, 0, ".Lrelu_"@) == 0,
{
    reveal_strlit(".Lrelu_");
    lemma_scan_literal(k, 0, ".Lrelu_"@);
    reveal_with_fuel(scan_at, 8);
}

proof fn lemma_relu_line_3(k: nat)
    requires
        k <= 6,
    ensures
        scan(k, 0, "    b.ge    .Lrelu_end_"@) == 0,
{
    reveal_strlit("    b.ge    .Lrelu_end_");
    lemma_scan_literal(k, 0, "    b.ge    .Lrelu_end_"@);
    reveal_with_fuel(scan_at, 24);
}

proof fn lemma_relu_line_4(k: nat)
    requires
        k <= 6,
    ensures
        scan(k, 0, "    fmax    s3, s3, s4\n"@) == 0,
{
    reveal_strlit("    fmax    s3, s3, s4\n");
    lemma_scan_literal(k, 0, "    fmax    s3, s3, s4\n"@);
    reveal_with_fuel(scan_at, 24);
}

proof fn lemma_relu_line_5(k: nat)
    requires
        k <= 6,
    ensures
        scan(k, 0, "    b       .Lrelu_"@) == 0,
{
    reveal_strlit("    b       .Lrelu_");
    lemma_scan_literal(k, 0, "    b       .Lrelu_"@);
    reveal_with_fuel(scan_at, 20);
}

proof fn lemma_relu_line_6(k: nat)
    requires
        k <= 6,
    ensures
        scan(k, 0, ".Lrelu_end_"@) == 0,
{
    reveal_strlit(".Lrelu_end_");
    lemma_scan_literal(k, 0, ".Lrelu_end_"@);
    reveal_with_fuel(scan_at, 12);
}

/// Where the automaton stands after each fixed piece of the ReLU text.
proof fn lemma_relu_lines(k: nat)
    requires
        k <= 6,
    ensures
        scan(k, 0, "    ; relu: copy-clamp from src to dst ("@) == 0,
        scan(k, 0, "    fmov    s4, wzr\n"@) == 0,
        scan(k, 0, ".Lrelu_"@) == 0,
        scan(k, 0, "    b.ge    .Lrelu_end_"@) == 0,
        scan(k, 0, "    fmax    s3, s3, s4\n"@) == 0,
        scan(k, 0, "    b       .Lrelu_"@) == 0,
        scan(k, 0, ".Lrelu_end_"@) == 0,
{
    lemma_relu_line_0(k);
    lemma_relu_line_1(k);
    lemma_relu_line_2(k);
    lemma_relu_line_3(k);
    lemma_relu_line_4(k);
    lemma_relu_line_5(k);
    lemma_relu_line_6(k);
}

/// The ReLU loop names no argument register in use as a destination, at
/// any number of inputs.
proof fn lemma_relu_writes_no_arg_reg(
    n_inputs: nat,
    total_floats: u64,
    model_idx: nat,
    relu_idx: nat,
    src_loc: BufferLoc,
    dst_loc: BufferLoc,
)
    requires
        n_inputs + 2 <= 6,
        materialisable(n_inputs, src_loc),
        materialisable(n_inputs, dst_loc),
    ensures
        writes_no_arg_reg(relu_text(n_inputs, total_floats, model_idx, relu_idx, src_loc, dst_loc), n_inputs + 2),
{
    let k = n_inputs + 2;
    broadcast use lemma_scan_append;
    lemma_common_lines(k);
    lemma_relu_lines(k);
    lemma_decimal_scan(k, 0, total_floats as nat);
    lemma_movz_movk_scan(k, "x10"@, total_floats as nat);
    lemma_materialise_scan(k, n_inputs, src_loc, "x11"@);
    lemma_materialise_scan(k, n_inputs, dst_loc, "x12"@);
    lemma_labeled_scan(k, ".Lrelu_"@, model_idx, relu_idx, ":\n"@);
    lemma_labeled_scan(k, "    b.ge    .Lrelu_end_"@, model_idx, relu_idx, "\n"@);
    lemma_labeled_scan(k, "    b       .Lrelu_"@, model_idx, relu_idx, "\n"@);
    lemma_labeled_scan(k, ".Lrelu_end_"@, model_idx, relu_idx, ":\n"@);
    lemma_scan_sound(relu_text(n_inputs, total_floats, model_idx, relu_idx, src_loc, dst_loc), k);
}

/// Emits an elementwise ReLU over `total_floats` elements.
pub fn emit_relu(
    abi: &AbiContext,
    total_floats: u64,
    model_idx: usize,
    relu_idx: usize,
    src_loc: BufferLoc,
    dst_loc: BufferLoc,
) -> (s: String)
    requires
        abi.n_inputs + 2 <= 6,
        materialisable(abi.n_inputs as nat, src_loc),
        materialisable(abi.n_inputs as nat, dst_loc),
        total_floats <= u32::MAX,
    ensures
        s@ == relu_text(abi.n_inputs as nat, total_floats, model_idx as nat, relu_idx as nat, src_loc, dst_loc),
        writes_no_arg_reg(s@, (abi.n_inputs + 2) as nat),
{
    let mut s = String::new();
    push_str(&mut s, "    ; relu: copy-clamp from src to dst (");
    push_decimal(&mut s, total_floats);
    push_str(&mut s, " elements)\n");
    abi.materialise_ptr(src_loc, "x11", &mut s);
    abi.materialise_ptr(dst_loc, "x12", &mut s);
    push_str(&mut s, "    fmov    s4, wzr\n");
    push_movz_movk(&mut s, "x10", total_floats);
    push_str(&mut s, "    mov     x9, #0\n");
    push_labeled(&mut s, ".Lrelu_", model_idx, relu_idx, ":\n");
    push_str(&mut s, "    cmp     x9, x10\n");
    push_labeled(&mut s, "    b.ge    .Lrelu_end_", model_idx, relu_idx, "\n");
    push_str(&mut s, "    ldr     s3, [x11, x9, lsl #2]\n");
    push_str(&mut s, "    fmax    s3, s3, s4\n");
    push_str(&mut s, "    str     s3, [x12, x9, lsl #2]\n");
    push_str(&mut s, "    add     x9, x9, #1\n");
    push_labeled(&mut s, "    b       .Lrelu_", model_idx, relu_idx, "\n");
    push_labeled(&mut s, ".Lrelu_end_", model_idx, relu_idx, ":\n");
    proof {
        lemma_relu_writes_no_arg_reg(abi.n_inputs as nat, total_floats, model_idx as nat, relu_idx as nat, src_loc, dst_loc);
    }
    s
}

} // verus!
