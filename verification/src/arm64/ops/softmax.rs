//! Softmax over `[b, k]` (per row, numerically stable), with the inline
//! `exp` in place of a libm call. The row max and sum live in `s8`/`s9`,
//! the row loop's pointers and counters in `x19`..`x23`: all callee-saved,
//! out of reach of the `exp` sequence's scratch. The same row passes serve
//! the tail fused into a linear layer.

use vstd::prelude::*;
use crate::text::{push_str, push_decimal, decimal, op_id, op_id_string};
use crate::types::BufferLoc;
use crate::arm64::abi::{AbiContext, materialisable, materialise_text, ffi_save_text, ffi_restore_text};
use crate::arm64::frame::{movz_movk_text, push_movz_movk};
use crate::arm64::ops::loops::{loop_head, loop_tail, push_loop_head, push_loop_tail};
use crate::arm64::ops::exp::{exp_inline_text, push_exp_inline};

verus! {

/// A label of the softmax loops: `.L<stem>_<part>`.
pub open spec fn sm_label(stem: Seq<char>, part: Seq<char>) -> Seq<char> {
    ".L"@ + stem + part
}

/// A branch to such a label; `op` ends with `.L`.
pub open spec fn sm_jump(op: Seq<char>, stem: Seq<char>, part: Seq<char>) -> Seq<char> {
    op + stem + part
}

/// One pass over the row's `k` columns with counter `x21`.
pub open spec fn sm_pass(stem: Seq<char>, part: Seq<char>, k: u64, id: Seq<char>, body: Seq<char>) -> Seq<char> {
    "    mov     x21, #0\n"@
        + loop_head(sm_label(stem, part + "_"@), sm_jump("    b.ge    .L"@, stem, part + "_end_"@), "x21"@, "x10"@, k as nat, id)
        + body
        + loop_tail("    add     x21, x21, #1\n"@, sm_jump("    b       .L"@, stem, part + "_"@), sm_label(stem, part + "_end_"@), id)
}

pub open spec fn max_body() -> Seq<char> {
    "    add     x6, x20, x21\n"@ + "    ldr     s1, [x22, x6, lsl #2]\n"@ + "    fmax    s8, s8, s1\n"@
}

pub open spec fn exp_body(sym_prefix: Seq<char>) -> Seq<char> {
    "    add     x6, x20, x21\n"@ + "    ldr     s0, [x22, x6, lsl #2]\n"@ + "    fsub    s0, s0, s8\n"@
        + exp_inline_text() + "    add     x6, x20, x21\n"@
        + "    str     s0, [x23, x6, lsl #2]\n"@ + "    fadd    s9, s9, s0\n"@
}

pub open spec fn norm_body() -> Seq<char> {
    "    add     x6, x20, x21\n"@ + "    ldr     s0, [x23, x6, lsl #2]\n"@ + "    fdiv    s0, s0, s9\n"@
        + "    str     s0, [x23, x6, lsl #2]\n"@
}

/// `-inf` into `s8`, through `w0`.
pub open spec fn neg_inf_text() -> Seq<char> {
    "    movz    w0, #0x0000\n"@ + "    movk    w0, #0xFF80, lsl #16\n"@ + "    fmov    s8, w0\n"@
}

/// The row loop over `b` rows of `k` elements, source in `x22` and
/// destination in `x23`: max into `s8`, exponentials and their sum into
/// `s9`, then the division.
pub open spec fn softmax_rows_text(stem: Seq<char>, b: u64, k: u64, id: Seq<char>, sym_prefix: Seq<char>) -> Seq<char> {
    "    mov     x19, #0\n"@
        + loop_head(sm_label(stem, "_i_"@), sm_jump("    b.ge    .L"@, stem, "_i_end_"@), "x19"@, "x10"@, b as nat, id)
        + movz_movk_text("x8"@, k as nat) + "    mul     x20, x19, x8\n"@
        + neg_inf_text()
        + sm_pass(stem, "_max"@, k, id, max_body())
        + "    fmov    s9, wzr\n"@
        + sm_pass(stem, "_exp"@, k, id, exp_body(sym_prefix))
        + sm_pass(stem, "_norm"@, k, id, norm_body())
        + loop_tail("    add     x19, x19, #1\n"@, sm_jump("    b       .L"@, stem, "_i_"@), sm_label(stem, "_i_end_"@), id)
}

fn label_of(head: &str, stem: &str, part: &str) -> (s: String)
    ensures
        s@ == head@ + stem@ + part@,
{
    let mut s = head.to_owned();
    push_str(&mut s, stem);
    push_str(&mut s, part);
    s
}

fn push_sm_pass(s: &mut String, stem: &str, part: &str, k: u64, id: &str, body: &str)
    requires
        k <= u32::MAX,
    ensures
        final(s)@ == old(s)@ + sm_pass(stem@, part@, k, id@, body@),
{
    let mut part_open = part.to_owned();
    push_str(&mut part_open, "_");
    let mut part_end = part.to_owned();
    push_str(&mut part_end, "_end_");
    let label = label_of(".L", stem, part_open.as_str());
    let exit = label_of("    b.ge    .L", stem, part_end.as_str());
    let back = label_of("    b       .L", stem, part_open.as_str());
    let end_label = label_of(".L", stem, part_end.as_str());
    let mut t = "    mov     x21, #0\n".to_owned();
    push_loop_head(&mut t, label.as_str(), exit.as_str(), "x21", "x10", k, id);
    push_str(&mut t, body);
    push_loop_tail(&mut t, "    add     x21, x21, #1\n", back.as_str(), end_label.as_str(), id);
    push_str(s, t.as_str());
}

/// Emits the row loop of a softmax over `x22` into `x23`.
pub fn push_softmax_rows(s: &mut String, stem: &str, b: u64, k: u64, id: &str, sym_prefix: &str)
    requires
        b <= u32::MAX,
        k <= u32::MAX,
    ensures
        final(s)@ == old(s)@ + softmax_rows_text(stem@, b, k, id@, sym_prefix@),
{
    let label = label_of(".L", stem, "_i_");
    let exit = label_of("    b.ge    .L", stem, "_i_end_");
    let back = label_of("    b       .L", stem, "_i_");
    let end_label = label_of(".L", stem, "_i_end_");
    let mut t = "    mov     x19, #0\n".to_owned();
    push_loop_head(&mut t, label.as_str(), exit.as_str(), "x19", "x10", b, id);
    push_movz_movk(&mut t, "x8", k);
    push_str(&mut t, "    mul     x20, x19, x8\n");
    push_str(&mut t, "    movz    w0, #0x0000\n");
    push_str(&mut t, "    movk    w0, #0xFF80, lsl #16\n");
    push_str(&mut t, "    fmov    s8, w0\n");
    let max = "    add     x6, x20, x21\n".to_owned();
    let mut max = max;
    push_str(&mut max, "    ldr     s1, [x22, x6, lsl #2]\n");
    push_str(&mut max, "    fmax    s8, s8, s1\n");
    push_sm_pass(&mut t, stem, "_max", k, id, max.as_str());
    push_str(&mut t, "    fmov    s9, wzr\n");
    let mut exp = "    add     x6, x20, x21\n".to_owned();
    push_str(&mut exp, "    ldr     s0, [x22, x6, lsl #2]\n");
    push_str(&mut exp, "    fsub    s0, s0, s8\n");
    push_exp_inline(&mut exp);
    push_str(&mut exp, "    add     x6, x20, x21\n");
    push_str(&mut exp, "    str     s0, [x23, x6, lsl #2]\n");
    push_str(&mut exp, "    fadd    s9, s9, s0\n");
    push_sm_pass(&mut t, stem, "_exp", k, id, exp.as_str());
    let mut norm = "    add     x6, x20, x21\n".to_owned();
    push_str(&mut norm, "    ldr     s0, [x23, x6, lsl #2]\n");
    push_str(&mut norm, "    fdiv    s0, s0, s9\n");
    push_str(&mut norm, "    str     s0, [x23, x6, lsl #2]\n");
    push_sm_pass(&mut t, stem, "_norm", k, id, norm.as_str());
    push_loop_tail(&mut t, "    add     x19, x19, #1\n", back.as_str(), end_label.as_str(), id);
    proof {
        assert(label@ =~= sm_label(stem@, "_i_"@));
        assert(exit@ =~= sm_jump("    b.ge    .L"@, stem@, "_i_end_"@));
        assert(back@ =~= sm_jump("    b       .L"@, stem@, "_i_"@));
        assert(end_label@ =~= sm_label(stem@, "_i_end_"@));
        assert(max@ =~= max_body());
        assert(exp@ =~= exp_body(sym_prefix@));
        assert(norm@ =~= norm_body());
        assert(t@ =~= softmax_rows_text(stem@, b, k, id@, sym_prefix@));
    }
    push_str(s, t.as_str());
}

/// The standalone softmax: pointers pinned in `x22`/`x23`, the argument
/// registers spilled around the row loop, as around a call.
pub open spec fn softmax_text(
    n_inputs: nat,
    b: u64,
    k: u64,
    id: Seq<char>,
    src_loc: BufferLoc,
    dst_loc: BufferLoc,
    sym_prefix: Seq<char>,
) -> Seq<char> {
    "    ; softmax (3-pass): input ["@ + decimal(b as nat) + ","@ + decimal(k as nat) + "] -> output ["@
        + decimal(b as nat) + ","@ + decimal(k as nat) + "]\n"@
        + materialise_text(n_inputs, src_loc, "x22"@)
        + materialise_text(n_inputs, dst_loc, "x23"@)
        + ffi_save_text(n_inputs)
        + softmax_rows_text("sm"@, b, k, id, sym_prefix)
        + ffi_restore_text(n_inputs)
}

/// Emits a standalone softmax over `b` rows of `k` elements.
pub fn emit_softmax(
    abi: &AbiContext,
    b: u64,
    k: u64,
    model_idx: usize,
    softmax_idx: usize,
    src_loc: BufferLoc,
    dst_loc: BufferLoc,
    sym_prefix: &str,
) -> (s: String)
    requires
        abi.n_inputs + 2 <= 6,
        materialisable(abi.n_inputs as nat, src_loc),
        materialisable(abi.n_inputs as nat, dst_loc),
        b <= u32::MAX,
        k <= u32::MAX,
    ensures
        s@ == softmax_text(
            abi.n_inputs as nat,
            b,
            k,
            op_id(model_idx as nat, softmax_idx as nat),
            src_loc,
            dst_loc,
            sym_prefix@,
        ),
{
    let mut s = "    ; softmax (3-pass): input [".to_owned();
    push_decimal(&mut s, b);
    push_str(&mut s, ",");
    push_decimal(&mut s, k);
    push_str(&mut s, "] -> output [");
    push_decimal(&mut s, b);
    push_str(&mut s, ",");
    push_decimal(&mut s, k);
    push_str(&mut s, "]\n");
    abi.materialise_ptr(src_loc, "x22", &mut s);
    abi.materialise_ptr(dst_loc, "x23", &mut s);
    abi.emit_ffi_save(&mut s);
    let sid = op_id_string(model_idx, softmax_idx);
    push_softmax_rows(&mut s, "sm", b, k, sid.as_str(), sym_prefix);
    abi.emit_ffi_restore(&mut s);
    s
}

} // verus!
