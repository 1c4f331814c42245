//! The Mach-O `__const` constant pool of the softmax-domain `exp`, emitted
//! once per file when some model runs a softmax, and the inline `exp`
//! that reads it.

use vstd::prelude::*;
use crate::text::push_str;
use crate::exp_pool::{exp_pool_entries, push_exp_pool_entries};

verus! {

pub open spec fn exp_pool_arm64_text() -> Seq<char> {
    ".section __TEXT,__const\n"@ + ".p2align 2\n"@ + exp_pool_entries()
}

/// The pool under a `__TEXT,__const` section header, with file-local labels.
pub fn exp_pool_arm64() -> (s: String)
    ensures
        s@ == exp_pool_arm64_text(),
{
    let mut s = ".section __TEXT,__const\n".to_owned();
    push_str(&mut s, ".p2align 2\n");
    push_exp_pool_entries(&mut s);
    s
}

/// `exp(s0)` into `s0`, for the softmax domain, from the pool addressed
/// through `x9`: `z = round(x * log2e)` (to nearest, ties to even),
/// `r = x - z * ln2_hi - z * ln2_lo`, the degree-7 Taylor polynomial in `r`
/// by Horner (a multiply then an add per step, no fused multiply-add),
/// times `2^z` built in the exponent field, flushed to `+0` when
/// `z + 127 <= 0`. Scratch: `x9`, `w10`, `s1`..`s3`.
#[verifier::opaque]
pub open spec fn exp_inline_text() -> Seq<char> {
    "    adrp    x9, .Lexp_log2e@PAGE\n"@
        + "    add     x9, x9, .Lexp_log2e@PAGEOFF\n"@
        + "    ldr     s1, [x9]\n"@
        + "    fmul    s1, s0, s1\n"@
        + "    fcvtns  w10, s1\n"@
        + "    scvtf   s2, w10\n"@
        + "    ldr     s3, [x9, #4]\n"@
        + "    fmul    s3, s2, s3\n"@
        + "    fsub    s0, s0, s3\n"@
        + "    ldr     s3, [x9, #8]\n"@
        + "    fmul    s3, s2, s3\n"@
        + "    fsub    s0, s0, s3\n"@
        + "    ldr     s1, [x9, #40]\n"@
        + "    ldr     s3, [x9, #36]\n"@
        + "    fmul    s1, s1, s0\n"@
        + "    fadd    s1, s1, s3\n"@
        + "    ldr     s3, [x9, #32]\n"@
        + "    fmul    s1, s1, s0\n"@
        + "    fadd    s1, s1, s3\n"@
        + "    ldr     s3, [x9, #28]\n"@
        + "    fmul    s1, s1, s0\n"@
        + "    fadd    s1, s1, s3\n"@
        + "    ldr     s3, [x9, #24]\n"@
        + "    fmul    s1, s1, s0\n"@
        + "    fadd    s1, s1, s3\n"@
        + "    ldr     s3, [x9, #20]\n"@
        + "    fmul    s1, s1, s0\n"@
        + "    fadd    s1, s1, s3\n"@
        + "    ldr     s3, [x9, #16]\n"@
        + "    fmul    s1, s1, s0\n"@
        + "    fadd    s1, s1, s3\n"@
        + "    ldr     s3, [x9, #12]\n"@
        + "    fmul    s1, s1, s0\n"@
        + "    fadd    s1, s1, s3\n"@
        + "    add     w10, w10, #127\n"@
        + "    cmp     w10, #0\n"@
        + "    csel    w10, w10, wzr, gt\n"@
        + "    lsl     w10, w10, #23\n"@
        + "    fmov    s2, w10\n"@
        + "    fmul    s0, s1, s2\n"@
}

/// Appends the inline `exp` sequence.
#[verifier::rlimit(40)]
pub fn push_exp_inline(s: &mut String)
    ensures
        final(s)@ == old(s)@ + exp_inline_text(),
{
    let ghost start = s@;
    push_str(s, "    adrp    x9, .Lexp_log2e@PAGE\n");
    push_str(s, "    add     x9, x9, .Lexp_log2e@PAGEOFF\n");
    push_str(s, "    ldr     s1, [x9]\n");
    push_str(s, "    fmul    s1, s0, s1\n");
    push_str(s, "    fcvtns  w10, s1\n");
    push_str(s, "    scvtf   s2, w10\n");
    push_str(s, "    ldr     s3, [x9, #4]\n");
    push_str(s, "    fmul    s3, s2, s3\n");
    push_str(s, "    fsub    s0, s0, s3\n");
    push_str(s, "    ldr     s3, [x9, #8]\n");
    push_str(s, "    fmul    s3, s2, s3\n");
    push_str(s, "    fsub    s0, s0, s3\n");
    push_str(s, "    ldr     s1, [x9, #40]\n");
    push_str(s, "    ldr     s3, [x9, #36]\n");
    push_str(s, "    fmul    s1, s1, s0\n");
    push_str(s, "    fadd    s1, s1, s3\n");
    push_str(s, "    ldr     s3, [x9, #32]\n");
    push_str(s, "    fmul    s1, s1, s0\n");
    push_str(s, "    fadd    s1, s1, s3\n");
    push_str(s, "    ldr     s3, [x9, #28]\n");
    push_str(s, "    fmul    s1, s1, s0\n");
    push_str(s, "    fadd    s1, s1, s3\n");
    push_str(s, "    ldr     s3, [x9, #24]\n");
    push_str(s, "    fmul    s1, s1, s0\n");
    push_str(s, "    fadd    s1, s1, s3\n");
    push_str(s, "    ldr     s3, [x9, #20]\n");
    push_str(s, "    fmul    s1, s1, s0\n");
    push_str(s, "    fadd    s1, s1, s3\n");
    push_str(s, "    ldr     s3, [x9, #16]\n");
    push_str(s, "    fmul    s1, s1, s0\n");
    push_str(s, "    fadd    s1, s1, s3\n");
    push_str(s, "    ldr     s3, [x9, #12]\n");
    push_str(s, "    fmul    s1, s1, s0\n");
    push_str(s, "    fadd    s1, s1, s3\n");
    push_str(s, "    add     w10, w10, #127\n");
    push_str(s, "    cmp     w10, #0\n");
    push_str(s, "    csel    w10, w10, wzr, gt\n");
    push_str(s, "    lsl     w10, w10, #23\n");
    push_str(s, "    fmov    s2, w10\n");
    push_str(s, "    fmul    s0, s1, s2\n");
    proof {
        reveal(exp_inline_text);
        assert(s@ =~= start + exp_inline_text());
    }
}

} // verus!
