//! The `.rodata` constant pool of the softmax-domain `exp`, emitted once
//! per file when some model runs a softmax, and the inline `exp` that
//! reads it.

use vstd::prelude::*;
use crate::text::push_str;
use crate::exp_pool::{exp_pool_entries, push_exp_pool_entries};

verus! {

pub open spec fn exp_pool_x86_64_text() -> Seq<char> {
    ".section .rodata\n"@ + ".align 4\n"@ + exp_pool_entries()
}

/// The pool under a `.rodata` section header, with file-local labels.
pub fn exp_pool_x86_64() -> (s: String)
    ensures
        s@ == exp_pool_x86_64_text(),
{
    let mut s = ".section .rodata\n".to_owned();
    push_str(&mut s, ".align 4\n");
    push_exp_pool_entries(&mut s);
    s
}

/// `exp(%xmm0)` into `%xmm0`, for the softmax domain, from the pool:
/// `z = round(x * log2e)` (to nearest, ties to even), `r = x - z * ln2_hi
/// - z * ln2_lo`, the degree-7 Taylor polynomial in `r` by Horner, times
/// `2^z` built in the exponent field, flushed to `+0` when `z + 127 <= 0`.
/// Every step rounds once, in the order written. Scratch: `%eax`,
/// `%r10d`, `%xmm1`..`%xmm3`.
#[verifier::opaque]
pub open spec fn exp_inline_text() -> Seq<char> {
    "    movss   .Lexp_log2e(%rip), %xmm1\n"@
        + "    mulss   %xmm0, %xmm1\n"@
        + "    cvtss2si %xmm1, %eax\n"@
        + "    cvtsi2ss %eax, %xmm2\n"@
        + "    movss   .Lexp_ln2hi(%rip), %xmm3\n"@
        + "    mulss   %xmm2, %xmm3\n"@
        + "    subss   %xmm3, %xmm0\n"@
        + "    movss   .Lexp_ln2lo(%rip), %xmm3\n"@
        + "    mulss   %xmm2, %xmm3\n"@
        + "    subss   %xmm3, %xmm0\n"@
        + "    movss   .Lexp_c7(%rip), %xmm1\n"@
        + "    mulss   %xmm0, %xmm1\n"@
        + "    addss   .Lexp_c6(%rip), %xmm1\n"@
        + "    mulss   %xmm0, %xmm1\n"@
        + "    addss   .Lexp_c5(%rip), %xmm1\n"@
        + "    mulss   %xmm0, %xmm1\n"@
        + "    addss   .Lexp_c4(%rip), %xmm1\n"@
        + "    mulss   %xmm0, %xmm1\n"@
        + "    addss   .Lexp_c3(%rip), %xmm1\n"@
        + "    mulss   %xmm0, %xmm1\n"@
        + "    addss   .Lexp_c2(%rip), %xmm1\n"@
        + "    mulss   %xmm0, %xmm1\n"@
        + "    addss   .Lexp_c1(%rip), %xmm1\n"@
        + "    mulss   %xmm0, %xmm1\n"@
        + "    addss   .Lexp_c0(%rip), %xmm1\n"@
        + "    addl    $127, %eax\n"@
        + "    xorl    %r10d, %r10d\n"@
        + "    testl   %eax, %eax\n"@
        + "    cmovle  %r10d, %eax\n"@
        + "    shll    $23, %eax\n"@
        + "    movd    %eax, %xmm2\n"@
        + "    mulss   %xmm2, %xmm1\n"@
        + "    movss   %xmm1, %xmm0\n"@
}

/// Appends the inline `exp` sequence.
#[verifier::rlimit(40)]
pub fn push_exp_inline(s: &mut String)
    ensures
        final(s)@ == old(s)@ + exp_inline_text(),
{
    let ghost start = s@;
    push_str(s, "    movss   .Lexp_log2e(%rip), %xmm1\n");
    push_str(s, "    mulss   %xmm0, %xmm1\n");
    push_str(s, "    cvtss2si %xmm1, %eax\n");
    push_str(s, "    cvtsi2ss %eax, %xmm2\n");
    push_str(s, "    movss   .Lexp_ln2hi(%rip), %xmm3\n");
    push_str(s, "    mulss   %xmm2, %xmm3\n");
    push_str(s, "    subss   %xmm3, %xmm0\n");
    push_str(s, "    movss   .Lexp_ln2lo(%rip), %xmm3\n");
    push_str(s, "    mulss   %xmm2, %xmm3\n");
    push_str(s, "    subss   %xmm3, %xmm0\n");
    push_str(s, "    movss   .Lexp_c7(%rip), %xmm1\n");
    push_str(s, "    mulss   %xmm0, %xmm1\n");
    push_str(s, "    addss   .Lexp_c6(%rip), %xmm1\n");
    push_str(s, "    mulss   %xmm0, %xmm1\n");
    push_str(s, "    addss   .Lexp_c5(%rip), %xmm1\n");
    push_str(s, "    mulss   %xmm0, %xmm1\n");
    push_str(s, "    addss   .Lexp_c4(%rip), %xmm1\n");
    push_str(s, "    mulss   %xmm0, %xmm1\n");
    push_str(s, "    addss   .Lexp_c3(%rip), %xmm1\n");
    push_str(s, "    mulss   %xmm0, %xmm1\n");
    push_str(s, "    addss   .Lexp_c2(%rip), %xmm1\n");
    push_str(s, "    mulss   %xmm0, %xmm1\n");
    push_str(s, "    addss   .Lexp_c1(%rip), %xmm1\n");
    push_str(s, "    mulss   %xmm0, %xmm1\n");
    push_str(s, "    addss   .Lexp_c0(%rip), %xmm1\n");
    push_str(s, "    addl    $127, %eax\n");
    push_str(s, "    xorl    %r10d, %r10d\n");
    push_str(s, "    testl   %eax, %eax\n");
    push_str(s, "    cmovle  %r10d, %eax\n");
    push_str(s, "    shll    $23, %eax\n");
    push_str(s, "    movd    %eax, %xmm2\n");
    push_str(s, "    mulss   %xmm2, %xmm1\n");
    push_str(s, "    movss   %xmm1, %xmm0\n");
    proof {
        reveal(exp_inline_text);
        assert(s@ =~= start + exp_inline_text());
    }
}

} // verus!
