//! The constant pool of the softmax-domain `exp`: the Cody-Waite range
//! reduction constants and the degree-7 Taylor coefficients, as `.long`
//! words under file-local labels. Each profile emits it once per file,
//! under its own section header.

use vstd::prelude::*;
use crate::text::{push_str, push_hex, push_decimal, hex_padded, decimal};

verus! {

/// Bits of `1.4426950408889634_f32` (log2 e).
pub const LOG2E_BITS: u32 = 0x3fb8aa3b;

/// Bits of `0.693359375_f32` (high part of ln 2).
pub const LN2_HI_BITS: u32 = 0x3f318000;

/// Bits of `-0.00021219444005469057_f32` (low part of ln 2).
pub const LN2_LO_BITS: u32 = 0xb95e8083;

/// Bits of the Taylor coefficients `1/k!` as f32, for `k` in `0..8`.
pub open spec fn coefficient_bits() -> Seq<u32> {
    seq![
        0x3f800000u32,
        0x3f800000u32,
        0x3f000000u32,
        0x3e2aaaabu32,
        0x3d2aaaabu32,
        0x3c088889u32,
        0x3ab60b61u32,
        0x39500d01u32,
    ]
}

fn coefficient(k: usize) -> (c: u32)
    requires
        k < 8,
    ensures
        c == coefficient_bits()[k as int],
{
    match k {
        0 => 0x3f800000,
        1 => 0x3f800000,
        2 => 0x3f000000,
        3 => 0x3e2aaaab,
        4 => 0x3d2aaaab,
        5 => 0x3c088889,
        6 => 0x3ab60b61,
        _ => 0x39500d01,
    }
}

/// One pool entry: `<label>: .long 0x<8 hex digits>`.
pub open spec fn pool_entry(label: Seq<char>, bits: u32) -> Seq<char> {
    label + ": .long 0x"@ + hex_padded(bits as nat, 8) + "\n"@
}

/// The entries for the first `k` coefficients, labelled `.Lexp_c<i>`.
pub open spec fn coefficient_entries(k: nat) -> Seq<char>
    decreases k,
{
    if k == 0 {
        Seq::empty()
    } else {
        coefficient_entries((k - 1) as nat) + pool_entry(
            ".Lexp_c"@ + decimal((k - 1) as nat),
            coefficient_bits()[k - 1],
        )
    }
}

/// All pool entries, in order: log2 e, ln 2 high and low, the coefficients.
pub open spec fn exp_pool_entries() -> Seq<char> {
    pool_entry(".Lexp_log2e"@, LOG2E_BITS) + pool_entry(".Lexp_ln2hi"@, LN2_HI_BITS)
        + pool_entry(".Lexp_ln2lo"@, LN2_LO_BITS) + coefficient_entries(8)
}

fn push_pool_entry(s: &mut String, label: &str, bits: u32)
    ensures
        final(s)@ == old(s)@ + pool_entry(label@, bits),
{
    let mut t = label.to_owned();
    push_str(&mut t, ": .long 0x");
    push_hex(&mut t, bits as u64, 8);
    push_str(&mut t, "\n");
    push_str(s, t.as_str());
}

/// Appends all pool entries.
pub fn push_exp_pool_entries(s: &mut String)
    ensures
        final(s)@ == old(s)@ + exp_pool_entries(),
{
    let mut t = String::new();
    push_pool_entry(&mut t, ".Lexp_log2e", LOG2E_BITS);
    push_pool_entry(&mut t, ".Lexp_ln2hi", LN2_HI_BITS);
    push_pool_entry(&mut t, ".Lexp_ln2lo", LN2_LO_BITS);
    let ghost head = t@;
    let mut k: usize = 0;
    while k < 8
        invariant
            k <= 8,
            t@ == head + coefficient_entries(k as nat),
        decreases 8 - k,
    {
        let mut label = ".Lexp_c".to_owned();
        push_decimal(&mut label, k as u64);
        push_pool_entry(&mut t, label.as_str(), coefficient(k));
        proof {
            assert(t@ =~= head + coefficient_entries((k + 1) as nat));
        }
        k = k + 1;
    }
    proof {
        assert(t@ =~= exp_pool_entries());
    }
    push_str(s, t.as_str());
}

} // verus!
