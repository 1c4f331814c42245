//! AAPCS64 argument-register abstraction for the multi-input model ABI.
//!
//! Inputs take the first `n_inputs` argument registers in declaration
//! order, the params pointer the next one, the output pointer the one
//! after. Around calls into libm the argument set is spilled and restored
//! in pairs with `stp`/`ldp`, an odd one padded with `xzr`, so that `sp`
//! stays 16-byte aligned.

use vstd::prelude::*;
use crate::text::{push_str, push_decimal, decimal, join_up, join_down};
use crate::types::BufferLoc;
use crate::arm64::frame::{movz_movk_text, push_movz_movk, SHIFTED_IMM_MAX};

verus! {

/// The first six AAPCS64 argument registers, in allocation order.
pub open spec fn arg_regs() -> Seq<Seq<char>> {
    seq!["x0"@, "x1"@, "x2"@, "x3"@, "x4"@, "x5"@]
}

/// Per-function ABI state: how many model inputs occupy argument registers.
#[derive(Debug, Clone, Copy)]
pub struct AbiContext {
    pub n_inputs: usize,
}

fn arg_reg(idx: usize) -> (r: &'static str)
    requires
        idx < 6,
    ensures
        r@ == arg_regs()[idx as int],
{
    match idx {
        0 => "x0",
        1 => "x1",
        2 => "x2",
        3 => "x3",
        4 => "x4",
        _ => "x5",
    }
}

/// The locations `materialise_ptr` accepts: no alias, an existing argument
/// register, a stack offset of at most 32 bits.
pub open spec fn materialisable(n_inputs: nat, loc: BufferLoc) -> bool {
    match loc {
        BufferLoc::InputReg(idx) => idx < 6,
        BufferLoc::OutputReg => n_inputs + 1 < 6,
        BufferLoc::StackOffset(off) => off <= u32::MAX,
        BufferLoc::Alias(_) => false,
    }
}

/// `dst = sp + off`, in the shortest form the offset allows.
pub open spec fn stack_address_text(off: nat, dst: Seq<char>) -> Seq<char> {
    if off == 0 {
        "    mov     "@ + dst + ", sp\n"@
    } else if off <= 4095 {
        "    add     "@ + dst + ", sp, #"@ + decimal(off) + "\n"@
    } else if off <= SHIFTED_IMM_MAX && off % 4096 == 0 {
        "    add     "@ + dst + ", sp, #"@ + decimal(off / 4096) + ", lsl #12\n"@
    } else {
        movz_movk_text("w10"@, off) + "    add     "@ + dst + ", sp, x10\n"@
    }
}

/// The instructions `materialise_ptr` emits.
pub open spec fn materialise_text(n_inputs: nat, loc: BufferLoc, dst: Seq<char>) -> Seq<char> {
    match loc {
        BufferLoc::InputReg(idx) => "    mov     "@ + dst + ", "@ + arg_regs()[idx as int] + "\n"@,
        BufferLoc::OutputReg => "    mov     "@ + dst + ", "@ + arg_regs()[(n_inputs + 1) as int] + "\n"@,
        BufferLoc::StackOffset(off) => stack_address_text(off as nat, dst),
        BufferLoc::Alias(_) => Seq::empty(),
    }
}

/// The save block's pair `j`: registers `2j` and `2j + 1`, or `xzr` past
/// the end of the `k` registers.
pub open spec fn pair_first(j: nat) -> Seq<char> {
    arg_regs()[2 * j as int]
}

pub open spec fn pair_second(k: nat, j: nat) -> Seq<char> {
    if 2 * j + 1 < k { arg_regs()[(2 * j + 1) as int] } else { "xzr"@ }
}

pub open spec fn stp_line(k: nat, j: nat) -> Seq<char> {
    "    stp     "@ + pair_first(j) + ", "@ + pair_second(k, j) + ", [sp, #-16]!\n"@
}

pub open spec fn ldp_line(k: nat, j: nat) -> Seq<char> {
    "    ldp     "@ + pair_first(j) + ", "@ + pair_second(k, j) + ", [sp], #16\n"@
}

/// Number of pairs for `k` registers.
pub open spec fn pair_count(k: nat) -> nat {
    (k + 1) / 2
}

/// `stp` lines for pairs `0..p`, in order.
pub open spec fn stp_lines(k: nat, p: nat) -> Seq<char>
    decreases p,
{
    if p == 0 {
        Seq::empty()
    } else {
        stp_lines(k, (p - 1) as nat) + stp_line(k, (p - 1) as nat)
    }
}

/// `ldp` lines for pairs `0..p`, last pair first.
pub open spec fn ldp_lines(k: nat, p: nat) -> Seq<char>
    decreases p,
{
    if p == 0 {
        Seq::empty()
    } else {
        ldp_line(k, (p - 1) as nat) + ldp_lines(k, (p - 1) as nat)
    }
}

pub open spec fn ffi_save_text(n_inputs: nat) -> Seq<char> {
    stp_lines(n_inputs + 2, pair_count(n_inputs + 2))
}

pub open spec fn ffi_restore_text(n_inputs: nat) -> Seq<char> {
    ldp_lines(n_inputs + 2, pair_count(n_inputs + 2))
}

fn pair_line(head: &str, k: usize, j: usize, tail: &str) -> (s: String)
    requires
        k <= 6,
        2 * j < k,
    ensures
        s@ == head@ + arg_regs()[2 * j as int] + ", "@ + pair_second(k as nat, j as nat) + tail@,
{
    let second = if 2 * j + 1 < k { arg_reg(2 * j + 1) } else { "xzr" };
    let mut s = head.to_owned();
    push_str(&mut s, arg_reg(2 * j));
    push_str(&mut s, ", ");
    push_str(&mut s, second);
    push_str(&mut s, tail);
    s
}

proof fn lemma_pair_lines_join(k: nat, p: nat)
    ensures
        stp_lines(k, p) == join_up(|j: nat| stp_line(k, j), p),
        ldp_lines(k, p) == join_down(|j: nat| ldp_line(k, j), p),
    decreases p,
{
    if p > 0 {
        lemma_pair_lines_join(k, (p - 1) as nat);
    }
}

/// The save and restore blocks around a libm call mirror each other: the
/// save block stores pairs `0, 1, ...` in order, each moving `sp` down by
/// 16, and the restore block loads them back last first into the same
/// registers; every argument register in use has its own slot in one pair.
pub proof fn lemma_ffi_restore_is_lifo(n_inputs: nat)
    requires
        n_inputs + 2 <= 6,
    ensures
        ffi_save_text(n_inputs) == join_up(|j: nat| stp_line(n_inputs + 2, j), pair_count(n_inputs + 2)),
        ffi_restore_text(n_inputs) == join_down(|j: nat| ldp_line(n_inputs + 2, j), pair_count(n_inputs + 2)),
        forall|r: nat| r < n_inputs + 2 ==> r / 2 < pair_count(n_inputs + 2) && #[trigger] arg_regs()[r as int]
            == if r % 2 == 0 {
            pair_first(r / 2)
        } else {
            pair_second(n_inputs + 2, r / 2)
        },
{
    lemma_pair_lines_join(n_inputs + 2, pair_count(n_inputs + 2));
}

fn push_ldps(out: &mut String, k: usize, p: usize)
    requires
        k <= 6,
        p <= (k + 1) / 2,
    ensures
        final(out)@ == old(out)@ + ldp_lines(k as nat, p as nat),
    decreases p,
{
    if p > 0 {
        let line = pair_line("    ldp     ", k, p - 1, ", [sp], #16\n");
        proof {
            assert(line@ =~= ldp_line(k as nat, (p - 1) as nat));
        }
        push_str(out, line.as_str());
        push_ldps(out, k, p - 1);
    }
    proof {
        assert(final(out)@ =~= old(out)@ + ldp_lines(k as nat, p as nat));
    }
}

impl AbiContext {
    /// Register holding the `idx`-th input pointer.
    pub fn input_reg(&self, idx: usize) -> (r: &'static str)
        requires
            idx < 6,
        ensures
            r@ == arg_regs()[idx as int],
    {
        arg_reg(idx)
    }

    /// Register holding the params pointer: the one after the inputs.
    pub fn params_reg(&self) -> (r: &'static str)
        requires
            self.n_inputs < 6,
        ensures
            r@ == arg_regs()[self.n_inputs as int],
    {
        arg_reg(self.n_inputs)
    }

    /// Register holding the output pointer: the one after the params.
    pub fn output_reg(&self) -> (r: &'static str)
        requires
            self.n_inputs + 1 < 6,
        ensures
            r@ == arg_regs()[(self.n_inputs + 1) as int],
    {
        arg_reg(self.n_inputs + 1)
    }

    /// All argument registers in use (inputs, params, output): the set
    /// spilled around calls into libm.
    pub fn ffi_save_set(&self) -> (r: Vec<&'static str>)
        requires
            self.n_inputs + 2 <= 6,
        ensures
            r@.len() == self.n_inputs + 2,
            forall|i: int| 0 <= i < r@.len() ==> #[trigger] r@[i]@ == arg_regs()[i],
    {
        let mut r: Vec<&'static str> = Vec::new();
        let mut i: usize = 0;
        while i < self.n_inputs + 2
            invariant
                self.n_inputs + 2 <= 6,
                i <= self.n_inputs + 2,
                r@.len() == i,
                forall|j: int| 0 <= j < i ==> #[trigger] r@[j]@ == arg_regs()[j],
            decreases self.n_inputs + 2 - i,
        {
            r.push(arg_reg(i));
            i = i + 1;
        }
        r
    }

    /// Emits the instructions placing a buffer's address into `dst_reg`: a
    /// register move for argument buffers, an `sp`-relative address for
    /// stack buffers. Aliases must be resolved before the call.
    pub fn materialise_ptr(&self, loc: BufferLoc, dst_reg: &str, out: &mut String)
        requires
            self.n_inputs + 2 <= 6,
            materialisable(self.n_inputs as nat, loc),
        ensures
            final(out)@ == old(out)@ + materialise_text(self.n_inputs as nat, loc, dst_reg@),
    {
        match loc {
            BufferLoc::InputReg(idx) => {
                push_str(out, "    mov     ");
                push_str(out, dst_reg);
                push_str(out, ", ");
                push_str(out, self.input_reg(idx));
                push_str(out, "\n");
            },
            BufferLoc::OutputReg => {
                push_str(out, "    mov     ");
                push_str(out, dst_reg);
                push_str(out, ", ");
                push_str(out, self.output_reg());
                push_str(out, "\n");
            },
            BufferLoc::StackOffset(off) => {
                let ghost start = out@;
                if off == 0 {
                    push_str(out, "    mov     ");
                    push_str(out, dst_reg);
                    push_str(out, ", sp\n");
                } else if off <= 4095 {
                    push_str(out, "    add     ");
                    push_str(out, dst_reg);
                    push_str(out, ", sp, #");
                    push_decimal(out, off as u64);
                    push_str(out, "\n");
                } else if off <= SHIFTED_IMM_MAX && off % 4096 == 0 {
                    push_str(out, "    add     ");
                    push_str(out, dst_reg);
                    push_str(out, ", sp, #");
                    push_decimal(out, (off / 4096) as u64);
                    push_str(out, ", lsl #12\n");
                } else {
                    push_movz_movk(out, "w10", off as u64);
                    push_str(out, "    add     ");
                    push_str(out, dst_reg);
                    push_str(out, ", sp, x10\n");
                }
                proof {
                    assert(out@ =~= start + stack_address_text(off as nat, dst_reg@));
                }
            },
            BufferLoc::Alias(_) => {},
        }
    }

    /// Emits the save block for a libm call: the argument registers in
    /// pairs, `stp a, b, [sp, #-16]!`, the last one padded with `xzr` when
    /// their number is odd; `sp` moves by a multiple of 16.
    pub fn emit_ffi_save(&self, out: &mut String)
        requires
            self.n_inputs + 2 <= 6,
        ensures
            final(out)@ == old(out)@ + ffi_save_text(self.n_inputs as nat),
    {
        let k = self.n_inputs + 2;
        let ghost start = out@;
        let mut i: usize = 0;
        while i < k
            invariant
                k == self.n_inputs + 2,
                k <= 6,
                i % 2 == 0,
                i <= k + 1,
                out@ == start + stp_lines(k as nat, (i / 2) as nat),
            decreases k + 1 - i,
        {
            let line = pair_line("    stp     ", k, i / 2, ", [sp, #-16]!\n");
            proof {
                assert(line@ =~= stp_line(k as nat, (i / 2) as nat));
                assert(out@ + line@ =~= start + stp_lines(k as nat, (i / 2 + 1) as nat));
            }
            push_str(out, line.as_str());
            i = i + 2;
        }
        assert(i / 2 == pair_count(k as nat));
    }

    /// Emits the restore block matching `emit_ffi_save`, pairs in strict
    /// LIFO order; the `xzr` slot is loaded into the zero register, a
    /// discard.
    pub fn emit_ffi_restore(&self, out: &mut String)
        requires
            self.n_inputs + 2 <= 6,
        ensures
            final(out)@ == old(out)@ + ffi_restore_text(self.n_inputs as nat),
    {
        let k = self.n_inputs + 2;
        push_ldps(out, k, (k + 1) / 2);
    }
}

} // verus!
