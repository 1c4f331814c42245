//! SysV AMD64 argument-register abstraction for the multi-input model ABI.
//!
//! Inputs take the first `n_inputs` argument registers in declaration
//! order, the params pointer the next one, the output pointer the one
//! after. Around calls into libm the whole argument set is spilled and
//! restored with `pushq`/`popq`, padded to keep `%rsp` 16-byte aligned.

use vstd::prelude::*;
use crate::text::{push_str, push_decimal, decimal, join_up, join_down};
use crate::types::BufferLoc;

verus! {

/// The six SysV AMD64 integer argument registers, in allocation order.
pub open spec fn arg_regs() -> Seq<Seq<char>> {
    seq!["%rdi"@, "%rsi"@, "%rdx"@, "%rcx"@, "%r8"@, "%r9"@]
}

/// Per-function ABI state: how many model inputs occupy argument registers.
#[derive(Debug, Clone, Copy)]
pub struct AbiContext {
    pub n_inputs: usize,
}

impl AbiContext {
    /// Register holding the `idx`-th input pointer.
    pub fn input_reg(&self, idx: usize) -> (r: &'static str)
        requires
            idx < 6,
        ensures
            r@ == arg_regs()[idx as int],
    {
        arg_reg(idx)
    }

    /// Register holding the params pointer: the one after the inputs.
    pub fn params_reg(&self) -> (r: &'static str)
        requires
            self.n_inputs < 6,
        ensures
            r@ == arg_regs()[self.n_inputs as int],
    {
        arg_reg(self.n_inputs)
    }

    /// Register holding the output pointer: the one after the params.
    pub fn output_reg(&self) -> (r: &'static str)
        requires
            self.n_inputs + 1 < 6,
        ensures
            r@ == arg_regs()[(self.n_inputs + 1) as int],
    {
        arg_reg(self.n_inputs + 1)
    }

    /// All argument registers in use (inputs, params, output): the set
    /// spilled around calls into libm.
    pub fn ffi_save_set(&self) -> (r: Vec<&'static str>)
        requires
            self.n_inputs + 2 <= 6,
        ensures
            r@.len() == self.n_inputs + 2,
            forall|i: int| 0 <= i < r@.len() ==> #[trigger] r@[i]@ == arg_regs()[i],
    {
        let mut r: Vec<&'static str> = Vec::new();
        let mut i: usize = 0;
        while i < self.n_inputs + 2
            invariant
                self.n_inputs + 2 <= 6,
                i <= self.n_inputs + 2,
                r@.len() == i,
                forall|j: int| 0 <= j < i ==> #[trigger] r@[j]@ == arg_regs()[j],
            decreases self.n_inputs + 2 - i,
        {
            r.push(arg_reg(i));
            i = i + 1;
        }
        r
    }

    /// Emits one instruction placing a buffer's address into `dst_reg`:
    /// a register copy for argument buffers, an `%rsp`-relative address for
    /// stack buffers. Aliases must be resolved before the call.
    pub fn materialise_ptr(&self, loc: BufferLoc, dst_reg: &str, out: &mut String)
        requires
            self.n_inputs + 2 <= 6,
            materialisable(self.n_inputs as nat, loc),
        ensures
            final(out)@ == old(out)@ + materialise_text(self.n_inputs as nat, loc, dst_reg@),
    {
        match loc {
            BufferLoc::InputReg(idx) => {
                push_str(out, "    movq    ");
                push_str(out, self.input_reg(idx));
                push_str(out, ", ");
                push_str(out, dst_reg);
                push_str(out, "\n");
            },
            BufferLoc::OutputReg => {
                push_str(out, "    movq    ");
                push_str(out, self.output_reg());
                push_str(out, ", ");
                push_str(out, dst_reg);
                push_str(out, "\n");
            },
            BufferLoc::StackOffset(off) => {
                if off == 0 {
                    push_str(out, "    movq    %rsp, ");
                    push_str(out, dst_reg);
                    push_str(out, "\n");
                } else {
                    push_str(out, "    leaq    ");
                    push_decimal(out, off as u64);
                    push_str(out, "(%rsp), ");
                    push_str(out, dst_reg);
                    push_str(out, "\n");
                }
            },
            BufferLoc::Alias(_) => {},
        }
    }

    /// Emits the save block for a libm call: one `pushq` per register of
    /// `ffi_save_set`, in order, plus a `pushq %rax` pad when their number is
    /// odd, so that `%rsp` moves by a multiple of 16.
    pub fn emit_ffi_save(&self, out: &mut String)
        requires
            self.n_inputs + 2 <= 6,
        ensures
            final(out)@ == old(out)@ + ffi_save_text(self.n_inputs as nat),
    {
        push_pushes(out, self.n_inputs + 2);
        if (self.n_inputs + 2) % 2 == 1 {
            push_str(out, "    pushq   %rax              # 16-byte alignment padding\n");
        }
    }

    /// Emits the restore block matching `emit_ffi_save`, in strict LIFO
    /// order: the pad first (when present), then the registers in reverse.
    pub fn emit_ffi_restore(&self, out: &mut String)
        requires
            self.n_inputs + 2 <= 6,
        ensures
            final(out)@ == old(out)@ + ffi_restore_text(self.n_inputs as nat),
    {
        if (self.n_inputs + 2) % 2 == 1 {
            push_str(out, "    popq    %rax              # discard alignment padding\n");
        }
        push_pops(out, self.n_inputs + 2);
    }
}

/// The locations `materialise_ptr` accepts: no alias, an existing argument
/// register, a stack offset that fits a signed 32-bit displacement.
pub open spec fn materialisable(n_inputs: nat, loc: BufferLoc) -> bool {
    match loc {
        BufferLoc::InputReg(idx) => idx < 6,
        BufferLoc::OutputReg => n_inputs + 1 < 6,
        BufferLoc::StackOffset(off) => off <= i32::MAX,
        BufferLoc::Alias(_) => false,
    }
}

/// The instruction `materialise_ptr` emits.
pub open spec fn materialise_text(n_inputs: nat, loc: BufferLoc, dst: Seq<char>) -> Seq<char> {
    match loc {
        BufferLoc::InputReg(idx) => "    movq    "@ + arg_regs()[idx as int] + ", "@ + dst + "\n"@,
        BufferLoc::OutputReg => "    movq    "@ + arg_regs()[(n_inputs + 1) as int] + ", "@ + dst + "\n"@,
        BufferLoc::StackOffset(off) => if off == 0 {
            "    movq    %rsp, "@ + dst + "\n"@
        } else {
            "    leaq    "@ + decimal(off as nat) + "(%rsp), "@ + dst + "\n"@
        },
        BufferLoc::Alias(_) => Seq::empty(),
    }
}

pub open spec fn push_line(reg: Seq<char>) -> Seq<char> {
    "    pushq   "@ + reg + "\n"@
}

pub open spec fn pop_line(reg: Seq<char>) -> Seq<char> {
    "    popq    "@ + reg + "\n"@
}

/// `pushq` lines for the first `k` argument registers, in order.
pub open spec fn push_lines(k: nat) -> Seq<char>
    decreases k,
{
    if k == 0 {
        Seq::empty()
    } else {
        push_lines((k - 1) as nat) + push_line(arg_regs()[k - 1])
    }
}

/// `popq` lines for the first `k` argument registers, last register first.
pub open spec fn pop_lines(k: nat) -> Seq<char>
    decreases k,
{
    if k == 0 {
        Seq::empty()
    } else {
        pop_line(arg_regs()[k - 1]) + pop_lines((k - 1) as nat)
    }
}

/// Whether the save set has odd size and needs an alignment pad.
pub open spec fn ffi_needs_pad(n_inputs: nat) -> bool {
    (n_inputs + 2) % 2 == 1
}

pub open spec fn ffi_save_text(n_inputs: nat) -> Seq<char> {
    push_lines(n_inputs + 2) + if ffi_needs_pad(n_inputs) {
        "    pushq   %rax              # 16-byte alignment padding\n"@
    } else {
        Seq::empty()
    }
}

pub open spec fn ffi_restore_text(n_inputs: nat) -> Seq<char> {
    (if ffi_needs_pad(n_inputs) {
        "    popq    %rax              # discard alignment padding\n"@
    } else {
        Seq::empty()
    }) + pop_lines(n_inputs + 2)
}

/// Number of 8-byte slots the save block pushes: the argument registers in
/// use, plus one pad slot when their number is odd.
pub open spec fn ffi_slot_count(n_inputs: nat) -> nat {
    if ffi_needs_pad(n_inputs) { n_inputs + 3 } else { n_inputs + 2 }
}

/// The register of save slot `i` (slot 0 is pushed first): argument
/// register `i`, or `%rax` for the pad.
pub open spec fn ffi_slot_reg(n_inputs: nat, i: nat) -> Seq<char> {
    if i < n_inputs + 2 { arg_regs()[i as int] } else { "%rax"@ }
}

/// What follows the register on slot `i`'s line: the pad carries a comment.
pub open spec fn ffi_slot_note(n_inputs: nat, i: nat, pushing: bool) -> Seq<char> {
    if i < n_inputs + 2 {
        "\n"@
    } else if pushing {
        "              # 16-byte alignment padding\n"@
    } else {
        "              # discard alignment padding\n"@
    }
}

/// The line pushing save slot `i`.
pub open spec fn ffi_push_line(n_inputs: nat, i: nat) -> Seq<char> {
    "    pushq   "@ + ffi_slot_reg(n_inputs, i) + ffi_slot_note(n_inputs, i, true)
}

/// The line popping save slot `i` back into its register.
pub open spec fn ffi_pop_line(n_inputs: nat, i: nat) -> Seq<char> {
    "    popq    "@ + ffi_slot_reg(n_inputs, i) + ffi_slot_note(n_inputs, i, false)
}

proof fn lemma_push_lines_join(n_inputs: nat, k: nat)
    requires
        k <= n_inputs + 2 <= 6,
    ensures
        push_lines(k) == join_up(|i: nat| ffi_push_line(n_inputs, i), k),
        pop_lines(k) == join_down(|i: nat| ffi_pop_line(n_inputs, i), k),
    decreases k,
{
    if k > 0 {
        lemma_push_lines_join(n_inputs, (k - 1) as nat);
        let f = |i: nat| ffi_push_line(n_inputs, i);
        let g = |i: nat| ffi_pop_line(n_inputs, i);
        assert(f((k - 1) as nat) == push_line(arg_regs()[k - 1]));
        assert(g((k - 1) as nat) == pop_line(arg_regs()[k - 1]));
    }
}

/// The save and restore blocks around a libm call mirror each other: the
/// save block pushes slots `0, 1, ...` in order, the restore block pops
/// them last first, each back into the register it came from, and the
/// slots number an even count, so `%rsp` moves by a multiple of 16 and
/// returns to where it was.
pub proof fn lemma_ffi_restore_is_lifo(n_inputs: nat)
    requires
        n_inputs + 2 <= 6,
    ensures
        ffi_save_text(n_inputs) == join_up(|i: nat| ffi_push_line(n_inputs, i), ffi_slot_count(n_inputs)),
        ffi_restore_text(n_inputs) == join_down(|i: nat| ffi_pop_line(n_inputs, i), ffi_slot_count(n_inputs)),
        forall|i: nat| i < n_inputs + 2 ==> #[trigger] ffi_slot_reg(n_inputs, i) == arg_regs()[i as int],
        (8 * ffi_slot_count(n_inputs)) % 16 == 0,
{
    let k = (n_inputs + 2) as nat;
    lemma_push_lines_join(n_inputs, k);
    let f = |i: nat| ffi_push_line(n_inputs, i);
    let g = |i: nat| ffi_pop_line(n_inputs, i);
    if ffi_needs_pad(n_inputs) {
        reveal_strlit("    pushq   ");
        reveal_strlit("    popq    ");
        reveal_strlit("%rax");
        reveal_strlit("              # 16-byte alignment padding\n");
        reveal_strlit("              # discard alignment padding\n");
        reveal_strlit("    pushq   %rax              # 16-byte alignment padding\n");
        reveal_strlit("    popq    %rax              # discard alignment padding\n");
        assert(f(k) =~= "    pushq   %rax              # 16-byte alignment padding\n"@);
        assert(g(k) =~= "    popq    %rax              # discard alignment padding\n"@);
        assert(join_up(f, k + 1) == join_up(f, k) + f(k));
        assert(join_down(g, k + 1) == g(k) + join_down(g, k));
    } else {
        assert(ffi_save_text(n_inputs) =~= push_lines(k));
        assert(ffi_restore_text(n_inputs) =~= pop_lines(k));
    }
}

fn push_pushes(out: &mut String, k: usize)
    requires
        k <= 6,
    ensures
        final(out)@ == old(out)@ + push_lines(k as nat),
    decreases k,
{
    if k > 0 {
        push_pushes(out, k - 1);
        push_str(out, "    pushq   ");
        push_str(out, arg_reg(k - 1));
        push_str(out, "\n");
    }
    proof {
        assert(final(out)@ =~= old(out)@ + push_lines(k as nat));
    }
}

fn push_pops(out: &mut String, k: usize)
    requires
        k <= 6,
    ensures
        final(out)@ == old(out)@ + pop_lines(k as nat),
    decreases k,
{
    if k > 0 {
        push_str(out, "    popq    ");
        push_str(out, arg_reg(k - 1));
        push_str(out, "\n");
        push_pops(out, k - 1);
    }
    proof {
        assert(final(out)@ =~= old(out)@ + pop_lines(k as nat));
    }
}

fn arg_reg(idx: usize) -> (r: &'static str)
    requires
        idx < 6,
    ensures
        r@ == arg_regs()[idx as int],
{
    match idx {
        0 => "%rdi",
        1 => "%rsi",
        2 => "%rdx",
        3 => "%rcx",
        4 => "%r8",
        _ => "%r9",
    }
}

} // verus!
