//! Function frame building blocks: frame size, prologue, epilogue, and the
//! `%r10d` immediate load used by every loop bound.

use vstd::prelude::*;
use crate::text::{
    push_str, push_decimal, decimal, join_up, join_down, has_piece, lemma_piece_self, lemma_piece_left,
    lemma_piece_right, marks_followed, lemma_marks_absent, lemma_marks_concat, lemma_marks_exclude,
    lemma_decimal_chars,
};
use crate::types::FnSig;
use crate::x86_64::buffer::RegSet;
use crate::layout::{round_up16, lemma_round_up16};
use crate::x86_64::abi::{push_line, pop_line};

verus! {

/// Bytes added so that `%rsp` ends 16-byte aligned: on entry `%rsp` is
/// 8 mod 16; each 8-byte push flips that parity.
pub open spec fn push_correction(num_pushes: nat) -> int {
    if num_pushes % 2 == 0 { 8 } else { 0 }
}

pub open spec fn frame_size(raw: nat, num_pushes: nat) -> int {
    round_up16(raw as int) + push_correction(num_pushes)
}

/// The inputs on which the frame size fits in a `u32`.
pub open spec fn frame_size_fits(raw: nat, num_pushes: nat) -> bool {
    raw + 15 <= u32::MAX && frame_size(raw, num_pushes) <= u32::MAX
}

/// SysV AMD64 frame size for `raw_buffer_size` bytes of stack buffers
/// after `num_pushes` prologue pushes: the buffer size rounded up to 16,
/// plus 8 when the pushes leave `%rsp` 8 mod 16.
pub fn compute_frame_size(raw_buffer_size: u32, num_pushes: usize) -> (r: u32)
    requires
        frame_size_fits(raw_buffer_size as nat, num_pushes as nat),
    ensures
        r == frame_size(raw_buffer_size as nat, num_pushes as nat),
        r >= raw_buffer_size,
        // After the return address, the pushes and `sub r, %rsp`, the
        // stack pointer is 16-byte aligned.
        (8 + 8 * num_pushes + r) % 16 == 0,
        // No more than needed: below one alignment step plus the correction.
        r < raw_buffer_size + 24,
{
    let t: u32 = raw_buffer_size + 15;
    let aligned = t & !15u32;
    assert(aligned == t - t % 16) by (bit_vector)
        requires
            aligned == t & !15u32,
    ;
    let push_correction: u32 = if num_pushes % 2 == 0 { 8 } else { 0 };
    aligned + push_correction
}

/// `movl $value, %r10d`: any 32-bit immediate in one instruction.
pub open spec fn imm32_to_r10_text(value: nat) -> Seq<char> {
    "    movl    $"@ + decimal(value) + ", %r10d\n"@
}

pub fn emit_imm32_to_r10(value: u32) -> (s: String)
    ensures
        s@ == imm32_to_r10_text(value as nat),
{
    let mut s = String::new();
    push_imm32_to_r10(&mut s, value);
    proof {
        assert(s@ =~= imm32_to_r10_text(value as nat));
    }
    s
}

pub fn push_imm32_to_r10(out: &mut String, value: u32)
    ensures
        final(out)@ == old(out)@ + imm32_to_r10_text(value as nat),
{
    push_str(out, "    movl    $");
    push_decimal(out, value as u64);
    push_str(out, ", %r10d\n");
}

/// Pushes in the prologue: `%rbp` always, plus five callee-saved registers
/// when the body uses them.
pub open spec fn push_count(regs: RegSet) -> nat {
    if regs.callee_saved_int { 6 } else { 1 }
}

fn prologue_push_count(regs: RegSet) -> (n: usize)
    ensures
        n == push_count(regs),
{
    let mut n: usize = 1;
    if regs.contains_callee_saved_int() {
        n = n + 5;
    }
    n
}

/// The frame size the prologue subtracts for `intermediate_bytes` of
/// stack buffers (truncated to 32 bits, as the emitter does).
pub open spec fn function_frame_size(regs: RegSet, intermediate_bytes: nat) -> int {
    frame_size((intermediate_bytes as u32) as nat, push_count(regs))
}

pub open spec fn function_frame_fits(regs: RegSet, intermediate_bytes: nat) -> bool {
    frame_size_fits((intermediate_bytes as u32) as nat, push_count(regs))
}

pub open spec fn callee_saved_pushes_text() -> Seq<char> {
    "    pushq   %rbx\n"@ + "    pushq   %r12\n"@ + "    pushq   %r13\n"@ + "    pushq   %r14\n"@
        + "    pushq   %r15\n"@
}

pub open spec fn callee_saved_pops_text() -> Seq<char> {
    "    popq    %r15\n"@ + "    popq    %r14\n"@ + "    popq    %r13\n"@ + "    popq    %r12\n"@
        + "    popq    %rbx\n"@
}

/// Function header and prologue: `.globl`, alignment, label, frame pointer,
/// callee-saved pushes when needed, and the frame allocation when nonzero.
pub open spec fn prologue_text(
    name: Seq<char>,
    regs: RegSet,
    intermediate_bytes: nat,
    sym_prefix: Seq<char>,
) -> Seq<char> {
    let frame = function_frame_size(regs, intermediate_bytes);
    ".globl "@ + sym_prefix + name + "\n"@ + ".p2align 4, 0x90\n"@ + sym_prefix + name + ":\n"@
        + "    pushq   %rbp\n"@ + "    movq    %rsp, %rbp\n"@
        + (if regs.callee_saved_int { callee_saved_pushes_text() } else { Seq::empty() })
        + (if frame > 0 { "    subq    $"@ + decimal(frame as nat) + ", %rsp\n"@ } else { Seq::empty() })
}

/// The epilogue: frame release, callee-saved pops in reverse, `%rbp`, return.
pub open spec fn epilogue_text(regs: RegSet, intermediate_bytes: nat) -> Seq<char> {
    let frame = function_frame_size(regs, intermediate_bytes);
    (if frame > 0 { "    addq    $"@ + decimal(frame as nat) + ", %rsp\n"@ } else { Seq::empty() })
        + (if regs.callee_saved_int { callee_saved_pops_text() } else { Seq::empty() })
        + "    popq    %rbp\n"@ + "    retq\n"@
}

/// The callee-saved registers the prologue pushes after `%rbp`, in push
/// order.
pub open spec fn callee_saved_regs(regs: RegSet) -> Seq<Seq<char>> {
    if regs.callee_saved_int {
        seq!["%rbx"@, "%r12"@, "%r13"@, "%r14"@, "%r15"@]
    } else {
        Seq::empty()
    }
}

/// The function's `.globl` line, alignment and label.
pub open spec fn function_header_text(name: Seq<char>, sym_prefix: Seq<char>) -> Seq<char> {
    ".globl "@ + sym_prefix + name + "\n"@ + ".p2align 4, 0x90\n"@ + sym_prefix + name + ":\n"@
}

/// The epilogue undoes the prologue: it adds back exactly the frame the
/// prologue subtracted, pops the callee-saved registers last pushed first,
/// then `%rbp`, and returns; between the two, `%rsp` is 16-byte aligned
/// (the call left it 8 mod 16, and every push takes 8 bytes).
pub proof fn lemma_epilogue_undoes_prologue(
    name: Seq<char>,
    regs: RegSet,
    intermediate_bytes: nat,
    sym_prefix: Seq<char>,
)
    ensures
        ({
            let frame = function_frame_size(regs, intermediate_bytes);
            let saved = callee_saved_regs(regs);
            &&& prologue_text(name, regs, intermediate_bytes, sym_prefix) == function_header_text(name, sym_prefix)
                + push_line("%rbp"@) + "    movq    %rsp, %rbp\n"@ + join_up(|i: nat| push_line(saved[i as int]), saved.len())
                + (if frame > 0 { "    subq    $"@ + decimal(frame as nat) + ", %rsp\n"@ } else { Seq::empty() })
            &&& epilogue_text(regs, intermediate_bytes) == (if frame > 0 {
                "    addq    $"@ + decimal(frame as nat) + ", %rsp\n"@
            } else {
                Seq::empty()
            }) + join_down(|i: nat| pop_line(saved[i as int]), saved.len()) + pop_line("%rbp"@) + "    retq\n"@
            &&& 1 + saved.len() == push_count(regs)
            &&& (8 + 8 * push_count(regs) + frame) % 16 == 0
        }),
{
    let saved = callee_saved_regs(regs);
    let f = |i: nat| push_line(saved[i as int]);
    let g = |i: nat| pop_line(saved[i as int]);
    reveal_strlit("    pushq   ");
    reveal_strlit("    popq    ");
    reveal_strlit("\n");
    reveal_strlit("%rbp");
    reveal_strlit("    pushq   %rbp\n");
    reveal_strlit("    popq    %rbp\n");
    assert(push_line("%rbp"@) =~= "    pushq   %rbp\n"@);
    assert(pop_line("%rbp"@) =~= "    popq    %rbp\n"@);
    if regs.callee_saved_int {
        reveal_strlit("%rbx");
        reveal_strlit("%r12");
        reveal_strlit("%r13");
        reveal_strlit("%r14");
        reveal_strlit("%r15");
        reveal_strlit("    pushq   %rbx\n");
        reveal_strlit("    pushq   %r12\n");
        reveal_strlit("    pushq   %r13\n");
        reveal_strlit("    pushq   %r14\n");
        reveal_strlit("    pushq   %r15\n");
        reveal_strlit("    popq    %rbx\n");
        reveal_strlit("    popq    %r12\n");
        reveal_strlit("    popq    %r13\n");
        reveal_strlit("    popq    %r14\n");
        reveal_strlit("    popq    %r15\n");
        reveal_with_fuel(join_up, 6);
        reveal_with_fuel(join_down, 6);
        assert(f(0) =~= "    pushq   %rbx\n"@);
        assert(f(1) =~= "    pushq   %r12\n"@);
        assert(f(2) =~= "    pushq   %r13\n"@);
        assert(f(3) =~= "    pushq   %r14\n"@);
        assert(f(4) =~= "    pushq   %r15\n"@);
        assert(g(0) =~= "    popq    %rbx\n"@);
        assert(g(1) =~= "    popq    %r12\n"@);
        assert(g(2) =~= "    popq    %r13\n"@);
        assert(g(3) =~= "    popq    %r14\n"@);
        assert(g(4) =~= "    popq    %r15\n"@);
        assert(join_up(f, 5) =~= callee_saved_pushes_text());
        assert(join_down(g, 5) =~= callee_saved_pops_text());
    }
    let raw = (intermediate_bytes as u32) as nat;
    lemma_round_up16(raw as int);
}

/// The callee-saved flag adds exactly the five pushes of `%rbx`, `%r12`..
/// `%r15` to the prologue, right after `%rbp` is saved and set, and
/// otherwise changes only the frame size; `%rbp` is pushed in every case.
pub proof fn lemma_callee_saved_pushes(name: Seq<char>, intermediate_bytes: nat, sym_prefix: Seq<char>)
    ensures
        ({
            let on = RegSet { callee_saved_int: true };
            let off = RegSet { callee_saved_int: false };
            let base = function_header_text(name, sym_prefix) + "    pushq   %rbp\n"@ + "    movq    %rsp, %rbp\n"@;
            &&& prologue_text(name, on, intermediate_bytes, sym_prefix) == base + callee_saved_pushes_text()
                + frame_alloc_text(function_frame_size(on, intermediate_bytes))
            &&& prologue_text(name, off, intermediate_bytes, sym_prefix) == base + frame_alloc_text(
                function_frame_size(off, intermediate_bytes),
            )
            &&& callee_saved_pushes_text() == "    pushq   %rbx\n"@ + "    pushq   %r12\n"@ + "    pushq   %r13\n"@
                + "    pushq   %r14\n"@ + "    pushq   %r15\n"@
        }),
{
    let on = RegSet { callee_saved_int: true };
    let off = RegSet { callee_saved_int: false };
    let base = function_header_text(name, sym_prefix) + "    pushq   %rbp\n"@ + "    movq    %rsp, %rbp\n"@;
    assert(prologue_text(name, off, intermediate_bytes, sym_prefix) =~= base + frame_alloc_text(
        function_frame_size(off, intermediate_bytes),
    ));
}

/// The line reserving a frame of `frame` bytes, none for an empty frame.
/// What follows a `%` three characters on in a prologue without the
/// callee-saved pushes: the `p` of `%rbp` or `%rsp`.
pub open spec fn rbp_or_rsp() -> spec_fn(char) -> bool {
    |c: char| c == 'p'
}

/// Every `%` of a prologue without the callee-saved pushes opens `%rbp` or
/// `%rsp`.
proof fn lemma_plain_prologue_marks(name: Seq<char>, intermediate_bytes: nat, sym_prefix: Seq<char>)
    requires
        forall|i: int| 0 <= i < name.len() ==> name[i] != '%',
        forall|i: int| 0 <= i < sym_prefix.len() ==> sym_prefix[i] != '%',
    ensures
        marks_followed(
            prologue_text(name, RegSet { callee_saved_int: false }, intermediate_bytes, sym_prefix),
            '%',
            3,
            rbp_or_rsp(),
        ),
{
    let ok = rbp_or_rsp();
    let frame = function_frame_size(RegSet { callee_saved_int: false }, intermediate_bytes);
    reveal_strlit(".globl ");
    reveal_strlit("\n");
    reveal_strlit(".p2align 4, 0x90\n");
    reveal_strlit(":\n");
    reveal_strlit("    pushq   %rbp\n");
    reveal_strlit("    movq    %rsp, %rbp\n");
    reveal_strlit("    subq    $");
    reveal_strlit(", %rsp\n");
    lemma_marks_absent(".globl "@, '%', 3, ok);
    lemma_marks_absent(sym_prefix, '%', 3, ok);
    lemma_marks_absent(name, '%', 3, ok);
    lemma_marks_absent("\n"@, '%', 3, ok);
    lemma_marks_absent(".p2align 4, 0x90\n"@, '%', 3, ok);
    lemma_marks_absent(":\n"@, '%', 3, ok);
    lemma_marks_absent(Seq::<char>::empty(), '%', 3, ok);
    assert(marks_followed("    pushq   %rbp\n"@, '%', 3, ok));
    assert(marks_followed("    movq    %rsp, %rbp\n"@, '%', 3, ok));
    let mut acc = ".globl "@;
    lemma_marks_concat(acc, sym_prefix, '%', 3, ok);
    acc = acc + sym_prefix;
    lemma_marks_concat(acc, name, '%', 3, ok);
    acc = acc + name;
    lemma_marks_concat(acc, "\n"@, '%', 3, ok);
    acc = acc + "\n"@;
    lemma_marks_concat(acc, ".p2align 4, 0x90\n"@, '%', 3, ok);
    acc = acc + ".p2align 4, 0x90\n"@;
    lemma_marks_concat(acc, sym_prefix, '%', 3, ok);
    acc = acc + sym_prefix;
    lemma_marks_concat(acc, name, '%', 3, ok);
    acc = acc + name;
    lemma_marks_concat(acc, ":\n"@, '%', 3, ok);
    acc = acc + ":\n"@;
    lemma_marks_concat(acc, "    pushq   %rbp\n"@, '%', 3, ok);
    acc = acc + "    pushq   %rbp\n"@;
    lemma_marks_concat(acc, "    movq    %rsp, %rbp\n"@, '%', 3, ok);
    acc = acc + "    movq    %rsp, %rbp\n"@;
    lemma_marks_concat(acc, Seq::<char>::empty(), '%', 3, ok);
    acc = acc + Seq::<char>::empty();
    if frame > 0 {
        let d = decimal(frame as nat);
        lemma_decimal_chars(frame as nat);
        assert forall|i: int| 0 <= i < d.len() implies d[i] != '%' by {
            assert(48 <= d[i] as int);
        }
        lemma_marks_absent(d, '%', 3, ok);
        lemma_marks_absent("    subq    $"@, '%', 3, ok);
        assert(marks_followed(", %rsp\n"@, '%', 3, ok));
        lemma_marks_concat("    subq    $"@, d, '%', 3, ok);
        lemma_marks_concat("    subq    $"@ + d, ", %rsp\n"@, '%', 3, ok);
        lemma_marks_concat(acc, "    subq    $"@ + d + ", %rsp\n"@, '%', 3, ok);
        assert(acc + ("    subq    $"@ + d + ", %rsp\n"@) =~= prologue_text(
            name,
            RegSet { callee_saved_int: false },
            intermediate_bytes,
            sym_prefix,
        ));
    } else {
        lemma_marks_concat(acc, Seq::<char>::empty(), '%', 3, ok);
        assert(acc + Seq::<char>::empty() =~= prologue_text(
            name,
            RegSet { callee_saved_int: false },
            intermediate_bytes,
            sym_prefix,
        ));
    }
}

/// A prologue pushes `%rbx` and `%r12`..`%r15` exactly when the
/// callee-saved flag is set, and pushes `%rbp` in every case. (A symbol
/// name holds no `%`: AT&T syntax keeps it for registers.)
pub proof fn lemma_prologue_saves_iff_flag(
    name: Seq<char>,
    regs: RegSet,
    intermediate_bytes: nat,
    sym_prefix: Seq<char>,
)
    requires
        forall|i: int| 0 <= i < name.len() ==> name[i] != '%',
        forall|i: int| 0 <= i < sym_prefix.len() ==> sym_prefix[i] != '%',
    ensures
        has_piece(prologue_text(name, regs, intermediate_bytes, sym_prefix), "    pushq   %rbx\n"@)
            <==> regs.callee_saved_int,
        has_piece(prologue_text(name, regs, intermediate_bytes, sym_prefix), "    pushq   %r12\n"@)
            <==> regs.callee_saved_int,
        has_piece(prologue_text(name, regs, intermediate_bytes, sym_prefix), "    pushq   %r13\n"@)
            <==> regs.callee_saved_int,
        has_piece(prologue_text(name, regs, intermediate_bytes, sym_prefix), "    pushq   %r14\n"@)
            <==> regs.callee_saved_int,
        has_piece(prologue_text(name, regs, intermediate_bytes, sym_prefix), "    pushq   %r15\n"@)
            <==> regs.callee_saved_int,
        has_piece(prologue_text(name, regs, intermediate_bytes, sym_prefix), "    pushq   %rbp\n"@),
{
    broadcast use lemma_piece_left, lemma_piece_right;

    lemma_callee_saved_pushes(name, intermediate_bytes, sym_prefix);
    let text = prologue_text(name, regs, intermediate_bytes, sym_prefix);
    let header = function_header_text(name, sym_prefix);
    let rbx = "    pushq   %rbx\n"@;
    let r12 = "    pushq   %r12\n"@;
    let r13 = "    pushq   %r13\n"@;
    let r14 = "    pushq   %r14\n"@;
    let r15 = "    pushq   %r15\n"@;
    let rbp = "    pushq   %rbp\n"@;
    lemma_piece_self(rbp);
    assert(has_piece(header + rbp, rbp));
    assert(has_piece(header + rbp + "    movq    %rsp, %rbp\n"@, rbp));
    if regs.callee_saved_int {
        let base = header + rbp + "    movq    %rsp, %rbp\n"@;
        let alloc = frame_alloc_text(function_frame_size(regs, intermediate_bytes));
        lemma_piece_self(rbx);
        lemma_piece_self(r12);
        lemma_piece_self(r13);
        lemma_piece_self(r14);
        lemma_piece_self(r15);
        let pushes = rbx + r12 + r13 + r14 + r15;
        assert(has_piece(rbx + r12, rbx));
        assert(has_piece(rbx + r12 + r13, rbx));
        assert(has_piece(rbx + r12 + r13 + r14, rbx));
        assert(has_piece(pushes, rbx));
        assert(has_piece(rbx + r12, r12));
        assert(has_piece(rbx + r12 + r13, r12));
        assert(has_piece(rbx + r12 + r13 + r14, r12));
        assert(has_piece(pushes, r12));
        assert(has_piece(rbx + r12 + r13, r13));
        assert(has_piece(rbx + r12 + r13 + r14, r13));
        assert(has_piece(pushes, r13));
        assert(has_piece(rbx + r12 + r13 + r14, r14));
        assert(has_piece(pushes, r14));
        assert(has_piece(pushes, r15));
        assert(text == base + pushes + alloc);
        assert(has_piece(base + pushes, rbx));
        assert(has_piece(base + pushes, r12));
        assert(has_piece(base + pushes, r13));
        assert(has_piece(base + pushes, r14));
        assert(has_piece(base + pushes, r15));
        assert(has_piece(base + pushes, rbp));
    } else {
        assert(regs == RegSet { callee_saved_int: false });
        lemma_plain_prologue_marks(name, intermediate_bytes, sym_prefix);
        let ok = rbp_or_rsp();
        reveal_strlit("    pushq   %rbx\n");
        reveal_strlit("    pushq   %r12\n");
        reveal_strlit("    pushq   %r13\n");
        reveal_strlit("    pushq   %r14\n");
        reveal_strlit("    pushq   %r15\n");
        lemma_marks_exclude(text, rbx, 12, '%', 3, ok);
        lemma_marks_exclude(text, r12, 12, '%', 3, ok);
        lemma_marks_exclude(text, r13, 12, '%', 3, ok);
        lemma_marks_exclude(text, r14, 12, '%', 3, ok);
        lemma_marks_exclude(text, r15, 12, '%', 3, ok);
        let base = header + rbp + "    movq    %rsp, %rbp\n"@;
        assert(text == base + frame_alloc_text(function_frame_size(regs, intermediate_bytes)));
    }
}

pub open spec fn frame_alloc_text(frame: int) -> Seq<char> {
    if frame > 0 { "    subq    $"@ + decimal(frame as nat) + ", %rsp\n"@ } else { Seq::empty() }
}

pub fn format_function_prologue(
    sig: &FnSig,
    regs: RegSet,
    intermediate_bytes: usize,
    sym_prefix: &str,
) -> (s: String)
    requires
        function_frame_fits(regs, intermediate_bytes as nat),
    ensures
        s@ == prologue_text(sig.name@, regs, intermediate_bytes as nat, sym_prefix@),
{
    let mut s = String::new();
    push_str(&mut s, ".globl ");
    push_str(&mut s, sym_prefix);
    push_str(&mut s, sig.name.as_str());
    push_str(&mut s, "\n");
    push_str(&mut s, ".p2align 4, 0x90\n");
    push_str(&mut s, sym_prefix);
    push_str(&mut s, sig.name.as_str());
    push_str(&mut s, ":\n");
    push_str(&mut s, "    pushq   %rbp\n");
    push_str(&mut s, "    movq    %rsp, %rbp\n");
    let ghost before_saves = s@;
    if regs.contains_callee_saved_int() {
        push_str(&mut s, "    pushq   %rbx\n");
        push_str(&mut s, "    pushq   %r12\n");
        push_str(&mut s, "    pushq   %r13\n");
        push_str(&mut s, "    pushq   %r14\n");
        push_str(&mut s, "    pushq   %r15\n");
    }
    let ghost before_frame = s@;
    let n_pushes = prologue_push_count(regs);
    let frame_size = compute_frame_size(intermediate_bytes as u32, n_pushes);
    if frame_size > 0 {
        push_str(&mut s, "    subq    $");
        push_decimal(&mut s, frame_size as u64);
        push_str(&mut s, ", %rsp\n");
    }
    proof {
        let saves = if regs.callee_saved_int { callee_saved_pushes_text() } else { Seq::empty() };
        assert(before_frame =~= before_saves + saves);
        let frame = function_frame_size(regs, intermediate_bytes as nat);
        let tail = if frame > 0 { "    subq    $"@ + decimal(frame as nat) + ", %rsp\n"@ } else { Seq::empty() };
        assert(s@ =~= before_frame + tail);
        assert(s@ =~= prologue_text(sig.name@, regs, intermediate_bytes as nat, sym_prefix@));
    }
    s
}

pub fn format_function_epilogue(regs: RegSet, intermediate_bytes: usize) -> (s: String)
    requires
        function_frame_fits(regs, intermediate_bytes as nat),
    ensures
        s@ == epilogue_text(regs, intermediate_bytes as nat),
{
    let mut s = String::new();
    let n_pushes = prologue_push_count(regs);
    let frame_size = compute_frame_size(intermediate_bytes as u32, n_pushes);
    if frame_size > 0 {
        push_str(&mut s, "    addq    $");
        push_decimal(&mut s, frame_size as u64);
        push_str(&mut s, ", %rsp\n");
    }
    let ghost after_frame = s@;
    if regs.contains_callee_saved_int() {
        push_str(&mut s, "    popq    %r15\n");
        push_str(&mut s, "    popq    %r14\n");
        push_str(&mut s, "    popq    %r13\n");
        push_str(&mut s, "    popq    %r12\n");
        push_str(&mut s, "    popq    %rbx\n");
    }
    let ghost after_pops = s@;
    push_str(&mut s, "    popq    %rbp\n");
    push_str(&mut s, "    retq\n");
    proof {
        let frame = function_frame_size(regs, intermediate_bytes as nat);
        let head = if frame > 0 { "    addq    $"@ + decimal(frame as nat) + ", %rsp\n"@ } else { Seq::empty() };
        let pops = if regs.callee_saved_int { callee_saved_pops_text() } else { Seq::empty() };
        assert(after_frame =~= head);
        assert(after_pops =~= head + pops);
        assert(s@ =~= epilogue_text(regs, intermediate_bytes as nat));
    }
    s
}

} // verus!
