//! Which argument registers a piece of AT&T assembly writes. A write to a
//! register shows in the text as `, <reg>\n`: the register is the last
//! (destination) operand of its line. The element-wise loops, layernorm
//! and matmul never write an argument register, so the inputs, params and
//! output pointers survive every one of them at any number of inputs.
//!
//! The check runs a small automaton over the text: state 0 is "nothing
//! seen", states 1 to 8 follow `, %r` and the rest of an argument register
//! name, and state 9 ("a write was seen") is absorbing.
//!
//! Where the automaton stands after a fixed string is established string by
//! string, each in a small lemma of the emitter's file: the solver sees a
//! literal's characters only through `reveal_strlit` on that literal, and
//! the unfolding it takes to run the automaton over them is set per
//! function, so the evaluations cannot share one lemma.

use vstd::prelude::*;
use crate::text::{decimal, digit_char, hex_padded, labeled, op_id};
use crate::types::BufferLoc;
use crate::x86_64::abi::{arg_regs, materialise_text, materialisable};
use crate::x86_64::frame::imm32_to_r10_text;
use crate::x86_64::ops::loops::{loop_head, loop_tail};
use crate::x86_64::ops::linear::params_ptr_text;

verus! {

/// The text of a write to `reg`: `, <reg>` ending a line.
pub open spec fn write_pattern(reg: Seq<char>) -> Seq<char> {
    ", "@ + reg + "\n"@
}

/// `s` writes `reg`: it contains `, <reg>\n`.
pub open spec fn writes_reg(s: Seq<char>, reg: Seq<char>) -> bool {
    exists|k: int|
        0 <= k && k + reg.len() + 3 <= s.len() && #[trigger] s.subrange(k, k + reg.len() + 3)
            == write_pattern(reg)
}

/// `s` writes none of the six argument registers.
pub open spec fn writes_no_arg_reg(s: Seq<char>) -> bool {
    forall|r: int| 0 <= r < 6 ==> !writes_reg(s, #[trigger] arg_regs()[r])
}

/// One step of the automaton.
pub open spec fn step(q: nat, c: char) -> nat {
    if q == 9 {
        9
    } else if c == ',' {
        1
    } else if q == 1 && c == ' ' {
        2
    } else if q == 2 && c == '%' {
        3
    } else if q == 3 && c == 'r' {
        4
    } else if q == 4 && c == 'd' {
        5
    } else if q == 4 && c == 's' {
        6
    } else if q == 4 && c == 'c' {
        7
    } else if q == 4 && (c == '8' || c == '9') {
        8
    } else if q == 5 && (c == 'i' || c == 'x') {
        8
    } else if q == 6 && c == 'i' {
        8
    } else if q == 7 && c == 'x' {
        8
    } else if q == 8 && c == '\n' {
        9
    } else {
        0
    }
}

/// The state after reading `s` from state `q`.
#[verifier::opaque]
pub open spec fn scan(q: nat, s: Seq<char>) -> nat
    decreases s.len(),
{
    if s.len() == 0 {
        q
    } else {
        scan(step(q, s[0]), s.drop_first())
    }
}

/// `scan` from index `i` on: the form evaluated on literals.
pub open spec fn scan_at(q: nat, s: Seq<char>, i: nat) -> nat
    decreases s.len() - i,
{
    if i >= s.len() {
        q
    } else {
        scan_at(step(q, s[i as int]), s, i + 1)
    }
}

proof fn lemma_scan_at(q: nat, s: Seq<char>, i: nat)
    requires
        i <= s.len(),
    ensures
        scan_at(q, s, i) == scan(q, s.skip(i as int)),
    decreases s.len() - i,
{
    reveal(scan);
    if i < s.len() {
        assert(s.skip(i as int).drop_first() =~= s.skip((i + 1) as int));
        lemma_scan_at(step(q, s[i as int]), s, i + 1);
    } else {
        assert(s.skip(i as int).len() == 0);
    }
}

/// Evaluates `scan` on a literal through `scan_at`.
pub proof fn lemma_scan_literal(q: nat, s: Seq<char>)
    ensures
        scan(q, s) == scan_at(q, s, 0),
{
    lemma_scan_at(q, s, 0);
    assert(s.skip(0) =~= s);
}

pub broadcast proof fn lemma_scan_append(q: nat, a: Seq<char>, b: Seq<char>)
    ensures
        #[trigger] scan(q, a + b) == scan(scan(q, a), b),
    decreases a.len(),
{
    reveal(scan);
    if a.len() == 0 {
        assert(a + b =~= b);
    } else {
        assert((a + b).drop_first() =~= a.drop_first() + b);
        lemma_scan_append(step(q, a[0]), a.drop_first(), b);
    }
}

proof fn lemma_scan_absorbing(s: Seq<char>)
    ensures
        scan(9, s) == 9,
    decreases s.len(),
{
    reveal(scan);
    if s.len() > 0 {
        lemma_scan_absorbing(s.drop_first());
    }
}

/// From any state but 9, an argument register's write pattern leads to 9.
proof fn lemma_pattern_reaches_found(q: nat, r: int)
    requires
        0 <= r < 6,
    ensures
        scan(q, write_pattern(arg_regs()[r])) == 9,
{
    reveal_strlit(", ");
    reveal_strlit("\n");
    reveal_strlit("%rdi");
    reveal_strlit("%rsi");
    reveal_strlit("%rdx");
    reveal_strlit("%rcx");
    reveal_strlit("%r8");
    reveal_strlit("%r9");
    reveal_with_fuel(scan, 8);
    let p = write_pattern(arg_regs()[r]);
    assert(p =~= seq![',', ' '] + arg_regs()[r] + seq!['\n']);
    if q == 9 {
        lemma_scan_absorbing(p);
    }
}

/// A text the automaton never drives to 9 writes no argument register.
pub proof fn lemma_scan_sound(s: Seq<char>)
    requires
        scan(0, s) != 9,
    ensures
        writes_no_arg_reg(s),
{
    assert forall|r: int| 0 <= r < 6 implies !writes_reg(s, #[trigger] arg_regs()[r]) by {
        if writes_reg(s, arg_regs()[r]) {
            let reg = arg_regs()[r];
            let k = choose|k: int|
                0 <= k && k + reg.len() + 3 <= s.len() && #[trigger] s.subrange(k, k + reg.len() + 3)
                    == write_pattern(reg);
            let e = k + reg.len() + 3;
            assert(s =~= s.subrange(0, k) + s.subrange(k, e) + s.subrange(e, s.len() as int));
            lemma_scan_append(0, s.subrange(0, k) + s.subrange(k, e), s.subrange(e, s.len() as int));
            lemma_scan_append(0, s.subrange(0, k), s.subrange(k, e));
            lemma_pattern_reaches_found(scan(0, s.subrange(0, k)), r);
            lemma_scan_absorbing(s.subrange(e, s.len() as int));
        }
    }
}

pub proof fn lemma_decimal_scan(n: nat)
    ensures
        scan(0, decimal(n)) == 0,
    decreases n,
{
    broadcast use lemma_scan_append;
    reveal_with_fuel(scan, 2);
    if n >= 10 {
        lemma_decimal_scan(n / 10);
        assert(decimal(n) =~= decimal(n / 10) + seq![digit_char(n % 10)]);
    }
}

/// Digits and `_` leave state 0 alone: an op id is clean.
pub proof fn lemma_op_id_scan(model_idx: nat, op_idx: nat)
    ensures
        scan(0, op_id(model_idx, op_idx)) == 0,
{
    broadcast use lemma_scan_append;
    lemma_decimal_scan(model_idx);
    lemma_decimal_scan(op_idx);
    assert(scan(0, "_"@) == 0) by {
        reveal_strlit("_");
        lemma_scan_literal(0, "_"@);
        reveal_with_fuel(scan_at, 2);
    }
}

/// A label made of a clean prefix, an op id and a clean suffix is clean.
pub proof fn lemma_labeled_scan(prefix: Seq<char>, model_idx: nat, op_idx: nat, suffix: Seq<char>)
    requires
        scan(0, prefix) == 0,
        scan(0, suffix) == 0,
    ensures
        scan(0, labeled(prefix, model_idx, op_idx, suffix)) == 0,
{
    broadcast use lemma_scan_append;
    lemma_op_id_scan(model_idx, op_idx);
}

pub proof fn lemma_imm32_scan(value: nat)
    ensures
        scan(0, imm32_to_r10_text(value)) == 0,
{
    broadcast use lemma_scan_append;
    lemma_decimal_scan(value);
    reveal_strlit("    movl    $");
    reveal_strlit(", %r10d\n");
    reveal_with_fuel(scan, 20);
    assert(scan(0, "    movl    $"@) == 0);
    assert(scan(0, ", %r10d\n"@) == 0);
}

/// A destination register the emitters use as scratch: after `, ` it
/// leads back to state 0 at the end of the line.
pub open spec fn scratch_dst(dst: Seq<char>) -> bool {
    scan(2, dst + "\n"@) == 0
}

pub proof fn lemma_materialise_pieces()
    ensures
        scan(0, "    movq    "@) == 0,
        scan(0, ", "@) == 2,
        scan(0, "    movq    %rsp, "@) == 2,
        scan(0, "    leaq    "@) == 0,
        scan(0, "(%rsp), "@) == 2,
{
    assert(scan(0, "    movq    "@) == 0) by {
        reveal_strlit("    movq    ");
        lemma_scan_literal(0, "    movq    "@);
        reveal_with_fuel(scan_at, 13);
    }
    assert(scan(0, ", "@) == 2) by {
        reveal_strlit(", ");
        lemma_scan_literal(0, ", "@);
        reveal_with_fuel(scan_at, 3);
    }
    assert(scan(0, "    movq    %rsp, "@) == 2) by {
        reveal_strlit("    movq    %rsp, ");
        lemma_scan_literal(0, "    movq    %rsp, "@);
        reveal_with_fuel(scan_at, 19);
    }
    assert(scan(0, "    leaq    "@) == 0) by {
        reveal_strlit("    leaq    ");
        lemma_scan_literal(0, "    leaq    "@);
        reveal_with_fuel(scan_at, 13);
    }
    assert(scan(0, "(%rsp), "@) == 2) by {
        reveal_strlit("(%rsp), ");
        lemma_scan_literal(0, "(%rsp), "@);
        reveal_with_fuel(scan_at, 9);
    }
}

pub proof fn lemma_arg_reg_scan(r: int)
    requires
        0 <= r < 6,
    ensures
        scan(0, arg_regs()[r]) == 0,
{
    lemma_scan_literal(0, arg_regs()[r]);
    reveal_strlit("%rdi");
    reveal_strlit("%rsi");
    reveal_strlit("%rdx");
    reveal_strlit("%rcx");
    reveal_strlit("%r8");
    reveal_strlit("%r9");
    reveal_with_fuel(scan_at, 5);
}

pub proof fn lemma_materialise_scan(n_inputs: nat, loc: BufferLoc, dst: Seq<char>)
    requires
        n_inputs + 2 <= 6,
        materialisable(n_inputs, loc),
        scratch_dst(dst),
    ensures
        scan(0, materialise_text(n_inputs, loc, dst)) == 0,
{
    broadcast use lemma_scan_append;
    lemma_materialise_pieces();
    match loc {
        BufferLoc::InputReg(idx) => {
            lemma_arg_reg_scan(idx as int);
            assert(materialise_text(n_inputs, loc, dst) =~= "    movq    "@ + arg_regs()[idx as int] + ", "@ + (dst + "\n"@));
        },
        BufferLoc::OutputReg => {
            lemma_arg_reg_scan((n_inputs + 1) as int);
            assert(materialise_text(n_inputs, loc, dst) =~= "    movq    "@ + arg_regs()[(n_inputs + 1) as int] + ", "@ + (dst + "\n"@));
        },
        BufferLoc::StackOffset(off) => {
            lemma_decimal_scan(off as nat);
            if off == 0 {
                assert(materialise_text(n_inputs, loc, dst) =~= "    movq    %rsp, "@ + (dst + "\n"@));
            } else {
                assert(materialise_text(n_inputs, loc, dst) =~= "    leaq    "@ + decimal(off as nat) + "(%rsp), "@ + (dst + "\n"@));
            }
        },
        BufferLoc::Alias(_) => {},
    }
}

pub proof fn lemma_hex_scan(n: nat, width: nat)
    ensures
        scan(0, hex_padded(n, width)) == 0,
    decreases n + width,
{
    broadcast use lemma_scan_append;
    reveal_with_fuel(scan, 2);
    if !(n < 16 && width <= 1) {
        let w = if width == 0 { 0 } else { (width - 1) as nat };
        lemma_hex_scan(n / 16, w);
        assert(hex_padded(n, width) =~= hex_padded(n / 16, w) + seq![digit_char(n % 16)]);
    }
}

proof fn lemma_common_line_0()
    ensures
        scan(0, "    cmpq    %r10, %rbp\n"@) == 0,
{
    reveal_strlit("    cmpq    %r10, %rbp\n");
    lemma_scan_literal(0, "    cmpq    %r10, %rbp\n"@);
    reveal_with_fuel(scan_at, 24);
}

proof fn lemma_common_line_1()
    ensures
        scan(0, "    movss   %xmm0, (%r11, %rbp, 4)\n"@) == 0,
{
    reveal_strlit("    movss   %xmm0, (%r11, %rbp, 4)\n");
    lemma_scan_literal(0, "    movss   %xmm0, (%r11, %rbp, 4)\n"@);
    reveal_with_fuel(scan_at, 36);
}

proof fn lemma_common_line_2()
    ensures
        scan(0, " elements)\n"@) == 0,
{
    reveal_strlit(" elements)\n");
    lemma_scan_literal(0, " elements)\n"@);
    reveal_with_fuel(scan_at, 12);
}

proof fn lemma_common_line_3()
    ensures
        scan(0, "    xorq    %rbp, %rbp\n"@) == 0,
{
    reveal_strlit("    xorq    %rbp, %rbp\n");
    lemma_scan_literal(0, "    xorq    %rbp, %rbp\n"@);
    reveal_with_fuel(scan_at, 24);
}

proof fn lemma_common_line_4()
    ensures
        scan(0, ":\n"@) == 0,
{
    reveal_strlit(":\n");
    lemma_scan_literal(0, ":\n"@);
    reveal_with_fuel(scan_at, 3);
}

proof fn lemma_common_line_5()
    ensures
        scan(0, "    incq    %rbp\n"@) == 0,
{
    reveal_strlit("    incq    %rbp\n");
    lemma_scan_literal(0, "    incq    %rbp\n"@);
    reveal_with_fuel(scan_at, 18);
}

proof fn lemma_common_line_6()
    ensures
        scan(0, "\n"@) == 0,
{
    reveal_strlit("\n");
    lemma_scan_literal(0, "\n"@);
    reveal_with_fuel(scan_at, 2);
}

proof fn lemma_common_line_7()
    ensures
        scan(0, "    movss   (%rax, %rbp, 4), %xmm0\n"@) == 0,
{
    reveal_strlit("    movss   (%rax, %rbp, 4), %xmm0\n");
    lemma_scan_literal(0, "    movss   (%rax, %rbp, 4), %xmm0\n"@);
    reveal_with_fuel(scan_at, 36);
}

proof fn lemma_common_line_8()
    ensures
        scan(0, "    addq    $1, %rbp\n"@) == 0,
{
    reveal_strlit("    addq    $1, %rbp\n");
    lemma_scan_literal(0, "    addq    $1, %rbp\n"@);
    reveal_with_fuel(scan_at, 22);
}

proof fn lemma_common_line_9()
    ensures
        scan(0, "    movq    $0, %rbp\n"@) == 0,
{
    reveal_strlit("    movq    $0, %rbp\n");
    lemma_scan_literal(0, "    movq    $0, %rbp\n"@);
    reveal_with_fuel(scan_at, 22);
}

proof fn lemma_common_line_10()
    ensures
        scan(2, "%rax"@) == 0,
{
    reveal_strlit("%rax");
    lemma_scan_literal(2, "%rax"@);
    reveal_with_fuel(scan_at, 5);
}

proof fn lemma_common_line_11()
    ensures
        scan(2, "%r10"@) == 0,
{
    reveal_strlit("%r10");
    lemma_scan_literal(2, "%r10"@);
    reveal_with_fuel(scan_at, 5);
}

proof fn lemma_common_line_12()
    ensures
        scan(2, "%r11"@) == 0,
{
    reveal_strlit("%r11");
    lemma_scan_literal(2, "%r11"@);
    reveal_with_fuel(scan_at, 5);
}

/// How the automaton reads the lines and registers the loop emitters share.
pub proof fn lemma_common_lines()
    ensures
        scan(0, "    cmpq    %r10, %rbp\n"@) == 0,
        scan(0, "    movss   %xmm0, (%r11, %rbp, 4)\n"@) == 0,
        scan(0, " elements)\n"@) == 0,
        scan(0, "    xorq    %rbp, %rbp\n"@) == 0,
        scan(0, ":\n"@) == 0,
        scan(0, "    incq    %rbp\n"@) == 0,
        scan(0, "\n"@) == 0,
        scan(0, "    movss   (%rax, %rbp, 4), %xmm0\n"@) == 0,
        scan(0, "    addq    $1, %rbp\n"@) == 0,
        scan(0, "    movq    $0, %rbp\n"@) == 0,
        scan(2, "%rax"@) == 0,
        scan(2, "%r10"@) == 0,
        scan(2, "%r11"@) == 0,
{
    lemma_common_line_0();
    lemma_common_line_1();
    lemma_common_line_2();
    lemma_common_line_3();
    lemma_common_line_4();
    lemma_common_line_5();
    lemma_common_line_6();
    lemma_common_line_7();
    lemma_common_line_8();
    lemma_common_line_9();
    lemma_common_line_10();
    lemma_common_line_11();
    lemma_common_line_12();
}

/// The scratch pointer registers of the loop emitters.
pub proof fn lemma_scratch_pointers()
    ensures
        scratch_dst("%rax"@),
        scratch_dst("%r10"@),
        scratch_dst("%r11"@),
{
    broadcast use lemma_scan_append;
    lemma_common_lines();
}

/// A number right after `,` or `, ` cannot start a register name.
pub proof fn lemma_decimal_scan_from(q: nat, n: nat)
    requires
        q <= 3,
    ensures
        scan(q, decimal(n)) == 0,
    decreases n,
{
    broadcast use lemma_scan_append;
    reveal_with_fuel(scan, 2);
    if n >= 10 {
        lemma_decimal_scan_from(q, n / 10);
        assert(decimal(n) =~= decimal(n / 10) + seq![digit_char(n % 10)]);
        lemma_decimal_scan(n / 10);
    }
}

pub proof fn lemma_loop_head_scan(label: Seq<char>, exit_jump: Seq<char>, counter: Seq<char>, bound: nat, id: Seq<char>)
    requires
        scan(0, label) == 0,
        scan(0, exit_jump) == 0,
        scan(0, id) == 0,
        scratch_dst(counter),
    ensures
        scan(0, loop_head(label, exit_jump, counter, bound, id)) == 0,
{
    broadcast use lemma_scan_append;
    lemma_common_lines();
    lemma_imm32_scan(bound);
    lemma_loop_line();
    assert(loop_head(label, exit_jump, counter, bound, id) =~= label + id + ":\n"@ + imm32_to_r10_text(bound)
        + "    cmpq    %r10, "@ + (counter + "\n"@) + exit_jump + id + "\n"@);
}

pub proof fn lemma_loop_tail_scan(step: Seq<char>, back_jump: Seq<char>, exit_label: Seq<char>, id: Seq<char>)
    requires
        scan(0, step) == 0,
        scan(0, back_jump) == 0,
        scan(0, exit_label) == 0,
        scan(0, id) == 0,
    ensures
        scan(0, loop_tail(step, back_jump, exit_label, id)) == 0,
{
    broadcast use lemma_scan_append;
    lemma_common_lines();
}

proof fn lemma_loop_line()
    ensures
        scan(0, "    cmpq    %r10, "@) == 2,
{
    reveal_strlit("    cmpq    %r10, ");
    lemma_scan_literal(0, "    cmpq    %r10, "@);
    reveal_with_fuel(scan_at, 19);
}

proof fn lemma_params_ptr_lines()
    ensures
        scan(0, "("@) == 0,
        scan(0, "), "@) == 2,
{
    assert(scan(0, "("@) == 0) by {
        reveal_strlit("(");
        lemma_scan_literal(0, "("@);
        reveal_with_fuel(scan_at, 2);
    }
    assert(scan(0, "), "@) == 2) by {
        reveal_strlit("), ");
        lemma_scan_literal(0, "), "@);
        reveal_with_fuel(scan_at, 4);
    }
}

/// Pointing a scratch register into the params buffer writes no argument
/// register.
pub proof fn lemma_params_ptr_scan(n_inputs: nat, offset: nat, dst: Seq<char>)
    requires
        n_inputs < 6,
        scratch_dst(dst),
    ensures
        scan(0, params_ptr_text(arg_regs()[n_inputs as int], offset, dst)) == 0,
{
    broadcast use lemma_scan_append;
    lemma_materialise_pieces();
    lemma_params_ptr_lines();
    lemma_arg_reg_scan(n_inputs as int);
    lemma_decimal_scan(offset * 4);
    let params = arg_regs()[n_inputs as int];
    if offset == 0 {
        assert(params_ptr_text(params, offset, dst) =~= "    movq    "@ + params + ", "@ + (dst + "\n"@));
    } else {
        assert(params_ptr_text(params, offset, dst) =~= "    leaq    "@ + decimal(offset * 4) + "("@ + params + "), "@
            + (dst + "\n"@));
    }
}

} // verus!
