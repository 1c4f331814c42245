//! Which argument registers a piece of AArch64 assembly names as a
//! destination. An instruction's destination is its first operand, which
//! in this profile's layout follows the mnemonic's padding (two spaces or
//! more) and precedes a comma: `  x3,` or `  w3,`. The test is
//! conservative: a store or compare with an argument register as first
//! operand counts as well. The element-wise loops, layernorm and matmul
//! never put an argument register in use in that position, so the inputs,
//! params and output pointers survive them.
//!
//! The check runs a small automaton over the text, for `k` argument
//! registers in use: state 1 follows one space, state 2 two or more,
//! state 3 an `x` or `w` after them, state 4 the number of a register in
//! use, and state 5 ("a write was seen") is absorbing.
//!
//! Where the automaton stands after a fixed string is established string by
//! string, each in a small lemma of the emitter's file: the solver sees a
//! literal's characters only through `reveal_strlit` on that literal, and
//! the unfolding it takes to run the automaton over them is set per
//! function, so the evaluations cannot share one lemma.

use vstd::prelude::*;
use crate::text::{decimal, digit_char, hex_padded, labeled, op_id};
use crate::types::BufferLoc;
use crate::arm64::abi::{arg_regs, materialise_text, materialisable, stack_address_text};
use crate::arm64::frame::{movz_movk_text, lo16, hi16, SHIFTED_IMM_MAX};
use crate::arm64::ops::loops::{loop_head, loop_tail};

verus! {

/// The 32-bit views of the argument registers.
pub open spec fn w_regs() -> Seq<Seq<char>> {
    seq!["w0"@, "w1"@, "w2"@, "w3"@, "w4"@, "w5"@]
}

/// The text of `reg` as a first operand.
pub open spec fn first_operand_pattern(reg: Seq<char>) -> Seq<char> {
    "  "@ + reg + ","@
}

/// `s` names `reg` as a first operand.
pub open spec fn writes_reg(s: Seq<char>, reg: Seq<char>) -> bool {
    exists|j: int|
        0 <= j && j + reg.len() + 3 <= s.len() && #[trigger] s.subrange(j, j + reg.len() + 3)
            == first_operand_pattern(reg)
}

/// `s` names none of the first `k` argument registers, in either width, as
/// a first operand.
pub open spec fn writes_no_arg_reg(s: Seq<char>, k: nat) -> bool {
    forall|r: int| 0 <= r < k ==> !writes_reg(s, #[trigger] arg_regs()[r]) && !writes_reg(s, w_regs()[r])
}

/// One step of the automaton for `k` registers in use.
pub open spec fn step(k: nat, q: nat, c: char) -> nat {
    if q == 5 {
        5
    } else if c == ' ' {
        if q == 1 || q == 2 { 2 } else { 1 }
    } else if q == 2 && (c == 'x' || c == 'w') {
        3
    } else if q == 3 && 48 <= c as int && (c as int) < 48 + k {
        4
    } else if q == 4 && c == ',' {
        5
    } else {
        0
    }
}

/// The state after reading `s` from state `q`.
#[verifier::opaque]
pub open spec fn scan(k: nat, q: nat, s: Seq<char>) -> nat
    decreases s.len(),
{
    if s.len() == 0 {
        q
    } else {
        scan(k, step(k, q, s[0]), s.drop_first())
    }
}

/// `scan` from index `i` on: the form evaluated on literals.
pub open spec fn scan_at(k: nat, q: nat, s: Seq<char>, i: nat) -> nat
    decreases s.len() - i,
{
    if i >= s.len() {
        q
    } else {
        scan_at(k, step(k, q, s[i as int]), s, i + 1)
    }
}

proof fn lemma_scan_at(k: nat, q: nat, s: Seq<char>, i: nat)
    requires
        i <= s.len(),
    ensures
        scan_at(k, q, s, i) == scan(k, q, s.skip(i as int)),
    decreases s.len() - i,
{
    reveal(scan);
    if i < s.len() {
        assert(s.skip(i as int).drop_first() =~= s.skip((i + 1) as int));
        lemma_scan_at(k, step(k, q, s[i as int]), s, i + 1);
    } else {
        assert(s.skip(i as int).len() == 0);
    }
}

/// Evaluates `scan` on a literal through `scan_at`.
pub proof fn lemma_scan_literal(k: nat, q: nat, s: Seq<char>)
    ensures
        scan(k, q, s) == scan_at(k, q, s, 0),
{
    lemma_scan_at(k, q, s, 0);
    assert(s.skip(0) =~= s);
}

pub broadcast proof fn lemma_scan_append(k: nat, q: nat, a: Seq<char>, b: Seq<char>)
    ensures
        #[trigger] scan(k, q, a + b) == scan(k, scan(k, q, a), b),
    decreases a.len(),
{
    reveal(scan);
    if a.len() == 0 {
        assert(a + b =~= b);
    } else {
        assert((a + b).drop_first() =~= a.drop_first() + b);
        lemma_scan_append(k, step(k, q, a[0]), a.drop_first(), b);
    }
}

proof fn lemma_scan_absorbing(k: nat, s: Seq<char>)
    ensures
        scan(k, 5, s) == 5,
    decreases s.len(),
{
    reveal(scan);
    if s.len() > 0 {
        lemma_scan_absorbing(k, s.drop_first());
    }
}

/// From any state but 5, a register in use as first operand leads to 5.
proof fn lemma_pattern_reaches_found(k: nat, q: nat, r: int, wide: bool)
    requires
        0 <= r < k <= 6,
    ensures
        scan(k, q, first_operand_pattern(if wide { arg_regs()[r] } else { w_regs()[r] })) == 5,
{
    reveal_strlit("  ");
    reveal_strlit(",");
    reveal_strlit("x0");
    reveal_strlit("x1");
    reveal_strlit("x2");
    reveal_strlit("x3");
    reveal_strlit("x4");
    reveal_strlit("x5");
    reveal_strlit("w0");
    reveal_strlit("w1");
    reveal_strlit("w2");
    reveal_strlit("w3");
    reveal_strlit("w4");
    reveal_strlit("w5");
    let p = first_operand_pattern(if wide { arg_regs()[r] } else { w_regs()[r] });
    lemma_scan_literal(k, q, p);
    reveal_with_fuel(scan_at, 6);
    if q == 5 {
        lemma_scan_absorbing(k, p);
    }
}

/// A text the automaton never drives to 5 names no register in use as a
/// first operand.
pub proof fn lemma_scan_sound(s: Seq<char>, k: nat)
    requires
        k <= 6,
        scan(k, 0, s) != 5,
    ensures
        writes_no_arg_reg(s, k),
{
    assert forall|r: int| 0 <= r < k implies !writes_reg(s, #[trigger] arg_regs()[r]) && !writes_reg(s, w_regs()[r]) by {
        if writes_reg(s, arg_regs()[r]) {
            lemma_found(s, k, r, true);
        }
        if writes_reg(s, w_regs()[r]) {
            lemma_found(s, k, r, false);
        }
    }
}

proof fn lemma_found(s: Seq<char>, k: nat, r: int, wide: bool)
    requires
        0 <= r < k <= 6,
        writes_reg(s, if wide { arg_regs()[r] } else { w_regs()[r] }),
    ensures
        scan(k, 0, s) == 5,
{
    let reg = if wide { arg_regs()[r] } else { w_regs()[r] };
    let j = choose|j: int|
        0 <= j && j + reg.len() + 3 <= s.len() && #[trigger] s.subrange(j, j + reg.len() + 3)
            == first_operand_pattern(reg);
    let e = j + reg.len() + 3;
    assert(s =~= s.subrange(0, j) + s.subrange(j, e) + s.subrange(e, s.len() as int));
    lemma_scan_append(k, 0, s.subrange(0, j) + s.subrange(j, e), s.subrange(e, s.len() as int));
    lemma_scan_append(k, 0, s.subrange(0, j), s.subrange(j, e));
    lemma_pattern_reaches_found(k, scan(k, 0, s.subrange(0, j)), r, wide);
    lemma_scan_absorbing(k, s.subrange(e, s.len() as int));
}

/// Digits leave states 0 to 2 for 0.
pub proof fn lemma_decimal_scan(k: nat, q: nat, n: nat)
    requires
        q <= 2,
    ensures
        scan(k, q, decimal(n)) == 0,
    decreases n,
{
    broadcast use lemma_scan_append;
    reveal_with_fuel(scan, 2);
    if n >= 10 {
        lemma_decimal_scan(k, q, n / 10);
        assert(decimal(n) =~= decimal(n / 10) + seq![digit_char(n % 10)]);
    }
}

/// Hexadecimal digits (none is `x` or `w`) leave state 0 alone.
pub proof fn lemma_hex_scan(k: nat, n: nat, width: nat)
    ensures
        scan(k, 0, hex_padded(n, width)) == 0,
    decreases n + width,
{
    broadcast use lemma_scan_append;
    reveal_with_fuel(scan, 2);
    if !(n < 16 && width <= 1) {
        let w = if width == 0 { 0 } else { (width - 1) as nat };
        lemma_hex_scan(k, n / 16, w);
        assert(hex_padded(n, width) =~= hex_padded(n / 16, w) + seq![digit_char(n % 16)]);
    }
}

/// An op id is clean.
pub proof fn lemma_op_id_scan(k: nat, model_idx: nat, op_idx: nat)
    ensures
        scan(k, 0, op_id(model_idx, op_idx)) == 0,
{
    broadcast use lemma_scan_append;
    lemma_decimal_scan(k, 0, model_idx);
    lemma_decimal_scan(k, 0, op_idx);
    assert(scan(k, 0, "_"@) == 0) by {
        reveal_strlit("_");
        lemma_scan_literal(k, 0, "_"@);
        reveal_with_fuel(scan_at, 2);
    }
}

/// A label made of a clean prefix, an op id and a clean suffix is clean.
pub proof fn lemma_labeled_scan(k: nat, prefix: Seq<char>, model_idx: nat, op_idx: nat, suffix: Seq<char>)
    requires
        scan(k, 0, prefix) == 0,
        scan(k, 0, suffix) == 0,
    ensures
        scan(k, 0, labeled(prefix, model_idx, op_idx, suffix)) == 0,
{
    broadcast use lemma_scan_append;
    lemma_op_id_scan(k, model_idx, op_idx);
}

/// A scratch register: after the mnemonic's padding it leads back to
/// state 0.
pub open spec fn scratch_reg(k: nat, reg: Seq<char>) -> bool {
    scan(k, 2, reg) == 0
}

pub proof fn lemma_movz_movk_lines(k: nat)
    requires
        k <= 6,
    ensures
        scan(k, 0, "    movz    "@) == 2,
        scan(k, 0, "    movk    "@) == 2,
        scan(k, 0, ", #0x"@) == 0,
        scan(k, 0, "\n"@) == 0,
        scan(k, 0, ", lsl #16\n"@) == 0,
{
    assert(scan(k, 0, "    movz    "@) == 2) by {
        reveal_strlit("    movz    ");
        lemma_scan_literal(k, 0, "    movz    "@);
        reveal_with_fuel(scan_at, 13);
    }
    assert(scan(k, 0, "    movk    "@) == 2) by {
        reveal_strlit("    movk    ");
        lemma_scan_literal(k, 0, "    movk    "@);
        reveal_with_fuel(scan_at, 13);
    }
    assert(scan(k, 0, ", #0x"@) == 0) by {
        reveal_strlit(", #0x");
        lemma_scan_literal(k, 0, ", #0x"@);
        reveal_with_fuel(scan_at, 6);
    }
    assert(scan(k, 0, "\n"@) == 0) by {
        reveal_strlit("\n");
        lemma_scan_literal(k, 0, "\n"@);
        reveal_with_fuel(scan_at, 2);
    }
    assert(scan(k, 0, ", lsl #16\n"@) == 0) by {
        reveal_strlit(", lsl #16\n");
        lemma_scan_literal(k, 0, ", lsl #16\n"@);
        reveal_with_fuel(scan_at, 11);
    }
}

/// Loading an immediate into a scratch register is clean.
pub proof fn lemma_movz_movk_scan(k: nat, reg: Seq<char>, value: nat)
    requires
        k <= 6,
        scratch_reg(k, reg),
    ensures
        scan(k, 0, movz_movk_text(reg, value)) == 0,
{
    broadcast use lemma_scan_append;
    lemma_movz_movk_lines(k);
    lemma_hex_scan(k, lo16(value), 4);
    lemma_hex_scan(k, hi16(value), 4);
}

pub proof fn lemma_materialise_lines(k: nat)
    requires
        k <= 6,
    ensures
        scan(k, 0, "    mov     "@) == 2,
        scan(k, 0, "    add     "@) == 2,
        scan(k, 0, ", "@) == 1,
        scan(k, 0, ", sp\n"@) == 0,
        scan(k, 0, ", sp, #"@) == 0,
        scan(k, 0, ", lsl #12\n"@) == 0,
        scan(k, 0, ", sp, x10\n"@) == 0,
{
    assert(scan(k, 0, "    mov     "@) == 2) by {
        reveal_strlit("    mov     ");
        lemma_scan_literal(k, 0, "    mov     "@);
        reveal_with_fuel(scan_at, 13);
    }
    assert(scan(k, 0, "    add     "@) == 2) by {
        reveal_strlit("    add     ");
        lemma_scan_literal(k, 0, "    add     "@);
        reveal_with_fuel(scan_at, 13);
    }
    assert(scan(k, 0, ", "@) == 1) by {
        reveal_strlit(", ");
        lemma_scan_literal(k, 0, ", "@);
        reveal_with_fuel(scan_at, 3);
    }
    assert(scan(k, 0, ", sp\n"@) == 0) by {
        reveal_strlit(", sp\n");
        lemma_scan_literal(k, 0, ", sp\n"@);
        reveal_with_fuel(scan_at, 6);
    }
    assert(scan(k, 0, ", sp, #"@) == 0) by {
        reveal_strlit(", sp, #");
        lemma_scan_literal(k, 0, ", sp, #"@);
        reveal_with_fuel(scan_at, 8);
    }
    assert(scan(k, 0, ", lsl #12\n"@) == 0) by {
        reveal_strlit(", lsl #12\n");
        lemma_scan_literal(k, 0, ", lsl #12\n"@);
        reveal_with_fuel(scan_at, 11);
    }
    assert(scan(k, 0, ", sp, x10\n"@) == 0) by {
        reveal_strlit(", sp, x10\n");
        lemma_scan_literal(k, 0, ", sp, x10\n"@);
        reveal_with_fuel(scan_at, 11);
    }
}

/// After `, ` (state 1) a register name leads back to state 0: one space
/// does not make a first operand.
pub proof fn lemma_arg_reg_scan(k: nat, r: int)
    requires
        0 <= r < 6,
    ensures
        scan(k, 1, arg_regs()[r]) == 0,
        scan(k, 1, arg_regs()[r] + "\n"@) == 0,
{
    reveal_strlit("x0");
    reveal_strlit("x1");
    reveal_strlit("x2");
    reveal_strlit("x3");
    reveal_strlit("x4");
    reveal_strlit("x5");
    reveal_strlit("\n");
    lemma_scan_literal(k, 1, arg_regs()[r]);
    lemma_scan_literal(k, 1, arg_regs()[r] + "\n"@);
    reveal_with_fuel(scan_at, 4);
}

/// Placing a buffer's address in a scratch register is clean.
pub proof fn lemma_materialise_scan(k: nat, n_inputs: nat, loc: BufferLoc, dst: Seq<char>)
    requires
        k <= 6,
        n_inputs + 2 <= 6,
        materialisable(n_inputs, loc),
        scratch_reg(k, dst),
    ensures
        scan(k, 0, materialise_text(n_inputs, loc, dst)) == 0,
{
    broadcast use lemma_scan_append;
    lemma_materialise_lines(k);
    lemma_movz_movk_lines(k);
    match loc {
        BufferLoc::InputReg(idx) => {
            lemma_arg_reg_scan(k, idx as int);
            let tail = arg_regs()[idx as int] + "\n"@;
            assert(materialise_text(n_inputs, loc, dst) =~= "    mov     "@ + dst + ", "@ + tail);
        },
        BufferLoc::OutputReg => {
            lemma_arg_reg_scan(k, (n_inputs + 1) as int);
            assert(materialise_text(n_inputs, loc, dst) =~= "    mov     "@ + dst + ", "@ + (arg_regs()[(n_inputs
                + 1) as int] + "\n"@));
        },
        BufferLoc::StackOffset(off) => {
            let o = off as nat;
            lemma_decimal_scan(k, 0, o);
            lemma_decimal_scan(k, 0, o / 4096);
            lemma_ten_scratch(k);
            lemma_movz_movk_scan(k, "w10"@, o);
            if o == 0 {
                assert(stack_address_text(o, dst) =~= "    mov     "@ + dst + ", sp\n"@);
            } else if o <= 4095 {
                assert(stack_address_text(o, dst) =~= "    add     "@ + dst + ", sp, #"@ + decimal(o) + "\n"@);
            } else if o <= SHIFTED_IMM_MAX && o % 4096 == 0 {
                assert(stack_address_text(o, dst) =~= "    add     "@ + dst + ", sp, #"@ + decimal(o / 4096) + ", lsl #12\n"@);
            } else {
                assert(stack_address_text(o, dst) =~= movz_movk_text("w10"@, o) + "    add     "@ + dst + ", sp, x10\n"@);
            }
        },
        BufferLoc::Alias(_) => {},
    }
}

proof fn lemma_ten_scratch(k: nat)
    requires
        k <= 6,
    ensures
        scratch_reg(k, "w10"@),
{
    reveal_strlit("w10");
    lemma_scan_literal(k, 2, "w10"@);
    reveal_with_fuel(scan_at, 4);
}

/// A loop head with clean labels, scratch counter and bound register is
/// clean.
pub proof fn lemma_loop_head_scan(
    k: nat,
    label: Seq<char>,
    exit_jump: Seq<char>,
    counter: Seq<char>,
    bound_reg: Seq<char>,
    bound: nat,
    id: Seq<char>,
)
    requires
        k <= 6,
        scan(k, 0, label) == 0,
        scan(k, 0, exit_jump) == 0,
        scan(k, 0, id) == 0,
        scratch_reg(k, counter),
        scratch_reg(k, bound_reg),
        scan(k, 1, bound_reg) == 0,
    ensures
        scan(k, 0, loop_head(label, exit_jump, counter, bound_reg, bound, id)) == 0,
{
    broadcast use lemma_scan_append;
    lemma_movz_movk_scan(k, bound_reg, bound);
    lemma_movz_movk_lines(k);
    lemma_materialise_lines(k);
    assert(scan(k, 0, ":\n"@) == 0) by {
        reveal_strlit(":\n");
        lemma_scan_literal(k, 0, ":\n"@);
        reveal_with_fuel(scan_at, 3);
    }
    assert(scan(k, 0, "    cmp     "@) == 2) by {
        reveal_strlit("    cmp     ");
        lemma_scan_literal(k, 0, "    cmp     "@);
        reveal_with_fuel(scan_at, 13);
    }
}

/// A loop tail with clean pieces is clean.
pub proof fn lemma_loop_tail_scan(k: nat, step_text: Seq<char>, back_jump: Seq<char>, exit_label: Seq<char>, id: Seq<char>)
    requires
        k <= 6,
        scan(k, 0, step_text) == 0,
        scan(k, 0, back_jump) == 0,
        scan(k, 0, exit_label) == 0,
        scan(k, 0, id) == 0,
    ensures
        scan(k, 0, loop_tail(step_text, back_jump, exit_label, id)) == 0,
{
    broadcast use lemma_scan_append;
    lemma_movz_movk_lines(k);
    assert(scan(k, 0, ":\n"@) == 0) by {
        reveal_strlit(":\n");
        lemma_scan_literal(k, 0, ":\n"@);
        reveal_with_fuel(scan_at, 3);
    }
}

proof fn lemma_common_line_0(k: nat)
    requires
        k <= 6,
    ensures
        scan(k, 0, "    mov     x9, #0\n"@) == 0,
{
    reveal_strlit("    mov     x9, #0\n");
    lemma_scan_literal(k, 0, "    mov     x9, #0\n"@);
    reveal_with_fuel(scan_at, 20);
}

proof fn lemma_common_line_1(k: nat)
    requires
        k <= 6,
    ensures
        scan(k, 0, "    cmp     x9, x10\n"@) == 0,
{
    reveal_strlit("    cmp     x9, x10\n");
    lemma_scan_literal(k, 0, "    cmp     x9, x10\n"@);
    reveal_with_fuel(scan_at, 21);
}

proof fn lemma_common_line_2(k: nat)
    requires
        k <= 6,
    ensures
        scan(k, 0, "    str     s3, [x12, x9, lsl #2]\n"@) == 0,
{
    reveal_strlit("    str     s3, [x12, x9, lsl #2]\n");
    lemma_scan_literal(k, 0, "    str     s3, [x12, x9, lsl #2]\n"@);
    reveal_with_fuel(scan_at, 35);
}

proof fn lemma_common_line_3(k: nat)
    requires
        k <= 6,
    ensures
        scan(k, 2, "x12"@) == 0,
{
    reveal_strlit("x12");
    lemma_scan_literal(k, 2, "x12"@);
    reveal_with_fuel(scan_at, 4);
}

proof fn lemma_common_line_4(k: nat)
    requires
        k <= 6,
    ensures
        scan(k, 0, "\n"@) == 0,
{
    reveal_strlit("\n");
    lemma_scan_literal(k, 0, "\n"@);
    reveal_with_fuel(scan_at, 2);
}

proof fn lemma_common_line_5(k: nat)
    requires
        k <= 6,
    ensures
        scan(k, 0, "    ldr     s3, [x11, x9, lsl #2]\n"@) == 0,
{
    reveal_strlit("    ldr     s3, [x11, x9, lsl #2]\n");
    lemma_scan_literal(k, 0, "    ldr     s3, [x11, x9, lsl #2]\n"@);
    reveal_with_fuel(scan_at, 35);
}

proof fn lemma_common_line_6(k: nat)
    requires
        k <= 6,
    ensures
        scan(k, 2, "x11"@) == 0,
{
    reveal_strlit("x11");
    lemma_scan_literal(k, 2, "x11"@);
    reveal_with_fuel(scan_at, 4);
}

proof fn lemma_common_line_7(k: nat)
    requires
        k <= 6,
    ensures
        scan(k, 2, "x10"@) == 0,
{
    reveal_strlit("x10");
    lemma_scan_literal(k, 2, "x10"@);
    reveal_with_fuel(scan_at, 4);
}

proof fn lemma_common_line_8(k: nat)
    requires
        k <= 6,
    ensures
        scan(k, 0, "    add     x9, x9, #1\n"@) == 0,
{
    reveal_strlit("    add     x9, x9, #1\n");
    lemma_scan_literal(k, 0, "    add     x9, x9, #1\n"@);
    reveal_with_fuel(scan_at, 24);
}

proof fn lemma_common_line_9(k: nat)
    requires
        k <= 6,
    ensures
        scan(k, 0, " elements)\n"@) == 0,
{
    reveal_strlit(" elements)\n");
    lemma_scan_literal(k, 0, " elements)\n"@);
    reveal_with_fuel(scan_at, 12);
}

proof fn lemma_common_line_10(k: nat)
    requires
        k <= 6,
    ensures
        scan(k, 0, ":\n"@) == 0,
{
    reveal_strlit(":\n");
    lemma_scan_literal(k, 0, ":\n"@);
    reveal_with_fuel(scan_at, 3);
}

proof fn lemma_common_line_11(k: nat)
    requires
        k <= 6,
    ensures
        scan(k, 2, "w9"@) == 0,
{
    reveal_strlit("w9");
    lemma_scan_literal(k, 2, "w9"@);
    reveal_with_fuel(scan_at, 3);
}

proof fn lemma_common_line_12(k: nat)
    requires
        k <= 6,
    ensures
        scan(k, 2, "x13"@) == 0,
{
    reveal_strlit("x13");
    lemma_scan_literal(k, 2, "x13"@);
    reveal_with_fuel(scan_at, 4);
}

proof fn lemma_common_line_13(k: nat)
    requires
        k <= 6,
    ensures
        scan(k, 0, "    mov     x12, #0\n"@) == 0,
{
    reveal_strlit("    mov     x12, #0\n");
    lemma_scan_literal(k, 0, "    mov     x12, #0\n"@);
    reveal_with_fuel(scan_at, 21);
}

proof fn lemma_common_line_14(k: nat)
    requires
        k <= 6,
    ensures
        scan(k, 0, "    add     x12, x12, #1\n"@) == 0,
{
    reveal_strlit("    add     x12, x12, #1\n");
    lemma_scan_literal(k, 0, "    add     x12, x12, #1\n"@);
    reveal_with_fuel(scan_at, 26);
}

/// Where the automaton stands after the lines and registers the loop emitters share.
pub proof fn lemma_common_lines(k: nat)
    requires
        k <= 6,
    ensures
        scan(k, 0, "    mov     x9, #0\n"@) == 0,
        scan(k, 0, "    cmp     x9, x10\n"@) == 0,
        scan(k, 0, "    str     s3, [x12, x9, lsl #2]\n"@) == 0,
        scan(k, 2, "x12"@) == 0,
        scan(k, 0, "\n"@) == 0,
        scan(k, 0, "    ldr     s3, [x11, x9, lsl #2]\n"@) == 0,
        scan(k, 2, "x11"@) == 0,
        scan(k, 2, "x10"@) == 0,
        scan(k, 0, "    add     x9, x9, #1\n"@) == 0,
        scan(k, 0, " elements)\n"@) == 0,
        scan(k, 0, ":\n"@) == 0,
        scan(k, 2, "w9"@) == 0,
        scan(k, 2, "x13"@) == 0,
        scan(k, 0, "    mov     x12, #0\n"@) == 0,
        scan(k, 0, "    add     x12, x12, #1\n"@) == 0,
{
    lemma_common_line_0(k);
    lemma_common_line_1(k);
    lemma_common_line_2(k);
    lemma_common_line_3(k);
    lemma_common_line_4(k);
    lemma_common_line_5(k);
    lemma_common_line_6(k);
    lemma_common_line_7(k);
    lemma_common_line_8(k);
    lemma_common_line_9(k);
    lemma_common_line_10(k);
    lemma_common_line_11(k);
    lemma_common_line_12(k);
    lemma_common_line_13(k);
    lemma_common_line_14(k);
}

} // verus!
