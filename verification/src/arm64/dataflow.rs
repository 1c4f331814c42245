//! What a straight-line piece of the emitted AArch64 text computes.
//!
//! As for the x86_64 profile: each instruction form the loop bodies use is
//! given as the exact line it is written as and as its effect on a symbolic
//! machine whose values are terms over what the registers and the f32
//! arrays held when the piece began. A `movz`/`movk` pair loads
//! `lo16 + 65536 * hi16` of its immediate, which is the immediate itself
//! when it fits in 32 bits (`lemma_movz_movk_loads`).

use vstd::prelude::*;
use crate::text::{hex_padded, has_piece, lemma_piece_within};
use crate::arm64::frame::{lo16, hi16};

verus! {

/// The registers the loop bodies use.
pub enum Reg {
    X3,
    X4,
    X5,
    X6,
    X7,
    X8,
    X9,
    X10,
    X11,
    X12,
    X13,
    X14,
    X15,
    X16,
    X17,
    X19,
    X20,
    X21,
    X22,
    X23,
    S0,
    S1,
    S2,
    S3,
    S4,
    S5,
    S6,
    S7,
    S8,
    S9,
    W9,
}

/// A register's name.
pub open spec fn reg_name(r: Reg) -> Seq<char> {
    match r {
        Reg::X3 => "x3"@,
        Reg::X4 => "x4"@,
        Reg::X5 => "x5"@,
        Reg::X6 => "x6"@,
        Reg::X7 => "x7"@,
        Reg::X8 => "x8"@,
        Reg::X9 => "x9"@,
        Reg::X10 => "x10"@,
        Reg::X11 => "x11"@,
        Reg::X12 => "x12"@,
        Reg::X13 => "x13"@,
        Reg::X14 => "x14"@,
        Reg::X15 => "x15"@,
        Reg::X16 => "x16"@,
        Reg::X17 => "x17"@,
        Reg::X19 => "x19"@,
        Reg::X20 => "x20"@,
        Reg::X21 => "x21"@,
        Reg::X22 => "x22"@,
        Reg::X23 => "x23"@,
        Reg::S0 => "s0"@,
        Reg::S1 => "s1"@,
        Reg::S2 => "s2"@,
        Reg::S3 => "s3"@,
        Reg::S4 => "s4"@,
        Reg::S5 => "s5"@,
        Reg::S6 => "s6"@,
        Reg::S7 => "s7"@,
        Reg::S8 => "s8"@,
        Reg::S9 => "s9"@,
        Reg::W9 => "w9"@,
    }
}

/// A value, in terms of the machine as it was when the piece began.
pub enum Term {
    /// What the register held.
    Init(Reg),
    /// An immediate.
    Imm(nat),
    /// Element `index` of the f32 array at `base`.
    Load(Box<Term>, Box<Term>),
    IAdd(Box<Term>, Box<Term>),
    IMul(Box<Term>, Box<Term>),
    FAdd(Box<Term>, Box<Term>),
    FSub(Box<Term>, Box<Term>),
    FMul(Box<Term>, Box<Term>),
    FDiv(Box<Term>, Box<Term>),
    FSqrt(Box<Term>),
    FMax(Box<Term>, Box<Term>),
    /// `0.0`
    FZero,
    /// The f32 whose bit pattern is the value.
    Bits(Box<Term>),
}

/// A store of an f32 array element: (`base`, `index`, value).
pub enum Store {
    Elem(Term, Term, Term),
}

/// The instruction forms of the loop bodies.
pub enum Ins {
    /// `movz reg, #lo` and, when the high half is not zero, `movk reg, #hi, lsl #16`
    MovzMovk(Reg, nat),
    /// `mov dst, src`
    Mov(Reg, Reg),
    /// `add dst, a, b`
    Add(Reg, Reg, Reg),
    /// `mul dst, a, b`
    Mul(Reg, Reg, Reg),
    /// `ldr dst, [base, index, lsl #2]`
    Ldr(Reg, Reg, Reg),
    /// `str src, [base, index, lsl #2]`
    Str(Reg, Reg, Reg),
    /// `fadd dst, a, b`
    Fadd(Reg, Reg, Reg),
    /// `fsub dst, a, b`
    Fsub(Reg, Reg, Reg),
    /// `fmul dst, a, b`
    Fmul(Reg, Reg, Reg),
    /// `fdiv dst, a, b`
    Fdiv(Reg, Reg, Reg),
    /// `fmadd dst, a, b, c`: `c + a * b`
    Fmadd(Reg, Reg, Reg, Reg),
    /// `fsqrt dst, a`
    Fsqrt(Reg, Reg),
    /// `fmax dst, a, b`
    Fmax(Reg, Reg, Reg),
    /// `fmov dst, wzr`
    FmovZero(Reg),
    /// `fmov dst, w`: the bits of a general register as an f32
    FmovBits(Reg, Reg),
    /// `cmp counter, bound`
    Cmp(Reg, Reg),
    /// `add dst, base, index, lsl #2`
    AddLsl2(Reg, Reg, Reg),
}

pub open spec fn three_regs(mnemonic: Seq<char>, d: Reg, a: Reg, b: Reg) -> Seq<char> {
    mnemonic + reg_name(d) + ", "@ + reg_name(a) + ", "@ + reg_name(b) + "\n"@
}

/// The line (or, for a wide immediate, the two lines) an instruction is
/// written as.
pub open spec fn line(i: Ins) -> Seq<char> {
    match i {
        Ins::MovzMovk(r, v) => "    movz    "@ + reg_name(r) + ", #0x"@ + hex_padded(lo16(v), 4) + "\n"@ + if hi16(v) != 0 {
            "    movk    "@ + reg_name(r) + ", #0x"@ + hex_padded(hi16(v), 4) + ", lsl #16\n"@
        } else {
            Seq::empty()
        },
        Ins::Mov(d, s) => "    mov     "@ + reg_name(d) + ", "@ + reg_name(s) + "\n"@,
        Ins::Add(d, a, b) => three_regs("    add     "@, d, a, b),
        Ins::Mul(d, a, b) => three_regs("    mul     "@, d, a, b),
        Ins::Ldr(d, b, x) => "    ldr     "@ + reg_name(d) + ", ["@ + reg_name(b) + ", "@ + reg_name(x) + ", lsl #2]\n"@,
        Ins::Str(s, b, x) => "    str     "@ + reg_name(s) + ", ["@ + reg_name(b) + ", "@ + reg_name(x) + ", lsl #2]\n"@,
        Ins::Fadd(d, a, b) => three_regs("    fadd    "@, d, a, b),
        Ins::Fsub(d, a, b) => three_regs("    fsub    "@, d, a, b),
        Ins::Fmul(d, a, b) => three_regs("    fmul    "@, d, a, b),
        Ins::Fdiv(d, a, b) => three_regs("    fdiv    "@, d, a, b),
        Ins::Fmadd(d, a, b, c) => "    fmadd   "@ + reg_name(d) + ", "@ + reg_name(a) + ", "@ + reg_name(b) + ", "@
            + reg_name(c) + "\n"@,
        Ins::Fsqrt(d, a) => "    fsqrt   "@ + reg_name(d) + ", "@ + reg_name(a) + "\n"@,
        Ins::Fmax(d, a, b) => three_regs("    fmax    "@, d, a, b),
        Ins::FmovZero(d) => "    fmov    "@ + reg_name(d) + ", wzr\n"@,
        Ins::FmovBits(d, w) => "    fmov    "@ + reg_name(d) + ", "@ + reg_name(w) + "\n"@,
        Ins::Cmp(a, b) => "    cmp     "@ + reg_name(a) + ", "@ + reg_name(b) + "\n"@,
        Ins::AddLsl2(d, b, x) => "    add     "@ + reg_name(d) + ", "@ + reg_name(b) + ", "@ + reg_name(x) + ", lsl #2\n"@,
    }
}

/// The lines of a piece, in order.
pub open spec fn lines(p: Seq<Ins>) -> Seq<char>
    decreases p.len(),
{
    if p.len() == 0 {
        Seq::empty()
    } else {
        lines(p.drop_last()) + line(p.last())
    }
}

/// The symbolic machine: register values set so far, the stores made, and
/// the comparisons made (the counter, then what it is compared with).
pub struct State {
    pub regs: Map<Reg, Term>,
    pub stores: Seq<Store>,
    pub compares: Seq<(Term, Term)>,
}

/// A register's value: the one last set, else what it held at the start.
pub open spec fn value(st: State, r: Reg) -> Term {
    if st.regs.dom().contains(r) {
        st.regs[r]
    } else {
        Term::Init(r)
    }
}

pub open spec fn set(st: State, r: Reg, v: Term) -> State {
    State { regs: st.regs.insert(r, v), stores: st.stores, compares: st.compares }
}

pub open spec fn bin(st: State, a: Reg, b: Reg) -> (Box<Term>, Box<Term>) {
    (Box::new(value(st, a)), Box::new(value(st, b)))
}

/// The effect of one instruction.
pub open spec fn exec(i: Ins, st: State) -> State {
    match i {
        Ins::MovzMovk(r, v) => set(st, r, Term::Imm(lo16(v) + 65536 * hi16(v))),
        Ins::Mov(d, s) => set(st, d, value(st, s)),
        Ins::Add(d, a, b) => set(st, d, Term::IAdd(bin(st, a, b).0, bin(st, a, b).1)),
        Ins::Mul(d, a, b) => set(st, d, Term::IMul(bin(st, a, b).0, bin(st, a, b).1)),
        Ins::Ldr(d, b, x) => set(st, d, Term::Load(bin(st, b, x).0, bin(st, b, x).1)),
        Ins::Str(s, b, x) => State {
            regs: st.regs,
            stores: st.stores.push(Store::Elem(value(st, b), value(st, x), value(st, s))),
            compares: st.compares,
        },
        Ins::AddLsl2(d, b, x) => set(
            st,
            d,
            Term::IAdd(Box::new(value(st, b)), Box::new(Term::IMul(Box::new(value(st, x)), Box::new(Term::Imm(4))))),
        ),
        Ins::Cmp(a, b) => State {
            regs: st.regs,
            stores: st.stores,
            compares: st.compares.push((value(st, a), value(st, b))),
        },
        Ins::Fadd(d, a, b) => set(st, d, Term::FAdd(bin(st, a, b).0, bin(st, a, b).1)),
        Ins::Fsub(d, a, b) => set(st, d, Term::FSub(bin(st, a, b).0, bin(st, a, b).1)),
        Ins::Fmul(d, a, b) => set(st, d, Term::FMul(bin(st, a, b).0, bin(st, a, b).1)),
        Ins::Fdiv(d, a, b) => set(st, d, Term::FDiv(bin(st, a, b).0, bin(st, a, b).1)),
        Ins::Fmadd(d, a, b, c) => set(
            st,
            d,
            Term::FAdd(Box::new(value(st, c)), Box::new(Term::FMul(bin(st, a, b).0, bin(st, a, b).1))),
        ),
        Ins::Fsqrt(d, a) => set(st, d, Term::FSqrt(Box::new(value(st, a)))),
        Ins::Fmax(d, a, b) => set(st, d, Term::FMax(bin(st, a, b).0, bin(st, a, b).1)),
        Ins::FmovZero(d) => set(st, d, Term::FZero),
        Ins::FmovBits(d, w) => set(st, d, Term::Bits(Box::new(value(st, w)))),
    }
}

/// The machine after a piece, from a start where nothing is set yet.
pub open spec fn run(p: Seq<Ins>) -> State
    decreases p.len(),
{
    if p.len() == 0 {
        State { regs: Map::empty(), stores: Seq::empty(), compares: Seq::empty() }
    } else {
        exec(p.last(), run(p.drop_last()))
    }
}

/// `text` holds a straight-line piece that leaves `r` holding `v`.
pub open spec fn computes(text: Seq<char>, r: Reg, v: Term) -> bool {
    exists|p: Seq<Ins>| #[trigger] has_piece(text, lines(p)) && value(run(p), r) == v
}

/// `text` holds a straight-line piece whose stores are exactly `stores`.
pub open spec fn stores(text: Seq<char>, s: Seq<Store>) -> bool {
    exists|p: Seq<Ins>| #[trigger] has_piece(text, lines(p)) && run(p).stores == s
}

/// `text` holds a straight-line piece that leaves `r` holding `v` and whose
/// stores are exactly `stores`.
pub open spec fn computes_and_stores(text: Seq<char>, r: Reg, v: Term, s: Seq<Store>) -> bool {
    exists|p: Seq<Ins>| #[trigger] has_piece(text, lines(p)) && value(run(p), r) == v && run(p).stores == s
}

/// `text` holds a straight-line piece that compares `counter` with
/// `bound`, and makes no other comparison.
pub open spec fn compares(text: Seq<char>, counter: Term, bound: Term) -> bool {
    exists|p: Seq<Ins>| #[trigger] has_piece(text, lines(p)) && run(p).compares == seq![(counter, bound)]
}

/// A value computed by a piece is computed by any text holding it.
pub proof fn lemma_computes_within(s: Seq<char>, t: Seq<char>, r: Reg, v: Term)
    requires
        has_piece(s, t),
        computes(t, r, v),
    ensures
        computes(s, r, v),
{
    let p = choose|p: Seq<Ins>| #[trigger] has_piece(t, lines(p)) && value(run(p), r) == v;
    lemma_piece_within(s, t, lines(p));
}

/// A comparison made in a piece is made in any text holding it.
pub proof fn lemma_compares_within(s: Seq<char>, t: Seq<char>, counter: Term, bound: Term)
    requires
        has_piece(s, t),
        compares(t, counter, bound),
    ensures
        compares(s, counter, bound),
{
    let p = choose|p: Seq<Ins>| #[trigger] has_piece(t, lines(p)) && run(p).compares == seq![(counter, bound)];
    lemma_piece_within(s, t, lines(p));
}

/// Appending an instruction appends its line and its effect.
pub proof fn lemma_push(p: Seq<Ins>, i: Ins)
    ensures
        lines(p.push(i)) == lines(p) + line(i),
        run(p.push(i)) == exec(i, run(p)),
{
    assert(p.push(i).drop_last() =~= p);
    assert(p.push(i).last() == i);
}

/// The row-major index `row * stride + col`, with the stride an immediate.
pub open spec fn row_major(row: Term, stride: nat, col: Term) -> Term {
    Term::IAdd(Box::new(Term::IMul(Box::new(row), Box::new(Term::Imm(stride)))), Box::new(col))
}

pub open spec fn init(r: Reg) -> Term {
    Term::Init(r)
}

pub open spec fn load(base: Term, index: Term) -> Term {
    Term::Load(Box::new(base), Box::new(index))
}

pub open spec fn iadd(a: Term, b: Term) -> Term {
    Term::IAdd(Box::new(a), Box::new(b))
}

pub open spec fn imul(a: Term, b: Term) -> Term {
    Term::IMul(Box::new(a), Box::new(b))
}

pub open spec fn fadd(a: Term, b: Term) -> Term {
    Term::FAdd(Box::new(a), Box::new(b))
}

pub open spec fn fsub(a: Term, b: Term) -> Term {
    Term::FSub(Box::new(a), Box::new(b))
}

pub open spec fn fmul(a: Term, b: Term) -> Term {
    Term::FMul(Box::new(a), Box::new(b))
}

pub open spec fn fdiv(a: Term, b: Term) -> Term {
    Term::FDiv(Box::new(a), Box::new(b))
}

pub open spec fn fmax(a: Term, b: Term) -> Term {
    Term::FMax(Box::new(a), Box::new(b))
}

pub open spec fn fsqrt(a: Term) -> Term {
    Term::FSqrt(Box::new(a))
}

} // verus!
