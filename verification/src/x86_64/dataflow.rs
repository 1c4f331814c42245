//! What a straight-line piece of the emitted x86_64 text computes.
//!
//! Each instruction form the loop bodies use is given here twice: as the
//! exact line it is written as, and as its effect on a symbolic machine
//! whose values are terms over what the registers, the stack slots and the
//! f32 arrays held when the piece began. A law about an emitter then says
//! that its text holds a piece whose effect is a given term (a register's
//! final value, or the exact list of stores), so it states what the loop
//! body computes from its operands, not which characters it writes.
//!
//! Integer and floating-point arithmetic are kept apart (`IAdd` for
//! `addq`, `FAdd` for `addss`); loads read the arrays as they were when the
//! piece began, which is exact for the pieces below, none of which reads
//! an element it has stored.

use vstd::prelude::*;
use crate::text::{decimal, hex_padded, has_piece, lemma_piece_within};
use crate::x86_64::abi::arg_regs;

verus! {

/// The registers the loop bodies use.
pub enum Reg {
    Rax,
    Rbx,
    Rbp,
    Rdi,
    Rsi,
    Rdx,
    Rcx,
    R8,
    R9,
    R10,
    R11,
    R12,
    R13,
    R14,
    R15,
    Xmm0,
    Xmm1,
    Xmm2,
    Xmm3,
    Xmm4,
    Xmm5,
    Xmm6,
    Xmm7,
    Xmm8,
    Eax,
}

/// The argument registers, in order.
pub open spec fn arg_reg(i: int) -> Reg {
    if i == 0 {
        Reg::Rdi
    } else if i == 1 {
        Reg::Rsi
    } else if i == 2 {
        Reg::Rdx
    } else if i == 3 {
        Reg::Rcx
    } else if i == 4 {
        Reg::R8
    } else {
        Reg::R9
    }
}

pub proof fn lemma_arg_reg(i: int)
    requires
        0 <= i < 6,
    ensures
        reg_name(arg_reg(i)) == arg_regs()[i],
{
}

/// A register's AT&T name.
pub open spec fn reg_name(r: Reg) -> Seq<char> {
    match r {
        Reg::Rax => "%rax"@,
        Reg::Rbx => "%rbx"@,
        Reg::Rbp => "%rbp"@,
        Reg::Rdi => "%rdi"@,
        Reg::Rsi => "%rsi"@,
        Reg::Rdx => "%rdx"@,
        Reg::Rcx => "%rcx"@,
        Reg::R8 => "%r8"@,
        Reg::R9 => "%r9"@,
        Reg::R10 => "%r10"@,
        Reg::R11 => "%r11"@,
        Reg::R12 => "%r12"@,
        Reg::R13 => "%r13"@,
        Reg::R14 => "%r14"@,
        Reg::R15 => "%r15"@,
        Reg::Xmm0 => "%xmm0"@,
        Reg::Xmm1 => "%xmm1"@,
        Reg::Xmm2 => "%xmm2"@,
        Reg::Xmm3 => "%xmm3"@,
        Reg::Xmm4 => "%xmm4"@,
        Reg::Xmm5 => "%xmm5"@,
        Reg::Xmm6 => "%xmm6"@,
        Reg::Xmm7 => "%xmm7"@,
        Reg::Xmm8 => "%xmm8"@,
        Reg::Eax => "%eax"@,
    }
}

/// A value, in terms of the machine as it was when the piece began.
pub enum Term {
    /// What the register held.
    Init(Reg),
    /// An immediate.
    Imm(nat),
    /// The f32 stack slot at this byte offset from `%rsp`.
    Slot(nat),
    /// Element `index` of the f32 array at `base`.
    Load(Box<Term>, Box<Term>),
    IAdd(Box<Term>, Box<Term>),
    IMul(Box<Term>, Box<Term>),
    FAdd(Box<Term>, Box<Term>),
    FSub(Box<Term>, Box<Term>),
    FMul(Box<Term>, Box<Term>),
    FDiv(Box<Term>, Box<Term>),
    FSqrt(Box<Term>),
    FMax(Box<Term>, Box<Term>),
    /// `0.0`
    FZero,
    /// The f32 whose bit pattern is the value.
    Bits(Box<Term>),
    /// The f32 constant at a label of the constant pool.
    Const(Seq<char>),
    /// An f32 rounded to the nearest integer (`cvtss2si`).
    Round(Box<Term>),
    /// An integer as an f32 (`cvtsi2ss`).
    ToFloat(Box<Term>),
    /// A left shift by a fixed count.
    Shl(Box<Term>, nat),
    /// The second value when the first is not positive, else the third.
    IfNonPos(Box<Term>, Box<Term>, Box<Term>),
}

/// A store: an f32 array element (`base`, `index`, value), or a stack slot.
pub enum Store {
    Elem(Term, Term, Term),
    Slot(nat, Term),
}

/// The instruction forms of the loop bodies.
pub enum Ins {
    /// `movl $v, %r10d`
    MovImmR10(nat),
    /// `movq src, dst`
    MovQ(Reg, Reg),
    /// `addq src, dst`
    AddQ(Reg, Reg),
    /// `imulq src, dst`
    ImulQ(Reg, Reg),
    /// `movss (base, index, 4), dst`
    LoadSS(Reg, Reg, Reg),
    /// `movss src, (base, index, 4)`
    StoreSS(Reg, Reg, Reg),
    /// `movss off(%rsp), dst`
    LoadSlot(nat, Reg),
    /// `movss src, off(%rsp)`
    StoreSlot(Reg, nat),
    /// `addss src, dst`
    AddSS(Reg, Reg),
    /// `subss src, dst`
    SubSS(Reg, Reg),
    /// `mulss src, dst`
    MulSS(Reg, Reg),
    /// `divss off(%rsp), dst`
    DivSSSlot(nat, Reg),
    /// `movss src, dst` between registers
    MovSS(Reg, Reg),
    /// `divss src, dst`
    DivSS(Reg, Reg),
    /// `sqrtss src, dst`
    SqrtSS(Reg, Reg),
    /// `maxss src, dst`
    MaxSS(Reg, Reg),
    /// `xorps r, r`
    ZeroPS(Reg),
    /// `movl $0x<hex>, %r10d`
    MovHexR10(nat),
    /// `movd %r10d, dst`
    MovdR10(Reg),
    /// `subss off(%rsp), dst`
    SubSSSlot(nat, Reg),
    /// `movss src, (%rsp)`: the slot at offset 0
    StoreTop(Reg),
    /// `subss (%rsp), dst`
    SubSSTop(Reg),
    /// `cmpq %r10, counter`
    CmpR10(Reg),
    /// `leaq (base, index, 4), dst`
    LeaQ4(Reg, Reg, Reg),
    /// `movss label(%rip), dst`
    LoadRip(Seq<char>, Reg),
    /// `addss label(%rip), dst`
    AddSSRip(Seq<char>, Reg),
    /// `cvtss2si src, dst`
    Cvtss2si(Reg, Reg),
    /// `cvtsi2ss src, dst`
    Cvtsi2ss(Reg, Reg),
    /// `addl $v, dst`
    AddlImm(nat, Reg),
    /// `xorl %r10d, %r10d`
    ZeroR10d,
    /// `testl r, r` then `cmovle %r10d, r`
    ClampNonPos(Reg),
    /// `shll $v, dst`
    ShllImm(nat, Reg),
    /// `movd src, dst`, from a 32-bit general register
    MovdGp(Reg, Reg),
}

pub open spec fn two_regs(mnemonic: Seq<char>, src: Reg, dst: Reg) -> Seq<char> {
    mnemonic + reg_name(src) + ", "@ + reg_name(dst) + "\n"@
}

/// The line an instruction is written as.
pub open spec fn line(i: Ins) -> Seq<char> {
    match i {
        Ins::MovImmR10(v) => "    movl    $"@ + decimal(v) + ", %r10d\n"@,
        Ins::MovQ(s, d) => two_regs("    movq    "@, s, d),
        Ins::AddQ(s, d) => two_regs("    addq    "@, s, d),
        Ins::ImulQ(s, d) => two_regs("    imulq   "@, s, d),
        Ins::LoadSS(b, x, d) => "    movss   ("@ + reg_name(b) + ", "@ + reg_name(x) + ", 4), "@ + reg_name(d)
            + "\n"@,
        Ins::StoreSS(s, b, x) => "    movss   "@ + reg_name(s) + ", ("@ + reg_name(b) + ", "@ + reg_name(x)
            + ", 4)\n"@,
        Ins::LoadSlot(o, d) => "    movss   "@ + decimal(o) + "(%rsp), "@ + reg_name(d) + "\n"@,
        Ins::StoreSlot(s, o) => "    movss   "@ + reg_name(s) + ", "@ + decimal(o) + "(%rsp)\n"@,
        Ins::AddSS(s, d) => two_regs("    addss   "@, s, d),
        Ins::SubSS(s, d) => two_regs("    subss   "@, s, d),
        Ins::MulSS(s, d) => two_regs("    mulss   "@, s, d),
        Ins::DivSSSlot(o, d) => "    divss   "@ + decimal(o) + "(%rsp), "@ + reg_name(d) + "\n"@,
        Ins::MovSS(s, d) => two_regs("    movss   "@, s, d),
        Ins::DivSS(s, d) => two_regs("    divss   "@, s, d),
        Ins::SqrtSS(s, d) => two_regs("    sqrtss  "@, s, d),
        Ins::MaxSS(s, d) => two_regs("    maxss   "@, s, d),
        Ins::ZeroPS(r) => two_regs("    xorps   "@, r, r),
        Ins::MovHexR10(v) => "    movl    $0x"@ + hex_padded(v, 1) + ", %r10d\n"@,
        Ins::MovdR10(d) => "    movd    %r10d, "@ + reg_name(d) + "\n"@,
        Ins::SubSSSlot(o, d) => "    subss   "@ + decimal(o) + "(%rsp), "@ + reg_name(d) + "\n"@,
        Ins::StoreTop(s) => "    movss   "@ + reg_name(s) + ", (%rsp)\n"@,
        Ins::SubSSTop(d) => "    subss   (%rsp), "@ + reg_name(d) + "\n"@,
        Ins::CmpR10(c) => two_regs("    cmpq    "@, Reg::R10, c),
        Ins::LeaQ4(b, x, d) => "    leaq    ("@ + reg_name(b) + ", "@ + reg_name(x) + ", 4), "@ + reg_name(d) + "\n"@,
        Ins::LoadRip(l, d) => "    movss   "@ + l + "(%rip), "@ + reg_name(d) + "\n"@,
        Ins::AddSSRip(l, d) => "    addss   "@ + l + "(%rip), "@ + reg_name(d) + "\n"@,
        Ins::Cvtss2si(s, d) => "    cvtss2si "@ + reg_name(s) + ", "@ + reg_name(d) + "\n"@,
        Ins::Cvtsi2ss(s, d) => "    cvtsi2ss "@ + reg_name(s) + ", "@ + reg_name(d) + "\n"@,
        Ins::AddlImm(v, d) => "    addl    $"@ + decimal(v) + ", "@ + reg_name(d) + "\n"@,
        Ins::ZeroR10d => "    xorl    %r10d, %r10d\n"@,
        Ins::ClampNonPos(r) => "    testl   "@ + reg_name(r) + ", "@ + reg_name(r) + "\n"@ + "    cmovle  %r10d, "@ + reg_name(r)
            + "\n"@,
        Ins::ShllImm(v, d) => "    shll    $"@ + decimal(v) + ", "@ + reg_name(d) + "\n"@,
        Ins::MovdGp(s, d) => two_regs("    movd    "@, s, d),
    }
}

/// The lines of a piece, in order.
pub open spec fn lines(p: Seq<Ins>) -> Seq<char>
    decreases p.len(),
{
    if p.len() == 0 {
        Seq::empty()
    } else {
        lines(p.drop_last()) + line(p.last())
    }
}

/// The symbolic machine: register values set so far, the stores made, and
/// the comparisons made (the counter, then what it is compared with).
pub struct State {
    pub regs: Map<Reg, Term>,
    pub stores: Seq<Store>,
    pub compares: Seq<(Term, Term)>,
}

/// A register's value: the one last set, else what it held at the start.
pub open spec fn value(st: State, r: Reg) -> Term {
    if st.regs.dom().contains(r) {
        st.regs[r]
    } else {
        Term::Init(r)
    }
}

/// Sets a register. `%eax` is the low half of `%rax`: writing either
/// changes both.
pub open spec fn set(st: State, r: Reg, v: Term) -> State {
    let regs = if r == Reg::Rax || r == Reg::Eax {
        st.regs.insert(Reg::Rax, v).insert(Reg::Eax, v)
    } else {
        st.regs.insert(r, v)
    };
    State { regs, stores: st.stores, compares: st.compares }
}

/// The effect of one instruction.
pub open spec fn exec(i: Ins, st: State) -> State {
    match i {
        Ins::MovImmR10(v) => set(st, Reg::R10, Term::Imm(v)),
        Ins::MovQ(s, d) => set(st, d, value(st, s)),
        Ins::AddQ(s, d) => set(st, d, Term::IAdd(Box::new(value(st, d)), Box::new(value(st, s)))),
        Ins::ImulQ(s, d) => set(st, d, Term::IMul(Box::new(value(st, d)), Box::new(value(st, s)))),
        Ins::LoadSS(b, x, d) => set(st, d, Term::Load(Box::new(value(st, b)), Box::new(value(st, x)))),
        Ins::StoreSS(s, b, x) => State {
            regs: st.regs,
            stores: st.stores.push(Store::Elem(value(st, b), value(st, x), value(st, s))),
            compares: st.compares,
        },
        Ins::LoadSlot(o, d) => set(st, d, Term::Slot(o)),
        Ins::StoreSlot(s, o) => State {
            regs: st.regs,
            stores: st.stores.push(Store::Slot(o, value(st, s))),
            compares: st.compares,
        },
        Ins::AddSS(s, d) => set(st, d, Term::FAdd(Box::new(value(st, d)), Box::new(value(st, s)))),
        Ins::SubSS(s, d) => set(st, d, Term::FSub(Box::new(value(st, d)), Box::new(value(st, s)))),
        Ins::MulSS(s, d) => set(st, d, Term::FMul(Box::new(value(st, d)), Box::new(value(st, s)))),
        Ins::DivSSSlot(o, d) => set(st, d, Term::FDiv(Box::new(value(st, d)), Box::new(Term::Slot(o)))),
        Ins::MovSS(s, d) => set(st, d, value(st, s)),
        Ins::DivSS(s, d) => set(st, d, Term::FDiv(Box::new(value(st, d)), Box::new(value(st, s)))),
        Ins::SqrtSS(s, d) => set(st, d, Term::FSqrt(Box::new(value(st, s)))),
        Ins::MaxSS(s, d) => set(st, d, Term::FMax(Box::new(value(st, d)), Box::new(value(st, s)))),
        Ins::ZeroPS(r) => set(st, r, Term::FZero),
        Ins::MovHexR10(v) => set(st, Reg::R10, Term::Imm(v)),
        Ins::MovdR10(d) => set(st, d, Term::Bits(Box::new(value(st, Reg::R10)))),
        Ins::SubSSSlot(o, d) => set(st, d, Term::FSub(Box::new(value(st, d)), Box::new(Term::Slot(o)))),
        Ins::StoreTop(s) => State {
            regs: st.regs,
            stores: st.stores.push(Store::Slot(0, value(st, s))),
            compares: st.compares,
        },
        Ins::LeaQ4(b, x, d) => set(
            st,
            d,
            Term::IAdd(Box::new(value(st, b)), Box::new(Term::IMul(Box::new(value(st, x)), Box::new(Term::Imm(4))))),
        ),
        Ins::LoadRip(l, d) => set(st, d, Term::Const(l)),
        Ins::AddSSRip(l, d) => set(st, d, Term::FAdd(Box::new(value(st, d)), Box::new(Term::Const(l)))),
        Ins::Cvtss2si(s, d) => set(st, d, Term::Round(Box::new(value(st, s)))),
        Ins::Cvtsi2ss(s, d) => set(st, d, Term::ToFloat(Box::new(value(st, s)))),
        Ins::AddlImm(v, d) => set(st, d, Term::IAdd(Box::new(value(st, d)), Box::new(Term::Imm(v)))),
        Ins::ZeroR10d => set(st, Reg::R10, Term::Imm(0)),
        Ins::ClampNonPos(r) => set(
            st,
            r,
            Term::IfNonPos(Box::new(value(st, r)), Box::new(value(st, Reg::R10)), Box::new(value(st, r))),
        ),
        Ins::ShllImm(v, d) => set(st, d, Term::Shl(Box::new(value(st, d)), v)),
        Ins::MovdGp(s, d) => set(st, d, Term::Bits(Box::new(value(st, s)))),
        Ins::CmpR10(c) => State {
            regs: st.regs,
            stores: st.stores,
            compares: st.compares.push((value(st, c), value(st, Reg::R10))),
        },
        Ins::SubSSTop(d) => set(st, d, Term::FSub(Box::new(value(st, d)), Box::new(Term::Slot(0)))),
    }
}

/// The machine after a piece, from a start where nothing is set yet.
pub open spec fn run(p: Seq<Ins>) -> State
    decreases p.len(),
{
    if p.len() == 0 {
        State { regs: Map::empty(), stores: Seq::empty(), compares: Seq::empty() }
    } else {
        exec(p.last(), run(p.drop_last()))
    }
}

/// `text` holds a straight-line piece that leaves `r` holding `v`.
pub open spec fn computes(text: Seq<char>, r: Reg, v: Term) -> bool {
    exists|p: Seq<Ins>| #[trigger] has_piece(text, lines(p)) && value(run(p), r) == v
}

/// `text` holds a straight-line piece whose stores are exactly `stores`.
pub open spec fn stores(text: Seq<char>, s: Seq<Store>) -> bool {
    exists|p: Seq<Ins>| #[trigger] has_piece(text, lines(p)) && run(p).stores == s
}

/// `text` holds a straight-line piece that compares `counter` with
/// `bound`, and makes no other comparison.
pub open spec fn compares(text: Seq<char>, counter: Term, bound: Term) -> bool {
    exists|p: Seq<Ins>| #[trigger] has_piece(text, lines(p)) && run(p).compares == seq![(counter, bound)]
}

/// A value computed by a piece is computed by any text holding it.
pub proof fn lemma_computes_within(s: Seq<char>, t: Seq<char>, r: Reg, v: Term)
    requires
        has_piece(s, t),
        computes(t, r, v),
    ensures
        computes(s, r, v),
{
    let p = choose|p: Seq<Ins>| #[trigger] has_piece(t, lines(p)) && value(run(p), r) == v;
    lemma_piece_within(s, t, lines(p));
}

/// A comparison made in a piece is made in any text holding it.
pub proof fn lemma_compares_within(s: Seq<char>, t: Seq<char>, counter: Term, bound: Term)
    requires
        has_piece(s, t),
        compares(t, counter, bound),
    ensures
        compares(s, counter, bound),
{
    let p = choose|p: Seq<Ins>| #[trigger] has_piece(t, lines(p)) && run(p).compares == seq![(counter, bound)];
    lemma_piece_within(s, t, lines(p));
}

/// Appending an instruction appends its line and its effect.
pub proof fn lemma_push(p: Seq<Ins>, i: Ins)
    ensures
        lines(p.push(i)) == lines(p) + line(i),
        run(p.push(i)) == exec(i, run(p)),
{
    assert(p.push(i).drop_last() =~= p);
    assert(p.push(i).last() == i);
}

/// The row-major index `row * stride + col`.
pub open spec fn row_major(row: Term, stride: nat, col: Term) -> Term {
    Term::IAdd(Box::new(Term::IMul(Box::new(row), Box::new(Term::Imm(stride)))), Box::new(col))
}

pub open spec fn init(r: Reg) -> Term {
    Term::Init(r)
}

pub open spec fn load(base: Term, index: Term) -> Term {
    Term::Load(Box::new(base), Box::new(index))
}

pub open spec fn fadd(a: Term, b: Term) -> Term {
    Term::FAdd(Box::new(a), Box::new(b))
}

pub open spec fn fsub(a: Term, b: Term) -> Term {
    Term::FSub(Box::new(a), Box::new(b))
}

pub open spec fn fmul(a: Term, b: Term) -> Term {
    Term::FMul(Box::new(a), Box::new(b))
}

pub open spec fn fdiv(a: Term, b: Term) -> Term {
    Term::FDiv(Box::new(a), Box::new(b))
}

pub open spec fn fsqrt(a: Term) -> Term {
    Term::FSqrt(Box::new(a))
}

pub open spec fn fmax(a: Term, b: Term) -> Term {
    Term::FMax(Box::new(a), Box::new(b))
}

pub open spec fn iadd(a: Term, b: Term) -> Term {
    Term::IAdd(Box::new(a), Box::new(b))
}

} // verus!
