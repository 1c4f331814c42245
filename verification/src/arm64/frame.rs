//! AArch64 building blocks: 32-bit immediates through `movz`/`movk`, stack
//! pointer adjustment for any frame size, and the function prologue and
//! epilogue.

use vstd::prelude::*;
use crate::text::{
    push_str, push_decimal, push_hex, decimal, hex_padded, has_piece, marks_followed, lemma_marks_absent,
    lemma_marks_concat, lemma_marks_exclude, lemma_decimal_chars, lemma_hex_chars,
};
use crate::types::FnSig;
use crate::arm64::buffer::RegSet;

verus! {

/// The symbol prefix of Mach-O: every C symbol starts with `_`.
pub const MACHO_SYM_PREFIX: &'static str = "_";

/// Whether a function calls out (and so saves the frame and link registers).
#[derive(Debug, Clone, Copy, PartialEq, Eq, Structural)]
pub enum LeafKind {
    Leaf,
    NonLeaf,
}

/// The low 16 bits of a 32-bit value.
pub open spec fn lo16(value: nat) -> nat {
    value % 65536
}

/// Bits 16..32 of a value.
pub open spec fn hi16(value: nat) -> nat {
    (value / 65536) % 65536
}

/// `movz reg, #lo` then, when the high half is nonzero, `movk reg, #hi, lsl #16`.
pub open spec fn movz_movk_text(reg: Seq<char>, value: nat) -> Seq<char> {
    "    movz    "@ + reg + ", #0x"@ + hex_padded(lo16(value), 4) + "\n"@ + if hi16(value) != 0 {
        "    movk    "@ + reg + ", #0x"@ + hex_padded(hi16(value), 4) + ", lsl #16\n"@
    } else {
        Seq::empty()
    }
}

/// Appends the `movz`/`movk` pair loading `value` into `reg`.
pub fn push_movz_movk(s: &mut String, reg: &str, value: u64)
    requires
        value <= u32::MAX,
    ensures
        final(s)@ == old(s)@ + movz_movk_text(reg@, value as nat),
{
    let lo = value % 65536;
    let hi = (value / 65536) % 65536;
    let mut t = "    movz    ".to_owned();
    push_str(&mut t, reg);
    push_str(&mut t, ", #0x");
    push_hex(&mut t, lo, 4);
    push_str(&mut t, "\n");
    if hi != 0 {
        push_str(&mut t, "    movk    ");
        push_str(&mut t, reg);
        push_str(&mut t, ", #0x");
        push_hex(&mut t, hi, 4);
        push_str(&mut t, ", lsl #16\n");
    }
    proof {
        assert(t@ =~= movz_movk_text(reg@, value as nat));
    }
    push_str(s, t.as_str());
}

proof fn lemma_flag_regroup(a: Seq<char>, l: Seq<char>, r1: Seq<char>, r2: Seq<char>)
    ensures
        a + l + r1 + r2 == a + l + (r1 + r2),
        a + Seq::<char>::empty() + r1 + r2 == a + (r1 + r2),
{
    assert(a + l + r1 + r2 =~= a + l + (r1 + r2));
    assert(a + Seq::<char>::empty() + r1 + r2 =~= a + (r1 + r2));
}

/// The `d8`/`d9` flag adds exactly one line to the prologue, the pair's
/// store, and one to the epilogue, its load, and changes nothing else.
pub proof fn lemma_d8_d9_lines(name: Seq<char>, leaf: LeafKind, x19_x23: bool, intermediate_bytes: nat)
    ensures
        exists|a: Seq<char>, c: Seq<char>|
            #![trigger a + c]
            prologue_text(name, leaf, RegSet { d8_d9: true, x19_x23 }, intermediate_bytes) == a
                + "    stp     d8, d9, [sp, #-16]!\n"@ + c && prologue_text(
                name,
                leaf,
                RegSet { d8_d9: false, x19_x23 },
                intermediate_bytes,
            ) == a + c,
        exists|a: Seq<char>, c: Seq<char>|
            #![trigger a + c]
            epilogue_text(leaf, RegSet { d8_d9: true, x19_x23 }, intermediate_bytes) == a
                + "    ldp     d8, d9, [sp], #16\n"@ + c && epilogue_text(leaf, RegSet { d8_d9: false, x19_x23 }, intermediate_bytes)
                == a + c,
{
    let head = ".globl "@ + "_"@ + name + "\n"@ + ".p2align 2\n"@ + "_"@ + name + ":\n"@ + (if x19_x23 {
        x19_x23_saves_text()
    } else {
        Seq::empty()
    });
    let record = if leaf == LeafKind::NonLeaf {
        "    stp     x29, x30, [sp, #-16]!\n"@ + "    mov     x29, sp\n"@
    } else {
        Seq::empty()
    };
    let frame = if intermediate_bytes > 0 { sp_adjust_text("sub"@, intermediate_bytes) } else { Seq::empty() };
    lemma_flag_regroup(head, "    stp     d8, d9, [sp, #-16]!\n"@, record, frame);
    // The witnesses, `a + c` with the flag off.
    assert(head + (record + frame) == head + (record + frame));
    let release = (if intermediate_bytes > 0 { sp_adjust_text("add"@, intermediate_bytes) } else { Seq::empty() })
        + (if leaf == LeafKind::NonLeaf { "    ldp     x29, x30, [sp], #16\n"@ } else { Seq::empty() });
    let rest = if x19_x23 { x19_x23_restores_text() } else { Seq::empty() };
    lemma_flag_regroup(release, "    ldp     d8, d9, [sp], #16\n"@, rest, "    ret\n"@);
    assert(release + (rest + "    ret\n"@) == release + (rest + "    ret\n"@));
}

/// `movz` then `movk` load exactly `value`: each half fits the 16-bit
/// immediate, the low half plus the high half shifted by 16 is `value`,
/// and the `movk` is left out only when the low half alone is `value`.
pub proof fn lemma_movz_movk_loads(value: nat)
    requires
        value <= u32::MAX,
    ensures
        lo16(value) < 65536,
        hi16(value) < 65536,
        lo16(value) + 65536 * hi16(value) == value,
        hi16(value) == 0 <==> lo16(value) == value,
{
}

/// An `sp` adjustment moves `sp` by exactly `n`: the shifted form is used
/// only where `n` is a 12-bit immediate times 4096, and the long form goes
/// through `w9` loaded with `n` itself.
pub proof fn lemma_sp_adjust_moves_by(mnemonic: Seq<char>, n: nat)
    requires
        n <= u32::MAX,
    ensures
        4095 < n <= SHIFTED_IMM_MAX && n % 4096 == 0 ==> n / 4096 <= 4095 && 4096 * (n / 4096) == n
            && sp_adjust_text(mnemonic, n) == "    "@ + mnemonic + "     sp, sp, #"@ + decimal(n / 4096) + ", lsl #12\n"@,
        !(n <= 4095) && !(n <= SHIFTED_IMM_MAX && n % 4096 == 0) ==> sp_adjust_text(mnemonic, n) == movz_movk_text("w9"@, n)
            + "    "@ + mnemonic + "     sp, sp, x9\n"@,
{
    lemma_movz_movk_loads(n);
}

/// Materialises an unsigned value of at most 32 bits into a register:
/// `mov` takes only 16-bit immediates, so `movz` plus an optional `movk`.
pub fn emit_imm32(reg: &str, value: usize) -> (s: String)
    requires
        value <= u32::MAX,
    ensures
        s@ == movz_movk_text(reg@, value as nat),
{
    let mut s = String::new();
    push_movz_movk(&mut s, reg, value as u64);
    s
}

/// Largest `sub`/`add` immediate shifted by 12: 4095 * 4096.
pub const SHIFTED_IMM_MAX: usize = 16_773_120;

/// `sub sp`/`add sp` by `n` bytes: a 12-bit immediate, a 12-bit immediate
/// shifted by 12 for multiples of 4096, else the size through `w9`.
pub open spec fn sp_adjust_text(mnemonic: Seq<char>, n: nat) -> Seq<char> {
    if n <= 4095 {
        "    "@ + mnemonic + "     sp, sp, #"@ + decimal(n) + "\n"@
    } else if n <= SHIFTED_IMM_MAX && n % 4096 == 0 {
        "    "@ + mnemonic + "     sp, sp, #"@ + decimal(n / 4096) + ", lsl #12\n"@
    } else {
        movz_movk_text("w9"@, n) + "    "@ + mnemonic + "     sp, sp, x9\n"@
    }
}

fn sp_adjust(mnemonic: &str, n_bytes: usize) -> (s: String)
    requires
        n_bytes <= u32::MAX,
    ensures
        s@ == sp_adjust_text(mnemonic@, n_bytes as nat),
{
    let mut s = "    ".to_owned();
    if n_bytes <= 4095 {
        push_str(&mut s, mnemonic);
        push_str(&mut s, "     sp, sp, #");
        push_decimal(&mut s, n_bytes as u64);
        push_str(&mut s, "\n");
        s
    } else if n_bytes <= SHIFTED_IMM_MAX && n_bytes % 4096 == 0 {
        push_str(&mut s, mnemonic);
        push_str(&mut s, "     sp, sp, #");
        push_decimal(&mut s, (n_bytes / 4096) as u64);
        push_str(&mut s, ", lsl #12\n");
        s
    } else {
        let mut t = String::new();
        push_movz_movk(&mut t, "w9", n_bytes as u64);
        push_str(&mut t, "    ");
        push_str(&mut t, mnemonic);
        push_str(&mut t, "     sp, sp, x9\n");
        t
    }
}

/// Emits `sub sp, sp, #n` (or its long forms) for a frame of any 32-bit size.
pub fn emit_sp_sub(n_bytes: usize) -> (s: String)
    requires
        n_bytes <= u32::MAX,
    ensures
        s@ == sp_adjust_text("sub"@, n_bytes as nat),
{
    sp_adjust("sub", n_bytes)
}

/// The matching `add sp, sp, #n`.
pub fn emit_sp_add(n_bytes: usize) -> (s: String)
    requires
        n_bytes <= u32::MAX,
    ensures
        s@ == sp_adjust_text("add"@, n_bytes as nat),
{
    sp_adjust("add", n_bytes)
}

pub open spec fn x19_x23_saves_text() -> Seq<char> {
    "    stp     x19, x20, [sp, #-16]!\n"@ + "    stp     x21, x22, [sp, #-16]!\n"@
        + "    str     x23, [sp, #-16]!\n"@
}

pub open spec fn x19_x23_restores_text() -> Seq<char> {
    "    ldr     x23, [sp], #16\n"@ + "    ldp     x21, x22, [sp], #16\n"@
        + "    ldp     x19, x20, [sp], #16\n"@
}

/// Header and prologue: `.globl`, alignment, label; then the callee-saved
/// integer registers, `d8`/`d9`, the frame record when the function calls
/// out, and the stack buffers.
pub open spec fn prologue_text(name: Seq<char>, leaf: LeafKind, regs: RegSet, intermediate_bytes: nat) -> Seq<char> {
    ".globl "@ + "_"@ + name + "\n"@ + ".p2align 2\n"@ + "_"@ + name + ":\n"@
        + (if regs.x19_x23 { x19_x23_saves_text() } else { Seq::empty() })
        + (if regs.d8_d9 { "    stp     d8, d9, [sp, #-16]!\n"@ } else { Seq::empty() })
        + (if leaf == LeafKind::NonLeaf {
            "    stp     x29, x30, [sp, #-16]!\n"@ + "    mov     x29, sp\n"@
        } else {
            Seq::empty()
        })
        + (if intermediate_bytes > 0 { sp_adjust_text("sub"@, intermediate_bytes) } else { Seq::empty() })
}

/// The epilogue: the prologue undone in reverse order, then `ret`.
pub open spec fn epilogue_text(leaf: LeafKind, regs: RegSet, intermediate_bytes: nat) -> Seq<char> {
    (if intermediate_bytes > 0 { sp_adjust_text("add"@, intermediate_bytes) } else { Seq::empty() })
        + (if leaf == LeafKind::NonLeaf { "    ldp     x29, x30, [sp], #16\n"@ } else { Seq::empty() })
        + (if regs.d8_d9 { "    ldp     d8, d9, [sp], #16\n"@ } else { Seq::empty() })
        + (if regs.x19_x23 { x19_x23_restores_text() } else { Seq::empty() })
        + "    ret\n"@
}

/// One 16-byte save slot: a pair of registers, or one register alone.
pub open spec fn store_line(group: Seq<Seq<char>>) -> Seq<char> {
    if group.len() == 2 {
        "    stp     "@ + group[0] + ", "@ + group[1] + ", [sp, #-16]!\n"@
    } else {
        "    str     "@ + group[0] + ", [sp, #-16]!\n"@
    }
}

/// The load giving a save slot back to its registers.
pub open spec fn load_line(group: Seq<Seq<char>>) -> Seq<char> {
    if group.len() == 2 {
        "    ldp     "@ + group[0] + ", "@ + group[1] + ", [sp], #16\n"@
    } else {
        "    ldr     "@ + group[0] + ", [sp], #16\n"@
    }
}

/// Stores of `groups`, first group first.
pub open spec fn stores_text(groups: Seq<Seq<Seq<char>>>) -> Seq<char>
    decreases groups.len(),
{
    if groups.len() == 0 {
        Seq::empty()
    } else {
        stores_text(groups.drop_last()) + store_line(groups.last())
    }
}

/// Loads of `groups`, last group first.
pub open spec fn loads_text(groups: Seq<Seq<Seq<char>>>) -> Seq<char>
    decreases groups.len(),
{
    if groups.len() == 0 {
        Seq::empty()
    } else {
        load_line(groups.last()) + loads_text(groups.drop_last())
    }
}

/// The register groups the prologue saves, in save order: `x19`..`x23`
/// when the body uses them, `d8`/`d9` when it uses them, and the frame
/// record `x29`/`x30` of a function that calls out.
pub open spec fn saved_groups(leaf: LeafKind, regs: RegSet) -> Seq<Seq<Seq<char>>> {
    (if regs.x19_x23 {
        seq![seq!["x19"@, "x20"@], seq!["x21"@, "x22"@], seq!["x23"@]]
    } else {
        Seq::empty()
    }) + (if regs.d8_d9 { seq![seq!["d8"@, "d9"@]] } else { Seq::empty() }) + (if leaf == LeafKind::NonLeaf {
        seq![seq!["x29"@, "x30"@]]
    } else {
        Seq::empty()
    })
}

proof fn lemma_stores_append(a: Seq<Seq<Seq<char>>>, b: Seq<Seq<Seq<char>>>)
    ensures
        stores_text(a + b) == stores_text(a) + stores_text(b),
        loads_text(a + b) == loads_text(b) + loads_text(a),
    decreases b.len(),
{
    if b.len() == 0 {
        assert(a + b =~= a);
    } else {
        assert((a + b).drop_last() =~= a + b.drop_last());
        lemma_stores_append(a, b.drop_last());
    }
}

proof fn lemma_saved_group_text(leaf: LeafKind, regs: RegSet)
    ensures
        stores_text(if regs.x19_x23 {
            seq![seq!["x19"@, "x20"@], seq!["x21"@, "x22"@], seq!["x23"@]]
        } else {
            Seq::empty()
        }) == if regs.x19_x23 { x19_x23_saves_text() } else { Seq::empty() },
        loads_text(if regs.x19_x23 {
            seq![seq!["x19"@, "x20"@], seq!["x21"@, "x22"@], seq!["x23"@]]
        } else {
            Seq::empty()
        }) == if regs.x19_x23 { x19_x23_restores_text() } else { Seq::empty() },
        stores_text(if regs.d8_d9 { seq![seq!["d8"@, "d9"@]] } else { Seq::empty() })
            == if regs.d8_d9 { "    stp     d8, d9, [sp, #-16]!\n"@ } else { Seq::empty() },
        loads_text(if regs.d8_d9 { seq![seq!["d8"@, "d9"@]] } else { Seq::empty() })
            == if regs.d8_d9 { "    ldp     d8, d9, [sp], #16\n"@ } else { Seq::empty() },
        stores_text(if leaf == LeafKind::NonLeaf { seq![seq!["x29"@, "x30"@]] } else { Seq::empty() })
            == if leaf == LeafKind::NonLeaf { "    stp     x29, x30, [sp, #-16]!\n"@ } else { Seq::empty() },
        loads_text(if leaf == LeafKind::NonLeaf { seq![seq!["x29"@, "x30"@]] } else { Seq::empty() })
            == if leaf == LeafKind::NonLeaf { "    ldp     x29, x30, [sp], #16\n"@ } else { Seq::empty() },
{
    reveal_strlit("    stp     ");
    reveal_strlit("    ldp     ");
    reveal_strlit("    str     ");
    reveal_strlit("    ldr     ");
    reveal_strlit(", ");
    reveal_strlit(", [sp, #-16]!\n");
    reveal_strlit(", [sp], #16\n");
    let e = Seq::<Seq<Seq<char>>>::empty();
    assert(stores_text(e) == Seq::<char>::empty());
    assert(loads_text(e) == Seq::<char>::empty());
    if regs.x19_x23 {
        reveal_strlit("x19");
        reveal_strlit("x20");
        reveal_strlit("x21");
        reveal_strlit("x22");
        reveal_strlit("x23");
        reveal_strlit("    stp     x19, x20, [sp, #-16]!\n");
        reveal_strlit("    stp     x21, x22, [sp, #-16]!\n");
        reveal_strlit("    str     x23, [sp, #-16]!\n");
        reveal_strlit("    ldr     x23, [sp], #16\n");
        reveal_strlit("    ldp     x21, x22, [sp], #16\n");
        reveal_strlit("    ldp     x19, x20, [sp], #16\n");
        let g1 = seq!["x19"@, "x20"@];
        let g2 = seq!["x21"@, "x22"@];
        let g3 = seq!["x23"@];
        let gs = seq![g1, g2, g3];
        assert(gs.drop_last() =~= seq![g1, g2]);
        assert(seq![g1, g2].drop_last() =~= seq![g1]);
        assert(seq![g1].drop_last() =~= e);
        assert(store_line(g1) =~= "    stp     x19, x20, [sp, #-16]!\n"@);
        assert(store_line(g2) =~= "    stp     x21, x22, [sp, #-16]!\n"@);
        assert(store_line(g3) =~= "    str     x23, [sp, #-16]!\n"@);
        assert(load_line(g1) =~= "    ldp     x19, x20, [sp], #16\n"@);
        assert(load_line(g2) =~= "    ldp     x21, x22, [sp], #16\n"@);
        assert(load_line(g3) =~= "    ldr     x23, [sp], #16\n"@);
        assert(stores_text(seq![g1]) =~= store_line(g1));
        assert(stores_text(seq![g1, g2]) =~= store_line(g1) + store_line(g2));
        assert(stores_text(gs) =~= x19_x23_saves_text());
        assert(loads_text(seq![g1]) =~= load_line(g1));
        assert(loads_text(seq![g1, g2]) =~= load_line(g2) + load_line(g1));
        assert(loads_text(gs) =~= x19_x23_restores_text());
    }
    if regs.d8_d9 {
        reveal_strlit("d8");
        reveal_strlit("d9");
        reveal_strlit("    stp     d8, d9, [sp, #-16]!\n");
        reveal_strlit("    ldp     d8, d9, [sp], #16\n");
        let g = seq!["d8"@, "d9"@];
        assert(seq![g].drop_last() =~= e);
        assert(stores_text(seq![g]) =~= "    stp     d8, d9, [sp, #-16]!\n"@);
        assert(loads_text(seq![g]) =~= "    ldp     d8, d9, [sp], #16\n"@);
    }
    if leaf == LeafKind::NonLeaf {
        reveal_strlit("x29");
        reveal_strlit("x30");
        reveal_strlit("    stp     x29, x30, [sp, #-16]!\n");
        reveal_strlit("    ldp     x29, x30, [sp], #16\n");
        let g = seq!["x29"@, "x30"@];
        assert(seq![g].drop_last() =~= e);
        assert(stores_text(seq![g]) =~= "    stp     x29, x30, [sp, #-16]!\n"@);
        assert(loads_text(seq![g]) =~= "    ldp     x29, x30, [sp], #16\n"@);
    }
}

/// The epilogue undoes the prologue in reverse: it adds back exactly the
/// bytes the prologue subtracted, then loads the saved register groups
/// last saved first, each from its own 16-byte slot, and returns.
#[verifier::rlimit(30)]
pub proof fn lemma_epilogue_undoes_prologue(name: Seq<char>, leaf: LeafKind, regs: RegSet, intermediate_bytes: nat)
    ensures
        prologue_text(name, leaf, regs, intermediate_bytes) == ".globl "@ + "_"@ + name + "\n"@ + ".p2align 2\n"@ + "_"@
            + name + ":\n"@ + stores_text(saved_groups(leaf, regs)) + (if leaf == LeafKind::NonLeaf {
            "    mov     x29, sp\n"@
        } else {
            Seq::empty()
        }) + (if intermediate_bytes > 0 { sp_adjust_text("sub"@, intermediate_bytes) } else { Seq::empty() }),
        epilogue_text(leaf, regs, intermediate_bytes) == (if intermediate_bytes > 0 {
            sp_adjust_text("add"@, intermediate_bytes)
        } else {
            Seq::empty()
        }) + loads_text(saved_groups(leaf, regs)) + "    ret\n"@,
{
    let a = if regs.x19_x23 {
        seq![seq!["x19"@, "x20"@], seq!["x21"@, "x22"@], seq!["x23"@]]
    } else {
        Seq::empty()
    };
    let b = if regs.d8_d9 { seq![seq!["d8"@, "d9"@]] } else { Seq::<Seq<Seq<char>>>::empty() };
    let c = if leaf == LeafKind::NonLeaf { seq![seq!["x29"@, "x30"@]] } else { Seq::<Seq<Seq<char>>>::empty() };
    lemma_saved_group_text(leaf, regs);
    lemma_stores_append(a, b);
    lemma_stores_append(a + b, c);
    reveal_strlit("    stp     x29, x30, [sp, #-16]!\n");
    reveal_strlit("    mov     x29, sp\n");
    reveal_strlit("    stp     x29, x30, [sp, #-16]!\n    mov     x29, sp\n");
    let record = if leaf == LeafKind::NonLeaf {
        "    stp     x29, x30, [sp, #-16]!\n"@ + "    mov     x29, sp\n"@
    } else {
        Seq::empty()
    };
    let mv = if leaf == LeafKind::NonLeaf { "    mov     x29, sp\n"@ } else { Seq::empty() };
    assert(record =~= stores_text(c) + mv);
    assert(prologue_text(name, leaf, regs, intermediate_bytes) =~= ".globl "@ + "_"@ + name + "\n"@ + ".p2align 2\n"@ + "_"@
            + name + ":\n"@ + stores_text(saved_groups(leaf, regs)) + mv + (if intermediate_bytes > 0 { sp_adjust_text("sub"@, intermediate_bytes) } else { Seq::empty() }));
    assert(epilogue_text(leaf, regs, intermediate_bytes) =~= (if intermediate_bytes > 0 {
            sp_adjust_text("add"@, intermediate_bytes)
        } else {
            Seq::empty()
        }) + loads_text(saved_groups(leaf, regs)) + "    ret\n"@);
}

fn optional(cond: bool, text: &str) -> (s: String)
    ensures
        s@ == if cond { text@ } else { Seq::empty() },
{
    if cond {
        text.to_owned()
    } else {
        String::new()
    }
}

/// Formats the function header and prologue.
pub fn format_function_prologue(sig: &FnSig, leaf: LeafKind, regs: RegSet, intermediate_bytes: usize) -> (s: String)
    requires
        intermediate_bytes <= u32::MAX,
    ensures
        s@ == prologue_text(sig.name@, leaf, regs, intermediate_bytes as nat),
{
    let mut s = ".globl ".to_owned();
    push_str(&mut s, MACHO_SYM_PREFIX);
    push_str(&mut s, sig.name.as_str());
    push_str(&mut s, "\n");
    push_str(&mut s, ".p2align 2\n");
    push_str(&mut s, MACHO_SYM_PREFIX);
    push_str(&mut s, sig.name.as_str());
    push_str(&mut s, ":\n");
    let ints = if regs.contains_x19_x23() {
        let mut t = "    stp     x19, x20, [sp, #-16]!\n".to_owned();
        push_str(&mut t, "    stp     x21, x22, [sp, #-16]!\n");
        push_str(&mut t, "    str     x23, [sp, #-16]!\n");
        t
    } else {
        String::new()
    };
    push_str(&mut s, ints.as_str());
    let floats = optional(regs.contains_d8_d9(), "    stp     d8, d9, [sp, #-16]!\n");
    push_str(&mut s, floats.as_str());
    let record = if leaf == LeafKind::NonLeaf {
        let mut t = "    stp     x29, x30, [sp, #-16]!\n".to_owned();
        push_str(&mut t, "    mov     x29, sp\n");
        t
    } else {
        String::new()
    };
    push_str(&mut s, record.as_str());
    let frame = if intermediate_bytes > 0 { emit_sp_sub(intermediate_bytes) } else { String::new() };
    push_str(&mut s, frame.as_str());
    proof {
        assert(MACHO_SYM_PREFIX@ == "_"@);
        assert(s@ =~= prologue_text(sig.name@, leaf, regs, intermediate_bytes as nat));
    }
    s
}

/// Formats the epilogue matching `format_function_prologue`.
pub fn format_function_epilogue(leaf: LeafKind, regs: RegSet, intermediate_bytes: usize) -> (s: String)
    requires
        intermediate_bytes <= u32::MAX,
    ensures
        s@ == epilogue_text(leaf, regs, intermediate_bytes as nat),
{
    let mut s = if intermediate_bytes > 0 { emit_sp_add(intermediate_bytes) } else { String::new() };
    let record = optional(leaf == LeafKind::NonLeaf, "    ldp     x29, x30, [sp], #16\n");
    push_str(&mut s, record.as_str());
    let floats = optional(regs.contains_d8_d9(), "    ldp     d8, d9, [sp], #16\n");
    push_str(&mut s, floats.as_str());
    let ints = if regs.contains_x19_x23() {
        let mut t = "    ldr     x23, [sp], #16\n".to_owned();
        push_str(&mut t, "    ldp     x21, x22, [sp], #16\n");
        push_str(&mut t, "    ldp     x19, x20, [sp], #16\n");
        t
    } else {
        String::new()
    };
    push_str(&mut s, ints.as_str());
    push_str(&mut s, "    ret\n");
    proof {
        assert(s@ =~= epilogue_text(leaf, regs, intermediate_bytes as nat));
    }
    s
}


/// What follows a `,` two characters on in a frame without `d8`/`d9`:
/// anything but the `d` of a `d` register.
pub open spec fn not_d() -> spec_fn(char) -> bool {
    |c: char| c != 'd'
}

/// A decimal number has no `,`.
proof fn lemma_decimal_marks(n: nat)
    ensures
        marks_followed(decimal(n), ',', 2, not_d()),
{
    lemma_decimal_chars(n);
    let d = decimal(n);
    assert forall|i: int| 0 <= i < d.len() implies d[i] != ',' by {
        assert(48 <= d[i] as int);
    }
    lemma_marks_absent(d, ',', 2, not_d());
}

/// A hexadecimal number has no `,`.
proof fn lemma_hex_marks(n: nat, width: nat)
    ensures
        marks_followed(hex_padded(n, width), ',', 2, not_d()),
{
    lemma_hex_chars(n, width);
    let h = hex_padded(n, width);
    assert forall|i: int| 0 <= i < h.len() implies h[i] != ',' by {
        assert(48 <= h[i] as int);
    }
    lemma_marks_absent(h, ',', 2, not_d());
}

proof fn lemma_movz_movk_marks(reg: Seq<char>, value: nat)
    requires
        forall|i: int| 0 <= i < reg.len() ==> reg[i] != ',',
    ensures
        marks_followed(movz_movk_text(reg, value), ',', 2, not_d()),
{
    let ok = not_d();
    reveal_strlit("    movz    ");
    reveal_strlit("    movk    ");
    reveal_strlit(", #0x");
    reveal_strlit("\n");
    reveal_strlit(", lsl #16\n");
    lemma_marks_absent("    movz    "@, ',', 2, ok);
    lemma_marks_absent("    movk    "@, ',', 2, ok);
    lemma_marks_absent("\n"@, ',', 2, ok);
    lemma_marks_absent(reg, ',', 2, ok);
    lemma_marks_absent(Seq::<char>::empty(), ',', 2, ok);
    assert(marks_followed(", #0x"@, ',', 2, ok));
    assert(marks_followed(", lsl #16\n"@, ',', 2, ok));
    lemma_hex_marks(lo16(value), 4);
    lemma_hex_marks(hi16(value), 4);
    let lo = "    movz    "@ + reg + ", #0x"@ + hex_padded(lo16(value), 4) + "\n"@;
    lemma_marks_concat("    movz    "@, reg, ',', 2, ok);
    lemma_marks_concat("    movz    "@ + reg, ", #0x"@, ',', 2, ok);
    lemma_marks_concat("    movz    "@ + reg + ", #0x"@, hex_padded(lo16(value), 4), ',', 2, ok);
    lemma_marks_concat("    movz    "@ + reg + ", #0x"@ + hex_padded(lo16(value), 4), "\n"@, ',', 2, ok);
    let hi = "    movk    "@ + reg + ", #0x"@ + hex_padded(hi16(value), 4) + ", lsl #16\n"@;
    lemma_marks_concat("    movk    "@, reg, ',', 2, ok);
    lemma_marks_concat("    movk    "@ + reg, ", #0x"@, ',', 2, ok);
    lemma_marks_concat("    movk    "@ + reg + ", #0x"@, hex_padded(hi16(value), 4), ',', 2, ok);
    lemma_marks_concat(
        "    movk    "@ + reg + ", #0x"@ + hex_padded(hi16(value), 4),
        ", lsl #16\n"@,
        ',',
        2,
        ok,
    );
    lemma_marks_concat(lo, hi, ',', 2, ok);
    lemma_marks_concat(lo, Seq::<char>::empty(), ',', 2, ok);
}

proof fn lemma_sp_adjust_marks(mnemonic: Seq<char>, n: nat)
    requires
        forall|i: int| 0 <= i < mnemonic.len() ==> mnemonic[i] != ',',
    ensures
        marks_followed(sp_adjust_text(mnemonic, n), ',', 2, not_d()),
{
    let ok = not_d();
    reveal_strlit("    ");
    reveal_strlit("     sp, sp, #");
    reveal_strlit("\n");
    reveal_strlit(", lsl #12\n");
    reveal_strlit("     sp, sp, x9\n");
    reveal_strlit("w9");
    lemma_marks_absent("    "@, ',', 2, ok);
    lemma_marks_absent(mnemonic, ',', 2, ok);
    lemma_marks_absent("\n"@, ',', 2, ok);
    assert(marks_followed("     sp, sp, #"@, ',', 2, ok));
    assert(marks_followed(", lsl #12\n"@, ',', 2, ok));
    assert(marks_followed("     sp, sp, x9\n"@, ',', 2, ok));
    lemma_marks_concat("    "@, mnemonic, ',', 2, ok);
    if n <= 4095 || (n <= SHIFTED_IMM_MAX && n % 4096 == 0) {
        let pre = "    "@ + mnemonic + "     sp, sp, #"@;
        lemma_marks_concat("    "@ + mnemonic, "     sp, sp, #"@, ',', 2, ok);
        if n <= 4095 {
            lemma_decimal_marks(n);
            lemma_marks_concat(pre, decimal(n), ',', 2, ok);
            lemma_marks_concat(pre + decimal(n), "\n"@, ',', 2, ok);
        } else {
            lemma_decimal_marks(n / 4096);
            lemma_marks_concat(pre, decimal(n / 4096), ',', 2, ok);
            lemma_marks_concat(pre + decimal(n / 4096), ", lsl #12\n"@, ',', 2, ok);
        }
    } else {
        lemma_movz_movk_marks("w9"@, n);
        lemma_marks_concat("    "@ + mnemonic, "     sp, sp, x9\n"@, ',', 2, ok);
        lemma_marks_concat(movz_movk_text("w9"@, n), "    "@ + mnemonic + "     sp, sp, x9\n"@, ',', 2, ok);
        assert(movz_movk_text("w9"@, n) + ("    "@ + mnemonic + "     sp, sp, x9\n"@) =~= sp_adjust_text(
            mnemonic,
            n,
        ));
    }
}

/// Every `,` of a prologue without `d8`/`d9` is followed two characters on
/// by something other than a `d` register.
proof fn lemma_plain_prologue_marks(name: Seq<char>, leaf: LeafKind, x19_x23: bool, intermediate_bytes: nat)
    requires
        forall|i: int| 0 <= i < name.len() ==> name[i] != ',',
    ensures
        marks_followed(
            prologue_text(name, leaf, RegSet { d8_d9: false, x19_x23 }, intermediate_bytes),
            ',',
            2,
            not_d(),
        ),
{
    let ok = not_d();
    reveal_strlit(".globl ");
    reveal_strlit("_");
    reveal_strlit("\n");
    reveal_strlit(".p2align 2\n");
    reveal_strlit(":\n");
    reveal_strlit("    stp     x19, x20, [sp, #-16]!\n");
    reveal_strlit("    stp     x21, x22, [sp, #-16]!\n");
    reveal_strlit("    str     x23, [sp, #-16]!\n");
    reveal_strlit("    stp     x29, x30, [sp, #-16]!\n");
    reveal_strlit("    mov     x29, sp\n");
    reveal_strlit("sub");
    lemma_marks_absent(".globl "@, ',', 2, ok);
    lemma_marks_absent("_"@, ',', 2, ok);
    lemma_marks_absent(name, ',', 2, ok);
    lemma_marks_absent("\n"@, ',', 2, ok);
    lemma_marks_absent(".p2align 2\n"@, ',', 2, ok);
    lemma_marks_absent(":\n"@, ',', 2, ok);
    lemma_marks_absent(Seq::<char>::empty(), ',', 2, ok);
    assert(marks_followed("    stp     x19, x20, [sp, #-16]!\n"@, ',', 2, ok));
    assert(marks_followed("    stp     x21, x22, [sp, #-16]!\n"@, ',', 2, ok));
    assert(marks_followed("    str     x23, [sp, #-16]!\n"@, ',', 2, ok));
    assert(marks_followed("    stp     x29, x30, [sp, #-16]!\n"@, ',', 2, ok));
    assert(marks_followed("    mov     x29, sp\n"@, ',', 2, ok));
    let mut acc = ".globl "@;
    lemma_marks_concat(acc, "_"@, ',', 2, ok);
    acc = acc + "_"@;
    lemma_marks_concat(acc, name, ',', 2, ok);
    acc = acc + name;
    lemma_marks_concat(acc, "\n"@, ',', 2, ok);
    acc = acc + "\n"@;
    lemma_marks_concat(acc, ".p2align 2\n"@, ',', 2, ok);
    acc = acc + ".p2align 2\n"@;
    lemma_marks_concat(acc, "_"@, ',', 2, ok);
    acc = acc + "_"@;
    lemma_marks_concat(acc, name, ',', 2, ok);
    acc = acc + name;
    lemma_marks_concat(acc, ":\n"@, ',', 2, ok);
    acc = acc + ":\n"@;
    let saves = if x19_x23 { x19_x23_saves_text() } else { Seq::empty() };
    lemma_marks_concat("    stp     x19, x20, [sp, #-16]!\n"@, "    stp     x21, x22, [sp, #-16]!\n"@, ',', 2, ok);
    lemma_marks_concat(
        "    stp     x19, x20, [sp, #-16]!\n"@ + "    stp     x21, x22, [sp, #-16]!\n"@,
        "    str     x23, [sp, #-16]!\n"@,
        ',',
        2,
        ok,
    );
    lemma_marks_concat(acc, saves, ',', 2, ok);
    acc = acc + saves;
    lemma_marks_concat(acc, Seq::<char>::empty(), ',', 2, ok);
    acc = acc + Seq::<char>::empty();
    let record = if leaf == LeafKind::NonLeaf {
        "    stp     x29, x30, [sp, #-16]!\n"@ + "    mov     x29, sp\n"@
    } else {
        Seq::empty()
    };
    lemma_marks_concat("    stp     x29, x30, [sp, #-16]!\n"@, "    mov     x29, sp\n"@, ',', 2, ok);
    lemma_marks_concat(acc, record, ',', 2, ok);
    acc = acc + record;
    let adjust = if intermediate_bytes > 0 { sp_adjust_text("sub"@, intermediate_bytes) } else { Seq::empty() };
    lemma_sp_adjust_marks("sub"@, intermediate_bytes);
    lemma_marks_concat(acc, adjust, ',', 2, ok);
    acc = acc + adjust;
    assert(acc =~= prologue_text(name, leaf, RegSet { d8_d9: false, x19_x23 }, intermediate_bytes));
}

/// The same of an epilogue without `d8`/`d9`.
proof fn lemma_plain_epilogue_marks(leaf: LeafKind, x19_x23: bool, intermediate_bytes: nat)
    ensures
        marks_followed(epilogue_text(leaf, RegSet { d8_d9: false, x19_x23 }, intermediate_bytes), ',', 2, not_d()),
{
    let ok = not_d();
    reveal_strlit("add");
    reveal_strlit("    ldp     x29, x30, [sp], #16\n");
    reveal_strlit("    ldr     x23, [sp], #16\n");
    reveal_strlit("    ldp     x21, x22, [sp], #16\n");
    reveal_strlit("    ldp     x19, x20, [sp], #16\n");
    reveal_strlit("    ret\n");
    lemma_marks_absent(Seq::<char>::empty(), ',', 2, ok);
    lemma_marks_absent("    ret\n"@, ',', 2, ok);
    assert(marks_followed("    ldp     x29, x30, [sp], #16\n"@, ',', 2, ok));
    assert(marks_followed("    ldr     x23, [sp], #16\n"@, ',', 2, ok));
    assert(marks_followed("    ldp     x21, x22, [sp], #16\n"@, ',', 2, ok));
    assert(marks_followed("    ldp     x19, x20, [sp], #16\n"@, ',', 2, ok));
    let adjust = if intermediate_bytes > 0 { sp_adjust_text("add"@, intermediate_bytes) } else { Seq::empty() };
    lemma_sp_adjust_marks("add"@, intermediate_bytes);
    let record = if leaf == LeafKind::NonLeaf { "    ldp     x29, x30, [sp], #16\n"@ } else { Seq::empty() };
    let restores = if x19_x23 { x19_x23_restores_text() } else { Seq::empty() };
    lemma_marks_concat("    ldr     x23, [sp], #16\n"@, "    ldp     x21, x22, [sp], #16\n"@, ',', 2, ok);
    lemma_marks_concat(
        "    ldr     x23, [sp], #16\n"@ + "    ldp     x21, x22, [sp], #16\n"@,
        "    ldp     x19, x20, [sp], #16\n"@,
        ',',
        2,
        ok,
    );
    lemma_marks_concat(adjust, record, ',', 2, ok);
    lemma_marks_concat(adjust + record, Seq::<char>::empty(), ',', 2, ok);
    lemma_marks_concat(adjust + record + Seq::<char>::empty(), restores, ',', 2, ok);
    lemma_marks_concat(adjust + record + Seq::<char>::empty() + restores, "    ret\n"@, ',', 2, ok);
}

/// A prologue stores `d8`/`d9` exactly when the flag is set, and its
/// epilogue loads them back exactly then. (A symbol name holds no `,`,
/// which separates operands.)
pub proof fn lemma_d8_d9_iff_flag(name: Seq<char>, leaf: LeafKind, regs: RegSet, intermediate_bytes: nat)
    requires
        forall|i: int| 0 <= i < name.len() ==> name[i] != ',',
    ensures
        has_piece(prologue_text(name, leaf, regs, intermediate_bytes), "    stp     d8, d9, [sp, #-16]!\n"@)
            <==> regs.d8_d9,
        has_piece(epilogue_text(leaf, regs, intermediate_bytes), "    ldp     d8, d9, [sp], #16\n"@)
            <==> regs.d8_d9,
{
    let stp = "    stp     d8, d9, [sp, #-16]!\n"@;
    let ldp = "    ldp     d8, d9, [sp], #16\n"@;
    if regs.d8_d9 {
        lemma_d8_d9_lines(name, leaf, regs.x19_x23, intermediate_bytes);
        assert(regs == RegSet { d8_d9: true, x19_x23: regs.x19_x23 });
        let (a, c) = choose|a: Seq<char>, c: Seq<char>|
            #![trigger a + c]
            prologue_text(name, leaf, RegSet { d8_d9: true, x19_x23: regs.x19_x23 }, intermediate_bytes) == a
                + stp + c && prologue_text(
                name,
                leaf,
                RegSet { d8_d9: false, x19_x23: regs.x19_x23 },
                intermediate_bytes,
            ) == a + c;
        assert(has_piece(prologue_text(name, leaf, regs, intermediate_bytes), stp));
        let (e, f) = choose|a: Seq<char>, c: Seq<char>|
            #![trigger a + c]
            epilogue_text(leaf, RegSet { d8_d9: true, x19_x23: regs.x19_x23 }, intermediate_bytes) == a + ldp + c
                && epilogue_text(leaf, RegSet { d8_d9: false, x19_x23: regs.x19_x23 }, intermediate_bytes) == a
                + c;
        assert(has_piece(epilogue_text(leaf, regs, intermediate_bytes), ldp));
    } else {
        assert(regs == RegSet { d8_d9: false, x19_x23: regs.x19_x23 });
        lemma_plain_prologue_marks(name, leaf, regs.x19_x23, intermediate_bytes);
        lemma_plain_epilogue_marks(leaf, regs.x19_x23, intermediate_bytes);
        reveal_strlit("    stp     d8, d9, [sp, #-16]!\n");
        reveal_strlit("    ldp     d8, d9, [sp], #16\n");
        lemma_marks_exclude(prologue_text(name, leaf, regs, intermediate_bytes), stp, 14, ',', 2, not_d());
        lemma_marks_exclude(epilogue_text(leaf, regs, intermediate_bytes), ldp, 14, ',', 2, not_d());
    }
}

} // verus!
