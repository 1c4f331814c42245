// Stack-pointer adjustment, 32-bit immediates, prologue and epilogue of the
// arm64 profile.

use nfl_profiles::arm64::buffer::RegSet;
use nfl_profiles::arm64::frame::{
    emit_imm32, emit_sp_add, emit_sp_sub, format_function_epilogue, format_function_prologue, LeafKind,
};
use nfl_profiles::types::FnSig;

#[test]
fn emit_sp_sub_small_immediate() {
    let s = emit_sp_sub(80);
    assert_eq!(s, "    sub     sp, sp, #80\n");
}

#[test]
fn emit_sp_sub_shifted_12_for_4096_multiple() {
    let s = emit_sp_sub(8192);
    assert_eq!(s, "    sub     sp, sp, #2, lsl #12\n");
}

#[test]
fn emit_sp_sub_movz_movk_for_general_case() {
    // 99584 = 0x18500 → lo=0x8500, hi=0x0001
    let s = emit_sp_sub(99584);
    assert!(s.contains("movz    w9, #0x8500"));
    assert!(s.contains("movk    w9, #0x0001, lsl #16"));
    assert!(s.contains("sub     sp, sp, x9"));
}

#[test]
fn emit_sp_add_small_immediate() {
    let s = emit_sp_add(80);
    assert_eq!(s, "    add     sp, sp, #80\n");
}

#[test]
fn emit_sp_add_shifted_12_for_4096_multiple() {
    let s = emit_sp_add(8192);
    assert_eq!(s, "    add     sp, sp, #2, lsl #12\n");
}

#[test]
fn emit_sp_add_movz_movk_for_general_case() {
    let s = emit_sp_add(99584);
    assert!(s.contains("movz    w9, #0x8500"));
    assert!(s.contains("movk    w9, #0x0001, lsl #16"));
    assert!(s.contains("add     sp, sp, x9"));
}

#[test]
fn emit_sp_boundaries() {
    assert_eq!(emit_sp_sub(4095), "    sub     sp, sp, #4095\n");
    assert_eq!(emit_sp_sub(16_773_120), "    sub     sp, sp, #4095, lsl #12\n");
    assert_eq!(emit_sp_sub(16_777_216), "    movz    w9, #0x0000\n    movk    w9, #0x0100, lsl #16\n    sub     sp, sp, x9\n");
    assert_eq!(emit_sp_add(4112), "    movz    w9, #0x1010\n    add     sp, sp, x9\n");
}

#[test]
fn emit_imm32_skips_movk_for_16_bit_values() {
    assert_eq!(emit_imm32("x10", 64), "    movz    x10, #0x0040\n");
    assert_eq!(emit_imm32("x10", 0xDEAD_BEEF), "    movz    x10, #0xbeef\n    movk    x10, #0xdead, lsl #16\n");
}

fn sig(name: &str) -> FnSig {
    FnSig {
        name: name.to_string(),
        model: String::new(),
        inputs_floats: vec![],
        output_floats: 0,
        params_floats: 0,
        params_layout: vec![],
    }
}

#[test]
fn prologue_and_epilogue_mirror_each_other() {
    let regs = RegSet { d8_d9: true, x19_x23: true };
    let p = format_function_prologue(&sig("nfl_forward_M"), LeafKind::NonLeaf, regs, 32);
    assert_eq!(
        p,
        ".globl _nfl_forward_M\n.p2align 2\n_nfl_forward_M:\n    stp     x19, x20, [sp, #-16]!\n    stp     x21, x22, [sp, #-16]!\n    str     x23, [sp, #-16]!\n    stp     d8, d9, [sp, #-16]!\n    stp     x29, x30, [sp, #-16]!\n    mov     x29, sp\n    sub     sp, sp, #32\n"
    );
    let e = format_function_epilogue(LeafKind::NonLeaf, regs, 32);
    assert_eq!(
        e,
        "    add     sp, sp, #32\n    ldp     x29, x30, [sp], #16\n    ldp     d8, d9, [sp], #16\n    ldr     x23, [sp], #16\n    ldp     x21, x22, [sp], #16\n    ldp     x19, x20, [sp], #16\n    ret\n"
    );
}

#[test]
fn leaf_without_buffers_has_bare_prologue() {
    let regs = RegSet::default();
    let p = format_function_prologue(&sig("f"), LeafKind::Leaf, regs, 0);
    assert_eq!(p, ".globl _f\n.p2align 2\n_f:\n");
    assert_eq!(format_function_epilogue(LeafKind::Leaf, regs, 0), "    ret\n");
}

#[test]
fn d8_d9_flag_adds_exactly_its_two_lines() {
    for x19_x23 in [false, true] {
        let on = RegSet { d8_d9: true, x19_x23 };
        let off = RegSet { d8_d9: false, x19_x23 };
        let p_on = format_function_prologue(&sig("g"), LeafKind::NonLeaf, on, 4096);
        let p_off = format_function_prologue(&sig("g"), LeafKind::NonLeaf, off, 4096);
        assert_eq!(p_on.replacen("    stp     d8, d9, [sp, #-16]!\n", "", 1), p_off);
        assert!(!p_off.contains("d8, d9"));
        let e_on = format_function_epilogue(LeafKind::NonLeaf, on, 4096);
        let e_off = format_function_epilogue(LeafKind::NonLeaf, off, 4096);
        assert_eq!(e_on.replacen("    ldp     d8, d9, [sp], #16\n", "", 1), e_off);
        assert!(!e_off.contains("d8, d9"));
    }
}
