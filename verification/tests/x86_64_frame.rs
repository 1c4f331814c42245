// Frame sizing and the %r10d immediate load of the x86_64 profile.

use nfl_profiles::types::FnSig;
use nfl_profiles::x86_64::buffer::RegSet;
use nfl_profiles::x86_64::frame::{
    compute_frame_size, emit_imm32_to_r10, format_function_epilogue, format_function_prologue,
};

// On entry %rsp is 8 mod 16; each push flips that parity, so the +8
// correction applies when the number of pushes is even.

#[test]
fn frame_size_raw0_pushes0_is_8() {
    assert_eq!(compute_frame_size(0, 0), 8);
}

#[test]
fn frame_size_raw0_pushes1_is_0() {
    assert_eq!(compute_frame_size(0, 1), 0);
}

#[test]
fn frame_size_raw0_pushes2_is_8() {
    assert_eq!(compute_frame_size(0, 2), 8);
}

#[test]
fn frame_size_raw8_pushes0_is_24() {
    assert_eq!(compute_frame_size(8, 0), 24);
}

#[test]
fn frame_size_raw8_pushes1_is_16() {
    assert_eq!(compute_frame_size(8, 1), 16);
}

#[test]
fn frame_size_raw16_pushes1_is_16() {
    assert_eq!(compute_frame_size(16, 1), 16);
}

#[test]
fn frame_size_raw17_pushes0_is_40() {
    assert_eq!(compute_frame_size(17, 0), 40);
}

#[test]
fn frame_size_raw17_pushes1_is_32() {
    assert_eq!(compute_frame_size(17, 1), 32);
}

#[test]
fn frame_size_keeps_rsp_aligned_for_every_push_count() {
    for raw in [0u32, 1, 15, 16, 17, 100, 4096, 65_535] {
        for pushes in 0usize..8 {
            let f = compute_frame_size(raw, pushes);
            assert!(f >= raw);
            assert_eq!((8 + 8 * pushes + f as usize) % 16, 0, "raw={raw} pushes={pushes}");
            assert!(f < raw + 24);
        }
    }
}

#[test]
fn emit_imm32_to_r10_formats_correctly() {
    let s = emit_imm32_to_r10(42);
    assert_eq!(s, "    movl    $42, %r10d\n");
}

#[test]
fn emit_imm32_to_r10_large_value() {
    let s = emit_imm32_to_r10(0xDEAD_BEEF);
    assert!(s.contains("3735928559"), "expected decimal repr of 0xDEADBEEF");
}

#[test]
fn emit_imm32_to_r10_zero_and_max() {
    assert_eq!(emit_imm32_to_r10(0), "    movl    $0, %r10d\n");
    assert_eq!(emit_imm32_to_r10(u32::MAX), "    movl    $4294967295, %r10d\n");
}

fn sig(name: &str) -> FnSig {
    FnSig {
        name: name.to_string(),
        model: String::new(),
        inputs_floats: vec![],
        output_floats: 0,
        params_floats: 0,
        params_layout: vec![],
    }
}

#[test]
fn epilogue_undoes_prologue_with_callee_saved() {
    let regs = RegSet { callee_saved_int: true };
    let p = format_function_prologue(&sig("nfl_forward_M"), regs, 40, "");
    // Six pushes (an even count): the frame is 40 rounded up to 48, plus 8.
    assert_eq!(
        p,
        ".globl nfl_forward_M\n.p2align 4, 0x90\nnfl_forward_M:\n    pushq   %rbp\n    movq    %rsp, %rbp\n    pushq   %rbx\n    pushq   %r12\n    pushq   %r13\n    pushq   %r14\n    pushq   %r15\n    subq    $56, %rsp\n"
    );
    let e = format_function_epilogue(regs, 40);
    assert_eq!(
        e,
        "    addq    $56, %rsp\n    popq    %r15\n    popq    %r14\n    popq    %r13\n    popq    %r12\n    popq    %rbx\n    popq    %rbp\n    retq\n"
    );
    assert_eq!((8 + 8 * 6 + 56) % 16, 0);
}

#[test]
fn epilogue_undoes_prologue_without_callee_saved() {
    let regs = RegSet { callee_saved_int: false };
    let p = format_function_prologue(&sig("f"), regs, 0, "");
    assert_eq!(p, ".globl f\n.p2align 4, 0x90\nf:\n    pushq   %rbp\n    movq    %rsp, %rbp\n");
    assert_eq!(format_function_epilogue(regs, 0), "    popq    %rbp\n    retq\n");
}

#[test]
fn callee_saved_flag_decides_the_five_pushes() {
    let pushes = [
        "    pushq   %rbx\n",
        "    pushq   %r12\n",
        "    pushq   %r13\n",
        "    pushq   %r14\n",
        "    pushq   %r15\n",
    ];
    for flag in [false, true] {
        let regs = RegSet { callee_saved_int: flag };
        assert_eq!(regs.contains_callee_saved_int(), flag);
        for bytes in [0usize, 8, 40, 4096] {
            for prefix in ["", "_"] {
                let p = format_function_prologue(&sig("nfl_forward_rbx"), regs, bytes, prefix);
                for line in pushes {
                    assert_eq!(p.contains(line), flag);
                }
                assert!(p.contains("    pushq   %rbp\n"));
            }
        }
    }
}
