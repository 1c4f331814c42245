// The AAPCS64 argument-register table and the FFI save/restore pairs.

use nfl_profiles::arm64::abi::AbiContext;
use nfl_profiles::types::BufferLoc;

#[test]
fn tests_abi_input_reg_n1() {
    let abi = AbiContext { n_inputs: 1 };
    assert_eq!(abi.input_reg(0), "x0");
}

#[test]
fn tests_abi_input_reg_n3() {
    let abi = AbiContext { n_inputs: 3 };
    assert_eq!(abi.input_reg(0), "x0");
    assert_eq!(abi.input_reg(1), "x1");
    assert_eq!(abi.input_reg(2), "x2");
}

#[test]
fn tests_abi_params_reg_shifts_with_arity() {
    assert_eq!(AbiContext { n_inputs: 1 }.params_reg(), "x1");
    assert_eq!(AbiContext { n_inputs: 2 }.params_reg(), "x2");
    assert_eq!(AbiContext { n_inputs: 3 }.params_reg(), "x3");
    assert_eq!(AbiContext { n_inputs: 4 }.params_reg(), "x4");
}

#[test]
fn tests_abi_output_reg_shifts_with_arity() {
    assert_eq!(AbiContext { n_inputs: 1 }.output_reg(), "x2");
    assert_eq!(AbiContext { n_inputs: 2 }.output_reg(), "x3");
    assert_eq!(AbiContext { n_inputs: 3 }.output_reg(), "x4");
    assert_eq!(AbiContext { n_inputs: 4 }.output_reg(), "x5");
}

#[test]
fn tests_abi_ffi_save_set_size_equals_n_plus_2() {
    for n in 1..=4 {
        assert_eq!(AbiContext { n_inputs: n }.ffi_save_set().len(), n + 2, "n={n}");
    }
}

#[test]
fn tests_abi_ffi_save_set_contents_n3() {
    let abi = AbiContext { n_inputs: 3 };
    assert_eq!(abi.ffi_save_set(), &["x0", "x1", "x2", "x3", "x4"]);
}

#[test]
fn arm64_abi_materialise_forms() {
    let abi = AbiContext { n_inputs: 2 };
    let cases: [(BufferLoc, &str); 6] = [
        (BufferLoc::InputReg(1), "    mov     x10, x1\n"),
        (BufferLoc::OutputReg, "    mov     x10, x3\n"),
        (BufferLoc::StackOffset(0), "    mov     x10, sp\n"),
        (BufferLoc::StackOffset(64), "    add     x10, sp, #64\n"),
        (BufferLoc::StackOffset(8192), "    add     x10, sp, #2, lsl #12\n"),
        (BufferLoc::StackOffset(0x18500), "    movz    w10, #0x8500\n    movk    w10, #0x0001, lsl #16\n    add     x10, sp, x10\n"),
    ];
    for (loc, want) in cases {
        let mut s = String::new();
        abi.materialise_ptr(loc, "x10", &mut s);
        assert_eq!(s, want, "{loc:?}");
    }
}

#[test]
fn abi_emit_ffi_save_n1_three_regs_pads_xzr() {
    let abi = AbiContext { n_inputs: 1 };
    let mut s = String::new();
    abi.emit_ffi_save(&mut s);
    assert!(s.contains("stp     x0, x1, [sp, #-16]!"), "got:\n{s}");
    assert!(s.contains("stp     x2, xzr, [sp, #-16]!"), "got:\n{s}");
    let stp_count = s.matches("stp").count();
    assert_eq!(stp_count, 2, "expected 2 stp instructions, got {stp_count}");
}

#[test]
fn tests_abi_emit_ffi_save_n2_four_regs_no_pad() {
    let abi = AbiContext { n_inputs: 2 };
    let mut s = String::new();
    abi.emit_ffi_save(&mut s);
    assert!(s.contains("stp     x0, x1, [sp, #-16]!"));
    assert!(s.contains("stp     x2, x3, [sp, #-16]!"));
    assert!(!s.contains("xzr"), "no xzr padding for even arity");
    assert_eq!(s.matches("stp").count(), 2);
}

#[test]
fn abi_emit_ffi_save_n3_five_regs_pads_xzr() {
    let abi = AbiContext { n_inputs: 3 };
    let mut s = String::new();
    abi.emit_ffi_save(&mut s);
    assert!(s.contains("stp     x0, x1, [sp, #-16]!"));
    assert!(s.contains("stp     x2, x3, [sp, #-16]!"));
    assert!(s.contains("stp     x4, xzr, [sp, #-16]!"));
    assert_eq!(s.matches("stp").count(), 3);
}

#[test]
fn tests_abi_emit_ffi_save_n4_six_regs_no_pad() {
    let abi = AbiContext { n_inputs: 4 };
    let mut s = String::new();
    abi.emit_ffi_save(&mut s);
    assert!(s.contains("stp     x0, x1, [sp, #-16]!"));
    assert!(s.contains("stp     x2, x3, [sp, #-16]!"));
    assert!(s.contains("stp     x4, x5, [sp, #-16]!"));
    assert!(!s.contains("xzr"));
    assert_eq!(s.matches("stp").count(), 3);
}

#[test]
fn tests_abi_emit_ffi_save_sp_delta_always_multiple_of_16() {
    for n in 1..=4 {
        let abi = AbiContext { n_inputs: n };
        let mut s = String::new();
        abi.emit_ffi_save(&mut s);
        let stp_count = s.matches("stp").count();
        let sp_delta = stp_count * 16;
        assert!(sp_delta % 16 == 0, "n={n} sp_delta={sp_delta}");
        let expected = (n + 2).div_ceil(2) * 16;
        assert_eq!(sp_delta, expected, "n={n}: ceil-div check");
    }
}

#[test]
fn tests_abi_emit_ffi_restore_n1_lifo() {
    let abi = AbiContext { n_inputs: 1 };
    let mut s = String::new();
    abi.emit_ffi_restore(&mut s);
    let pos_a = s.find("ldp     x2, xzr, [sp], #16").expect("ldp x2,xzr");
    let pos_b = s.find("ldp     x0, x1, [sp], #16").expect("ldp x0,x1");
    assert!(pos_a < pos_b, "LIFO: top-of-stack pair restored first; got:\n{s}");
}

#[test]
fn tests_abi_emit_ffi_restore_n3_lifo() {
    let abi = AbiContext { n_inputs: 3 };
    let mut s = String::new();
    abi.emit_ffi_restore(&mut s);
    let p1 = s.find("ldp     x4, xzr, [sp], #16").expect("xzr pair");
    let p2 = s.find("ldp     x2, x3, [sp], #16").expect("x2/x3 pair");
    let p3 = s.find("ldp     x0, x1, [sp], #16").expect("x0/x1 pair");
    assert!(p1 < p2, "LIFO order: xzr pair before x2/x3");
    assert!(p2 < p3, "LIFO order: x2/x3 before x0/x1");
}

#[test]
fn tests_abi_save_then_restore_balances_sp() {
    for n in 1..=4 {
        let abi = AbiContext { n_inputs: n };
        let mut save = String::new();
        let mut restore = String::new();
        abi.emit_ffi_save(&mut save);
        abi.emit_ffi_restore(&mut restore);
        assert_eq!(save.matches("stp").count(), restore.matches("ldp").count(), "save/restore mismatch at n={n}");
    }
}

#[test]
fn tests_abi_save_set_each_reg_appears_exactly_once_in_save_and_restore() {
    for n in 1..=4 {
        let abi = AbiContext { n_inputs: n };
        let mut save = String::new();
        let mut restore = String::new();
        abi.emit_ffi_save(&mut save);
        abi.emit_ffi_restore(&mut restore);
        for reg in abi.ffi_save_set() {
            assert_eq!(save.matches(reg).count(), 1, "n={n} reg={reg} save");
            assert_eq!(restore.matches(reg).count(), 1, "n={n} reg={reg} restore");
        }
    }
}
