// The SysV AMD64 argument-register table and the FFI save/restore blocks.

use nfl_profiles::types::BufferLoc;
use nfl_profiles::x86_64::abi::AbiContext;

#[test]
fn abi_input_reg_n1() {
    let abi = AbiContext { n_inputs: 1 };
    assert_eq!(abi.input_reg(0), "%rdi");
}

#[test]
fn abi_input_reg_n3() {
    let abi = AbiContext { n_inputs: 3 };
    assert_eq!(abi.input_reg(0), "%rdi");
    assert_eq!(abi.input_reg(1), "%rsi");
    assert_eq!(abi.input_reg(2), "%rdx");
}

#[test]
fn abi_params_reg_shifts_with_arity() {
    assert_eq!(AbiContext { n_inputs: 1 }.params_reg(), "%rsi");
    assert_eq!(AbiContext { n_inputs: 2 }.params_reg(), "%rdx");
    assert_eq!(AbiContext { n_inputs: 3 }.params_reg(), "%rcx");
    assert_eq!(AbiContext { n_inputs: 4 }.params_reg(), "%r8");
}

#[test]
fn abi_output_reg_shifts_with_arity() {
    assert_eq!(AbiContext { n_inputs: 1 }.output_reg(), "%rdx");
    assert_eq!(AbiContext { n_inputs: 2 }.output_reg(), "%rcx");
    assert_eq!(AbiContext { n_inputs: 3 }.output_reg(), "%r8");
    assert_eq!(AbiContext { n_inputs: 4 }.output_reg(), "%r9");
}

#[test]
fn abi_ffi_save_set_size_equals_n_plus_2() {
    for n in 1..=4 {
        assert_eq!(AbiContext { n_inputs: n }.ffi_save_set().len(), n + 2, "n={n}");
    }
}

#[test]
fn abi_ffi_save_set_contents_n3() {
    let abi = AbiContext { n_inputs: 3 };
    assert_eq!(abi.ffi_save_set(), &["%rdi", "%rsi", "%rdx", "%rcx", "%r8"]);
}

#[test]
fn abi_materialise_input_n1() {
    let abi = AbiContext { n_inputs: 1 };
    let mut s = String::new();
    abi.materialise_ptr(BufferLoc::InputReg(0), "%r10", &mut s);
    assert!(s.contains("movq    %rdi, %r10"), "got: {s}");
}

#[test]
fn abi_materialise_input_n3_idx2() {
    let abi = AbiContext { n_inputs: 3 };
    let mut s = String::new();
    abi.materialise_ptr(BufferLoc::InputReg(2), "%r11", &mut s);
    assert!(s.contains("movq    %rdx, %r11"), "got: {s}");
}

#[test]
fn abi_materialise_output_n2() {
    let abi = AbiContext { n_inputs: 2 };
    let mut s = String::new();
    abi.materialise_ptr(BufferLoc::OutputReg, "%r12", &mut s);
    assert!(s.contains("movq    %rcx, %r12"), "got: {s}");
}

#[test]
fn abi_materialise_stack_offset_small() {
    let abi = AbiContext { n_inputs: 1 };
    let mut s = String::new();
    abi.materialise_ptr(BufferLoc::StackOffset(64), "%r12", &mut s);
    assert!(s.contains("leaq    64(%rsp), %r12"), "got: {s}");
}

#[test]
fn abi_materialise_stack_offset_zero_uses_movq_rsp() {
    let abi = AbiContext { n_inputs: 1 };
    let mut s = String::new();
    abi.materialise_ptr(BufferLoc::StackOffset(0), "%r12", &mut s);
    assert_eq!(s, "    movq    %rsp, %r12\n");
}

#[test]
fn abi_materialise_appends_to_existing_text() {
    let abi = AbiContext { n_inputs: 1 };
    let mut s = String::from("head\n");
    abi.materialise_ptr(BufferLoc::StackOffset(8), "%rax", &mut s);
    assert_eq!(s, "head\n    leaq    8(%rsp), %rax\n");
}

#[test]
fn abi_emit_ffi_save_n1_three_regs_pads_rax() {
    let abi = AbiContext { n_inputs: 1 };
    let mut s = String::new();
    abi.emit_ffi_save(&mut s);
    assert!(s.contains("pushq   %rdi"), "got:\n{s}");
    assert!(s.contains("pushq   %rsi"), "got:\n{s}");
    assert!(s.contains("pushq   %rdx"), "got:\n{s}");
    assert!(s.contains("pushq   %rax"), "got:\n{s}");
    let push_count = s.matches("pushq").count();
    assert_eq!(push_count, 4, "3 input/params/output + 1 padding; got {push_count}");
}

#[test]
fn abi_emit_ffi_save_n2_four_regs_no_pad() {
    let abi = AbiContext { n_inputs: 2 };
    let mut s = String::new();
    abi.emit_ffi_save(&mut s);
    assert!(s.contains("pushq   %rdi"));
    assert!(s.contains("pushq   %rsi"));
    assert!(s.contains("pushq   %rdx"));
    assert!(s.contains("pushq   %rcx"));
    assert!(!s.contains("padding"), "no %rax padding for even arity; got:\n{s}");
    assert_eq!(s.matches("pushq").count(), 4);
}

#[test]
fn abi_emit_ffi_save_n3_five_regs_pads_rax() {
    let abi = AbiContext { n_inputs: 3 };
    let mut s = String::new();
    abi.emit_ffi_save(&mut s);
    assert!(s.contains("pushq   %rdi"));
    assert!(s.contains("pushq   %rsi"));
    assert!(s.contains("pushq   %rdx"));
    assert!(s.contains("pushq   %rcx"));
    assert!(s.contains("pushq   %r8"));
    assert!(s.contains("pushq   %rax"));
    assert_eq!(s.matches("pushq").count(), 6, "5 input/params/output + 1 padding");
}

#[test]
fn abi_emit_ffi_save_n4_six_regs_no_pad() {
    let abi = AbiContext { n_inputs: 4 };
    let mut s = String::new();
    abi.emit_ffi_save(&mut s);
    assert!(s.contains("pushq   %rdi"));
    assert!(s.contains("pushq   %rsi"));
    assert!(s.contains("pushq   %rdx"));
    assert!(s.contains("pushq   %rcx"));
    assert!(s.contains("pushq   %r8"));
    assert!(s.contains("pushq   %r9"));
    assert!(!s.contains("padding"), "no padding for even arity");
    assert_eq!(s.matches("pushq").count(), 6);
}

#[test]
fn abi_emit_ffi_save_sp_delta_always_multiple_of_16() {
    for n in 1..=4 {
        let abi = AbiContext { n_inputs: n };
        let mut s = String::new();
        abi.emit_ffi_save(&mut s);
        let push_count = s.matches("pushq").count();
        let sp_delta = push_count * 8;
        assert!(sp_delta % 16 == 0, "n={n} sp_delta={sp_delta}");
        let expected = (n + 2) + if (n + 2) % 2 == 0 { 0 } else { 1 };
        assert_eq!(push_count, expected, "n={n}: parity check");
    }
}

#[test]
fn abi_emit_ffi_restore_n1_lifo() {
    let abi = AbiContext { n_inputs: 1 };
    let mut s = String::new();
    abi.emit_ffi_restore(&mut s);
    let pos_pad = s.find("popq    %rax").expect("popq %rax (pad)");
    let pos_rdx = s.find("popq    %rdx").expect("popq %rdx");
    let pos_rsi = s.find("popq    %rsi").expect("popq %rsi");
    let pos_rdi = s.find("popq    %rdi").expect("popq %rdi");
    assert!(pos_pad < pos_rdx, "LIFO: padding pop comes first; got:\n{s}");
    assert!(pos_rdx < pos_rsi, "LIFO: %rdx pop before %rsi");
    assert!(pos_rsi < pos_rdi, "LIFO: %rsi pop before %rdi");
}

#[test]
fn abi_emit_ffi_restore_n3_lifo() {
    let abi = AbiContext { n_inputs: 3 };
    let mut s = String::new();
    abi.emit_ffi_restore(&mut s);
    let pad = s.find("popq    %rax").expect("padding pop");
    let r8 = s.find("popq    %r8").expect("%r8 pop");
    let rcx = s.find("popq    %rcx").expect("%rcx pop");
    let rdx = s.find("popq    %rdx").expect("%rdx pop");
    let rsi = s.find("popq    %rsi").expect("%rsi pop");
    let rdi = s.find("popq    %rdi").expect("%rdi pop");
    assert!(pad < r8, "LIFO: pad before %r8");
    assert!(r8 < rcx, "LIFO: %r8 before %rcx");
    assert!(rcx < rdx, "LIFO: %rcx before %rdx");
    assert!(rdx < rsi, "LIFO: %rdx before %rsi");
    assert!(rsi < rdi, "LIFO: %rsi before %rdi");
}

#[test]
fn abi_save_then_restore_balances_sp() {
    for n in 1..=4 {
        let abi = AbiContext { n_inputs: n };
        let mut save = String::new();
        let mut restore = String::new();
        abi.emit_ffi_save(&mut save);
        abi.emit_ffi_restore(&mut restore);
        assert_eq!(
            save.matches("pushq").count(),
            restore.matches("popq").count(),
            "save/restore mismatch at n={n}"
        );
    }
}

#[test]
fn abi_save_set_each_reg_appears_exactly_once_in_save_and_restore() {
    for n in 1..=4 {
        let abi = AbiContext { n_inputs: n };
        let mut save = String::new();
        let mut restore = String::new();
        abi.emit_ffi_save(&mut save);
        abi.emit_ffi_restore(&mut restore);
        for reg in abi.ffi_save_set() {
            assert_eq!(save.matches(reg).count(), 1, "n={n} reg={reg} save");
            assert_eq!(restore.matches(reg).count(), 1, "n={n} reg={reg} restore");
        }
    }
}

#[test]
fn abi_restore_pops_exactly_the_saved_registers_reversed() {
    for n in 1..=4 {
        let abi = AbiContext { n_inputs: n };
        let mut save = String::new();
        let mut restore = String::new();
        abi.emit_ffi_save(&mut save);
        abi.emit_ffi_restore(&mut restore);
        let pushed: Vec<&str> = save
            .lines()
            .map(|l| l.trim_start_matches("    pushq   ").split_whitespace().next().unwrap())
            .collect();
        let mut popped: Vec<&str> = restore
            .lines()
            .map(|l| l.trim_start_matches("    popq    ").split_whitespace().next().unwrap())
            .collect();
        popped.reverse();
        assert_eq!(pushed, popped, "n={n}");
    }
}
