// End-to-end lowering through the arm64 profile, on hand-built IR.

use nfl_profiles::arm64::abi::AbiContext;
use nfl_profiles::arm64::buffer::{assign_buffers, compute_callee_saved, compute_is_leaf};
use nfl_profiles::arm64::ops::layernorm::{emit_f32_const, emit_layernorm};
use nfl_profiles::arm64::ops::linear::emit_linear;
use nfl_profiles::arm64::ops::matmul::emit_matmul;
use nfl_profiles::arm64::ops::exp::exp_pool_arm64;
use nfl_profiles::arm64::{lower, Arm64Profile};
use nfl_profiles::types::{BufferLoc, ParamKind, Span};
use nfl_profiles::uir::{Node, NodeKind, PostOp, StdOp, Uir, UirModel};

fn input(shape: &[u64]) -> Node {
    Node { kind: NodeKind::Input, shape: shape.to_vec(), source_span: Span::new(2, 5) }
}

fn op(op: StdOp, operands: &[usize], posts: &[PostOp], shape: &[u64]) -> Node {
    Node {
        kind: NodeKind::Op { op, operands: operands.to_vec(), fused_post_ops: posts.to_vec() },
        shape: shape.to_vec(),
        source_span: Span::new(3, 7),
    }
}

fn model(name: &str, nodes: Vec<Node>, inputs: Vec<usize>) -> UirModel {
    let output = nodes.len() - 1;
    UirModel { name: name.to_string(), nodes, inputs, output, source_span: Span::new(1, 1) }
}

fn lower_one(m: UirModel) -> String {
    lower(&Uir { models: vec![m] }).expect("lower").source
}

fn linear_relu(k: u64) -> UirModel {
    model(
        "M",
        vec![input(&[2, k]), op(StdOp::Linear { bias: false }, &[0], &[], &[2, 2]), op(StdOp::Relu, &[1], &[], &[2, 2])],
        vec![0],
    )
}

#[test]
fn empty_uir_lowers_to_empty_source() {
    let out = lower(&Uir { models: Vec::new() }).expect("lower");
    assert!(out.source.is_empty());
    assert!(out.functions.is_empty());
}

#[test]
fn linear_emits_function_with_correct_symbol_and_ret() {
    let m = model("M", vec![input(&[2, 3]), op(StdOp::Linear { bias: false }, &[0], &[], &[2, 2])], vec![0]);
    let out = Arm64Profile.lower(&Uir { models: vec![m] }).expect("lower");
    let sig = &out.functions[0];
    assert_eq!(sig.name, "nfl_forward_M");
    assert_eq!(sig.inputs_floats, vec![6]);
    assert_eq!(sig.params_floats, 6);
    assert_eq!(sig.output_floats, 4);
    assert_eq!(sig.params_layout.len(), 1);
    assert_eq!(sig.params_layout[0].kind, ParamKind::LinearWeight);
    assert_eq!(sig.params_layout[0].origin_node, 1);
    let s = &out.source;
    assert!(s.contains(".globl _nfl_forward_M"));
    assert!(s.contains("_nfl_forward_M:"));
    assert!(s.contains("ret"));
    assert!(s.contains("fmadd"));
    assert!(s.contains("cmp     x3, x10") && s.contains("cmp     x4, x15") && s.contains("cmp     x5, x16"));
    assert!(s.contains("str     s0, [x12,"));
    // A leaf without intermediates: no frame at all.
    assert!(!s.contains("stp") && !s.contains("ldp") && !s.contains("sub     sp"), "{s}");
}

#[test]
fn relu_uses_register_form_cmp_with_hoisted_movz() {
    let s = lower_one(linear_relu(3));
    let movz_pos = s.find("movz    x10, ").expect("missing movz x10 hoist for relu loop bound");
    let label_pos = s.find(".Lrelu_0_0:").expect("missing relu loop label");
    assert!(movz_pos < label_pos);
    assert!(s.contains("cmp     x9, x10"), "{s}");
    assert!(!s.contains("cmp     x9, #4"), "{s}");
    assert!(s.contains("fmov    s4, wzr") && s.contains("fmax    s3, s3, s4"));
    assert!(s.contains("ldr     s3, [x11,") && s.contains("str     s3, [x12,"));
    // The linear output is an intermediate stack buffer.
    assert!(s.contains("    sub     sp, sp, #16\n") && s.contains("    add     sp, sp, #16\n"), "{s}");
}

#[test]
fn dropout_inside_a_model_emits_no_code() {
    let m = model(
        "M",
        vec![
            input(&[2, 3]),
            op(StdOp::Linear { bias: false }, &[0], &[], &[2, 3]),
            op(StdOp::Dropout, &[1], &[], &[2, 3]),
            op(StdOp::Linear { bias: false }, &[2], &[], &[2, 2]),
        ],
        vec![0],
    );
    let s = lower_one(m);
    assert!(s.contains(".Lmm_i_0_0:") && s.contains(".Lmm_i_0_1:"));
    assert!(!s.contains("dropout"), "{s}");
}

#[test]
fn dropout_as_output_emits_copy_loop() {
    let m = model("OnlyDropout", vec![input(&[2, 4]), op(StdOp::Dropout, &[0], &[], &[2, 4])], vec![0]);
    let s = lower_one(m);
    assert!(s.contains("; dropout-as-output:"));
    assert!(s.contains(".Ldropout_0_0:"));
    assert!(s.contains("ldr     s3, [x11") && s.contains("str     s3, [x12"));
    assert!(!s.contains("fmax"));
}

#[test]
fn softmax_emits_three_passes_and_saves_callee_registers() {
    let m = model(
        "M",
        vec![input(&[2, 3]), op(StdOp::Linear { bias: false }, &[0], &[], &[2, 3]), op(StdOp::Softmax, &[1], &[], &[2, 3])],
        vec![0],
    );
    let s = lower_one(m);
    assert!(!s.contains("bl      _expf") && s.contains("    adrp    x9, .Lexp_log2e@PAGE\n"), "inline exp:\n{s}");
    assert!(s.contains("fdiv") && s.contains("fmax    s8,") && s.contains("fsub    s0, s0, s8"));
    assert!(s.contains("fadd    s9, s9, s0"));
    assert!(s.contains("movz    w0, #0x0000") && s.contains("movk    w0, #0xFF80, lsl #16") && s.contains("fmov    s8, w0"));
    let max_label = s.find(".Lsm_max_0_0:").unwrap();
    let exp_label = s.find(".Lsm_exp_0_0:").unwrap();
    let norm_label = s.find(".Lsm_norm_0_0:").unwrap();
    assert!(max_label < exp_label && exp_label < norm_label);
    for line in [
        "stp     d8, d9, [sp, #-16]!",
        "ldp     d8, d9, [sp], #16",
        "stp     x19, x20, [sp, #-16]!",
        "str     x23, [sp, #-16]!",
        "ldp     x19, x20, [sp], #16",
        "stp     x29, x30, [sp, #-16]!",
        "ldp     x29, x30, [sp], #16",
    ] {
        assert!(s.contains(line), "missing {line}:\n{s}");
    }
    // The argument registers survive the calls.
    assert!(s.contains("    stp     x0, x1, [sp, #-16]!\n    stp     x2, xzr, [sp, #-16]!\n"), "{s}");
    assert!(s.contains("    ldp     x2, xzr, [sp], #16\n    ldp     x0, x1, [sp], #16\n"), "{s}");
    assert!(s.contains(".section __TEXT,__const\n.p2align 2\n.Lexp_log2e: .long 0x3fb8aa3b\n"), "{s}");
}

#[test]
fn arm64_softmax_4d_dispatch_computes_b_as_product_of_leading_dims() {
    let m = model("M", vec![input(&[2, 4, 8, 16]), op(StdOp::Softmax, &[0], &[], &[2, 4, 8, 16])], vec![0]);
    let s = lower_one(m);
    assert!(s.contains("movz    x10, #0x0040"), "{s}");
}

#[test]
fn fused_softmax_row_tail_uses_its_own_labels() {
    let m = model("M", vec![input(&[2, 3]), op(StdOp::Linear { bias: true }, &[0], &[PostOp::SoftmaxRow], &[2, 2])], vec![0]);
    let s = lower_one(m);
    assert!(s.contains("fmax    s8, s8, s1") && !s.contains("bl      _expf") && s.contains("fdiv    s0, s0, s9"));
    assert!(s.contains("    fcvtns  w10, s1\n    scvtf   s2, w10\n"), "inline exp:\n{s}");
    assert!(s.contains("fadd    s0, s0, s5"), "bias add kept:\n{s}");
    assert!(!s.contains(".Lsm_") && s.contains(".Lfsmx_i_0_0:"), "{s}");
}

#[test]
fn mul_scalar_preloads_scalar_via_movz_movk() {
    let m = model("M", vec![input(&[2, 4]), op(StdOp::MulScalar { scalar_bits: 0x3E80_0000 }, &[0], &[], &[2, 4])], vec![0]);
    let s = lower_one(m);
    assert!(s.contains("movz    w9, #0x0000"));
    assert!(s.contains("movk    w9, #0x3e80, lsl #16"));
    assert!(s.contains("fmov    s4, w9"));
    assert!(s.contains("fmul    s0, s0, s4") && s.contains(".Lms_0_0:") && s.contains(".Lms_end_0_0:"));
}

#[test]
fn buffer_analyses() {
    let m = linear_relu(4);
    let a = assign_buffers(&m);
    assert!(matches!(a.locs[0], BufferLoc::InputReg(0)));
    assert!(matches!(a.locs[1], BufferLoc::StackOffset(0)));
    assert!(matches!(a.locs[2], BufferLoc::OutputReg));
    assert_eq!(a.stack_bytes, 16);
    assert!(compute_is_leaf(&m));
    assert!(!compute_callee_saved(&m).contains_d8_d9());
    let sm = model("S", vec![input(&[2, 3]), op(StdOp::Softmax, &[0], &[], &[2, 3])], vec![0]);
    assert!(!compute_is_leaf(&sm));
    let regs = compute_callee_saved(&sm);
    assert!(regs.contains_d8_d9() && regs.contains_x19_x23());
}

#[test]
fn emit_linear_arm64_saves_x3_at_n2_to_avoid_output_clobber() {
    let abi = AbiContext { n_inputs: 2 };
    let post: Vec<PostOp> = vec![];
    let text = emit_linear(&abi, 2, 4, 4, 0, 0, BufferLoc::InputReg(0), BufferLoc::OutputReg, 0, None, Span::new(1, 1), &post, "")
        .expect("emit_linear must succeed at N=2");
    let stp_count = text.matches("stp     x3,").count();
    let ldp_count = text.matches("ldp     x3,").count();
    assert!(stp_count >= 1 && stp_count == ldp_count, "{text}");
    let abi4 = AbiContext { n_inputs: 4 };
    let text4 = emit_linear(&abi4, 2, 4, 4, 0, 0, BufferLoc::InputReg(0), BufferLoc::OutputReg, 70_000, Some(3), Span::new(1, 1), &post, "").unwrap();
    assert!(text4.contains("    stp     x3, x4, [sp, #-16]!\n    stp     x5, xzr, [sp, #-16]!\n"), "{text4}");
    assert!(text4.contains("    ldp     x5, xzr, [sp], #16\n    ldp     x3, x4, [sp], #16\n"), "{text4}");
    assert!(text4.contains("    movz    x9, #0x1170\n    movk    x9, #0x0001, lsl #16\n    add     x13, x4, x9, lsl #2\n"), "{text4}");
}

#[test]
fn emit_matmul_body_contains_zero_stp() {
    let abi = AbiContext { n_inputs: 2 };
    let text = emit_matmul(&abi, 1, 4, 8, 4, false, 0, 0, BufferLoc::InputReg(0), BufferLoc::InputReg(1), BufferLoc::OutputReg, Span::new(0, 0)).unwrap();
    assert_eq!(text.matches("stp").count(), 0, "{text}");
    for reg in ["x0", "x1", "x2", "x3"] {
        assert!(!text.contains(&format!("    mov     {reg},")), "{text}");
    }
}

#[test]
fn emit_layernorm_inline_constants() {
    let abi = AbiContext { n_inputs: 1 };
    let text = emit_layernorm(&abi, 2, 3, 0, 0, BufferLoc::InputReg(0), BufferLoc::OutputReg, Some(0), Some(3), Span::new(1, 1)).unwrap();
    // 1/3 rounds to 0x3eaaaaab.
    assert!(text.contains("inv_d=0x3eaaaaab, eps=0x3727c5ac, one=0x3f800000"), "{text}");
    assert!(text.contains("    movz    w9, #0xaaab\n    movk    w9, #0x3eaa, lsl #16\n    fmov    s2, w9\n"), "{text}");
    assert!(text.contains("fsqrt   s0, s0") && text.contains("fdiv    s5, s4, s0"));
    assert!(text.contains("    mov     x13, x1\n    movz    x6, #0x000c\n    add     x14, x1, x6\n"), "{text}");
    // s2 is reloaded after the affine pass borrowed it.
    assert_eq!(text.matches("fmov    s2, w9").count(), 2, "{text}");
}

#[test]
fn emit_f32_const_forms() {
    assert_eq!(emit_f32_const("s3", "w9", 0x3f80_0000), "    movz    w9, #0x0000\n    movk    w9, #0x3f80, lsl #16\n    fmov    s3, w9\n");
    assert_eq!(emit_f32_const("s3", "w9", 5), "    movz    w9, #0x0005\n    fmov    s3, w9\n");
}

#[test]
fn exp_pool_lists_every_constant() {
    let p = exp_pool_arm64();
    assert!(p.starts_with(".section __TEXT,__const\n.p2align 2\n"));
    for (label, bits) in [
        (".Lexp_ln2hi", "0x3f318000"),
        (".Lexp_ln2lo", "0xb95e8083"),
        (".Lexp_c0", "0x3f800000"),
        (".Lexp_c2", "0x3f000000"),
        (".Lexp_c3", "0x3e2aaaab"),
        (".Lexp_c6", "0x3ab60b61"),
    ] {
        assert!(p.contains(&format!("{label}: .long {bits}\n")), "{p}");
    }
    assert_eq!(p.lines().count(), 2 + 3 + 8);
}
