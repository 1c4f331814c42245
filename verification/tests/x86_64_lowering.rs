// End-to-end lowering through the x86_64 profile, on hand-built IR.

use nfl_profiles::layout::assign_buffers_from;
use nfl_profiles::types::{BufferLoc, LowerError, ParamKind, Span};
use nfl_profiles::uir::{Node, NodeKind, PostOp, StdOp, Uir, UirModel};
use nfl_profiles::x86_64::{lower, X86_64Profile};

fn input(shape: &[u64]) -> Node {
    Node { kind: NodeKind::Input, shape: shape.to_vec(), source_span: Span::new(2, 5) }
}

fn op(op: StdOp, operands: &[usize], posts: &[PostOp], shape: &[u64]) -> Node {
    Node {
        kind: NodeKind::Op { op, operands: operands.to_vec(), fused_post_ops: posts.to_vec() },
        shape: shape.to_vec(),
        source_span: Span::new(3, 7),
    }
}

fn model(name: &str, nodes: Vec<Node>, inputs: Vec<usize>) -> UirModel {
    let output = nodes.len() - 1;
    UirModel { name: name.to_string(), nodes, inputs, output, source_span: Span::new(1, 1) }
}

fn lower_one(m: UirModel) -> String {
    lower(&Uir { models: vec![m] }).expect("lower").source
}

/// `x: Tensor[b, k]; x -> relu`
fn relu_model(name: &str, b: u64, k: u64) -> UirModel {
    model(name, vec![input(&[b, k]), op(StdOp::Relu, &[0], &[], &[b, k])], vec![0])
}

fn linear_model(name: &str, b: u64, k: u64, n: u64, bias: bool, posts: &[PostOp]) -> UirModel {
    model(
        name,
        vec![input(&[b, k]), op(StdOp::Linear { bias }, &[0], posts, &[b, n])],
        vec![0],
    )
}

fn softmax_model(name: &str, b: u64, k: u64) -> UirModel {
    model(name, vec![input(&[b, k]), op(StdOp::Softmax, &[0], &[], &[b, k])], vec![0])
}

#[test]
fn relu_emits_separate_loop_with_xorps_and_maxss() {
    let s = lower_one(relu_model("R", 4, 8));
    assert!(s.contains("xorps   %xmm1, %xmm1"), "relu must zero a scratch xmm via xorps:\n{s}");
    assert!(s.contains("maxss   %xmm1, %xmm0"), "relu must compare against zero via maxss:\n{s}");
    assert!(s.contains(".Lrelu_"), "relu must emit a labelled loop:\n{s}");
}

#[test]
fn function_label_has_no_underscore_prefix_on_x86_64() {
    let s = lower_one(relu_model("M", 2, 4));
    assert!(s.contains(".globl nfl_forward_M\n"), "x86_64 ELF must NOT prepend underscore to .globl:\n{s}");
    assert!(s.contains("\nnfl_forward_M:"), "x86_64 ELF must NOT prepend underscore to function label:\n{s}");
    assert!(!s.contains("_nfl_forward_M"), "x86_64 ELF must not have any '_nfl_' (Mach-O convention):\n{s}");
}

#[test]
fn relu_only_model_is_leaf_no_callee_saved_int_pushes() {
    let s = lower_one(relu_model("L", 2, 4));
    assert!(s.contains("    pushq   %rbp\n"), "frame pointer always saved:\n{s}");
    assert!(!s.contains("    pushq   %rbx\n"), "leaf model must NOT save callee-saved int regs:\n{s}");
}

#[test]
fn dropout_as_output_emits_copy_loop_no_maxss() {
    let m = model("OnlyDropout", vec![input(&[2, 4]), op(StdOp::Dropout, &[0], &[], &[2, 4])], vec![0]);
    let s = lower_one(m);
    assert!(s.contains(".Ldropout_"), "missing dropout loop label:\n{s}");
    assert!(s.contains("movss   (%rax, %rbp, 4), %xmm0"), "missing load:\n{s}");
    assert!(s.contains("movss   %xmm0, (%r11, %rbp, 4)"), "missing store:\n{s}");
    assert!(!s.contains("maxss"), "dropout-copy must NOT contain maxss:\n{s}");
}

#[test]
fn linear_matmul_emits_mulss_addss_pair_no_fma() {
    let s = lower_one(linear_model("L", 2, 4, 2, false, &[]));
    assert!(s.contains("mulss"), "matmul body needs mulss:\n{s}");
    assert!(s.contains("addss"), "matmul body needs addss (no FMA):\n{s}");
    assert!(!s.contains("vfmadd"), "must NOT use FMA — scalar SSE2 only:\n{s}");
}

#[test]
fn linear_with_bias_emits_addss_from_bias_buffer() {
    let s = lower_one(linear_model("B", 2, 4, 3, true, &[]));
    assert!(s.contains("addss"), "bias-add via addss:\n{s}");
}

#[test]
fn linear_relu_fused_emits_inline_maxss_no_separate_loop() {
    let s = lower_one(linear_model("F", 2, 4, 2, false, &[PostOp::Relu]));
    assert!(s.contains("maxss"), "fused relu must inline maxss:\n{s}");
    assert!(!s.contains(".Lrelu_"), "fused asm should NOT have separate relu loop:\n{s}");
}

#[test]
fn linear_softmax_fused_emits_row_wise_tail_with_call_expf_plt() {
    let s = lower_one(linear_model("S", 2, 4, 3, false, &[PostOp::SoftmaxRow]));
    assert!(s.contains(".Lfsmx_"), "fused softmax tail uses .Lfsmx_ labels:\n{s}");
    // The libm call gave way to the inline exp, which reads the pool.
    assert!(!s.contains("call    expf@PLT"), "fused softmax tail must not call expf@PLT:\n{s}");
    assert!(s.contains(".Lexp_c7(%rip)"), "fused softmax tail must use the inline exp:\n{s}");
}

#[test]
fn linear_softmax_fused_uses_callee_saved_int_pushes() {
    let s = lower_one(linear_model("SC", 2, 4, 3, false, &[PostOp::SoftmaxRow]));
    assert!(s.contains("    pushq   %rbx\n"), "softmax fused needs callee-saved %rbx:\n{s}");
    assert!(s.contains("    pushq   %r12\n"), "softmax fused needs callee-saved %r12:\n{s}");
    assert!(s.contains("    pushq   %r15\n"), "softmax fused needs callee-saved %r15:\n{s}");
}

#[test]
fn linear_matmul_uses_only_scalar_sse2_xmm_regs() {
    let s = lower_one(linear_model("V", 2, 4, 2, false, &[]));
    assert!(!s.contains("%ymm"), "no AVX (ymm) per spec non-goals:\n{s}");
    assert!(!s.contains("%zmm"), "no AVX-512 (zmm) per spec non-goals:\n{s}");
}

#[test]
fn standalone_softmax_emits_three_pass_with_call_expf_plt() {
    let s = lower_one(softmax_model("SS", 2, 4));
    assert!(s.contains(".Lsm_max_"), "phase 1 max label missing:\n{s}");
    assert!(s.contains(".Lsm_exp_"), "phase 2 exp label missing:\n{s}");
    assert!(s.contains(".Lsm_norm_"), "phase 3 norm label missing:\n{s}");
    assert!(!s.contains("call    expf@PLT"), "softmax must not call expf@PLT:\n{s}");
    assert!(s.contains(".Lexp_log2e(%rip)"), "softmax must use the inline exp:\n{s}");
}

#[test]
fn standalone_softmax_uses_callee_saved_int_pushes() {
    let s = lower_one(softmax_model("SCS", 2, 4));
    assert!(s.contains("    pushq   %rbx\n"), "softmax needs %rbx callee-saved:\n{s}");
    assert!(s.contains("    pushq   %r15\n"), "softmax needs %r15 callee-saved:\n{s}");
}

#[test]
fn standalone_softmax_spills_max_to_stack_at_offset_32() {
    let s = lower_one(softmax_model("SP", 2, 4));
    assert!(s.contains("movss   %xmm8, 32(%rsp)"), "row_max spill missing at offset 32 (post-FFI-push):\n{s}");
}

#[test]
fn standalone_softmax_initialises_sum_slot_to_zero() {
    let s = lower_one(softmax_model("SZ", 2, 4));
    assert!(s.contains("movl    $0, 40(%rsp)"), "sum slot init missing at offset 40 (post-FFI-push):\n{s}");
}

#[test]
fn standalone_softmax_recomputes_offset_after_call() {
    let s = lower_one(softmax_model("SR", 2, 4));
    // The inline exp clobbers %rax (as the call did): the row offset is
    // recomputed after it, before the store.
    let after_exp_idx = s.find("    movss   %xmm1, %xmm0\n").expect("must contain the inline exp");
    let after_exp = &s[after_exp_idx..];
    assert!(!s.contains("call    expf@PLT"), "{s}");
    assert!(after_exp.starts_with("    movss   %xmm1, %xmm0\n    movq    %r15, %rax\n"), "must recompute %rax = row_base after the exp:\n{s}");
}

#[test]
fn softmax_4d_dispatch_computes_b_as_product_of_leading_dims() {
    let m = model(
        "M",
        vec![input(&[2, 4, 8, 16]), op(StdOp::Softmax, &[0], &[], &[2, 4, 8, 16])],
        vec![0],
    );
    let s = lower_one(m);
    assert!(s.contains("movl    $64, %r10d"), "expected b=64 immediate:\n{s}");
    assert!(s.contains(".Lsm_i_0_0:\n    movl    $64, %r10d\n"), "b = 2*4*8 bounds the row loop:\n{s}");
}

#[test]
fn empty_uir_lowers_to_empty_file() {
    let out = lower(&Uir { models: Vec::new() }).expect("lower");
    assert!(out.source.is_empty());
    assert!(out.functions.is_empty());
}

#[test]
fn linear_signature_and_layout() {
    let out = X86_64Profile.lower(&Uir { models: vec![linear_model("M", 2, 3, 2, true, &[])] }).expect("lower");
    assert_eq!(out.functions.len(), 1);
    let sig = &out.functions[0];
    assert_eq!(sig.name, "nfl_forward_M");
    assert_eq!(sig.model, "M");
    assert_eq!(sig.inputs_floats, vec![6]);
    assert_eq!(sig.output_floats, 4);
    assert_eq!(sig.params_floats, 8);
    assert_eq!(sig.params_layout.len(), 2);
    assert_eq!(sig.params_layout[0].kind, ParamKind::LinearWeight);
    assert_eq!(sig.params_layout[0].offset, 0);
    assert_eq!(sig.params_layout[0].size, 6);
    assert_eq!(sig.params_layout[0].origin_node, 1);
    assert_eq!(sig.params_layout[1].kind, ParamKind::LinearBias);
    assert_eq!(sig.params_layout[1].offset, 6);
    assert_eq!(sig.params_layout[1].size, 2);
}

#[test]
fn layernorm_affine_scale_precedes_shift_in_layout() {
    let m = model(
        "M",
        vec![input(&[2, 4]), op(StdOp::LayerNorm { affine: true }, &[0], &[], &[2, 4])],
        vec![0],
    );
    let out = lower(&Uir { models: vec![m] }).expect("lower");
    let sig = &out.functions[0];
    let scale = sig.params_layout.iter().position(|s| s.kind == ParamKind::LayerNormScale).expect("scale");
    let shift = sig.params_layout.iter().position(|s| s.kind == ParamKind::LayerNormBias).expect("shift");
    assert!(scale < shift);
    assert_eq!(sig.params_layout[scale].offset, 0);
    assert_eq!(sig.params_layout[shift].offset, 4);
    assert_eq!(sig.params_floats, 8);
}

#[test]
fn params_layout_is_contiguous_across_layers() {
    let m = model(
        "Two",
        vec![
            input(&[2, 4]),
            op(StdOp::Linear { bias: true }, &[0], &[], &[2, 8]),
            op(StdOp::Relu, &[1], &[], &[2, 8]),
            op(StdOp::Linear { bias: false }, &[2], &[], &[2, 3]),
        ],
        vec![0],
    );
    let out = lower(&Uir { models: vec![m] }).expect("lower");
    let sig = &out.functions[0];
    let mut next = 0;
    for slot in &sig.params_layout {
        assert_eq!(slot.offset, next);
        next += slot.size;
    }
    assert_eq!(next, sig.params_floats);
    assert_eq!(sig.params_floats, 4 * 8 + 8 + 8 * 3);
    // The second linear reads its weights after the first layer's slots.
    assert!(out.source.contains("leaq    160(%rsi), %r15"), "{}", out.source);
}

#[test]
fn model_without_inputs_is_rejected_with_shape_not_concrete() {
    let m = UirModel { name: "E".to_string(), nodes: vec![], inputs: vec![], output: 0, source_span: Span::new(9, 4) };
    match lower(&Uir { models: vec![m] }) {
        Err(LowerError::ShapeNotConcrete { span }) => assert_eq!(span, Span::new(9, 4)),
        other => panic!("expected ShapeNotConcrete, got {other:?}"),
    }
}

#[test]
fn too_many_inputs_returns_too_many_inputs_error() {
    let mut nodes: Vec<Node> = (0..5).map(|_| input(&[2, 2])).collect();
    nodes.push(op(StdOp::Add, &[0, 1], &[], &[2, 2]));
    let m = model("Five", nodes, vec![0, 1, 2, 3, 4]);
    match X86_64Profile.lower(&Uir { models: vec![m] }) {
        Err(LowerError::TooManyInputs { n, max, .. }) => {
            assert_eq!(n, 5, "expected n=5 inputs");
            assert_eq!(max, 4, "expected max=4");
        }
        Err(other) => panic!("expected TooManyInputs, got {other:?}"),
        Ok(_) => panic!("expected Err, got Ok"),
    }
}

#[test]
fn linear_on_non_matrix_input_is_rejected_at_its_span() {
    let m = model(
        "R3",
        vec![input(&[2, 3, 4]), op(StdOp::Linear { bias: false }, &[0], &[], &[2, 3, 5])],
        vec![0],
    );
    match lower(&Uir { models: vec![m] }) {
        Err(e) => {
            assert!(matches!(e, LowerError::ShapeNotConcrete { .. }));
            assert_eq!(e.span(), Span::new(3, 7));
            assert_eq!(e.to_string(), "internal: UIR shape was not fully resolved before lowering");
        }
        Ok(_) => panic!("expected an error"),
    }
}

#[test]
fn first_rejected_model_wins() {
    let good = relu_model("Good", 2, 2);
    let bad = UirModel { name: "Bad".to_string(), nodes: vec![], inputs: vec![], output: 0, source_span: Span::new(5, 5) };
    match lower(&Uir { models: vec![good, bad] }) {
        Err(LowerError::ShapeNotConcrete { span }) => assert_eq!(span, Span::new(5, 5)),
        other => panic!("expected the second model's error, got {other:?}"),
    }
}

#[test]
fn softmax_model_emits_local_exp_pool_once() {
    let uir = Uir { models: vec![softmax_model("S", 2, 3), softmax_model("T", 2, 3)] };
    let s = lower(&uir).expect("lower").source;
    assert!(s.contains(".section .rodata"), "no rodata pool:\n{s}");
    assert!(s.contains(".Lexp_log2e: .long 0x3fb8aa3b\n"), "no log2e constant:\n{s}");
    assert!(s.contains(".Lexp_c7: .long 0x39500d01\n"), "no c7 constant:\n{s}");
    assert_eq!(s.matches(".Lexp_log2e:").count(), 1, "pool must be unique per file");
    assert!(s.ends_with("\n.section .note.GNU-stack,\"\",@progbits\n"));
}

#[test]
fn model_without_softmax_has_no_exp_pool() {
    let s = lower_one(relu_model("R", 2, 2));
    assert!(!s.contains(".Lexp_"));
    assert!(s.contains(".section .note.GNU-stack"));
}

#[test]
fn labels_of_two_models_do_not_collide() {
    let uir = Uir { models: vec![relu_model("A", 2, 2), relu_model("B", 2, 2)] };
    let s = lower(&uir).expect("lower").source;
    assert!(s.contains(".Lrelu_0_0:"));
    assert!(s.contains(".Lrelu_1_0:"));
    assert_eq!(s.matches(".Lrelu_0_0:").count(), 1);
}

#[test]
fn relu_model_full_text() {
    let s = lower_one(relu_model("M", 2, 4));
    let expected = "\
.globl nfl_forward_M
.p2align 4, 0x90
nfl_forward_M:
    pushq   %rbp
    movq    %rsp, %rbp
    # relu: copy-clamp src\u{2192}dst (8 elements)
    movq    %rdi, %rax
    movq    %rdx, %r11
    xorps   %xmm1, %xmm1
    movl    $8, %r10d
    xorq    %rbp, %rbp
.Lrelu_0_0:
    cmpq    %r10, %rbp
    jge     .Lrelu_end_0_0
    movss   (%rax, %rbp, 4), %xmm0
    maxss   %xmm1, %xmm0
    movss   %xmm0, (%r11, %rbp, 4)
    incq    %rbp
    jmp     .Lrelu_0_0
.Lrelu_end_0_0:
    popq    %rbp
    retq


.section .note.GNU-stack,\"\",@progbits
";
    assert_eq!(s, expected);
}

#[test]
fn intermediate_buffer_sits_above_the_softmax_reserve() {
    // linear -> softmax: the linear output is a stack buffer, placed at 16
    // (the spill slots take 0..16); the buffers end at 40, rounded up to 48.
    let m = model(
        "LS",
        vec![input(&[2, 4]), op(StdOp::Linear { bias: false }, &[0], &[], &[2, 3]), op(StdOp::Softmax, &[1], &[], &[2, 3])],
        vec![0],
    );
    let s = lower_one(m);
    assert!(s.contains("    leaq    32(%rsp), %r11\n"), "linear dst at 16 + 16 op-local push bytes:\n{s}");
    assert!(s.contains("    subq    $56, %rsp\n"), "48 bytes plus 8 for six pushes:\n{s}");
    assert!(s.contains("    leaq    16(%rsp), %rbx\n"), "softmax reads the linear output:\n{s}");
}

#[test]
fn stack_buffers_follow_one_another_without_overlap() {
    // Two intermediate linear outputs of 2*5 and 2*3 floats, from offset 0:
    // [0, 40) then [40, 64); the frame is 64, already a multiple of 16.
    let m = model(
        "LL",
        vec![
            input(&[2, 4]),
            op(StdOp::Linear { bias: false }, &[0], &[], &[2, 5]),
            op(StdOp::Linear { bias: false }, &[1], &[], &[2, 3]),
            op(StdOp::Linear { bias: false }, &[2], &[], &[2, 2]),
        ],
        vec![0],
    );
    let a = assign_buffers_from(&m, 0);
    assert_eq!(a.locs[1], BufferLoc::StackOffset(0));
    assert_eq!(a.locs[2], BufferLoc::StackOffset(40));
    assert_eq!(a.locs[3], BufferLoc::OutputReg);
    assert_eq!(a.stack_bytes, 64);
    let b = assign_buffers_from(&m, 16);
    assert_eq!(b.locs[2], BufferLoc::StackOffset(56));
    assert_eq!(b.stack_bytes, 80);
}

#[test]
fn fused_softmax_tail_spills_row_state_around_the_inline_exp() {
    let s = lower_one(linear_model("SWB", 2, 4, 3, true, &[PostOp::SoftmaxRow]));
    assert!(s.contains(".Lfsmx_"), "{s}");
    assert!(!s.contains("call    expf@PLT"), "{s}");
    assert!(s.contains(".Lexp_c7(%rip)"), "{s}");
    assert!(s.contains("movss   %xmm8, (%rsp)"), "row max at offset 0:\n{s}");
    assert!(s.contains("movss   %xmm1, 8(%rsp)"), "row sum at offset 8:\n{s}");
}

#[test]
fn inline_exp_sequence_text() {
    let s = lower_one(softmax_model("E", 1, 2));
    let exp = [
        "    subss   32(%rsp), %xmm0\n",
        "    movss   .Lexp_log2e(%rip), %xmm1\n",
        "    mulss   %xmm0, %xmm1\n",
        "    cvtss2si %xmm1, %eax\n",
        "    cvtsi2ss %eax, %xmm2\n",
        "    movss   .Lexp_ln2hi(%rip), %xmm3\n",
        "    mulss   %xmm2, %xmm3\n",
        "    subss   %xmm3, %xmm0\n",
        "    movss   .Lexp_ln2lo(%rip), %xmm3\n",
        "    mulss   %xmm2, %xmm3\n",
        "    subss   %xmm3, %xmm0\n",
        "    movss   .Lexp_c7(%rip), %xmm1\n",
        "    mulss   %xmm0, %xmm1\n",
        "    addss   .Lexp_c6(%rip), %xmm1\n",
    ]
    .concat();
    assert!(s.contains(&exp), "{s}");
    assert!(s.contains("    addss   .Lexp_c0(%rip), %xmm1\n    addl    $127, %eax\n    xorl    %r10d, %r10d\n    testl   %eax, %eax\n    cmovle  %r10d, %eax\n    shll    $23, %eax\n    movd    %eax, %xmm2\n    mulss   %xmm2, %xmm1\n    movss   %xmm1, %xmm0\n"), "{s}");
}
