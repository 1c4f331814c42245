//! The arm64 walker: lowers each model to one function (prologue, one
//! emitter call per op node in node order, epilogue) and assembles the file.

use vstd::prelude::*;
use crate::text::{push_str, op_id};
use crate::types::{Asm, BufferLoc, FnSig, LowerError};
use crate::uir::{
    NodeKind, StdOp, Uir, UirModel, product, model_has_softmax, shape_prefix_elements, uir_has_softmax,
    shape_elements,
};
use crate::lowering::{
    MAX_INPUTS, shape, operand_shape, node_wf, model_wf, model_error, sig_of, params_before,
    linear_weight_floats, layernorm_width, function_name, resolve_in, aliases_backward, lemma_params_monotone,
    lemma_no_bad_before, lemma_resolve_not_alias, classify_op, layout_params, make_sig,
    node_param_floats_exec, resolve_loc,
};
use crate::arm64::abi::{AbiContext, materialisable};
use crate::arm64::buffer::{
    buffer_loc, assignable, assigned_stack_bytes, assign_buffers, compute_callee_saved, compute_is_leaf,
    RegSet,
};
use crate::layout::{
    is_alias_op, node_assignable, lemma_offset_monotone, lemma_input_position, round_up16, offset_from,
};
use crate::arm64::frame::{
    LeafKind, prologue_text, epilogue_text, format_function_prologue, format_function_epilogue,
};
use crate::arm64::ops::relu::{relu_text, emit_relu};
use crate::arm64::ops::dropout::{dropout_copy_text, emit_dropout_copy};
use crate::arm64::ops::mulscalar::{mulscalar_text, emit_mulscalar};
use crate::arm64::ops::add::{add_text, emit_add};
use crate::arm64::ops::softmax::{softmax_text, emit_softmax};
use crate::arm64::ops::matmul::{matmul_text, emit_matmul};
use crate::arm64::ops::linear::{linear_text, emit_linear};
use crate::arm64::ops::layernorm::{layernorm_text, emit_layernorm};
use crate::arm64::ops::exp::{exp_pool_arm64_text, exp_pool_arm64};

verus! {

/// Placement of every node, as buffer assignment gives it.
pub open spec fn placements(m: UirModel) -> Seq<BufferLoc> {
    Seq::new(m.nodes@.len(), |i: int| buffer_loc(m, i))
}

/// Where node `id`'s buffer is, aliases followed.
pub open spec fn resolved(m: UirModel, id: int) -> BufferLoc {
    resolve_in(placements(m), id)
}

/// The counter an op node draws its label index from: one per op kind;
/// a dropout counts only when it copies into the output buffer. 8: none.
pub open spec fn op_tag(m: UirModel, i: int) -> nat {
    match m.nodes@[i].kind {
        NodeKind::Input => 8,
        NodeKind::Op { op, .. } => match op {
            StdOp::Linear { .. } => 0,
            StdOp::Relu => 1,
            StdOp::Dropout => if resolved(m, i) == BufferLoc::OutputReg { 2 } else { 8 },
            StdOp::Softmax => 3,
            StdOp::Matmul { .. } => 4,
            StdOp::MulScalar { .. } => 5,
            StdOp::Add => 6,
            StdOp::LayerNorm { .. } => 7,
        },
    }
}

/// How many of nodes `0..i` draw from counter `t`.
pub open spec fn tag_count(m: UirModel, i: nat, t: nat) -> nat
    decreases i,
{
    if i == 0 {
        0
    } else {
        tag_count(m, (i - 1) as nat, t) + if op_tag(m, i - 1) == t { 1nat } else { 0nat }
    }
}

/// The label index of op node `i`: the earlier nodes of its kind.
pub open spec fn op_index(m: UirModel, i: int) -> nat {
    tag_count(m, i as nat, op_tag(m, i))
}

/// The code lowering emits for node `i` of model number `model_idx`.
pub open spec fn node_text(n_inputs: nat, model_idx: nat, m: UirModel, i: int, prefix: Seq<char>) -> Seq<char> {
    match m.nodes@[i].kind {
        NodeKind::Input => Seq::empty(),
        NodeKind::Op { op, operands, fused_post_ops } => {
            let idx = op_index(m, i);
            let id = op_id(model_idx, idx);
            let src = resolved(m, operands@[0] as int);
            let dst = resolved(m, i);
            let s = shape(m, i);
            let a = operand_shape(m, i, 0);
            let total = product(s) as u64;
            let cursor = params_before(m, i as nat);
            match op {
                StdOp::Linear { bias } => linear_text(
                    n_inputs,
                    a[0],
                    a[1],
                    s[1],
                    id,
                    src,
                    dst,
                    cursor,
                    if bias { Some((cursor + linear_weight_floats(m, i)) as usize) } else { None },
                    fused_post_ops@,
                    prefix,
                ),
                StdOp::Relu => relu_text(n_inputs, total, model_idx, idx, src, dst),
                StdOp::Dropout => if dst == BufferLoc::OutputReg {
                    dropout_copy_text(n_inputs, total, model_idx, idx, src, dst)
                } else {
                    Seq::empty()
                },
                StdOp::Softmax => softmax_text(
                    n_inputs,
                    product(a.take(a.len() - 1)) as u64,
                    a.last(),
                    id,
                    src,
                    dst,
                    prefix,
                ),
                StdOp::Matmul { transpose_b } => {
                    let r = a.len();
                    let b = operand_shape(m, i, 1);
                    matmul_text(
                        n_inputs,
                        product(a.take(r - 2)) as u64,
                        a[r - 2],
                        a[r - 1],
                        if transpose_b { b[r - 2] } else { b[r - 1] },
                        transpose_b,
                        id,
                        src,
                        resolved(m, operands@[1] as int),
                        dst,
                    )
                },
                StdOp::MulScalar { scalar_bits } => mulscalar_text(n_inputs, total, scalar_bits, model_idx, idx, src, dst),
                StdOp::Add => add_text(n_inputs, total, model_idx, idx, src, resolved(m, operands@[1] as int), dst),
                StdOp::LayerNorm { affine } => layernorm_text(
                    n_inputs,
                    product(s.take(s.len() - 1)) as u64,
                    s.last(),
                    id,
                    src,
                    dst,
                    if affine { Some(cursor as usize) } else { None },
                    if affine { Some((cursor + layernorm_width(m, i)) as usize) } else { None },
                ),
            }
        },
    }
}

/// The code of nodes `0..k`, in order.
pub open spec fn body_text(n_inputs: nat, model_idx: nat, m: UirModel, k: nat, prefix: Seq<char>) -> Seq<char>
    decreases k,
{
    if k == 0 {
        Seq::empty()
    } else {
        body_text(n_inputs, model_idx, m, (k - 1) as nat, prefix) + node_text(n_inputs, model_idx, m, k - 1, prefix)
    }
}

/// The callee-saved set of a model's function.
pub open spec fn regs_of(m: UirModel) -> RegSet {
    RegSet { d8_d9: model_has_softmax(m), x19_x23: model_has_softmax(m) }
}

/// Whether a model's function keeps a frame record: only a softmax's
/// function does, with the layout of a calling function.
pub open spec fn leaf_of(m: UirModel) -> LeafKind {
    if model_has_softmax(m) { LeafKind::NonLeaf } else { LeafKind::Leaf }
}

/// The function lowering emits for model number `model_idx`.
#[verifier::opaque]
pub open spec fn model_text(model_idx: nat, m: UirModel, prefix: Seq<char>) -> Seq<char> {
    let regs = regs_of(m);
    let leaf = leaf_of(m);
    let bytes = assigned_stack_bytes(m) as nat;
    prologue_text(function_name(m), leaf, regs, bytes)
        + body_text(m.inputs@.len(), model_idx, m, m.nodes@.len(), prefix)
        + epilogue_text(leaf, regs, bytes)
}

/// The sizes each op's loops load as 32-bit immediates.
pub open spec fn node_sizes_fit(m: UirModel, i: int) -> bool {
    let s = shape(m, i);
    let a = operand_shape(m, i, 0);
    match m.nodes@[i].kind {
        NodeKind::Input => true,
        NodeKind::Op { op, .. } => match op {
            StdOp::Linear { .. } => a.len() == 2 && s.len() == 2 ==> a[0] <= u32::MAX && a[1] <= u32::MAX
                && s[1] <= u32::MAX,
            StdOp::Softmax => product(a.take(a.len() - 1)) <= u32::MAX && a.last() <= u32::MAX,
            StdOp::Matmul { transpose_b } => {
                let r = a.len();
                let b = operand_shape(m, i, 1);
                let n = if transpose_b { b[r - 2] } else { b[r - 1] };
                &&& product(a.take(r - 2)) <= u32::MAX
                &&& a[r - 2] * a[r - 1] <= u32::MAX
                &&& a[r - 1] * n <= u32::MAX
                &&& a[r - 2] * n <= u32::MAX
                &&& a[r - 2] <= u32::MAX && a[r - 1] <= u32::MAX && n <= u32::MAX
            },
            StdOp::LayerNorm { .. } => product(s.take(s.len() - 1)) <= u32::MAX && s.last() * 4 <= u32::MAX,
            _ => product(s) <= u32::MAX,
        },
    }
}

/// The frame, every stack offset, every loop bound and every params offset
/// fit the 32-bit immediates the emitters load.
pub open spec fn sizes_fit(m: UirModel) -> bool {
    &&& assignable(m)
    &&& offset_from(m, 0, m.nodes@.len()) + 15 <= u32::MAX
    &&& forall|i: int| 0 <= i < m.nodes@.len() ==> #[trigger] node_sizes_fit(m, i)
    &&& params_before(m, m.nodes@.len()) * 4 <= u32::MAX
}

/// The models the arm64 profile lowers without panicking: well formed,
/// and, unless rejected, with sizes that fit 32-bit immediates.
pub open spec fn lowerable(m: UirModel) -> bool {
    &&& model_wf(m)
    &&& (model_error(m) is None ==> sizes_fit(m))
}

proof fn lemma_placements_backward(m: UirModel)
    requires
        model_wf(m),
    ensures
        aliases_backward(placements(m)),
{
    assert forall|j: int| 0 <= j < placements(m).len() implies (#[trigger] placements(m)[j] matches BufferLoc::Alias(
        next,
    ) ==> next < j) by {
        assert(node_wf(m, j));
        if let NodeKind::Op { operands, .. } = m.nodes@[j].kind {
            if operands@.len() > 0 {
                assert(operands@[0] < j);
            }
        }
    }
}

/// Every resolved placement is one `materialise_ptr` accepts.
proof fn lemma_resolved_ok(m: UirModel, id: int)
    requires
        model_wf(m),
        sizes_fit(m),
        m.inputs@.len() <= MAX_INPUTS,
        0 <= id < m.nodes@.len(),
    ensures
        materialisable(m.inputs@.len(), resolved(m, id)),
    decreases id,
{
    lemma_placements_backward(m);
    lemma_resolve_not_alias(placements(m), id);
    assert(node_wf(m, id));
    assert(node_assignable(m, id));
    match m.nodes@[id].kind {
        NodeKind::Input => {
            lemma_input_position(m.inputs@, id as usize);
        },
        NodeKind::Op { op, operands, .. } => {
            if id != m.output && is_alias_op(op) {
                assert(operands@[0] < id);
                lemma_resolved_ok(m, operands@[0] as int);
            } else if id != m.output {
                lemma_offset_monotone(m, 0, 0, id as nat);
                lemma_offset_monotone(m, 0, id as nat, m.nodes@.len() as nat);
            }
        },
    }
}

proof fn lemma_tag_count_bound(m: UirModel, i: nat, t: nat)
    ensures
        tag_count(m, i, t) <= i,
    decreases i,
{
    if i > 0 {
        lemma_tag_count_bound(m, (i - 1) as nat, t);
    }
}

proof fn lemma_tag_count_monotone(m: UirModel, i: nat, j: nat, t: nat)
    requires
        i <= j,
    ensures
        tag_count(m, i, t) <= tag_count(m, j, t),
    decreases j - i,
{
    if i < j {
        lemma_tag_count_monotone(m, i, (j - 1) as nat, t);
    }
}

/// Two op nodes of a model that draw from the same label counter get
/// increasing label indices, so (with `lemma_op_id_injective`) no two ops
/// of a file share a label.
pub proof fn lemma_op_index_increases(m: UirModel, i: int, j: int)
    requires
        0 <= i < j < m.nodes@.len(),
        op_tag(m, i) == op_tag(m, j),
    ensures
        op_index(m, i) < op_index(m, j),
{
    lemma_tag_count_monotone(m, (i + 1) as nat, j as nat, op_tag(m, i));
}

/// Everything `emit_node` needs to know of the walk so far.
pub open spec fn emit_ready(
    abi: AbiContext,
    m: UirModel,
    i: nat,
    locs: Seq<BufferLoc>,
) -> bool {
    &&& lowerable(m)
    &&& model_error(m) is None
    &&& abi.n_inputs == m.inputs@.len()
    &&& i < m.nodes@.len()
    &&& locs == placements(m)
}

/// Lowers op node `i`, given its label index and its params offset.
fn emit_node(
    abi: &AbiContext,
    model_idx: usize,
    model: &UirModel,
    i: usize,
    locs: &Vec<BufferLoc>,
    idx: usize,
    cursor: usize,
    sym_prefix: &str,
) -> (r: Result<String, LowerError>)
    requires
        emit_ready(*abi, *model, i as nat, locs@),
        idx == op_index(*model, i as int),
        cursor == params_before(*model, i as nat),
    ensures
        r matches Ok(s) && s@ == node_text(abi.n_inputs as nat, model_idx as nat, *model, i as int, sym_prefix@),
{
    let ghost m = *model;
    proof {
        assert(node_wf(m, i as int));
        assert(node_sizes_fit(m, i as int));
        lemma_placements_backward(m);
        lemma_resolved_ok(m, i as int);
        lemma_params_monotone(m, (i + 1) as nat, m.nodes@.len() as nat);
        lemma_no_bad_before(m, m.nodes@.len() as nat, i as int);
    }
    let node = &model.nodes[i];
    match &node.kind {
        NodeKind::Input => Ok(String::new()),
        NodeKind::Op { op, operands, fused_post_ops } => {
            proof {
                assert(operands@[0] < i);
                lemma_resolved_ok(m, operands@[0] as int);
            }
            let src = resolve_loc(locs, operands[0]);
            let dst = resolve_loc(locs, i);
            let s = &node.shape;
            let a = &model.nodes[operands[0]].shape;
            match op {
                StdOp::Linear { bias } => {
                    let w = (a[1] as usize) * (s[1] as usize);
                    let bias_offset = if *bias { Some(cursor + w) } else { None };
                    emit_linear(
                        abi,
                        a[0],
                        a[1],
                        s[1],
                        model_idx,
                        idx,
                        src,
                        dst,
                        cursor,
                        bias_offset,
                        node.source_span,
                        fused_post_ops,
                        sym_prefix,
                    )
                },
                StdOp::Relu => {
                    let total = shape_elements(s);
                    Ok(emit_relu(abi, total, model_idx, idx, src, dst))
                },
                StdOp::Dropout => {
                    if dst == BufferLoc::OutputReg {
                        let total = shape_elements(s);
                        Ok(emit_dropout_copy(abi, total, model_idx, idx, src, dst))
                    } else {
                        Ok(String::new())
                    }
                },
                StdOp::Softmax => {
                    let last = a.len() - 1;
                    let k = a[last];
                    let b = shape_prefix_elements(a, last);
                    Ok(emit_softmax(abi, b, k, model_idx, idx, src, dst, sym_prefix))
                },
                StdOp::Matmul { transpose_b } => {
                    proof {
                        assert(operands@[1] < i);
                        lemma_resolved_ok(m, operands@[1] as int);
                    }
                    let bsh = &model.nodes[operands[1]].shape;
                    let r = a.len();
                    let leading = shape_prefix_elements(a, r - 2);
                    let n = if *transpose_b { bsh[r - 2] } else { bsh[r - 1] };
                    let b_loc = resolve_loc(locs, operands[1]);
                    emit_matmul(
                        abi,
                        leading,
                        a[r - 2],
                        a[r - 1],
                        n,
                        *transpose_b,
                        model_idx,
                        idx,
                        src,
                        b_loc,
                        dst,
                        node.source_span,
                    )
                },
                StdOp::MulScalar { scalar_bits } => {
                    let total = shape_elements(s);
                    Ok(emit_mulscalar(abi, total, *scalar_bits, model_idx, idx, src, dst))
                },
                StdOp::Add => {
                    proof {
                        assert(operands@[1] < i);
                        lemma_resolved_ok(m, operands@[1] as int);
                    }
                    let other = resolve_loc(locs, operands[1]);
                    let total = shape_elements(s);
                    Ok(emit_add(abi, total, model_idx, idx, src, other, dst))
                },
                StdOp::LayerNorm { affine } => {
                    let last = s.len() - 1;
                    let d = s[last];
                    let b = shape_prefix_elements(s, last);
                    let gamma = if *affine { Some(cursor) } else { None };
                    let beta = if *affine { Some(cursor + d as usize) } else { None };
                    emit_layernorm(abi, b, d, model_idx, idx, src, dst, gamma, beta, node.source_span)
                },
            }
        },
    }
}

fn op_tag_exec(model: &UirModel, locs: &Vec<BufferLoc>, i: usize) -> (t: usize)
    requires
        model_wf(*model),
        locs@ == placements(*model),
        i < model.nodes@.len(),
    ensures
        t == op_tag(*model, i as int),
        t <= 8,
{
    proof {
        lemma_placements_backward(*model);
    }
    match &model.nodes[i].kind {
        NodeKind::Input => 8,
        NodeKind::Op { op, .. } => match op {
            StdOp::Linear { .. } => 0,
            StdOp::Relu => 1,
            StdOp::Dropout => if resolve_loc(locs, i) == BufferLoc::OutputReg { 2 } else { 8 },
            StdOp::Softmax => 3,
            StdOp::Matmul { .. } => 4,
            StdOp::MulScalar { .. } => 5,
            StdOp::Add => 6,
            StdOp::LayerNorm { .. } => 7,
        },
    }
}

/// Lowers one model to its function and signature. A model with no input,
/// more than four inputs, or a linear layer that is not matrix-shaped is
/// rejected with the error `model_error` names.
#[verifier::rlimit(40)]
pub fn walk_model(model_idx: usize, model: &UirModel, sym_prefix: &str) -> (r: Result<(String, FnSig), LowerError>)
    requires
        lowerable(*model),
    ensures
        match r {
            Ok((text, sig)) => {
                &&& model_error(*model) is None
                &&& text@ == model_text(model_idx as nat, *model, sym_prefix@)
                &&& sig_of(sig, *model)
            },
            Err(e) => model_error(*model) == Some(e),
        },
{
    let ghost m = *model;
    let n = model.nodes.len();
    let mut i: usize = 0;
    while i < n
        invariant
            n == model.nodes@.len(),
            i <= n,
        decreases n - i,
    {
        if let NodeKind::Op { op, .. } = &model.nodes[i].kind {
            classify_op(*op, model.nodes[i].source_span)?;
        }
        i = i + 1;
    }
    let n_inputs = model.inputs.len();
    if n_inputs == 0 {
        return Err(LowerError::ShapeNotConcrete { span: model.source_span });
    }
    if n_inputs > MAX_INPUTS {
        return Err(LowerError::TooManyInputs { n: n_inputs, max: MAX_INPUTS, span: model.source_span });
    }
    let (layout, params_floats) = layout_params(model)?;
    let sig = make_sig(model, layout, params_floats);
    let assignment = assign_buffers(model);
    let regs = compute_callee_saved(model);
    let abi = AbiContext { n_inputs };
    let leaf = if compute_is_leaf(model) { LeafKind::Leaf } else { LeafKind::NonLeaf };
    proof {
        let raw = offset_from(m, 0, n as nat);
        lemma_offset_monotone(m, 0, 0, n as nat);
        assert(round_up16(raw) <= raw + 15);
    }
    let mut body = format_function_prologue(&sig, leaf, regs, assignment.stack_bytes);
    let ghost prologue = body@;
    let mut counts: Vec<usize> = vec![0, 0, 0, 0, 0, 0, 0, 0, 0];
    let mut cursor: usize = 0;
    let mut i: usize = 0;
    while i < n
        invariant
            n == model.nodes@.len(),
            i <= n,
            lowerable(m),
            model_error(m) is None,
            *model == m,
            abi.n_inputs == m.inputs@.len(),
            assignment.locs@ == placements(m),
            body@ == prologue + body_text(abi.n_inputs as nat, model_idx as nat, m, i as nat, sym_prefix@),
            counts@.len() == 9,
            forall|t: int| 0 <= t < 9 ==> #[trigger] counts@[t] == tag_count(m, i as nat, t as nat),
            cursor == params_before(m, i as nat),
        decreases n - i,
    {
        proof {
            assert(assignment.locs@ =~= placements(m));
            lemma_params_monotone(m, (i + 1) as nat, n as nat);
            lemma_no_bad_before(m, n as nat, i as int);
            lemma_tag_count_bound(m, i as nat, op_tag(m, i as int));
        }
        let tag = op_tag_exec(model, &assignment.locs, i);
        let text = emit_node(&abi, model_idx, model, i, &assignment.locs, counts[tag], cursor, sym_prefix)?;
        push_str(&mut body, text.as_str());
        let c = counts[tag];
        counts.set(tag, c + 1);
        cursor = cursor + node_param_floats_exec(model, i);
        i = i + 1;
    }
    let epilogue = format_function_epilogue(leaf, regs, assignment.stack_bytes);
    push_str(&mut body, epilogue.as_str());
    proof {
        reveal(model_text);
    }
    Ok((body, sig))
}

/// The exp constant pool, when some model runs a softmax.
pub open spec fn pool_text(u: Uir) -> Seq<char> {
    if uir_has_softmax(u) { exp_pool_arm64_text() } else { Seq::empty() }
}

/// The functions of models `0..k`, each followed by a blank line.
pub open spec fn models_text(u: Uir, k: nat, prefix: Seq<char>) -> Seq<char>
    decreases k,
{
    if k == 0 {
        Seq::empty()
    } else {
        models_text(u, (k - 1) as nat, prefix) + model_text((k - 1) as nat, u.models@[k - 1], prefix) + "\n"@
    }
}

/// The assembly file for an IR: every model's function, then the exp pool
/// when needed.
pub open spec fn uir_text(u: Uir, prefix: Seq<char>) -> Seq<char> {
    models_text(u, u.models@.len(), prefix) + pool_text(u)
}

/// The outcome of lowering an IR: the file text and one signature per
/// model when no model is rejected, else the first rejected model's error.
pub open spec fn lowered(u: Uir, prefix: Seq<char>, r: Result<Asm, LowerError>) -> bool {
    match r {
        Ok(out) => {
            &&& forall|i: int| 0 <= i < u.models@.len() ==> (#[trigger] model_error(u.models@[i])) is None
            &&& out.source@ == uir_text(u, prefix)
            &&& out.functions@.len() == u.models@.len()
            &&& forall|i: int| 0 <= i < u.models@.len() ==> sig_of(#[trigger] out.functions@[i], u.models@[i])
        },
        Err(e) => exists|i: int| {
            &&& 0 <= i < u.models@.len()
            &&& forall|j: int| 0 <= j < i ==> (#[trigger] model_error(u.models@[j])) is None
            &&& #[trigger] model_error(u.models@[i]) == Some(e)
        },
    }
}

/// The IRs the profile lowers without panicking: every model lowerable.
pub open spec fn uir_lowerable(u: Uir) -> bool {
    forall|i: int| 0 <= i < u.models@.len() ==> lowerable(#[trigger] u.models@[i])
}

/// Lowers every model of the IR, in order; the first rejected model's
/// error is returned.
pub fn walk_uir(uir: &Uir, sym_prefix: &str) -> (r: Result<Asm, LowerError>)
    requires
        uir_lowerable(*uir),
    ensures
        lowered(*uir, sym_prefix@, r),
{
    let mut source = String::new();
    let mut functions: Vec<FnSig> = Vec::new();
    let mut k: usize = 0;
    while k < uir.models.len()
        invariant
            k <= uir.models@.len(),
            forall|i: int| 0 <= i < uir.models@.len() ==> lowerable(#[trigger] uir.models@[i]),
            forall|j: int| 0 <= j < k ==> (#[trigger] model_error(uir.models@[j])) is None,
            source@ == models_text(*uir, k as nat, sym_prefix@),
            functions@.len() == k,
            forall|j: int| 0 <= j < k ==> sig_of(#[trigger] functions@[j], uir.models@[j]),
        decreases uir.models@.len() - k,
    {
        let (model_text, sig) = match walk_model(k, &uir.models[k], sym_prefix) {
            Ok(p) => p,
            Err(e) => {
                assert(model_error(uir.models@[k as int]) == Some(e));
                return Err(e);
            },
        };
        let ghost before = source@;
        push_str(&mut source, model_text.as_str());
        push_str(&mut source, "\n");
        proof {
            assert(source@ =~= before + model_text@ + "\n"@);
        }
        functions.push(sig);
        k = k + 1;
    }
    let ghost body = source@;
    if uir.has_softmax() {
        let pool = exp_pool_arm64();
        push_str(&mut source, pool.as_str());
    }
    assert(source@ =~= uir_text(*uir, sym_prefix@));
    Ok(Asm { source, functions })
}

} // verus!
