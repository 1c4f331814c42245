//! What both profiles share when lowering a model: the structural
//! well-formedness a model must have, the errors a model is rejected with,
//! the packed params layout, the function signature, and the resolution of
//! aliased buffers.

use vstd::prelude::*;
use crate::text::push_str;
use crate::types::{BufferLoc, FnSig, LowerError, ParamKind, ParamSlot, Span};
use crate::uir::{NodeKind, StdOp, UirModel, product, product_fits, shape_elements};

verus! {

/// The most model inputs the argument registers can carry: with the params
/// and output pointers, six registers on both targets.
pub const MAX_INPUTS: usize = 4;

/// The shape of node `j`.
pub open spec fn shape(m: UirModel, j: int) -> Seq<u64> {
    m.nodes@[j].shape@
}

/// The shape of the `k`-th operand of op node `i`.
pub open spec fn operand_shape(m: UirModel, i: int, k: int) -> Seq<u64> {
    match m.nodes@[i].kind {
        NodeKind::Op { operands, .. } => shape(m, operands@[k] as int),
        NodeKind::Input => Seq::empty(),
    }
}

/// Number of operands an op reads.
pub open spec fn arity(op: StdOp) -> nat {
    match op {
        StdOp::Matmul { .. } | StdOp::Add => 2,
        _ => 1,
    }
}

/// What the lowering reads of an op's shapes, per op.
pub open spec fn op_shapes_wf(m: UirModel, i: int, op: StdOp) -> bool {
    let s = shape(m, i);
    let a = operand_shape(m, i, 0);
    match op {
        StdOp::Softmax => a.len() >= 1 && product_fits(a),
        StdOp::Matmul { transpose_b } => {
            let r = a.len();
            let b = operand_shape(m, i, 1);
            &&& r >= 2
            &&& b.len() >= r
            &&& product_fits(a)
            &&& a[r - 2] <= usize::MAX && a[r - 1] <= usize::MAX
            &&& b[r - 2] <= usize::MAX && b[r - 1] <= usize::MAX
            &&& {
                let n = if transpose_b { b[r - 2] } else { b[r - 1] };
                &&& a[r - 2] * a[r - 1] <= usize::MAX
                &&& a[r - 1] * n <= usize::MAX
                &&& a[r - 2] * n <= usize::MAX
            }
        },
        StdOp::LayerNorm { .. } => s.len() >= 1 && s.last() * 4 <= u64::MAX,
        _ => true,
    }
}

/// Node `i` is well formed: an input node is listed as an input; an op
/// has its operands, all earlier nodes, and shapes the lowering can read.
pub open spec fn node_wf(m: UirModel, i: int) -> bool {
    match m.nodes@[i].kind {
        NodeKind::Input => m.inputs@.contains(i as usize),
        NodeKind::Op { op, operands, .. } => {
            &&& operands@.len() >= arity(op)
            &&& forall|j: int| 0 <= j < operands@.len() ==> #[trigger] operands@[j] < i
            &&& product_fits(shape(m, i))
            &&& op_shapes_wf(m, i, op)
        },
    }
}

/// A model in the form the compiler produces: nodes in topological order,
/// valid input and output ids, element counts and the params buffer size
/// within machine words.
pub open spec fn model_wf(m: UirModel) -> bool {
    &&& m.nodes@.len() <= usize::MAX
    &&& m.output < m.nodes@.len()
    &&& forall|j: int| 0 <= j < m.inputs@.len() ==> #[trigger] m.inputs@[j] < m.nodes@.len()
        && product_fits(shape(m, m.inputs@[j] as int))
    &&& product_fits(shape(m, m.output as int))
    &&& forall|i: int| 0 <= i < m.nodes@.len() ==> #[trigger] node_wf(m, i)
    &&& params_before(m, m.nodes@.len()) * 4 <= usize::MAX
}

/// A linear layer whose input and output are matrices.
pub open spec fn linear_dims_ok(m: UirModel, i: int) -> bool {
    operand_shape(m, i, 0).len() == 2 && shape(m, i).len() == 2
}

pub open spec fn is_bad_linear(m: UirModel, i: int) -> bool {
    &&& m.nodes@[i].kind matches NodeKind::Op { op: StdOp::Linear { .. }, .. }
    &&& !linear_dims_ok(m, i)
}

/// The first linear layer among nodes `0..k` that is not matrix-shaped.
pub open spec fn first_bad_linear(m: UirModel, k: nat) -> Option<int>
    decreases k,
{
    if k == 0 {
        None
    } else {
        match first_bad_linear(m, (k - 1) as nat) {
            Some(j) => Some(j),
            None => if is_bad_linear(m, k - 1) {
                Some(k - 1)
            } else {
                None
            },
        }
    }
}

/// The error a model is rejected with, if any: no input, more inputs than
/// the registers carry, or a linear layer that is not matrix-shaped.
pub open spec fn model_error(m: UirModel) -> Option<LowerError> {
    if m.inputs@.len() == 0 {
        Some(LowerError::ShapeNotConcrete { span: m.source_span })
    } else if m.inputs@.len() > MAX_INPUTS {
        Some(LowerError::TooManyInputs { n: m.inputs@.len() as usize, max: MAX_INPUTS, span: m.source_span })
    } else {
        match first_bad_linear(m, m.nodes@.len()) {
            Some(j) => Some(LowerError::ShapeNotConcrete { span: m.nodes@[j].source_span }),
            None => None,
        }
    }
}

/// `[k, n]` weights of a matrix-shaped linear node.
pub open spec fn linear_weight_floats(m: UirModel, i: int) -> nat {
    ((operand_shape(m, i, 0)[1] as usize) * (shape(m, i)[1] as usize)) as nat
}

/// Row width of a layernorm node.
pub open spec fn layernorm_width(m: UirModel, i: int) -> nat {
    (shape(m, i).last() as usize) as nat
}

/// Floats node `i` takes in the params buffer.
pub open spec fn node_param_floats(m: UirModel, i: int) -> nat {
    match m.nodes@[i].kind {
        NodeKind::Op { op: StdOp::Linear { bias }, .. } => if linear_dims_ok(m, i) {
            linear_weight_floats(m, i) + if bias { (shape(m, i)[1] as usize) as nat } else { 0 }
        } else {
            0
        },
        NodeKind::Op { op: StdOp::LayerNorm { affine }, .. } => if affine {
            2 * layernorm_width(m, i)
        } else {
            0
        },
        _ => 0,
    }
}

/// Offset of node `i`'s first slot: the floats of the nodes before it.
pub open spec fn params_before(m: UirModel, i: nat) -> nat
    decreases i,
{
    if i == 0 {
        0
    } else {
        params_before(m, (i - 1) as nat) + node_param_floats(m, i - 1)
    }
}

/// The slots of node `i`, starting at `cursor`: weights then bias for a
/// linear layer, scale then shift for an affine layernorm.
pub open spec fn node_slots(m: UirModel, i: int, cursor: nat) -> Seq<ParamSlot> {
    match m.nodes@[i].kind {
        NodeKind::Op { op: StdOp::Linear { bias }, .. } => if linear_dims_ok(m, i) {
            let w = linear_weight_floats(m, i);
            seq![ParamSlot { kind: ParamKind::LinearWeight, origin_node: i as usize, offset: cursor as usize, size: w as usize }]
                + if bias {
                seq![ParamSlot { kind: ParamKind::LinearBias, origin_node: i as usize, offset: (cursor + w) as usize, size: shape(m, i)[1] as usize }]
            } else {
                Seq::empty()
            }
        } else {
            Seq::empty()
        },
        NodeKind::Op { op: StdOp::LayerNorm { affine }, .. } => if affine {
            let d = layernorm_width(m, i);
            seq![
                ParamSlot { kind: ParamKind::LayerNormScale, origin_node: i as usize, offset: cursor as usize, size: d as usize },
                ParamSlot { kind: ParamKind::LayerNormBias, origin_node: i as usize, offset: (cursor + d) as usize, size: d as usize },
            ]
        } else {
            Seq::empty()
        },
        _ => Seq::empty(),
    }
}

/// The params layout of nodes `0..i`, in node order.
pub open spec fn layout_before(m: UirModel, i: nat) -> Seq<ParamSlot>
    decreases i,
{
    if i == 0 {
        Seq::empty()
    } else {
        layout_before(m, (i - 1) as nat) + node_slots(m, i - 1, params_before(m, (i - 1) as nat))
    }
}

/// Floats of each input buffer, in declaration order.
pub open spec fn inputs_floats(m: UirModel) -> Seq<usize> {
    Seq::new(m.inputs@.len(), |j: int| product(shape(m, m.inputs@[j] as int)) as usize)
}

/// The exported symbol of a model's function, before the platform prefix.
pub open spec fn function_name(m: UirModel) -> Seq<char> {
    "nfl_forward_"@ + m.name@
}

/// The signature lowering gives a model.
pub open spec fn sig_of(sig: FnSig, m: UirModel) -> bool {
    &&& sig.name@ == function_name(m)
    &&& sig.model@ == m.name@
    &&& sig.inputs_floats@ == inputs_floats(m)
    &&& sig.output_floats == product(shape(m, m.output as int)) as usize
    &&& sig.params_floats == params_before(m, m.nodes@.len()) as usize
    &&& sig.params_layout@ == layout_before(m, m.nodes@.len())
}

pub proof fn lemma_params_monotone(m: UirModel, i: nat, j: nat)
    requires
        i <= j,
    ensures
        params_before(m, i) <= params_before(m, j),
    decreases j - i,
{
    if i < j {
        lemma_params_monotone(m, i, (j - 1) as nat);
    }
}

pub proof fn lemma_first_bad_stable(m: UirModel, i: nat, j: nat)
    requires
        i <= j,
        first_bad_linear(m, i) is Some,
    ensures
        first_bad_linear(m, j) == first_bad_linear(m, i),
    decreases j - i,
{
    if i < j {
        lemma_first_bad_stable(m, i, (j - 1) as nat);
    }
}

/// No node before `k` is a linear layer that is not matrix-shaped.
pub proof fn lemma_no_bad_before(m: UirModel, k: nat, j: int)
    requires
        first_bad_linear(m, k) is None,
        0 <= j < k,
    ensures
        !is_bad_linear(m, j),
    decreases k,
{
    if j < k - 1 {
        lemma_no_bad_before(m, (k - 1) as nat, j);
    }
}

/// Validates an op before lowering. Every operation of the IR has an
/// emitter in both profiles, so none is rejected.
pub fn classify_op(op: StdOp, span: Span) -> (r: Result<(), LowerError>)
    ensures
        r is Ok,
{
    match op {
        StdOp::Linear { .. } => Ok(()),
        StdOp::Relu => Ok(()),
        StdOp::Dropout => Ok(()),
        StdOp::Softmax => Ok(()),
        StdOp::Matmul { .. } => Ok(()),
        StdOp::MulScalar { .. } => Ok(()),
        StdOp::Add => Ok(()),
        StdOp::LayerNorm { .. } => Ok(()),
    }
}

/// Floats node `i` takes in the params buffer.
pub fn node_param_floats_exec(model: &UirModel, i: usize) -> (r: usize)
    requires
        model_wf(*model),
        i < model.nodes@.len(),
        !is_bad_linear(*model, i as int),
    ensures
        r == node_param_floats(*model, i as int),
{
    proof {
        lemma_params_monotone(*model, (i + 1) as nat, model.nodes@.len() as nat);
        assert(node_wf(*model, i as int));
    }
    match &model.nodes[i].kind {
        NodeKind::Op { op: StdOp::Linear { bias }, operands, .. } => {
            let ins = &model.nodes[operands[0]].shape;
            let out = &model.nodes[i].shape;
            let w = (ins[1] as usize) * (out[1] as usize);
            if *bias {
                w + out[1] as usize
            } else {
                w
            }
        },
        NodeKind::Op { op: StdOp::LayerNorm { affine }, .. } => {
            if *affine {
                let out = &model.nodes[i].shape;
                2 * (out[out.len() - 1] as usize)
            } else {
                0
            }
        },
        _ => 0,
    }
}

/// Builds the params layout in node order, rejecting the first linear
/// layer that is not matrix-shaped.
pub fn layout_params(model: &UirModel) -> (r: Result<(Vec<ParamSlot>, usize), LowerError>)
    requires
        model_wf(*model),
    ensures
        match r {
            Ok((layout, floats)) => {
                &&& first_bad_linear(*model, model.nodes@.len() as nat) is None
                &&& layout@ == layout_before(*model, model.nodes@.len() as nat)
                &&& floats == params_before(*model, model.nodes@.len() as nat)
            },
            Err(e) => first_bad_linear(*model, model.nodes@.len() as nat) matches Some(j)
                && e == (LowerError::ShapeNotConcrete { span: model.nodes@[j].source_span }),
        },
{
    let n = model.nodes.len();
    let mut layout: Vec<ParamSlot> = Vec::new();
    let mut cursor: usize = 0;
    let mut i: usize = 0;
    while i < n
        invariant
            n == model.nodes@.len(),
            model_wf(*model),
            i <= n,
            first_bad_linear(*model, i as nat) is None,
            layout@ == layout_before(*model, i as nat),
            cursor == params_before(*model, i as nat),
        decreases n - i,
    {
        proof {
            lemma_params_monotone(*model, (i + 1) as nat, n as nat);
            assert(node_wf(*model, i as int));
        }
        let node = &model.nodes[i];
        match &node.kind {
            NodeKind::Op { op: StdOp::Linear { bias }, operands, .. } => {
                let ins = &model.nodes[operands[0]].shape;
                let out = &node.shape;
                if ins.len() != 2 || out.len() != 2 {
                    proof {
                        assert(first_bad_linear(*model, (i + 1) as nat) == Some(i as int));
                        lemma_first_bad_stable(*model, (i + 1) as nat, n as nat);
                    }
                    return Err(LowerError::ShapeNotConcrete { span: node.source_span });
                }
                let k = ins[1] as usize;
                let w = k * (out[1] as usize);
                layout.push(ParamSlot { kind: ParamKind::LinearWeight, origin_node: i, offset: cursor, size: w });
                cursor = cursor + w;
                if *bias {
                    let b = out[1] as usize;
                    layout.push(ParamSlot { kind: ParamKind::LinearBias, origin_node: i, offset: cursor, size: b });
                    cursor = cursor + b;
                }
            },
            NodeKind::Op { op: StdOp::LayerNorm { affine }, .. } => {
                if *affine {
                    let d = node.shape[node.shape.len() - 1] as usize;
                    layout.push(ParamSlot { kind: ParamKind::LayerNormScale, origin_node: i, offset: cursor, size: d });
                    layout.push(ParamSlot { kind: ParamKind::LayerNormBias, origin_node: i, offset: cursor + d, size: d });
                    cursor = cursor + 2 * d;
                }
            },
            _ => {},
        }
        proof {
            assert(layout@ =~= layout_before(*model, (i + 1) as nat));
        }
        i = i + 1;
    }
    Ok((layout, cursor))
}

/// Floats of each input buffer, in declaration order.
pub fn input_floats_exec(model: &UirModel) -> (r: Vec<usize>)
    requires
        model_wf(*model),
    ensures
        r@ == inputs_floats(*model),
{
    let mut r: Vec<usize> = Vec::new();
    let mut j: usize = 0;
    while j < model.inputs.len()
        invariant
            model_wf(*model),
            j <= model.inputs@.len(),
            r@.len() == j,
            forall|k: int| 0 <= k < j ==> #[trigger] r@[k] == inputs_floats(*model)[k],
        decreases model.inputs@.len() - j,
    {
        let id = model.inputs[j];
        assert(model.inputs@[j as int] < model.nodes@.len());
        let e = shape_elements(&model.nodes[id].shape);
        r.push(e as usize);
        j = j + 1;
    }
    assert(r@ =~= inputs_floats(*model));
    r
}

/// The signature of a model's function.
pub fn make_sig(model: &UirModel, layout: Vec<ParamSlot>, params_floats: usize) -> (sig: FnSig)
    requires
        model_wf(*model),
        layout@ == layout_before(*model, model.nodes@.len() as nat),
        params_floats == params_before(*model, model.nodes@.len() as nat),
    ensures
        sig_of(sig, *model),
{
    let mut name = "nfl_forward_".to_owned();
    push_str(&mut name, model.name.as_str());
    let mut model_name = String::new();
    push_str(&mut model_name, model.name.as_str());
    let inputs = input_floats_exec(model);
    let output_floats = shape_elements(&model.nodes[model.output].shape) as usize;
    FnSig {
        name,
        model: model_name,
        inputs_floats: inputs,
        output_floats,
        params_floats,
        params_layout: layout,
    }
}

/// `locs[id]`, following aliases back to a concrete placement.
pub open spec fn resolve_in(locs: Seq<BufferLoc>, id: int) -> BufferLoc
    decreases id,
{
    match locs[id] {
        BufferLoc::Alias(next) => if 0 <= next < id {
            resolve_in(locs, next as int)
        } else {
            locs[id]
        },
        other => other,
    }
}

/// Every alias names an earlier node.
pub open spec fn aliases_backward(locs: Seq<BufferLoc>) -> bool {
    forall|j: int| 0 <= j < locs.len() ==> (#[trigger] locs[j] matches BufferLoc::Alias(next) ==> next < j)
}

pub proof fn lemma_resolve_not_alias(locs: Seq<BufferLoc>, id: int)
    requires
        aliases_backward(locs),
        0 <= id < locs.len(),
    ensures
        resolve_in(locs, id) !is Alias,
    decreases id,
{
    if let BufferLoc::Alias(next) = locs[id] {
        lemma_resolve_not_alias(locs, next as int);
    }
}

/// Resolves a node's placement through alias chains. The result is never
/// an alias.
pub fn resolve_loc(locs: &Vec<BufferLoc>, id: usize) -> (r: BufferLoc)
    requires
        id < locs@.len(),
        aliases_backward(locs@),
    ensures
        r == resolve_in(locs@, id as int),
        r !is Alias,
{
    let mut cur = id;
    proof {
        lemma_resolve_not_alias(locs@, id as int);
    }
    loop
        invariant
            cur < locs@.len(),
            aliases_backward(locs@),
            resolve_in(locs@, cur as int) == resolve_in(locs@, id as int),
        decreases cur,
    {
        match locs[cur] {
            BufferLoc::Alias(next) => {
                assert(next < cur);
                cur = next;
            },
            other => {
                return other;
            },
        }
    }
}

/// Total floats of a sequence of slots.
pub open spec fn slot_floats(slots: Seq<ParamSlot>) -> nat
    decreases slots.len(),
{
    if slots.len() == 0 {
        0
    } else {
        slot_floats(slots.drop_last()) + slots.last().size as nat
    }
}

proof fn lemma_slot_floats_append(a: Seq<ParamSlot>, b: Seq<ParamSlot>)
    ensures
        slot_floats(a + b) == slot_floats(a) + slot_floats(b),
    decreases b.len(),
{
    if b.len() == 0 {
        assert(a + b =~= a);
    } else {
        assert((a + b).drop_last() =~= a + b.drop_last());
        lemma_slot_floats_append(a, b.drop_last());
    }
}

proof fn lemma_node_slots(m: UirModel, i: int, cursor: nat)
    requires
        model_wf(m),
        0 <= i < m.nodes@.len(),
        cursor + node_param_floats(m, i) <= params_before(m, m.nodes@.len()),
    ensures
        slot_floats(node_slots(m, i, cursor)) == node_param_floats(m, i),
        forall|t: int| 0 <= t < node_slots(m, i, cursor).len() ==> {
            &&& (#[trigger] node_slots(m, i, cursor)[t]).offset == cursor + slot_floats(node_slots(m, i, cursor).take(t))
            &&& node_slots(m, i, cursor)[t].origin_node == i
        },
{
    let s = node_slots(m, i, cursor);
    lemma_params_monotone(m, (i + 1) as nat, m.nodes@.len() as nat);
    assert(s.take(0) =~= Seq::<ParamSlot>::empty());
    assert(slot_floats(Seq::<ParamSlot>::empty()) == 0);
    match m.nodes@[i].kind {
        NodeKind::Op { op: StdOp::Linear { bias }, .. } => {
            if linear_dims_ok(m, i) {
                let w = linear_weight_floats(m, i);
                if bias {
                    assert(s.len() == 2);
                    assert(s[0].size as nat == w);
                    assert(s.take(1) =~= seq![s[0]]);
                    assert(s.drop_last() =~= seq![s[0]]);
                    assert(seq![s[0]].drop_last() =~= Seq::<ParamSlot>::empty());
                    assert(slot_floats(s.take(1)) == w);
                } else {
                    assert(s.len() == 1);
                    assert(s.drop_last() =~= Seq::<ParamSlot>::empty());
                }
            }
        },
        NodeKind::Op { op: StdOp::LayerNorm { affine }, .. } => {
            if affine {
                let d = layernorm_width(m, i);
                assert(s.len() == 2);
                assert(s.take(1) =~= seq![s[0]]);
                assert(s.drop_last() =~= seq![s[0]]);
                assert(seq![s[0]].drop_last() =~= Seq::<ParamSlot>::empty());
                assert(slot_floats(s.take(1)) == d);
            }
        },
        _ => {},
    }
}

/// The params layout tiles the params buffer: every slot starts where the
/// slots before it end, the slots' sizes add up to the buffer's floats, and
/// slots come in node order.
pub proof fn lemma_params_layout_contiguous(m: UirModel, i: nat)
    requires
        model_wf(m),
        i <= m.nodes@.len(),
    ensures
        slot_floats(layout_before(m, i)) == params_before(m, i),
        forall|k: int| 0 <= k < layout_before(m, i).len() ==> (#[trigger] layout_before(m, i)[k]).offset
            == slot_floats(layout_before(m, i).take(k)),
        forall|k1: int, k2: int| 0 <= k1 < k2 < layout_before(m, i).len() ==> (#[trigger] layout_before(m, i)[k1]).origin_node
            <= (#[trigger] layout_before(m, i)[k2]).origin_node,
        forall|k: int| 0 <= k < layout_before(m, i).len() ==> (#[trigger] layout_before(m, i)[k]).origin_node < i,
    decreases i,
{
    if i > 0 {
        let p = (i - 1) as nat;
        lemma_params_layout_contiguous(m, p);
        let prev = layout_before(m, p);
        let cursor = params_before(m, p);
        lemma_params_monotone(m, i, m.nodes@.len() as nat);
        lemma_node_slots(m, p as int, cursor);
        let s = node_slots(m, p as int, cursor);
        let all = layout_before(m, i);
        assert(all == prev + s);
        lemma_slot_floats_append(prev, s);
        assert forall|k: int| 0 <= k < all.len() implies (#[trigger] all[k]).offset == slot_floats(all.take(k)) by {
            if k >= prev.len() {
                let t = k - prev.len();
                assert(all.take(k) =~= prev + s.take(t));
                lemma_slot_floats_append(prev, s.take(t));
                assert(all[k] == s[t]);
            } else {
                assert(all.take(k) =~= prev.take(k));
                assert(all[k] == prev[k]);
            }
        }
        assert forall|k1: int, k2: int| 0 <= k1 < k2 < all.len() implies (#[trigger] all[k1]).origin_node
            <= (#[trigger] all[k2]).origin_node by {
            if k2 >= prev.len() {
                assert(all[k2] == s[k2 - prev.len()]);
                if k1 >= prev.len() {
                    assert(all[k1] == s[k1 - prev.len()]);
                } else {
                    assert(all[k1] == prev[k1]);
                }
            } else {
                assert(all[k1] == prev[k1]);
                assert(all[k2] == prev[k2]);
            }
        }
        assert forall|k: int| 0 <= k < all.len() implies (#[trigger] all[k]).origin_node < i by {
            if k >= prev.len() {
                assert(all[k] == s[k - prev.len()]);
            } else {
                assert(all[k] == prev[k]);
            }
        }
    }
}

} // verus!
