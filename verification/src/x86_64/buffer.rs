//! Buffer assignment and the callee-saved analysis for the x86_64 profile.
//! Placement follows the shared layout; when the model runs a softmax, the
//! first 16 bytes of the frame are kept free for the row max and row sum
//! spill slots, and the buffers start above them.

use vstd::prelude::*;
use crate::types::BufferLoc;
use crate::uir::{NodeKind, StdOp, UirModel, Node, model_has_softmax};
use crate::layout::{
    offset_from, placement, stack_bytes_from, assignable_from, assign_buffers_from,
};

pub use crate::layout::BufferAssignment;

verus! {

/// Where the stack buffers start: above the softmax spill slots, if any.
pub open spec fn stack_start(m: UirModel) -> nat {
    if model_has_softmax(m) { 16 } else { 0 }
}

/// The stack offset of the next buffer after nodes `0..i` are placed.
pub open spec fn offset_before(m: UirModel, i: nat) -> int {
    offset_from(m, stack_start(m), i)
}

/// The placement buffer assignment gives node `i`.
pub open spec fn buffer_loc(m: UirModel, i: int) -> BufferLoc {
    placement(m, stack_start(m), i)
}

/// The frame's stack bytes: the end of the last buffer, rounded up to 16.
pub open spec fn assigned_stack_bytes(m: UirModel) -> int {
    stack_bytes_from(m, stack_start(m))
}

/// What buffer assignment needs of a model.
pub open spec fn assignable(m: UirModel) -> bool {
    assignable_from(m, stack_start(m))
}

/// Assigns a placement to every node and computes the frame's stack bytes;
/// softmax models keep the first 16 bytes for the spill slots.
pub fn assign_buffers(model: &UirModel) -> (a: BufferAssignment)
    requires
        assignable(*model),
    ensures
        a.locs@.len() == model.nodes@.len(),
        forall|i: int| 0 <= i < model.nodes@.len() ==> #[trigger] a.locs@[i] == buffer_loc(*model, i),
        a.stack_bytes == assigned_stack_bytes(*model),
{
    let start: usize = if model.has_softmax() { 16 } else { 0 };
    assign_buffers_from(model, start)
}

/// Callee-saved integer registers the model body uses: `%rbx, %r12-%r15`
/// are saved in the prologue iff `callee_saved_int`.
#[derive(Debug, Clone, Copy, Default, PartialEq, Eq, Structural)]
pub struct RegSet {
    pub callee_saved_int: bool,
}

impl RegSet {
    pub fn contains_callee_saved_int(&self) -> (r: bool)
        ensures
            r == self.callee_saved_int,
    {
        self.callee_saved_int
    }
}

pub open spec fn node_is_matmul(n: Node) -> bool {
    n.kind matches NodeKind::Op { op: StdOp::Matmul { .. }, .. }
}

pub open spec fn model_has_matmul(m: UirModel) -> bool {
    exists|i: int| 0 <= i < m.nodes@.len() && #[trigger] node_is_matmul(m.nodes@[i])
}

/// True iff the model contains a matmul, whose body keeps its pointers and
/// counters in callee-saved registers.
fn has_matmul(model: &UirModel) -> (r: bool)
    ensures
        r == model_has_matmul(*model),
{
    let mut i: usize = 0;
    while i < model.nodes.len()
        invariant
            i <= model.nodes@.len(),
            forall|j: int| 0 <= j < i ==> !node_is_matmul(#[trigger] model.nodes@[j]),
        decreases model.nodes@.len() - i,
    {
        if let NodeKind::Op { op: StdOp::Matmul { .. }, .. } = &model.nodes[i].kind {
            assert(node_is_matmul(model.nodes@[i as int]));
            return true;
        }
        i = i + 1;
    }
    false
}

/// The callee-saved set: the five integer registers are used iff the model
/// runs a softmax (its loop state lives in callee-saved registers) or a
/// matmul.
pub fn compute_callee_saved(model: &UirModel) -> (r: RegSet)
    ensures
        r.callee_saved_int == (model_has_softmax(*model) || model_has_matmul(*model)),
{
    let s = model.has_softmax();
    let m = has_matmul(model);
    RegSet { callee_saved_int: s || m }
}

} // verus!
