//! Buffer assignment and the leaf and callee-saved analyses for the arm64
//! profile. Placement follows the shared layout with buffers from offset 0:
//! the softmax row state lives in `s8`/`s9`, not on the stack.

use vstd::prelude::*;
use crate::uir::{UirModel, model_has_softmax};
use crate::layout::{placement, stack_bytes_from, assignable_from, assign_buffers_from};
use crate::types::BufferLoc;

pub use crate::layout::BufferAssignment;

verus! {

/// The placement buffer assignment gives node `i`.
pub open spec fn buffer_loc(m: UirModel, i: int) -> BufferLoc {
    placement(m, 0, i)
}

/// The frame's stack bytes: the end of the last buffer, rounded up to 16.
pub open spec fn assigned_stack_bytes(m: UirModel) -> int {
    stack_bytes_from(m, 0)
}

pub open spec fn assignable(m: UirModel) -> bool {
    assignable_from(m, 0)
}

/// Assigns a placement to every node and computes the frame's stack bytes.
pub fn assign_buffers(model: &UirModel) -> (a: BufferAssignment)
    requires
        assignable(*model),
    ensures
        a.locs@.len() == model.nodes@.len(),
        forall|i: int| 0 <= i < model.nodes@.len() ==> #[trigger] a.locs@[i] == buffer_loc(*model, i),
        a.stack_bytes == assigned_stack_bytes(*model),
{
    assign_buffers_from(model, 0)
}

/// True iff the model's function needs no frame record: only a softmax's
/// function keeps one, with the layout of a calling function.
pub fn compute_is_leaf(model: &UirModel) -> (r: bool)
    ensures
        r == !model_has_softmax(*model),
{
    !model.has_softmax()
}

/// Callee-saved registers the model body uses: `d8`/`d9` hold a softmax
/// row's max and sum, `x19`..`x23` its pointers and counters, across the
/// row passes.
#[derive(Debug, Clone, Copy, Default, PartialEq, Eq, Structural)]
pub struct RegSet {
    pub d8_d9: bool,
    pub x19_x23: bool,
}

impl RegSet {
    pub fn contains_d8_d9(&self) -> (r: bool)
        ensures
            r == self.d8_d9,
    {
        self.d8_d9
    }

    pub fn contains_x19_x23(&self) -> (r: bool)
        ensures
            r == self.x19_x23,
    {
        self.x19_x23
    }
}

/// Both register groups are saved iff the model runs a softmax.
pub fn compute_callee_saved(model: &UirModel) -> (r: RegSet)
    ensures
        r.d8_d9 == model_has_softmax(*model),
        r.x19_x23 == model_has_softmax(*model),
{
    let s = model.has_softmax();
    RegSet { d8_d9: s, x19_x23: s }
}

} // verus!
