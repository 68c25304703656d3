//! The usage hint of an upload: handed on to the driver as it is, and of no
//! consequence for anything this layer keeps account of.

use crate::buffer::Buffer;
use crate::command::{Call, Op};
use crate::state::GpuState;
use vstd::prelude::*;

verus! {

/// Whether two states are alike in everything but the calls queued and the
/// usage hints of their buffers: the same bindings, the same objects, the
/// same attributes and the same bytes in every buffer.
pub open spec fn same_but_hints(one: GpuState, other: GpuState) -> bool {
    &&& one.vertex_array == other.vertex_array
    &&& one.array_buffer == other.array_buffer
    &&& one.texture == other.texture
    &&& one.program == other.program
    &&& one.layouts == other.layouts
    &&& one.textures == other.textures
    &&& one.shaders == other.shaders
    &&& one.programs == other.programs
    &&& one.buffers.dom() == other.buffers.dom()
    &&& forall|buffer: u32| #[trigger] one.contents(buffer) == other.contents(buffer)
}

/// Whether two calls are the same but for the usage hint of an upload.
pub open spec fn alike(one: Op, other: Op) -> bool {
    one == other || (one.payload == other.payload && match (one.call, other.call) {
        (
            Call::BufferData { target: one_target, .. },
            Call::BufferData { target: other_target, .. },
        ) => one_target == other_target,
        _ => false,
    })
}

proof fn lemma_step_alike(one: GpuState, other: GpuState, op: Op, other_op: Op)
    requires
        same_but_hints(one, other),
        alike(op, other_op),
    ensures
        same_but_hints(one.step(op), other.step(other_op)),
{
    let after = one.step(op);
    let other_after = other.step(other_op);
    assert(after.buffers.dom() =~= other_after.buffers.dom());
    assert forall|buffer: u32| #[trigger]
        after.contents(buffer) == other_after.contents(buffer) by {
        assert(one.contents(buffer) == other.contents(buffer));
    }
}

proof fn lemma_run_alike(one: GpuState, other: GpuState, ops: Seq<Op>, other_ops: Seq<Op>)
    requires
        same_but_hints(one, other),
        ops.len() == other_ops.len(),
        forall|i: int| 0 <= i < ops.len() ==> alike(#[trigger] ops[i], other_ops[i]),
    ensures
        same_but_hints(one.run(ops), other.run(other_ops)),
    decreases ops.len(),
{
    if ops.len() > 0 {
        lemma_run_alike(one, other, ops.drop_last(), other_ops.drop_last());
        lemma_step_alike(
            one.run(ops.drop_last()),
            other.run(other_ops.drop_last()),
            ops.last(),
            other_ops.last(),
        );
    }
}

/// The usage hint is handed on as it is and changes nothing else: two
/// uploads of the same bytes with different hints leave the same contents,
/// the same bindings and the same attributes, whichever buffer of a mesh
/// they go to.
pub proof fn law_usage_is_only_a_hint(
    buffer: Buffer,
    state: GpuState,
    data: Seq<u8>,
    hint: u32,
    other_hint: u32,
)
    ensures
        same_but_hints(
            state.run(buffer.vbo_ops(data, hint)),
            state.run(buffer.vbo_ops(data, other_hint)),
        ),
        same_but_hints(
            state.run(buffer.tbo_ops(data, hint)),
            state.run(buffer.tbo_ops(data, other_hint)),
        ),
        same_but_hints(
            state.run(buffer.mbo_ops(data, hint)),
            state.run(buffer.mbo_ops(data, other_hint)),
        ),
        same_but_hints(
            state.run(buffer.ebo_ops(data, hint)),
            state.run(buffer.ebo_ops(data, other_hint)),
        ),
{
    lemma_run_alike(state, state, buffer.vbo_ops(data, hint), buffer.vbo_ops(data, other_hint));
    lemma_run_alike(state, state, buffer.tbo_ops(data, hint), buffer.tbo_ops(data, other_hint));
    lemma_run_alike(state, state, buffer.mbo_ops(data, hint), buffer.mbo_ops(data, other_hint));
    lemma_run_alike(state, state, buffer.ebo_ops(data, hint), buffer.ebo_ops(data, other_hint));
}

} // verus!
