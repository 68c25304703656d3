//! The vertex array and the four buffers that hold one mesh: positions,
//! element indices, texture coordinates and per-instance matrices.

use crate::command::{
    plain, Answer, BufferTarget, Call, Command, ComponentKind, Op, Reply, FLOAT_SIZE,
    INSTANCE_MATRIX_LOCATION, POSITION_LOCATION, TEXCOORD_LOCATION,
};
use crate::context::Context;
use crate::state::{group_run, Attribute, GpuState, LayoutState, StoreState};
use vstd::prelude::*;
use vstd::slice::{slice_subrange, slice_to_vec};

verus! {

broadcast use group_run;

/// Names of the five driver objects of one mesh.
#[derive(Clone, Copy, Debug, PartialEq, Eq, Structural)]
pub struct Buffer {
    /// Vertex array object: holds the attribute layout.
    pub vao: u32,
    /// Buffer of vertex positions.
    pub vbo: u32,
    /// Buffer of element indices.
    pub ebo: u32,
    /// Buffer of texture coordinates.
    pub tbo: u32,
    /// Buffer of per-instance matrices.
    pub mbo: u32,
}

/// The bytes of an upload: the first `size` bytes of `data`.
pub open spec fn uploaded(size: isize, data: Seq<u8>) -> Seq<u8> {
    data.take(size as int)
}

/// One column of the instance matrix: attribute `INSTANCE_MATRIX_LOCATION +
/// column`, four floats, one matrix apart, `column` columns into the matrix.
pub open spec fn matrix_column(column: u32) -> Op {
    plain(
        Call::VertexAttribPointer {
            index: (INSTANCE_MATRIX_LOCATION + column) as u32,
            components: 4,
            kind: ComponentKind::Float,
            normalized: false,
            stride: 64,
            offset: (16 * column) as usize,
        },
    )
}

impl Buffer {
    /// The calls of an upload of instance matrices.
    pub open spec fn mbo_ops(self, data: Seq<u8>, usage: u32) -> Seq<Op> {
        Seq::empty()
            .push(plain(Call::BindBuffer { target: BufferTarget::Array, buffer: self.mbo }))
            .push(Op { call: Call::BufferData { target: BufferTarget::Array, usage }, payload: data })
            .push(matrix_column(0))
            .push(plain(Call::EnableVertexAttribArray { index: 2 }))
            .push(matrix_column(1))
            .push(plain(Call::EnableVertexAttribArray { index: 3 }))
            .push(matrix_column(2))
            .push(plain(Call::EnableVertexAttribArray { index: 4 }))
            .push(matrix_column(3))
            .push(plain(Call::EnableVertexAttribArray { index: 5 }))
            .push(plain(Call::VertexAttribDivisor { index: 2, divisor: 1 }))
            .push(plain(Call::VertexAttribDivisor { index: 3, divisor: 1 }))
            .push(plain(Call::VertexAttribDivisor { index: 4, divisor: 1 }))
            .push(plain(Call::VertexAttribDivisor { index: 5, divisor: 1 }))
    }

    /// Uploads per-instance matrices: binds the matrix buffer, replaces its
    /// contents by the first `size` bytes of `data`, declares attributes 2 to
    /// 5 as the four columns of one matrix per instance, and enables them.
    pub fn mbo_data(&self, context: &mut Context, size: isize, data: &[u8], usage: u32)
        requires
            0 <= size <= data@.len(),
        ensures
            final(context)@ == old(context)@.run(self.mbo_ops(uploaded(size, data@), usage)),
            self.mbo_uploaded(old(context)@, final(context)@, uploaded(size, data@), usage),
    {
        let bytes = slice_to_vec(slice_subrange(data, 0, size as usize));
        assert(bytes@ == uploaded(size, data@));
        proof {
            self.law_mbo_upload(old(context)@, bytes@, usage);
        }
        self.bind_mbo(context);
        context.submit(
            Command::carrying(Call::BufferData { target: BufferTarget::Array, usage }, bytes),
        );
        context.submit(
            Command::plain(
                Call::VertexAttribPointer {
                    index: INSTANCE_MATRIX_LOCATION,
                    components: 4,
                    kind: ComponentKind::Float,
                    normalized: false,
                    stride: 16 * FLOAT_SIZE,
                    offset: 0,
                },
            ),
        );
        context.submit(Command::plain(Call::EnableVertexAttribArray { index: 2 }));
        context.submit(
            Command::plain(
                Call::VertexAttribPointer {
                    index: INSTANCE_MATRIX_LOCATION + 1,
                    components: 4,
                    kind: ComponentKind::Float,
                    normalized: false,
                    stride: 16 * FLOAT_SIZE,
                    offset: 16,
                },
            ),
        );
        context.submit(Command::plain(Call::EnableVertexAttribArray { index: 3 }));
        context.submit(
            Command::plain(
                Call::VertexAttribPointer {
                    index: INSTANCE_MATRIX_LOCATION + 2,
                    components: 4,
                    kind: ComponentKind::Float,
                    normalized: false,
                    stride: 16 * FLOAT_SIZE,
                    offset: 32,
                },
            ),
        );
        context.submit(Command::plain(Call::EnableVertexAttribArray { index: 4 }));
        context.submit(
            Command::plain(
                Call::VertexAttribPointer {
                    index: INSTANCE_MATRIX_LOCATION + 3,
                    components: 4,
                    kind: ComponentKind::Float,
                    normalized: false,
                    stride: 16 * FLOAT_SIZE,
                    offset: 48,
                },
            ),
        );
        context.submit(Command::plain(Call::EnableVertexAttribArray { index: 5 }));
        context.submit(Command::plain(Call::VertexAttribDivisor { index: 2, divisor: 1 }));
        context.submit(Command::plain(Call::VertexAttribDivisor { index: 3, divisor: 1 }));
        context.submit(Command::plain(Call::VertexAttribDivisor { index: 4, divisor: 1 }));
        context.submit(Command::plain(Call::VertexAttribDivisor { index: 5, divisor: 1 }));
    }

    /// The calls that ask the driver for the five objects of a mesh: one
    /// vertex array, then four buffers.
    pub open spec fn allocation() -> Seq<Op> {
        Seq::empty()
            .push(plain(Call::CreateVertexArray))
            .push(plain(Call::GenBuffer))
            .push(plain(Call::GenBuffer))
            .push(plain(Call::GenBuffer))
            .push(plain(Call::GenBuffer))
    }

    /// Queues the calls that ask the driver for the five objects of a mesh.
    /// The names it answers with, in this order, are what `new` takes.
    pub fn request(context: &mut Context)
        ensures
            final(context)@ == old(context)@.run(Self::allocation()),
    {
        context.submit(Command::plain(Call::CreateVertexArray));
        context.submit(Command::plain(Call::GenBuffer));
        context.submit(Command::plain(Call::GenBuffer));
        context.submit(Command::plain(Call::GenBuffer));
        context.submit(Command::plain(Call::GenBuffer));
    }

    /// The state once the driver has named the five objects of a mesh.
    pub open spec fn adopted(self, state: GpuState) -> GpuState {
        state.learn(Call::CreateVertexArray, Answer::Name(self.vao)).learn(
            Call::GenBuffer,
            Answer::Name(self.vbo),
        ).learn(Call::GenBuffer, Answer::Name(self.ebo)).learn(
            Call::GenBuffer,
            Answer::Name(self.tbo),
        ).learn(Call::GenBuffer, Answer::Name(self.mbo))
    }

    /// The mesh made of the five objects the driver named in answer to
    /// `request`. Making it binds nothing and queues nothing; where the
    /// names are fresh, as the driver owes, all five objects are empty.
    pub fn new(context: &mut Context, vao: u32, vbo: u32, ebo: u32, tbo: u32, mbo: u32) -> (buffer:
        Buffer)
        ensures
            buffer == (Buffer { vao, vbo, ebo, tbo, mbo }),
            final(context)@ == buffer.adopted(old(context)@),
            final(context)@.pending == old(context)@.pending,
            final(context)@.vertex_array == old(context)@.vertex_array,
            final(context)@.array_buffer == old(context)@.array_buffer,
            buffer.unused_in(old(context)@) ==> buffer.empty_in(final(context)@),
    {
        proof {
            (Buffer { vao, vbo, ebo, tbo, mbo }).law_new_is_empty(old(context)@);
        }
        context.record(Call::CreateVertexArray, &Reply::Name(vao));
        context.record(Call::GenBuffer, &Reply::Name(vbo));
        context.record(Call::GenBuffer, &Reply::Name(ebo));
        context.record(Call::GenBuffer, &Reply::Name(tbo));
        context.record(Call::GenBuffer, &Reply::Name(mbo));
        Buffer { vao, vbo, ebo, tbo, mbo }
    }

    /// The mesh that the last five of the driver's answers name, if there
    /// are five and each of them is a name: the vertex array first, then the
    /// position, element, coordinate and matrix buffers.
    pub open spec fn named_last(replies: Seq<Reply>) -> Option<Buffer> {
        if replies.len() < 5 {
            None
        } else {
            let from = replies.len() - 5;
            match (
                replies[from],
                replies[from + 1],
                replies[from + 2],
                replies[from + 3],
                replies[from + 4],
            ) {
                (
                    Reply::Name(vao),
                    Reply::Name(vbo),
                    Reply::Name(ebo),
                    Reply::Name(tbo),
                    Reply::Name(mbo),
                ) => Some(Buffer { vao, vbo, ebo, tbo, mbo }),
                _ => None,
            }
        }
    }

    /// The mesh that the driver named in answer to `request`, picked out of
    /// the answers to everything that was queued up to and including
    /// `request`: the names are the last five answers, whatever was queued
    /// before. Where there are fewer than five answers or one of the last
    /// five is no name, there is no mesh and nothing changes.
    pub fn adopt(context: &mut Context, replies: &[Reply]) -> (buffer: Option<Buffer>)
        ensures
            buffer == Self::named_last(replies@),
            match buffer {
                Some(mesh) => final(context)@ == mesh.adopted(old(context)@),
                None => final(context)@ == old(context)@,
            },
    {
        let count = replies.len();
        if count < 5 {
            return None;
        }
        let from = count - 5;
        match (
            &replies[from],
            &replies[from + 1],
            &replies[from + 2],
            &replies[from + 3],
            &replies[from + 4],
        ) {
            (
                Reply::Name(vao),
                Reply::Name(vbo),
                Reply::Name(ebo),
                Reply::Name(tbo),
                Reply::Name(mbo),
            ) => Some(Buffer::new(context, *vao, *vbo, *ebo, *tbo, *mbo)),
            _ => None,
        }
    }

    /// The calls of an upload of vertex positions.
    pub open spec fn vbo_ops(self, data: Seq<u8>, usage: u32) -> Seq<Op> {
        Seq::empty()
            .push(plain(Call::BindBuffer { target: BufferTarget::Array, buffer: self.vbo }))
            .push(Op { call: Call::BufferData { target: BufferTarget::Array, usage }, payload: data })
            .push(
                plain(
                    Call::VertexAttribPointer { index: 0, components: 3, kind: ComponentKind::Float, normalized: false, stride: 12, offset: 0 },
                ),
            )
            .push(plain(Call::EnableVertexAttribArray { index: 0 }))
    }

    /// Uploads vertex positions: binds the position buffer, replaces its
    /// contents by the first `size` bytes of `data`, declares attribute 0 as
    /// three contiguous floats per vertex, and enables it.
    pub fn vbo_data(&self, context: &mut Context, size: isize, data: &[u8], usage: u32)
        requires
            0 <= size <= data@.len(),
        ensures
            final(context)@ == old(context)@.run(self.vbo_ops(uploaded(size, data@), usage)),
            self.vbo_uploaded(old(context)@, final(context)@, uploaded(size, data@), usage),
    {
        let bytes = slice_to_vec(slice_subrange(data, 0, size as usize));
        assert(bytes@ == uploaded(size, data@));
        proof {
            self.law_vbo_upload(old(context)@, bytes@, usage);
        }
        self.bind_vbo(context);
        context.submit(
            Command::carrying(Call::BufferData { target: BufferTarget::Array, usage }, bytes),
        );
        context.submit(
            Command::plain(
                Call::VertexAttribPointer {
                    index: POSITION_LOCATION,
                    components: 3,
                    kind: ComponentKind::Float,
                    normalized: false,
                    stride: 3 * FLOAT_SIZE,
                    offset: 0,
                },
            ),
        );
        context.submit(Command::plain(Call::EnableVertexAttribArray { index: POSITION_LOCATION }));
    }

    /// The calls of an upload of texture coordinates.
    pub open spec fn tbo_ops(self, data: Seq<u8>, usage: u32) -> Seq<Op> {
        Seq::empty()
            .push(plain(Call::BindBuffer { target: BufferTarget::Array, buffer: self.tbo }))
            .push(Op { call: Call::BufferData { target: BufferTarget::Array, usage }, payload: data })
            .push(
                plain(Call::VertexAttribPointer { index: 1, components: 2, kind: ComponentKind::Float, normalized: false, stride: 8, offset: 0 }),
            )
            .push(plain(Call::EnableVertexAttribArray { index: 1 }))
    }

    /// Uploads texture coordinates: binds the coordinate buffer, replaces its
    /// contents by the first `size` bytes of `data`, declares attribute 1 as
    /// two contiguous floats per vertex, and enables it.
    pub fn tbo_data(&self, context: &mut Context, size: isize, data: &[u8], usage: u32)
        requires
            0 <= size <= data@.len(),
        ensures
            final(context)@ == old(context)@.run(self.tbo_ops(uploaded(size, data@), usage)),
            self.tbo_uploaded(old(context)@, final(context)@, uploaded(size, data@), usage),
    {
        let bytes = slice_to_vec(slice_subrange(data, 0, size as usize));
        assert(bytes@ == uploaded(size, data@));
        proof {
            self.law_tbo_upload(old(context)@, bytes@, usage);
        }
        self.bind_tbo(context);
        context.submit(
            Command::carrying(Call::BufferData { target: BufferTarget::Array, usage }, bytes),
        );
        context.submit(
            Command::plain(
                Call::VertexAttribPointer {
                    index: TEXCOORD_LOCATION,
                    components: 2,
                    kind: ComponentKind::Float,
                    normalized: false,
                    stride: 2 * FLOAT_SIZE,
                    offset: 0,
                },
            ),
        );
        context.submit(Command::plain(Call::EnableVertexAttribArray { index: TEXCOORD_LOCATION }));
    }

    /// The calls of an upload of element indices.
    pub open spec fn ebo_ops(self, data: Seq<u8>, usage: u32) -> Seq<Op> {
        Seq::empty()
            .push(plain(Call::BindBuffer { target: BufferTarget::ElementArray, buffer: self.ebo }))
            .push(
                Op {
                    call: Call::BufferData { target: BufferTarget::ElementArray, usage },
                    payload: data,
                },
            )
    }

    /// Uploads element indices: binds the element buffer and replaces its
    /// contents by the first `size` bytes of `data`. No attribute is touched.
    pub fn ebo_data(&self, context: &mut Context, size: isize, data: &[u8], usage: u32)
        requires
            0 <= size <= data@.len(),
        ensures
            final(context)@ == old(context)@.run(self.ebo_ops(uploaded(size, data@), usage)),
            self.ebo_uploaded(old(context)@, final(context)@, uploaded(size, data@), usage),
    {
        let bytes = slice_to_vec(slice_subrange(data, 0, size as usize));
        assert(bytes@ == uploaded(size, data@));
        proof {
            self.law_ebo_upload(old(context)@, bytes@, usage);
        }
        self.bind_ebo(context);
        context.submit(
            Command::carrying(
                Call::BufferData { target: BufferTarget::ElementArray, usage },
                bytes,
            ),
        );
    }

    /// The calls of a release: the vertex array, then the position, element
    /// and coordinate buffers. The matrix buffer is not among them.
    pub open spec fn clean_ops(self) -> Seq<Op> {
        Seq::empty()
            .push(plain(Call::DeleteVertexArray { array: self.vao }))
            .push(plain(Call::DeleteBuffer { buffer: self.vbo }))
            .push(plain(Call::DeleteBuffer { buffer: self.ebo }))
            .push(plain(Call::DeleteBuffer { buffer: self.tbo }))
    }

    /// Releases the vertex array and the position, element and coordinate
    /// buffers. The matrix buffer stays; `clean_mbo` releases it.
    pub fn clean(&self, context: &mut Context)
        ensures
            final(context)@ == old(context)@.run(self.clean_ops()),
            self.cleaned(old(context)@, final(context)@),
    {
        proof {
            self.law_clean(old(context)@);
        }
        context.submit(Command::plain(Call::DeleteVertexArray { array: self.vao }));
        context.submit(Command::plain(Call::DeleteBuffer { buffer: self.vbo }));
        context.submit(Command::plain(Call::DeleteBuffer { buffer: self.ebo }));
        context.submit(Command::plain(Call::DeleteBuffer { buffer: self.tbo }));
    }

    /// Releases the matrix buffer.
    pub fn clean_mbo(&self, context: &mut Context)
        ensures
            final(context)@ == old(context)@.step(
                plain(Call::DeleteBuffer { buffer: self.mbo }),
            ),
    {
        context.submit(Command::plain(Call::DeleteBuffer { buffer: self.mbo }));
    }

    /// Makes the vertex array the target of attribute configuration and the
    /// source of draws.
    pub fn bind_vao(&self, context: &mut Context)
        ensures
            final(context)@ == old(context)@.step(
                plain(Call::BindVertexArray { array: self.vao }),
            ),
    {
        context.submit(Command::plain(Call::BindVertexArray { array: self.vao }));
    }

    /// Leaves no vertex array bound.
    pub fn unbind_vao(&self, context: &mut Context)
        ensures
            final(context)@ == old(context)@.step(plain(Call::BindVertexArray { array: 0 })),
    {
        context.submit(Command::plain(Call::BindVertexArray { array: 0 }));
    }

    /// Leaves no buffer bound as the attribute source.
    pub fn unbind_array_buffer(context: &mut Context)
        ensures
            final(context)@ == old(context)@.step(
                plain(Call::BindBuffer { target: BufferTarget::Array, buffer: 0 }),
            ),
    {
        context.submit(
            Command::plain(Call::BindBuffer { target: BufferTarget::Array, buffer: 0 }),
        );
    }

    /// Leaves no buffer bound as the element source of the bound vertex array.
    pub fn unbind_element_buffer(context: &mut Context)
        ensures
            final(context)@ == old(context)@.step(
                plain(Call::BindBuffer { target: BufferTarget::ElementArray, buffer: 0 }),
            ),
    {
        context.submit(
            Command::plain(Call::BindBuffer { target: BufferTarget::ElementArray, buffer: 0 }),
        );
    }

    /// Binds the position buffer as the attribute source.
    pub fn bind_vbo(&self, context: &mut Context)
        ensures
            final(context)@ == old(context)@.step(
                plain(Call::BindBuffer { target: BufferTarget::Array, buffer: self.vbo }),
            ),
    {
        context.submit(
            Command::plain(Call::BindBuffer { target: BufferTarget::Array, buffer: self.vbo }),
        );
    }

    /// Binds the element buffer as the element source of the bound vertex
    /// array.
    pub fn bind_ebo(&self, context: &mut Context)
        ensures
            final(context)@ == old(context)@.step(
                plain(Call::BindBuffer { target: BufferTarget::ElementArray, buffer: self.ebo }),
            ),
    {
        context.submit(
            Command::plain(
                Call::BindBuffer { target: BufferTarget::ElementArray, buffer: self.ebo },
            ),
        );
    }

    /// Binds the coordinate buffer as the attribute source.
    pub fn bind_tbo(&self, context: &mut Context)
        ensures
            final(context)@ == old(context)@.step(
                plain(Call::BindBuffer { target: BufferTarget::Array, buffer: self.tbo }),
            ),
    {
        context.submit(
            Command::plain(Call::BindBuffer { target: BufferTarget::Array, buffer: self.tbo }),
        );
    }

    /// Binds the matrix buffer as the attribute source.
    pub fn bind_mbo(&self, context: &mut Context)
        ensures
            final(context)@ == old(context)@.step(
                plain(Call::BindBuffer { target: BufferTarget::Array, buffer: self.mbo }),
            ),
    {
        context.submit(
            Command::plain(Call::BindBuffer { target: BufferTarget::Array, buffer: self.mbo }),
        );
    }
}

/// Whether `after` differs from `before` in its buffers by exactly this:
/// `buffer`, if it exists, holds `data` with the hint `usage`.
pub open spec fn stored(
    before: GpuState,
    after: GpuState,
    buffer: u32,
    data: Seq<u8>,
    usage: u32,
) -> bool {
    &&& after.buffers.dom() == before.buffers.dom()
    &&& before.buffers.contains_key(buffer) ==> after.buffers[buffer] == (StoreState { data, usage })
    &&& forall|other: u32| other != buffer ==> after.buffers[other] == before.buffers[other]
}

/// Whether `after` has the textures, shaders and programs of `before`, the
/// same texture bound, the same program in use and the same vertex array
/// bound.
pub open spec fn rest_kept(before: GpuState, after: GpuState) -> bool {
    &&& after.vertex_array == before.vertex_array
    &&& after.texture == before.texture
    &&& after.program == before.program
    &&& after.textures == before.textures
    &&& after.shaders == before.shaders
    &&& after.programs == before.programs
    &&& after.layouts.dom() == before.layouts.dom()
}

impl Buffer {
    /// Attribute 0 once positions are uploaded: three floats per vertex,
    /// tightly packed, read from the position buffer.
    pub open spec fn position_attribute(self, divisor: u32) -> Attribute {
        Attribute { enabled: true, components: 3, kind: ComponentKind::Float, normalized: false, stride: 12, offset: 0, divisor, buffer: self.vbo }
    }

    /// Attribute 1 once coordinates are uploaded: two floats per vertex,
    /// tightly packed, read from the coordinate buffer.
    pub open spec fn texcoord_attribute(self, divisor: u32) -> Attribute {
        Attribute { enabled: true, components: 2, kind: ComponentKind::Float, normalized: false, stride: 8, offset: 0, divisor, buffer: self.tbo }
    }

    /// Attribute `2 + column` once matrices are uploaded: four floats, one
    /// matrix apart, `column` columns into the matrix, one per instance,
    /// read from the matrix buffer.
    pub open spec fn instance_attribute(self, column: u32) -> Attribute {
        Attribute {
            enabled: true,
            components: 4,
            kind: ComponentKind::Float,
            normalized: false,
            stride: 64,
            offset: (16 * column) as usize,
            divisor: 1,
            buffer: self.mbo,
        }
    }

    /// What an upload of vertex positions comes to. The position buffer is
    /// bound and, if it exists, holds exactly `data`. If a vertex array is
    /// bound, its attribute 0 is the position attribute, with the divisor it
    /// had. Every other buffer and attribute is as it was.
    pub open spec fn vbo_uploaded(
        self,
        before: GpuState,
        after: GpuState,
        data: Seq<u8>,
        usage: u32,
    ) -> bool {
        let array = before.vertex_array;
        &&& after.pending == before.pending + self.vbo_ops(data, usage)
        &&& after.array_buffer == self.vbo
        &&& stored(before, after, self.vbo, data, usage)
        &&& rest_kept(before, after)
        &&& before.layouts.contains_key(array) ==> after.attribute(array, 0)
            == self.position_attribute(before.attribute(array, 0).divisor)
        &&& forall|other: u32, index: u32|
            other != array || index != 0 ==> #[trigger] after.attribute(other, index)
                == before.attribute(other, index)
    }

    /// An upload of vertex positions comes to what `vbo_uploaded` says.
    pub proof fn law_vbo_upload(self, state: GpuState, data: Seq<u8>, usage: u32)
        ensures
            self.vbo_uploaded(state, state.run(self.vbo_ops(data, usage)), data, usage),
    {
        let ops = self.vbo_ops(data, usage);
        let after = state.run(ops);
        assert(after.pending =~= state.pending + ops);
        assert(after.buffers.dom() =~= state.buffers.dom());
        assert(after.layouts.dom() =~= state.layouts.dom());
    }

    /// What an upload of texture coordinates comes to. The coordinate buffer
    /// is bound and, if it exists, holds exactly `data`. If a vertex array is
    /// bound, its attribute 1 is the coordinate attribute, with the divisor
    /// it had. Every other buffer and attribute is as it was.
    pub open spec fn tbo_uploaded(
        self,
        before: GpuState,
        after: GpuState,
        data: Seq<u8>,
        usage: u32,
    ) -> bool {
        let array = before.vertex_array;
        &&& after.pending == before.pending + self.tbo_ops(data, usage)
        &&& after.array_buffer == self.tbo
        &&& stored(before, after, self.tbo, data, usage)
        &&& rest_kept(before, after)
        &&& before.layouts.contains_key(array) ==> after.attribute(array, 1)
            == self.texcoord_attribute(before.attribute(array, 1).divisor)
        &&& forall|other: u32, index: u32|
            other != array || index != 1 ==> #[trigger] after.attribute(other, index)
                == before.attribute(other, index)
    }

    /// An upload of texture coordinates comes to what `tbo_uploaded` says.
    pub proof fn law_tbo_upload(self, state: GpuState, data: Seq<u8>, usage: u32)
        ensures
            self.tbo_uploaded(state, state.run(self.tbo_ops(data, usage)), data, usage),
    {
        let ops = self.tbo_ops(data, usage);
        let after = state.run(ops);
        assert(after.pending =~= state.pending + ops);
        assert(after.buffers.dom() =~= state.buffers.dom());
        assert(after.layouts.dom() =~= state.layouts.dom());
    }

    /// What an upload of instance matrices comes to. The matrix buffer is
    /// bound and, if it exists, holds exactly `data`. If a vertex array is
    /// bound, its attributes 2, 3, 4 and 5 are the four columns of one
    /// matrix per instance: each is enabled and advances once per instance.
    /// Every other buffer and attribute is as it was.
    pub open spec fn mbo_uploaded(
        self,
        before: GpuState,
        after: GpuState,
        data: Seq<u8>,
        usage: u32,
    ) -> bool {
        let array = before.vertex_array;
        &&& after.pending == before.pending + self.mbo_ops(data, usage)
        &&& after.array_buffer == self.mbo
        &&& stored(before, after, self.mbo, data, usage)
        &&& rest_kept(before, after)
        &&& before.layouts.contains_key(array) ==> forall|column: u32|
            column < 4 ==> #[trigger] after.attribute(array, (2 + column) as u32)
                == self.instance_attribute(column)
        &&& forall|other: u32, index: u32|
            other != array || index < 2 || index > 5 ==> #[trigger] after.attribute(other, index)
                == before.attribute(other, index)
    }

    /// An upload of instance matrices comes to what `mbo_uploaded` says.
    pub proof fn law_mbo_upload(self, state: GpuState, data: Seq<u8>, usage: u32)
        ensures
            self.mbo_uploaded(state, state.run(self.mbo_ops(data, usage)), data, usage),
    {
        let ops = self.mbo_ops(data, usage);
        let after = state.run(ops);
        let array = state.vertex_array;
        assert(after.pending =~= state.pending + ops);
        assert(after.buffers.dom() =~= state.buffers.dom());
        assert(after.layouts.dom() =~= state.layouts.dom());
        if state.layouts.contains_key(array) {
            assert forall|column: u32| column < 4 implies #[trigger] after.attribute(
                array,
                (2 + column) as u32,
            ) == self.instance_attribute(column) by {
                assert(column == 0 || column == 1 || column == 2 || column == 3);
            }
        }
    }

    /// What an upload of element indices comes to, where a vertex array is
    /// bound. The element buffer is that array's element source and, if it
    /// exists, holds exactly `data`. No attribute changes, nor any other
    /// buffer.
    pub open spec fn ebo_uploaded(
        self,
        before: GpuState,
        after: GpuState,
        data: Seq<u8>,
        usage: u32,
    ) -> bool {
        let array = before.vertex_array;
        &&& after.pending == before.pending + self.ebo_ops(data, usage)
        &&& after.array_buffer == before.array_buffer
        &&& rest_kept(before, after)
        &&& before.layouts.contains_key(array) ==> {
            &&& after.bound_buffer(BufferTarget::ElementArray) == self.ebo
            &&& stored(before, after, self.ebo, data, usage)
        }
        &&& forall|other: u32, index: u32| #[trigger]
            after.attribute(other, index) == before.attribute(other, index)
    }

    /// An upload of element indices comes to what `ebo_uploaded` says.
    pub proof fn law_ebo_upload(self, state: GpuState, data: Seq<u8>, usage: u32)
        ensures
            self.ebo_uploaded(state, state.run(self.ebo_ops(data, usage)), data, usage),
    {
        let ops = self.ebo_ops(data, usage);
        let after = state.run(ops);
        assert(after.pending =~= state.pending + ops);
        assert(after.layouts.dom() =~= state.layouts.dom());
        if state.layouts.contains_key(state.vertex_array) {
            assert(after.buffers.dom() =~= state.buffers.dom());
        }
    }

    /// Whether none of the five names is zero or names an object of its
    /// kind already: what the driver owes for names it hands out.
    pub open spec fn unused_in(self, state: GpuState) -> bool {
        &&& self.vao != 0 && !state.layouts.contains_key(self.vao)
        &&& self.vbo != 0 && !state.buffers.contains_key(self.vbo)
        &&& self.ebo != 0 && !state.buffers.contains_key(self.ebo)
        &&& self.tbo != 0 && !state.buffers.contains_key(self.tbo)
        &&& self.mbo != 0 && !state.buffers.contains_key(self.mbo)
    }

    /// Whether the five objects exist, the vertex array without any
    /// configured attribute or element source, the buffers without contents.
    pub open spec fn empty_in(self, state: GpuState) -> bool {
        &&& state.layouts.contains_key(self.vao) && state.layouts[self.vao] == LayoutState::empty()
        &&& state.buffers.contains_key(self.vbo) && state.buffers[self.vbo] == StoreState::empty()
        &&& state.buffers.contains_key(self.ebo) && state.buffers[self.ebo] == StoreState::empty()
        &&& state.buffers.contains_key(self.tbo) && state.buffers[self.tbo] == StoreState::empty()
        &&& state.buffers.contains_key(self.mbo) && state.buffers[self.mbo] == StoreState::empty()
    }

    /// A mesh made of names that the driver handed out fresh is empty, and
    /// making it binds nothing and queues nothing.
    pub proof fn law_new_is_empty(self, state: GpuState)
        ensures
            self.adopted(state).pending == state.pending,
            self.adopted(state).vertex_array == state.vertex_array,
            self.adopted(state).array_buffer == state.array_buffer,
            self.unused_in(state) ==> self.empty_in(self.adopted(state)),
    {
    }

    /// What a release comes to: the vertex array and the position, element
    /// and coordinate buffers are gone and none of them is bound. Every
    /// other object is as it was; so is the matrix buffer, unless it shares
    /// its name with one of the three.
    pub open spec fn cleaned(self, before: GpuState, after: GpuState) -> bool {
        &&& after.pending == before.pending + self.clean_ops()
        &&& after.layouts == before.layouts.remove(self.vao)
        &&& after.buffers == before.buffers.remove(self.vbo).remove(self.ebo).remove(self.tbo)
        &&& after.vertex_array == if before.vertex_array == self.vao {
            0
        } else {
            before.vertex_array
        }
        &&& after.array_buffer == if before.array_buffer == self.vbo || before.array_buffer
            == self.ebo || before.array_buffer == self.tbo {
            0
        } else {
            before.array_buffer
        }
        &&& after.texture == before.texture
        &&& after.program == before.program
        &&& after.textures == before.textures
        &&& after.shaders == before.shaders
        &&& after.programs == before.programs
    }

    /// A release comes to what `cleaned` says.
    pub proof fn law_clean(self, state: GpuState)
        ensures
            self.cleaned(state, state.run(self.clean_ops())),
    {
        let after = state.run(self.clean_ops());
        assert(after.pending =~= state.pending + self.clean_ops());
    }

    /// After a release the matrix buffer is still there with its contents,
    /// provided it has a name of its own; released too, none of the five
    /// objects is left.
    pub proof fn law_clean_spares_matrices(self, state: GpuState)
        requires
            self.mbo != self.vbo,
            self.mbo != self.ebo,
            self.mbo != self.tbo,
        ensures
            ({
                let after = state.run(self.clean_ops());
                let last = after.step(plain(Call::DeleteBuffer { buffer: self.mbo }));
                &&& after.buffers.contains_key(self.mbo) == state.buffers.contains_key(self.mbo)
                &&& after.contents(self.mbo) == state.contents(self.mbo)
                &&& !last.layouts.contains_key(self.vao)
                &&& !last.buffers.contains_key(self.vbo)
                &&& !last.buffers.contains_key(self.ebo)
                &&& !last.buffers.contains_key(self.tbo)
                &&& !last.buffers.contains_key(self.mbo)
            }),
    {
        self.law_clean(state);
    }

    /// Uploading again replaces what was uploaded before: whatever the
    /// first upload held and however long it was, the buffer then holds
    /// exactly the bytes of the second.
    pub proof fn law_reupload_replaces(
        self,
        state: GpuState,
        first: Seq<u8>,
        first_usage: u32,
        second: Seq<u8>,
        second_usage: u32,
    )
        ensures
            state.buffers.contains_key(self.vbo) ==> state.run(self.vbo_ops(first, first_usage)).run(
                self.vbo_ops(second, second_usage),
            ).contents(self.vbo) == second,
            state.buffers.contains_key(self.tbo) ==> state.run(self.tbo_ops(first, first_usage)).run(
                self.tbo_ops(second, second_usage),
            ).contents(self.tbo) == second,
            state.buffers.contains_key(self.mbo) ==> state.run(self.mbo_ops(first, first_usage)).run(
                self.mbo_ops(second, second_usage),
            ).contents(self.mbo) == second,
            state.buffers.contains_key(self.ebo) && state.layouts.contains_key(state.vertex_array)
                ==> state.run(self.ebo_ops(first, first_usage)).run(
                self.ebo_ops(second, second_usage),
            ).contents(self.ebo) == second,
    {
        let vbo = state.run(self.vbo_ops(first, first_usage));
        self.law_vbo_upload(state, first, first_usage);
        self.law_vbo_upload(vbo, second, second_usage);
        let tbo = state.run(self.tbo_ops(first, first_usage));
        self.law_tbo_upload(state, first, first_usage);
        self.law_tbo_upload(tbo, second, second_usage);
        let mbo = state.run(self.mbo_ops(first, first_usage));
        self.law_mbo_upload(state, first, first_usage);
        self.law_mbo_upload(mbo, second, second_usage);
        let ebo = state.run(self.ebo_ops(first, first_usage));
        self.law_ebo_upload(state, first, first_usage);
        self.law_ebo_upload(ebo, second, second_usage);
    }

    /// The position and the coordinate attribute are configured
    /// independently: an upload of positions leaves attribute 1 as it was,
    /// an upload of coordinates leaves attribute 0 as it was, and after
    /// both, in either order, both are enabled.
    pub proof fn law_position_and_texcoord_independent(
        self,
        state: GpuState,
        positions: Seq<u8>,
        coordinates: Seq<u8>,
        usage: u32,
    )
        requires
            state.layouts.contains_key(state.vertex_array),
        ensures
            ({
                let array = state.vertex_array;
                let with_positions = state.run(self.vbo_ops(positions, usage));
                let with_coordinates = state.run(self.tbo_ops(coordinates, usage));
                let both = with_positions.run(self.tbo_ops(coordinates, usage));
                let both_reversed = with_coordinates.run(self.vbo_ops(positions, usage));
                &&& with_positions.attribute(array, 1) == state.attribute(array, 1)
                &&& with_coordinates.attribute(array, 0) == state.attribute(array, 0)
                &&& both.attribute(array, 0).enabled && both.attribute(array, 1).enabled
                &&& both_reversed.attribute(array, 0).enabled && both_reversed.attribute(
                    array,
                    1,
                ).enabled
                &&& both.attribute(array, 0) == both_reversed.attribute(array, 0)
                &&& both.attribute(array, 1) == both_reversed.attribute(array, 1)
            }),
    {
        let with_positions = state.run(self.vbo_ops(positions, usage));
        let with_coordinates = state.run(self.tbo_ops(coordinates, usage));
        self.law_vbo_upload(state, positions, usage);
        self.law_tbo_upload(state, coordinates, usage);
        self.law_tbo_upload(with_positions, coordinates, usage);
        self.law_vbo_upload(with_coordinates, positions, usage);
    }

    /// After an upload of instance matrices with a vertex array bound, each
    /// of the attributes 2, 3, 4 and 5 is enabled and has the divisor 1, and
    /// no attribute outside them has changed.
    pub proof fn law_instance_divisors(self, state: GpuState, data: Seq<u8>, usage: u32)
        requires
            state.layouts.contains_key(state.vertex_array),
        ensures
            ({
                let array = state.vertex_array;
                let after = state.run(self.mbo_ops(data, usage));
                &&& forall|index: u32|
                    2 <= index <= 5 ==> (#[trigger] after.attribute(array, index)).divisor == 1
                        && after.attribute(array, index).enabled
                &&& forall|index: u32|
                    index < 2 || index > 5 ==> #[trigger] after.attribute(array, index)
                        == state.attribute(array, index)
            }),
    {
        let array = state.vertex_array;
        let after = state.run(self.mbo_ops(data, usage));
        self.law_mbo_upload(state, data, usage);
        assert forall|index: u32| 2 <= index <= 5 implies (#[trigger] after.attribute(
            array,
            index,
        )).divisor == 1 && after.attribute(array, index).enabled by {
            let column = (index - 2) as u32;
            assert(after.attribute(array, (2 + column) as u32) == self.instance_attribute(column));
        }
    }

    /// Attributes belong to the bound vertex array: with none bound, an
    /// upload stores its bytes and configures nothing.
    pub proof fn law_unbound_layout_configures_nothing(
        self,
        state: GpuState,
        data: Seq<u8>,
        usage: u32,
    )
        requires
            !state.layouts.contains_key(state.vertex_array),
        ensures
            state.run(self.vbo_ops(data, usage)).layouts == state.layouts,
            state.run(self.tbo_ops(data, usage)).layouts == state.layouts,
            state.run(self.mbo_ops(data, usage)).layouts == state.layouts,
            state.run(self.ebo_ops(data, usage)).layouts == state.layouts,
            state.buffers.contains_key(self.vbo) ==> state.run(
                self.vbo_ops(data, usage),
            ).contents(self.vbo) == data,
    {
        self.law_vbo_upload(state, data, usage);
    }
}

} // verus!
