//! The driver state that this layer keeps account of, as a mathematical value,
//! and what each driver call does to it.

use crate::command::{
    Answer, BufferTarget, Call, ComponentKind, Op, ShaderStage, TextureParameter, TextureSetting,
    NO_LOCATION,
};
use vstd::prelude::*;

verus! {

/// How one vertex attribute of a vertex array is configured.
#[derive(Clone, Copy, Debug, PartialEq, Eq, Structural)]
pub struct Attribute {
    /// Whether the attribute is read from its buffer at all.
    pub enabled: bool,
    /// Number of components per element.
    pub components: i32,
    /// Type of each component.
    pub kind: ComponentKind,
    /// Whether integer components are scaled to the unit range when read.
    pub normalized: bool,
    /// Distance in bytes from one element to the next.
    pub stride: i32,
    /// Offset in bytes of the first element in the buffer.
    pub offset: usize,
    /// Zero when the attribute advances per vertex, otherwise the number of
    /// instances that share one element.
    pub divisor: u32,
    /// Name of the buffer the attribute reads from.
    pub buffer: u32,
}

impl Attribute {
    /// An attribute that was never configured.
    pub open spec fn unset() -> Attribute {
        Attribute {
            enabled: false,
            components: 0,
            kind: ComponentKind::Float,
            normalized: false,
            stride: 0,
            offset: 0,
            divisor: 0,
            buffer: 0,
        }
    }

    /// An attribute that was never configured.
    pub fn blank() -> (attribute: Attribute)
        ensures
            attribute == Attribute::unset(),
    {
        Attribute {
            enabled: false,
            components: 0,
            kind: ComponentKind::Float,
            normalized: false,
            stride: 0,
            offset: 0,
            divisor: 0,
            buffer: 0,
        }
    }
}

/// A vertex array: its element buffer binding and its attributes.
pub struct LayoutState {
    pub element_buffer: u32,
    pub attributes: Map<u32, Attribute>,
}

impl LayoutState {
    /// A vertex array as the driver creates it.
    pub open spec fn empty() -> LayoutState {
        LayoutState { element_buffer: 0, attributes: Map::empty() }
    }

    /// The configuration of the attribute at `index`.
    pub open spec fn attribute(self, index: u32) -> Attribute {
        if self.attributes.contains_key(index) {
            self.attributes[index]
        } else {
            Attribute::unset()
        }
    }
}

/// A buffer's store.
pub struct StoreState {
    pub data: Seq<u8>,
    pub usage: u32,
}

impl StoreState {
    /// A buffer that holds nothing yet.
    pub open spec fn empty() -> StoreState {
        StoreState { data: Seq::empty(), usage: 0 }
    }
}

/// A two-dimensional texture. A sampling parameter that is `None` was never
/// set and has the driver's default.
pub struct ImageState {
    pub wrap_s: Option<TextureSetting>,
    pub wrap_t: Option<TextureSetting>,
    pub min_filter: Option<TextureSetting>,
    pub mag_filter: Option<TextureSetting>,
    pub width: i32,
    pub height: i32,
    /// The bytes of the image at level zero, as they were uploaded.
    pub pixels: Seq<u8>,
    /// Number of mipmap levels that hold an image; none where the image
    /// has no texel.
    pub levels: nat,
}

impl ImageState {
    /// A texture that was neither configured nor given an image.
    pub open spec fn empty() -> ImageState {
        ImageState {
            wrap_s: None,
            wrap_t: None,
            min_filter: None,
            mag_filter: None,
            width: 0,
            height: 0,
            pixels: Seq::empty(),
            levels: 0,
        }
    }

    /// The value of a sampling parameter.
    pub open spec fn setting(self, parameter: TextureParameter) -> Option<TextureSetting> {
        match parameter {
            TextureParameter::WrapS => self.wrap_s,
            TextureParameter::WrapT => self.wrap_t,
            TextureParameter::MinFilter => self.min_filter,
            TextureParameter::MagFilter => self.mag_filter,
        }
    }

    /// This texture with one sampling parameter set.
    pub open spec fn with_setting(
        self,
        parameter: TextureParameter,
        setting: TextureSetting,
    ) -> ImageState {
        match parameter {
            TextureParameter::WrapS => ImageState { wrap_s: Some(setting), ..self },
            TextureParameter::WrapT => ImageState { wrap_t: Some(setting), ..self },
            TextureParameter::MinFilter => ImageState { min_filter: Some(setting), ..self },
            TextureParameter::MagFilter => ImageState { mag_filter: Some(setting), ..self },
        }
    }
}

/// A program object.
pub struct ProgramState {
    /// Whether the driver reported that the program linked.
    pub linked: bool,
    /// The bytes last uploaded to each uniform location.
    pub uniforms: Map<i32, Seq<u8>>,
}

impl ProgramState {
    /// A program as the driver creates it.
    pub open spec fn empty() -> ProgramState {
        ProgramState { linked: false, uniforms: Map::empty() }
    }
}

/// Number of images in the mipmap chain of an image whose longer side is
/// `extent` texels: the image itself and each halving down to one texel.
/// Without a texel there is no image and no chain.
pub open spec fn chain_length(extent: int) -> nat
    decreases extent,
{
    if extent < 1 {
        0
    } else if extent == 1 {
        1
    } else {
        1 + chain_length(extent / 2)
    }
}

/// Number of mipmap levels of the whole chain of an image of `width` by
/// `height` texels: none for an image without texels, otherwise the chain
/// of its longer side.
pub open spec fn mip_levels(width: i32, height: i32) -> nat {
    if width < 1 || height < 1 {
        0
    } else if width >= height {
        chain_length(width as int)
    } else {
        chain_length(height as int)
    }
}

/// What the driver holds once it has carried out every call queued so far
/// without reporting an error, together with the calls not yet handed over.
pub struct GpuState {
    /// Calls queued and not yet taken, oldest first.
    pub pending: Seq<Op>,
    /// Name of the bound vertex array, or zero.
    pub vertex_array: u32,
    /// Name of the buffer bound as the attribute source, or zero.
    pub array_buffer: u32,
    /// Name of the bound two-dimensional texture, or zero.
    pub texture: u32,
    /// Name of the program in use, or zero.
    pub program: u32,
    pub layouts: Map<u32, LayoutState>,
    pub buffers: Map<u32, StoreState>,
    pub textures: Map<u32, ImageState>,
    pub shaders: Map<u32, ShaderStage>,
    pub programs: Map<u32, ProgramState>,
}

impl GpuState {
    /// The state before anything was created or bound.
    pub open spec fn initial() -> GpuState {
        GpuState {
            pending: Seq::empty(),
            vertex_array: 0,
            array_buffer: 0,
            texture: 0,
            program: 0,
            layouts: Map::empty(),
            buffers: Map::empty(),
            textures: Map::empty(),
            shaders: Map::empty(),
            programs: Map::empty(),
        }
    }

    /// Name of the buffer bound to `target`, or zero. The element binding
    /// belongs to the bound vertex array.
    pub open spec fn bound_buffer(self, target: BufferTarget) -> u32 {
        match target {
            BufferTarget::Array => self.array_buffer,
            BufferTarget::ElementArray => if self.layouts.contains_key(self.vertex_array) {
                self.layouts[self.vertex_array].element_buffer
            } else {
                0
            },
        }
    }

    /// The configuration of attribute `index` of vertex array `array`.
    pub open spec fn attribute(self, array: u32, index: u32) -> Attribute {
        if self.layouts.contains_key(array) {
            self.layouts[array].attribute(index)
        } else {
            Attribute::unset()
        }
    }

    /// The bytes that buffer `buffer` holds; none if there is no such buffer.
    pub open spec fn contents(self, buffer: u32) -> Seq<u8> {
        if self.buffers.contains_key(buffer) {
            self.buffers[buffer].data
        } else {
            Seq::empty()
        }
    }

    /// Whether `program` exists and linked: only then can it be put to use.
    pub open spec fn usable(self, program: u32) -> bool {
        self.programs.contains_key(program) && self.programs[program].linked
    }

    /// This state with attribute `index` of the bound vertex array replaced.
    /// Without a bound vertex array there is nothing to configure.
    pub open spec fn with_attribute(self, index: u32, attribute: Attribute) -> GpuState {
        if self.layouts.contains_key(self.vertex_array) {
            let layout = self.layouts[self.vertex_array];
            GpuState {
                layouts: self.layouts.insert(
                    self.vertex_array,
                    LayoutState { attributes: layout.attributes.insert(index, attribute), ..layout },
                ),
                ..self
            }
        } else {
            self
        }
    }

    /// This state with the bound texture replaced. Without a bound texture
    /// there is nothing to change.
    pub open spec fn with_image(self, image: ImageState) -> GpuState {
        if self.textures.contains_key(self.texture) {
            GpuState { textures: self.textures.insert(self.texture, image), ..self }
        } else {
            self
        }
    }

    /// What a call does to the objects and bindings.
    pub open spec fn effect(self, op: Op) -> GpuState {
        match op.call {
            Call::BindVertexArray { array } => GpuState { vertex_array: array, ..self },
            Call::BindBuffer { target, buffer } => match target {
                BufferTarget::Array => GpuState { array_buffer: buffer, ..self },
                BufferTarget::ElementArray => if self.layouts.contains_key(self.vertex_array) {
                    let layout = self.layouts[self.vertex_array];
                    GpuState {
                        layouts: self.layouts.insert(
                            self.vertex_array,
                            LayoutState { element_buffer: buffer, ..layout },
                        ),
                        ..self
                    }
                } else {
                    self
                },
            },
            Call::BufferData { target, usage } => {
                let buffer = self.bound_buffer(target);
                if self.buffers.contains_key(buffer) {
                    GpuState {
                        buffers: self.buffers.insert(
                            buffer,
                            StoreState { data: op.payload, usage },
                        ),
                        ..self
                    }
                } else {
                    self
                }
            },
            Call::VertexAttribPointer { index, components, kind, normalized, stride, offset } => {
                let before = self.attribute(self.vertex_array, index);
                self.with_attribute(
                    index,
                    Attribute {
                        components,
                        kind,
                        normalized,
                        stride,
                        offset,
                        buffer: self.array_buffer,
                        ..before
                    },
                )
            },
            Call::EnableVertexAttribArray { index } => {
                let before = self.attribute(self.vertex_array, index);
                self.with_attribute(index, Attribute { enabled: true, ..before })
            },
            Call::VertexAttribDivisor { index, divisor } => {
                let before = self.attribute(self.vertex_array, index);
                self.with_attribute(index, Attribute { divisor, ..before })
            },
            Call::DeleteVertexArray { array } => GpuState {
                layouts: self.layouts.remove(array),
                vertex_array: if self.vertex_array == array {
                    0
                } else {
                    self.vertex_array
                },
                ..self
            },
            Call::DeleteBuffer { buffer } => GpuState {
                buffers: self.buffers.remove(buffer),
                array_buffer: if self.array_buffer == buffer {
                    0
                } else {
                    self.array_buffer
                },
                ..self
            },
            Call::BindTexture { texture, .. } => GpuState { texture, ..self },
            Call::TexParameter { parameter, setting, .. } => self.with_image(
                self.textures[self.texture].with_setting(parameter, setting),
            ),
            Call::TexImage2D { level, width, height, .. } => if level == 0 {
                self.with_image(
                    ImageState {
                        width,
                        height,
                        pixels: op.payload,
                        levels: if width < 1 || height < 1 {
                            0
                        } else {
                            1
                        },
                        ..self.textures[self.texture]
                    },
                )
            } else {
                self
            },
            Call::GenerateMipmap { .. } => {
                let image = self.textures[self.texture];
                self.with_image(
                    ImageState { levels: mip_levels(image.width, image.height), ..image },
                )
            },
            Call::DeleteTexture { texture } => GpuState {
                textures: self.textures.remove(texture),
                texture: if self.texture == texture {
                    0
                } else {
                    self.texture
                },
                ..self
            },
            Call::DeleteShader { shader } => GpuState {
                shaders: self.shaders.remove(shader),
                ..self
            },
            Call::UseProgram { program } => if self.usable(program) {
                GpuState { program, ..self }
            } else {
                self
            },
            Call::DeleteProgram { program } => GpuState {
                programs: self.programs.remove(program),
                program: if self.program == program {
                    0
                } else {
                    self.program
                },
                ..self
            },
            Call::UniformMatrix4fv { location, .. } => if location != NO_LOCATION
                && self.programs.contains_key(self.program) {
                let program = self.programs[self.program];
                GpuState {
                    programs: self.programs.insert(
                        self.program,
                        ProgramState {
                            uniforms: program.uniforms.insert(location, op.payload),
                            ..program
                        },
                    ),
                    ..self
                }
            } else {
                self
            },
            _ => self,
        }
    }

    /// The state after one more call is queued.
    pub open spec fn step(self, op: Op) -> GpuState {
        let after = self.effect(op);
        GpuState { pending: after.pending.push(op), ..after }
    }

    /// The state after a run of calls is queued, in order.
    pub open spec fn run(self, ops: Seq<Op>) -> GpuState
        decreases ops.len(),
    {
        if ops.len() == 0 {
            self
        } else {
            self.run(ops.drop_last()).step(ops.last())
        }
    }

    /// The state once the driver has answered `call` with `answer`: a new
    /// object is taken note of under the name the driver gave it, unless
    /// that name is zero or already in use for such an object, and a link
    /// status settles whether the program is usable.
    pub open spec fn learn(self, call: Call, answer: Answer) -> GpuState {
        match (call, answer) {
            (Call::CreateVertexArray, Answer::Name(name)) => if name != 0
                && !self.layouts.contains_key(name) {
                GpuState { layouts: self.layouts.insert(name, LayoutState::empty()), ..self }
            } else {
                self
            },
            (Call::GenBuffer, Answer::Name(name)) => if name != 0 && !self.buffers.contains_key(
                name,
            ) {
                GpuState { buffers: self.buffers.insert(name, StoreState::empty()), ..self }
            } else {
                self
            },
            (Call::GenTexture, Answer::Name(name)) => if name != 0 && !self.textures.contains_key(
                name,
            ) {
                GpuState { textures: self.textures.insert(name, ImageState::empty()), ..self }
            } else {
                self
            },
            (Call::CreateShader { stage }, Answer::Name(name)) => if name != 0
                && !self.shaders.contains_key(name) {
                GpuState { shaders: self.shaders.insert(name, stage), ..self }
            } else {
                self
            },
            (Call::CreateProgram, Answer::Name(name)) => if name != 0
                && !self.programs.contains_key(name) {
                GpuState { programs: self.programs.insert(name, ProgramState::empty()), ..self }
            } else {
                self
            },
            (Call::GetLinkStatus { program }, Answer::Value(status)) => if self.programs.contains_key(
                program,
            ) {
                GpuState {
                    programs: self.programs.insert(
                        program,
                        ProgramState { linked: status != 0, ..self.programs[program] },
                    ),
                    ..self
                }
            } else {
                self
            },
            _ => self,
        }
    }
}

impl GpuState {
    /// Whether no object goes by the name zero, which stands for "none".
    pub open spec fn zero_names_nothing(self) -> bool {
        &&& !self.layouts.contains_key(0)
        &&& !self.buffers.contains_key(0)
        &&& !self.textures.contains_key(0)
        &&& !self.shaders.contains_key(0)
        &&& !self.programs.contains_key(0)
    }
}

/// The name zero never comes to stand for an object: it does not at the
/// start, and no call and no answer of the driver makes it. So a program
/// named zero is never usable.
pub proof fn law_zero_names_nothing(state: GpuState, op: Op, call: Call, answer: Answer)
    requires
        state.zero_names_nothing(),
    ensures
        GpuState::initial().zero_names_nothing(),
        state.step(op).zero_names_nothing(),
        state.learn(call, answer).zero_names_nothing(),
        !state.usable(0),
{
}

/// Queuing one more call after a run is the run of the longer sequence.
pub broadcast proof fn lemma_run_push(state: GpuState, ops: Seq<Op>, op: Op)
    ensures
        #[trigger] state.run(ops.push(op)) == state.run(ops).step(op),
{
    assert(ops.push(op).drop_last() =~= ops);
}

/// A run of no calls changes nothing.
pub broadcast proof fn lemma_run_empty(state: GpuState)
    ensures
        #[trigger] state.run(Seq::empty()) == state,
{
}

/// A run queues its calls, in order, behind those already queued.
pub proof fn lemma_run_pending(state: GpuState, ops: Seq<Op>)
    ensures
        state.run(ops).pending == state.pending + ops,
    decreases ops.len(),
{
    if ops.len() == 0 {
        assert(state.pending + ops =~= state.pending);
    } else {
        lemma_run_pending(state, ops.drop_last());
        assert(state.pending + ops =~= (state.pending + ops.drop_last()).push(ops.last()));
    }
}

pub broadcast group group_run {
    lemma_run_push,
    lemma_run_empty,
}

} // verus!
