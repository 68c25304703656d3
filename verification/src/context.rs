//! The explicit graphics context: the queue of driver calls and the running
//! account of the state they establish.

use crate::command::{
    Answer, BufferTarget, Call, Command, Op, PixelFormat, Reply, ShaderStage, TextureParameter,
    TextureSetting, TextureTarget, NO_LOCATION,
};
use crate::state::{
    chain_length, mip_levels, Attribute, GpuState, ImageState, LayoutState, ProgramState,
    StoreState,
};
use std::collections::HashMap;
use vstd::prelude::*;
use vstd::slice::slice_to_vec;

verus! {

broadcast use vstd::std_specs::hash::group_hash_axioms;

struct Layout {
    element_buffer: u32,
    attributes: HashMap<u32, Attribute>,
}

impl View for Layout {
    type V = LayoutState;

    closed spec fn view(&self) -> LayoutState {
        LayoutState { element_buffer: self.element_buffer, attributes: self.attributes@ }
    }
}

struct Store {
    data: Vec<u8>,
    usage: u32,
}

impl View for Store {
    type V = StoreState;

    closed spec fn view(&self) -> StoreState {
        StoreState { data: self.data@, usage: self.usage }
    }
}

struct Image {
    wrap_s: Option<TextureSetting>,
    wrap_t: Option<TextureSetting>,
    min_filter: Option<TextureSetting>,
    mag_filter: Option<TextureSetting>,
    width: i32,
    height: i32,
    pixels: Vec<u8>,
    levels: u32,
}

impl View for Image {
    type V = ImageState;

    closed spec fn view(&self) -> ImageState {
        ImageState {
            wrap_s: self.wrap_s,
            wrap_t: self.wrap_t,
            min_filter: self.min_filter,
            mag_filter: self.mag_filter,
            width: self.width,
            height: self.height,
            pixels: self.pixels@,
            levels: self.levels as nat,
        }
    }
}

struct Program {
    linked: bool,
    uniforms: HashMap<i32, Vec<u8>>,
}

impl View for Program {
    type V = ProgramState;

    closed spec fn view(&self) -> ProgramState {
        ProgramState {
            linked: self.linked,
            uniforms: self.uniforms@.map_values(|bytes: Vec<u8>| bytes@),
        }
    }
}

/// The views of queued commands, in order.
pub open spec fn ops_of(commands: Seq<Command>) -> Seq<Op> {
    commands.map_values(|command: Command| command@)
}

/// Number of images in the mipmap chain of an image whose longer side is
/// `extent` texels.
pub fn mip_chain(extent: i32) -> (levels: u32)
    ensures
        levels == chain_length(extent as int),
{
    if extent < 1 {
        return 0;
    }
    let mut levels: u32 = 1;
    let mut rest: i32 = extent;
    while rest > 1
        invariant
            1 <= rest <= extent,
            1 <= levels <= 1 + (extent - rest),
            chain_length(extent as int) == (levels - 1) + chain_length(rest as int),
        decreases rest,
    {
        rest = rest / 2;
        levels = levels + 1;
    }
    levels
}

/// Number of mipmap levels of the whole chain of an image of `width` by
/// `height` texels.
pub fn whole_chain(width: i32, height: i32) -> (levels: u32)
    ensures
        levels == mip_levels(width, height),
{
    if width < 1 || height < 1 {
        0
    } else if width >= height {
        mip_chain(width)
    } else {
        mip_chain(height)
    }
}

/// The graphics context that every operation of this layer is handed.
///
/// It holds the driver calls that were asked for and not yet taken, and an
/// account of what the driver holds once it has carried out every call
/// asked for so far. The account follows the calls, not the driver: where
/// the driver refuses a call, the two part ways.
pub struct Context {
    pending: Vec<Command>,
    vertex_array: u32,
    array_buffer: u32,
    texture: u32,
    program: u32,
    layouts: HashMap<u32, Layout>,
    buffers: HashMap<u32, Store>,
    textures: HashMap<u32, Image>,
    shaders: HashMap<u32, ShaderStage>,
    programs: HashMap<u32, Program>,
}

impl View for Context {
    type V = GpuState;

    closed spec fn view(&self) -> GpuState {
        GpuState {
            pending: ops_of(self.pending@),
            vertex_array: self.vertex_array,
            array_buffer: self.array_buffer,
            texture: self.texture,
            program: self.program,
            layouts: self.layouts@.map_values(|layout: Layout| layout@),
            buffers: self.buffers@.map_values(|store: Store| store@),
            textures: self.textures@.map_values(|image: Image| image@),
            shaders: self.shaders@,
            programs: self.programs@.map_values(|program: Program| program@),
        }
    }
}

impl Context {
    /// A context in which nothing was created, bound or queued.
    pub fn new() -> (context: Context)
        ensures
            context@ == GpuState::initial(),
    {
        let context = Context {
            pending: Vec::new(),
            vertex_array: 0,
            array_buffer: 0,
            texture: 0,
            program: 0,
            layouts: HashMap::new(),
            buffers: HashMap::new(),
            textures: HashMap::new(),
            shaders: HashMap::new(),
            programs: HashMap::new(),
        };
        assert(context@.pending =~= Seq::empty());
        assert(context@.layouts =~= Map::empty());
        assert(context@.buffers =~= Map::empty());
        assert(context@.textures =~= Map::empty());
        assert(context@.programs =~= Map::empty());
        context
    }

    /// Name of the buffer bound to `target`, or zero.
    pub fn bound_buffer(&self, target: BufferTarget) -> (buffer: u32)
        ensures
            buffer == self@.bound_buffer(target),
    {
        match target {
            BufferTarget::Array => self.array_buffer,
            BufferTarget::ElementArray => match self.layouts.get(&self.vertex_array) {
                Some(layout) => layout.element_buffer,
                None => 0,
            },
        }
    }

    /// The configuration of attribute `index` of vertex array `array`.
    pub fn attribute(&self, array: u32, index: u32) -> (attribute: Attribute)
        ensures
            attribute == self@.attribute(array, index),
    {
        match self.layouts.get(&array) {
            Some(layout) => match layout.attributes.get(&index) {
                Some(attribute) => *attribute,
                None => Attribute::blank(),
            },
            None => Attribute::blank(),
        }
    }

    /// Whether `program` exists and linked.
    pub fn program_usable(&self, program: u32) -> (usable: bool)
        ensures
            usable == self@.usable(program),
    {
        match self.programs.get(&program) {
            Some(entry) => entry.linked,
            None => false,
        }
    }

    fn bind_element_buffer(&mut self, buffer: u32)
        ensures
            final(self)@ == old(self)@.effect(
                Op {
                    call: Call::BindBuffer { target: BufferTarget::ElementArray, buffer },
                    payload: Seq::empty(),
                },
            ),
    {
        let array = self.vertex_array;
        match self.layouts.remove(&array) {
            Some(layout) => {
                let mut layout = layout;
                layout.element_buffer = buffer;
                self.layouts.insert(array, layout);
                assert(final(self)@.layouts =~= old(self)@.layouts.insert(
                    array,
                    LayoutState { element_buffer: buffer, ..old(self)@.layouts[array] },
                ));
            },
            None => {
                assert(final(self)@.layouts =~= old(self)@.layouts);
            },
        }
    }

    fn store(&mut self, target: BufferTarget, usage: u32, payload: &Vec<u8>)
        ensures
            final(self)@ == old(self)@.effect(
                Op { call: Call::BufferData { target, usage }, payload: payload@ },
            ),
    {
        let buffer = self.bound_buffer(target);
        if self.buffers.contains_key(&buffer) {
            let data = slice_to_vec(payload.as_slice());
            self.buffers.insert(buffer, Store { data, usage });
            assert(final(self)@.buffers =~= old(self)@.buffers.insert(
                buffer,
                StoreState { data: payload@, usage },
            ));
        }
    }

    fn set_attribute(&mut self, index: u32, attribute: Attribute)
        ensures
            final(self)@ == old(self)@.with_attribute(index, attribute),
    {
        let array = self.vertex_array;
        match self.layouts.remove(&array) {
            Some(layout) => {
                let mut layout = layout;
                layout.attributes.insert(index, attribute);
                self.layouts.insert(array, layout);
                assert(final(self)@.layouts =~= old(self)@.with_attribute(index, attribute).layouts);
            },
            None => {
                assert(final(self)@.layouts =~= old(self)@.layouts);
            },
        }
    }

    fn delete_vertex_array(&mut self, array: u32)
        ensures
            final(self)@ == old(self)@.effect(
                Op { call: Call::DeleteVertexArray { array }, payload: Seq::empty() },
            ),
    {
        self.layouts.remove(&array);
        if self.vertex_array == array {
            self.vertex_array = 0;
        }
        assert(final(self)@.layouts =~= old(self)@.layouts.remove(array));
    }

    fn delete_buffer(&mut self, buffer: u32)
        ensures
            final(self)@ == old(self)@.effect(
                Op { call: Call::DeleteBuffer { buffer }, payload: Seq::empty() },
            ),
    {
        self.buffers.remove(&buffer);
        if self.array_buffer == buffer {
            self.array_buffer = 0;
        }
        assert(final(self)@.buffers =~= old(self)@.buffers.remove(buffer));
    }

    fn delete_texture(&mut self, texture: u32)
        ensures
            final(self)@ == old(self)@.effect(
                Op { call: Call::DeleteTexture { texture }, payload: Seq::empty() },
            ),
    {
        self.textures.remove(&texture);
        if self.texture == texture {
            self.texture = 0;
        }
        assert(final(self)@.textures =~= old(self)@.textures.remove(texture));
    }

    fn set_parameter(
        &mut self,
        target: TextureTarget,
        parameter: TextureParameter,
        setting: TextureSetting,
    )
        ensures
            final(self)@ == old(self)@.effect(
                Op {
                    call: Call::TexParameter { target, parameter, setting },
                    payload: Seq::empty(),
                },
            ),
    {
        let texture = self.texture;
        match self.textures.remove(&texture) {
            Some(image) => {
                let mut image = image;
                match parameter {
                    TextureParameter::WrapS => {
                        image.wrap_s = Some(setting);
                    },
                    TextureParameter::WrapT => {
                        image.wrap_t = Some(setting);
                    },
                    TextureParameter::MinFilter => {
                        image.min_filter = Some(setting);
                    },
                    TextureParameter::MagFilter => {
                        image.mag_filter = Some(setting);
                    },
                }
                self.textures.insert(texture, image);
                assert(final(self)@.textures =~= old(self)@.textures.insert(
                    texture,
                    old(self)@.textures[texture].with_setting(parameter, setting),
                ));
            },
            None => {
                assert(final(self)@.textures =~= old(self)@.textures);
            },
        }
    }

    fn set_image(
        &mut self,
        target: TextureTarget,
        level: i32,
        format: PixelFormat,
        width: i32,
        height: i32,
        payload: &Vec<u8>,
    )
        ensures
            final(self)@ == old(self)@.effect(
                Op {
                    call: Call::TexImage2D { target, level, format, width, height },
                    payload: payload@,
                },
            ),
    {
        if level != 0 {
            return ;
        }
        let texture = self.texture;
        match self.textures.remove(&texture) {
            Some(image) => {
                let mut image = image;
                image.width = width;
                image.height = height;
                image.pixels = slice_to_vec(payload.as_slice());
                image.levels = if width < 1 || height < 1 {
                    0
                } else {
                    1
                };
                self.textures.insert(texture, image);
                assert(final(self)@.textures =~= old(self)@.textures.insert(
                    texture,
                    ImageState {
                        width,
                        height,
                        pixels: payload@,
                        levels: if width < 1 || height < 1 {
                            0
                        } else {
                            1
                        },
                        ..old(self)@.textures[texture]
                    },
                ));
            },
            None => {
                assert(final(self)@.textures =~= old(self)@.textures);
            },
        }
    }

    fn generate_mipmap(&mut self, target: TextureTarget)
        ensures
            final(self)@ == old(self)@.effect(
                Op { call: Call::GenerateMipmap { target }, payload: Seq::empty() },
            ),
    {
        let texture = self.texture;
        match self.textures.remove(&texture) {
            Some(image) => {
                let mut image = image;
                image.levels = whole_chain(image.width, image.height);
                self.textures.insert(texture, image);
                assert(final(self)@.textures =~= old(self)@.textures.insert(
                    texture,
                    ImageState {
                        levels: mip_levels(
                            old(self)@.textures[texture].width,
                            old(self)@.textures[texture].height,
                        ),
                        ..old(self)@.textures[texture]
                    },
                ));
            },
            None => {
                assert(final(self)@.textures =~= old(self)@.textures);
            },
        }
    }

    fn delete_program(&mut self, program: u32)
        ensures
            final(self)@ == old(self)@.effect(
                Op { call: Call::DeleteProgram { program }, payload: Seq::empty() },
            ),
    {
        self.programs.remove(&program);
        if self.program == program {
            self.program = 0;
        }
        assert(final(self)@.programs =~= old(self)@.programs.remove(program));
    }

    fn set_uniform(&mut self, location: i32, count: i32, transpose: bool, payload: &Vec<u8>)
        ensures
            final(self)@ == old(self)@.effect(
                Op {
                    call: Call::UniformMatrix4fv { location, count, transpose },
                    payload: payload@,
                },
            ),
    {
        if location != NO_LOCATION {
            let current = self.program;
            match self.programs.remove(&current) {
                Some(program) => {
                    let mut program = program;
                    program.uniforms.insert(location, slice_to_vec(payload.as_slice()));
                    assert(program@.uniforms =~= old(self)@.programs[current].uniforms.insert(
                        location,
                        payload@,
                    ));
                    self.programs.insert(current, program);
                    assert(final(self)@.programs =~= old(self)@.programs.insert(
                        current,
                        ProgramState {
                            uniforms: old(self)@.programs[current].uniforms.insert(
                                location,
                                payload@,
                            ),
                            ..old(self)@.programs[current]
                        },
                    ));
                },
                None => {
                    assert(final(self)@.programs =~= old(self)@.programs);
                },
            }
        }
    }

    fn apply(&mut self, call: Call, payload: &Vec<u8>)
        ensures
            final(self)@ == old(self)@.effect(Op { call, payload: payload@ }),
    {
        match call {
            Call::BindVertexArray { array } => {
                self.vertex_array = array;
            },
            Call::BindBuffer { target, buffer } => match target {
                BufferTarget::Array => {
                    self.array_buffer = buffer;
                },
                BufferTarget::ElementArray => {
                    self.bind_element_buffer(buffer);
                },
            },
            Call::BufferData { target, usage } => {
                self.store(target, usage, payload);
            },
            Call::VertexAttribPointer { index, components, kind, normalized, stride, offset } => {
                let before = self.attribute(self.vertex_array, index);
                self.set_attribute(
                    index,
                    Attribute {
                        enabled: before.enabled,
                        components,
                        kind,
                        normalized,
                        stride,
                        offset,
                        divisor: before.divisor,
                        buffer: self.array_buffer,
                    },
                );
            },
            Call::EnableVertexAttribArray { index } => {
                let before = self.attribute(self.vertex_array, index);
                self.set_attribute(
                    index,
                    Attribute {
                        enabled: true,
                        components: before.components,
                        kind: before.kind,
                        normalized: before.normalized,
                        stride: before.stride,
                        offset: before.offset,
                        divisor: before.divisor,
                        buffer: before.buffer,
                    },
                );
            },
            Call::VertexAttribDivisor { index, divisor } => {
                let before = self.attribute(self.vertex_array, index);
                self.set_attribute(
                    index,
                    Attribute {
                        enabled: before.enabled,
                        components: before.components,
                        kind: before.kind,
                        normalized: before.normalized,
                        stride: before.stride,
                        offset: before.offset,
                        divisor,
                        buffer: before.buffer,
                    },
                );
            },
            Call::DeleteVertexArray { array } => {
                self.delete_vertex_array(array);
            },
            Call::DeleteBuffer { buffer } => {
                self.delete_buffer(buffer);
            },
            Call::BindTexture { target: _, texture } => {
                self.texture = texture;
            },
            Call::TexParameter { target, parameter, setting } => {
                self.set_parameter(target, parameter, setting);
            },
            Call::TexImage2D { target, level, format, width, height } => {
                self.set_image(target, level, format, width, height, payload);
            },
            Call::GenerateMipmap { target } => {
                self.generate_mipmap(target);
            },
            Call::DeleteTexture { texture } => {
                self.delete_texture(texture);
            },
            Call::DeleteShader { shader } => {
                self.shaders.remove(&shader);
            },
            Call::UseProgram { program } => {
                if self.program_usable(program) {
                    self.program = program;
                }
            },
            Call::DeleteProgram { program } => {
                self.delete_program(program);
            },
            Call::UniformMatrix4fv { location, count, transpose } => {
                self.set_uniform(location, count, transpose, payload);
            },
            _ => {},
        }
    }

    /// Queues one driver call and accounts for what it does.
    pub fn submit(&mut self, command: Command)
        ensures
            final(self)@ == old(self)@.step(command@),
    {
        self.apply(command.call, &command.payload);
        let ghost queued = self.pending@;
        let ghost applied = self@;
        self.pending.push(command);
        proof {
            assert(applied == old(self)@.effect(command@));
            assert(ops_of(queued.push(command)) =~= ops_of(queued).push(command@));
            assert(self@.pending =~= applied.pending.push(command@));
        }
    }

    /// Hands over the queued calls, oldest first, and leaves the queue empty.
    /// The account of the driver's state is unchanged.
    pub fn take(&mut self) -> (commands: Vec<Command>)
        ensures
            ops_of(commands@) == old(self)@.pending,
            final(self)@ == (GpuState { pending: Seq::empty(), ..old(self)@ }),
    {
        let mut commands: Vec<Command> = Vec::new();
        std::mem::swap(&mut commands, &mut self.pending);
        assert(final(self)@.pending =~= Seq::empty());
        commands
    }

    fn adopt(&mut self, call: Call, name: u32)
        ensures
            final(self)@ == old(self)@.learn(call, Answer::Name(name)),
    {
        if name == 0 {
            return ;
        }
        match call {
            Call::CreateVertexArray => {
                if !self.layouts.contains_key(&name) {
                    self.layouts.insert(
                        name,
                        Layout { element_buffer: 0, attributes: HashMap::new() },
                    );
                    assert(final(self)@.layouts =~= old(self)@.layouts.insert(
                        name,
                        LayoutState::empty(),
                    ));
                }
            },
            Call::GenBuffer => {
                if !self.buffers.contains_key(&name) {
                    self.buffers.insert(name, Store { data: Vec::new(), usage: 0 });
                    assert(final(self)@.buffers =~= old(self)@.buffers.insert(
                        name,
                        StoreState::empty(),
                    ));
                }
            },
            Call::GenTexture => {
                if !self.textures.contains_key(&name) {
                    self.textures.insert(
                        name,
                        Image {
                            wrap_s: None,
                            wrap_t: None,
                            min_filter: None,
                            mag_filter: None,
                            width: 0,
                            height: 0,
                            pixels: Vec::new(),
                            levels: 0,
                        },
                    );
                    assert(final(self)@.textures =~= old(self)@.textures.insert(
                        name,
                        ImageState::empty(),
                    ));
                }
            },
            Call::CreateShader { stage } => {
                if !self.shaders.contains_key(&name) {
                    self.shaders.insert(name, stage);
                }
            },
            Call::CreateProgram => {
                if !self.programs.contains_key(&name) {
                    let fresh = Program { linked: false, uniforms: HashMap::new() };
                    assert(fresh@.uniforms =~= Map::empty());
                    self.programs.insert(name, fresh);
                    assert(final(self)@.programs =~= old(self)@.programs.insert(
                        name,
                        ProgramState::empty(),
                    ));
                }
            },
            _ => {},
        }
    }

    fn settle_link(&mut self, program: u32, status: i32)
        ensures
            final(self)@ == old(self)@.learn(
                Call::GetLinkStatus { program },
                Answer::Value(status),
            ),
    {
        match self.programs.remove(&program) {
            Some(entry) => {
                let mut entry = entry;
                entry.linked = status != 0;
                self.programs.insert(program, entry);
                assert(final(self)@.programs =~= old(self)@.programs.insert(
                    program,
                    ProgramState { linked: status != 0, ..old(self)@.programs[program] },
                ));
            },
            None => {
                assert(final(self)@.programs =~= old(self)@.programs);
            },
        }
    }

    /// Takes note of the driver's answer to a call.
    pub fn record(&mut self, call: Call, reply: &Reply)
        ensures
            final(self)@ == old(self)@.learn(call, reply@),
    {
        match reply {
            Reply::Name(name) => {
                self.adopt(call, *name);
            },
            Reply::Value(status) => match call {
                Call::GetLinkStatus { program } => {
                    self.settle_link(program, *status);
                },
                _ => {},
            },
            _ => {},
        }
    }

    /// Number of calls queued and not yet taken.
    pub fn pending_len(&self) -> (count: usize)
        ensures
            count == self@.pending.len(),
    {
        self.pending.len()
    }

    /// Name of the bound vertex array, or zero.
    pub fn vertex_array(&self) -> (array: u32)
        ensures
            array == self@.vertex_array,
    {
        self.vertex_array
    }

    /// Name of the bound two-dimensional texture, or zero.
    pub fn texture(&self) -> (texture: u32)
        ensures
            texture == self@.texture,
    {
        self.texture
    }

    /// Name of the program in use, or zero.
    pub fn program(&self) -> (program: u32)
        ensures
            program == self@.program,
    {
        self.program
    }

    /// Whether there is a vertex array of this name.
    pub fn has_vertex_array(&self, array: u32) -> (known: bool)
        ensures
            known == self@.layouts.contains_key(array),
    {
        self.layouts.contains_key(&array)
    }

    /// Whether there is a shader object of this name.
    pub fn has_shader(&self, shader: u32) -> (known: bool)
        ensures
            known == self@.shaders.contains_key(shader),
    {
        self.shaders.contains_key(&shader)
    }

    /// The bytes that a buffer holds; `None` if there is no such buffer.
    pub fn buffer_data(&self, buffer: u32) -> (data: Option<Vec<u8>>)
        ensures
            match data {
                Some(bytes) => self@.buffers.contains_key(buffer) && bytes@
                    == self@.buffers[buffer].data,
                None => !self@.buffers.contains_key(buffer),
            },
    {
        match self.buffers.get(&buffer) {
            Some(store) => Some(slice_to_vec(store.data.as_slice())),
            None => None,
        }
    }

    /// The usage hint that a buffer's store was made with; `None` if there
    /// is no such buffer.
    pub fn buffer_usage(&self, buffer: u32) -> (usage: Option<u32>)
        ensures
            match usage {
                Some(hint) => self@.buffers.contains_key(buffer) && hint
                    == self@.buffers[buffer].usage,
                None => !self@.buffers.contains_key(buffer),
            },
    {
        match self.buffers.get(&buffer) {
            Some(store) => Some(store.usage),
            None => None,
        }
    }

    /// Width and height of a texture's image; `None` if there is no such
    /// texture.
    pub fn texture_size(&self, texture: u32) -> (size: Option<(i32, i32)>)
        ensures
            match size {
                Some((width, height)) => self@.textures.contains_key(texture) && width
                    == self@.textures[texture].width && height == self@.textures[texture].height,
                None => !self@.textures.contains_key(texture),
            },
    {
        match self.textures.get(&texture) {
            Some(image) => Some((image.width, image.height)),
            None => None,
        }
    }

    /// The bytes of a texture's image; `None` if there is no such texture.
    pub fn texture_pixels(&self, texture: u32) -> (pixels: Option<Vec<u8>>)
        ensures
            match pixels {
                Some(bytes) => self@.textures.contains_key(texture) && bytes@
                    == self@.textures[texture].pixels,
                None => !self@.textures.contains_key(texture),
            },
    {
        match self.textures.get(&texture) {
            Some(image) => Some(slice_to_vec(image.pixels.as_slice())),
            None => None,
        }
    }

    /// Number of mipmap levels of a texture that hold an image; `None` if
    /// there is no such texture.
    pub fn texture_levels(&self, texture: u32) -> (levels: Option<u32>)
        ensures
            match levels {
                Some(count) => self@.textures.contains_key(texture) && count
                    == self@.textures[texture].levels,
                None => !self@.textures.contains_key(texture),
            },
    {
        match self.textures.get(&texture) {
            Some(image) => Some(image.levels),
            None => None,
        }
    }

    /// The value of a sampling parameter of a texture; `None` if there is
    /// no such texture or the parameter was never set.
    pub fn texture_setting(&self, texture: u32, parameter: TextureParameter) -> (setting: Option<
        TextureSetting,
    >)
        ensures
            setting == if self@.textures.contains_key(texture) {
                self@.textures[texture].setting(parameter)
            } else {
                None
            },
    {
        match self.textures.get(&texture) {
            Some(image) => match parameter {
                TextureParameter::WrapS => image.wrap_s,
                TextureParameter::WrapT => image.wrap_t,
                TextureParameter::MinFilter => image.min_filter,
                TextureParameter::MagFilter => image.mag_filter,
            },
            None => None,
        }
    }

    /// The bytes last set at a uniform location of a program; `None` if
    /// there is no such program or nothing was set there.
    pub fn uniform(&self, program: u32, location: i32) -> (value: Option<Vec<u8>>)
        ensures
            match value {
                Some(bytes) => self@.programs.contains_key(program)
                    && self@.programs[program].uniforms.contains_key(location) && bytes@
                    == self@.programs[program].uniforms[location],
                None => !self@.programs.contains_key(program)
                    || !self@.programs[program].uniforms.contains_key(location),
            },
    {
        match self.programs.get(&program) {
            Some(entry) => match entry.uniforms.get(&location) {
                Some(bytes) => Some(slice_to_vec(bytes.as_slice())),
                None => None,
            },
            None => None,
        }
    }
}

} // verus!
