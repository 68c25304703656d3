//! The driver calls this library asks for, as plain values.

use vstd::prelude::*;

verus! {

/// Size in bytes of one 32-bit float component.
pub const FLOAT_SIZE: i32 = 4;

/// Attribute location of the vertex position (three floats).
pub const POSITION_LOCATION: u32 = 0;

/// Attribute location of the texture coordinate (two floats).
pub const TEXCOORD_LOCATION: u32 = 1;

/// First of the four attribute locations that hold one instance matrix.
pub const INSTANCE_MATRIX_LOCATION: u32 = 2;

/// Capacity of the buffer into which a stage's compile diagnostic is fetched.
pub const STAGE_LOG_CAPACITY: i32 = 512;

/// Size in bytes of one 4x4 matrix of 32-bit floats.
pub const MATRIX_SIZE: i32 = 64;

/// The location the driver reports for a uniform that the program lacks.
pub const NO_LOCATION: i32 = -1;

/// The two buffer binding points this layer uses.
#[derive(Clone, Copy, Debug, PartialEq, Eq, Structural)]
pub enum BufferTarget {
    /// Source of vertex attributes.
    Array,
    /// Source of element indices; belongs to the bound vertex array.
    ElementArray,
}

/// The two programmable stages of the pipeline.
#[derive(Clone, Copy, Debug, PartialEq, Eq, Structural)]
pub enum ShaderStage {
    Vertex,
    Fragment,
}

/// A sampling parameter of a two-dimensional texture.
#[derive(Clone, Copy, Debug, PartialEq, Eq, Structural)]
pub enum TextureParameter {
    WrapS,
    WrapT,
    MinFilter,
    MagFilter,
}

/// A value for a sampling parameter.
#[derive(Clone, Copy, Debug, PartialEq, Eq, Structural)]
pub enum TextureSetting {
    /// Wrap mode: the image repeats.
    Repeat,
    /// Filter: linear interpolation within one level.
    Linear,
    /// Filter: linear interpolation within and between mipmap levels.
    LinearMipmapLinear,
}

/// The type of the components of a vertex attribute.
#[derive(Clone, Copy, Debug, PartialEq, Eq, Structural)]
pub enum ComponentKind {
    /// 32-bit floating point.
    Float,
}

/// The texture binding point this layer uses.
#[derive(Clone, Copy, Debug, PartialEq, Eq, Structural)]
pub enum TextureTarget {
    /// Two-dimensional textures.
    Texture2D,
}

/// How the texels of an image are laid out, in the payload and in the
/// driver's store alike.
#[derive(Clone, Copy, Debug, PartialEq, Eq, Structural)]
pub enum PixelFormat {
    /// Red, green, blue: three channels of eight bits each.
    Rgb8,
}

/// One call into the driver, without the bytes it may carry. Strides and
/// offsets are in bytes; matrices are column-major.
#[allow(inconsistent_fields)]
#[derive(Clone, Copy, Debug, PartialEq, Eq, Structural)]
pub enum Call {
    /// Asks for a new vertex array object; answered with its name.
    CreateVertexArray,
    /// Asks for a new buffer name; answered with the name.
    GenBuffer,
    /// Asks for a new texture name; answered with the name.
    GenTexture,
    /// Asks for a new shader object of a stage; answered with its name.
    CreateShader { stage: ShaderStage },
    /// Asks for a new program object; answered with its name.
    CreateProgram,
    BindVertexArray { array: u32 },
    BindBuffer { target: BufferTarget, buffer: u32 },
    /// Replaces the store of the buffer bound to `target` by the payload.
    BufferData { target: BufferTarget, usage: u32 },
    VertexAttribPointer {
        index: u32,
        components: i32,
        kind: ComponentKind,
        normalized: bool,
        stride: i32,
        offset: usize,
    },
    EnableVertexAttribArray { index: u32 },
    VertexAttribDivisor { index: u32, divisor: u32 },
    DeleteVertexArray { array: u32 },
    DeleteBuffer { buffer: u32 },
    BindTexture { target: TextureTarget, texture: u32 },
    TexParameter { target: TextureTarget, parameter: TextureParameter, setting: TextureSetting },
    /// Tells the driver that each row of an image it is handed starts at a
    /// multiple of `bytes` bytes; with 1, rows follow each other without
    /// padding.
    UnpackAlignment { bytes: i32 },
    /// Replaces the image at mipmap level `level` of the bound texture by
    /// the payload.
    TexImage2D { target: TextureTarget, level: i32, format: PixelFormat, width: i32, height: i32 },
    GenerateMipmap { target: TextureTarget },
    DeleteTexture { texture: u32 },
    /// Sets the source text of a shader to the payload.
    ShaderSource { shader: u32 },
    CompileShader { shader: u32 },
    /// Asks whether the last compilation succeeded; answered with a value,
    /// zero for failure.
    GetCompileStatus { shader: u32 },
    /// Asks for at most `capacity` bytes of a shader's diagnostic; answered
    /// with text.
    GetShaderInfoLog { shader: u32, capacity: i32 },
    AttachShader { program: u32, shader: u32 },
    LinkProgram { program: u32 },
    /// Asks whether the last link succeeded; answered with a value, zero
    /// for failure.
    GetLinkStatus { program: u32 },
    /// Asks for the length of a program's diagnostic; answered with a value.
    GetInfoLogLength { program: u32 },
    /// Asks for at most `capacity` bytes of a program's diagnostic; answered
    /// with text.
    GetProgramInfoLog { program: u32, capacity: i32 },
    DeleteShader { shader: u32 },
    UseProgram { program: u32 },
    DeleteProgram { program: u32 },
    /// Asks for the location of the uniform named by the payload; answered
    /// with a value.
    GetUniformLocation { program: u32 },
    /// Sets `count` matrices of the current program from the payload,
    /// transposing each if `transpose` is set.
    UniformMatrix4fv { location: i32, count: i32, transpose: bool },
}

/// What kind of answer the driver gives to a call.
#[derive(Clone, Copy, Debug, PartialEq, Eq, Structural)]
pub enum ReplyKind {
    Nothing,
    Name,
    Value,
    Text,
}

impl Call {
    /// The kind of answer this call is owed.
    pub open spec fn expects(self) -> ReplyKind {
        match self {
            Call::CreateVertexArray
            | Call::GenBuffer
            | Call::GenTexture
            | Call::CreateShader { .. }
            | Call::CreateProgram => ReplyKind::Name,
            Call::GetCompileStatus { .. }
            | Call::GetLinkStatus { .. }
            | Call::GetInfoLogLength { .. }
            | Call::GetUniformLocation { .. } => ReplyKind::Value,
            Call::GetShaderInfoLog { .. } | Call::GetProgramInfoLog { .. } => ReplyKind::Text,
            _ => ReplyKind::Nothing,
        }
    }

    /// The kind of answer this call is owed.
    pub fn reply_kind(&self) -> (kind: ReplyKind)
        ensures
            kind == self.expects(),
    {
        match self {
            Call::CreateVertexArray
            | Call::GenBuffer
            | Call::GenTexture
            | Call::CreateShader { .. }
            | Call::CreateProgram => ReplyKind::Name,
            Call::GetCompileStatus { .. }
            | Call::GetLinkStatus { .. }
            | Call::GetInfoLogLength { .. }
            | Call::GetUniformLocation { .. } => ReplyKind::Value,
            Call::GetShaderInfoLog { .. } | Call::GetProgramInfoLog { .. } => ReplyKind::Text,
            _ => ReplyKind::Nothing,
        }
    }
}

/// A driver call as the mathematical value that contracts speak of.
pub struct Op {
    pub call: Call,
    pub payload: Seq<u8>,
}

/// A call that carries no bytes.
pub open spec fn plain(call: Call) -> Op {
    Op { call, payload: Seq::empty() }
}

/// A driver call together with the bytes it carries.
#[derive(Clone, Debug, PartialEq, Eq)]
pub struct Command {
    pub call: Call,
    pub payload: Vec<u8>,
}

impl View for Command {
    type V = Op;

    open spec fn view(&self) -> Op {
        Op { call: self.call, payload: self.payload@ }
    }
}

impl Command {
    /// A call that carries no bytes.
    pub fn plain(call: Call) -> (command: Command)
        ensures
            command@ == plain(call),
    {
        Command { call, payload: Vec::new() }
    }

    /// A call that carries `payload`.
    pub fn carrying(call: Call, payload: Vec<u8>) -> (command: Command)
        ensures
            command@ == (Op { call, payload: payload@ }),
    {
        Command { call, payload }
    }
}

/// A driver answer as the mathematical value that contracts speak of.
pub enum Answer {
    Nothing,
    Name(u32),
    Value(i32),
    Text(Seq<u8>),
}

/// What the driver handed back for one call.
#[derive(Clone, Debug, PartialEq, Eq)]
pub enum Reply {
    Nothing,
    /// The name of a newly created object.
    Name(u32),
    /// A status, a length or a location.
    Value(i32),
    /// The bytes of a diagnostic.
    Text(Vec<u8>),
}

impl View for Reply {
    type V = Answer;

    open spec fn view(&self) -> Answer {
        match self {
            Reply::Nothing => Answer::Nothing,
            Reply::Name(name) => Answer::Name(*name),
            Reply::Value(value) => Answer::Value(*value),
            Reply::Text(text) => Answer::Text(text@),
        }
    }
}

} // verus!
