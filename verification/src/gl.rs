//! The vocabulary shared with the GPU driver: the numeric codes of the
//! graphics API, the calls this library asks its caller to issue, and the
//! replies it takes back.
//!
//! The library never talks to a graphics context itself. Every operation
//! returns the calls to issue, in order; where an operation has to wait for
//! an answer, the reply to the last call of a batch is handed back to it.
//! Object handles and uniform locations are plain `u32` values. A 32-bit
//! float travels as its IEEE-754 bit pattern in a `u32`, a 64-bit float in a
//! `u64`.
//!
//! The numeric codes are those of the OpenGL registry, under the names
//! that the `glow` crate gives them.
use vstd::prelude::*;

verus! {

// Shader stage kinds.
pub const VERTEX_SHADER: u32 = 0x8B31;
pub const FRAGMENT_SHADER: u32 = 0x8B30;
pub const GEOMETRY_SHADER: u32 = 0x8DD9;
pub const TESS_CONTROL_SHADER: u32 = 0x8E88;
pub const TESS_EVALUATION_SHADER: u32 = 0x8E87;
pub const COMPUTE_SHADER: u32 = 0x91B9;

// GLSL data types.
pub const INT: u32 = 0x1404;
pub const UNSIGNED_INT: u32 = 0x1405;
pub const FLOAT: u32 = 0x1406;
pub const DOUBLE: u32 = 0x140A;
pub const FLOAT_VEC2: u32 = 0x8B50;
pub const FLOAT_VEC3: u32 = 0x8B51;
pub const FLOAT_VEC4: u32 = 0x8B52;
pub const BOOL: u32 = 0x8B56;
pub const FLOAT_MAT2: u32 = 0x8B5A;
pub const FLOAT_MAT3: u32 = 0x8B5B;
pub const FLOAT_MAT4: u32 = 0x8B5C;

// Buffers and drawing.
pub const ARRAY_BUFFER: u32 = 0x8892;
pub const ELEMENT_ARRAY_BUFFER: u32 = 0x8893;
pub const STATIC_DRAW: u32 = 0x88E4;
pub const TRIANGLES: u32 = 0x0004;

// Boolean values as the API spells them.
pub const TRUE: u8 = 1;
pub const FALSE: u8 = 0;

// Debug message sources.
pub const DEBUG_SOURCE_API: u32 = 0x8246;
pub const DEBUG_SOURCE_WINDOW_SYSTEM: u32 = 0x8247;
pub const DEBUG_SOURCE_THIRD_PARTY: u32 = 0x8249;
pub const DEBUG_SOURCE_APPLICATION: u32 = 0x824A;
pub const DEBUG_SOURCE_OTHER: u32 = 0x824B;

// Debug message types.
pub const DEBUG_TYPE_ERROR: u32 = 0x824C;
pub const DEBUG_TYPE_DEPRECATED_BEHAVIOR: u32 = 0x824D;
pub const DEBUG_TYPE_UNDEFINED_BEHAVIOR: u32 = 0x824E;
pub const DEBUG_TYPE_PORTABILITY: u32 = 0x824F;
pub const DEBUG_TYPE_PERFORMANCE: u32 = 0x8250;
pub const DEBUG_TYPE_OTHER: u32 = 0x8251;
pub const DEBUG_TYPE_MARKER: u32 = 0x8268;
pub const DEBUG_TYPE_PUSH_GROUP: u32 = 0x8269;
pub const DEBUG_TYPE_POP_GROUP: u32 = 0x826A;

// Debug message severities.
pub const DEBUG_SEVERITY_HIGH: u32 = 0x9146;
pub const DEBUG_SEVERITY_MEDIUM: u32 = 0x9147;
pub const DEBUG_SEVERITY_LOW: u32 = 0x9148;

// Context parameters.
pub const VENDOR: u32 = 0x1F00;
pub const RENDERER: u32 = 0x1F01;
pub const VERSION: u32 = 0x1F02;
pub const EXTENSIONS: u32 = 0x1F03;
pub const MAJOR_VERSION: u32 = 0x821B;
pub const MINOR_VERSION: u32 = 0x821C;
pub const NUM_EXTENSIONS: u32 = 0x821D;
pub const SHADING_LANGUAGE_VERSION: u32 = 0x8B8C;

/// One call into the graphics context, with its arguments.
#[allow(inconsistent_fields)]
#[derive(Debug, PartialEq, Eq)]
pub enum GlCall {
    CreateBuffer,
    BindBuffer { target: u32, buffer: u32 },
    BufferData { target: u32, data: Vec<u8>, usage: u32 },
    DeleteBuffer { buffer: u32 },
    CreateVertexArray,
    BindVertexArray { vertex_array: u32 },
    VertexAttribPointerF32 {
        index: u32,
        size: i32,
        data_type: u32,
        normalized: bool,
        stride: i32,
        offset: i32,
    },
    EnableVertexAttribArray { index: u32 },
    DrawElements { mode: u32, count: i32, element_type: u32, offset: i32 },
    CreateShader { shader_type: u32 },
    ShaderSource { shader: u32, source: String },
    CompileShader { shader: u32 },
    GetShaderCompileStatus { shader: u32 },
    GetShaderInfoLog { shader: u32 },
    DeleteShader { shader: u32 },
    AttachShader { program: u32, shader: u32 },
    DetachShader { program: u32, shader: u32 },
    LinkProgram { program: u32 },
    GetProgramLinkStatus { program: u32 },
    GetProgramInfoLog { program: u32 },
    UseProgram { program: u32 },
    DeleteProgram { program: u32 },
    BindAttribLocation { program: u32, index: u32, name: String },
    BindFragDataLocation { program: u32, color_number: u32, name: String },
    GetActiveAttributes { program: u32 },
    GetActiveAttribute { program: u32, index: u32 },
    GetActiveUniforms { program: u32 },
    GetActiveUniform { program: u32, index: u32 },
    GetUniformLocation { program: u32, name: String },
    Uniform1F32 { location: Option<u32>, x: u32 },
    Uniform2F32 { location: Option<u32>, x: u32, y: u32 },
    Uniform3F32 { location: Option<u32>, x: u32, y: u32, z: u32 },
    Uniform4F32 { location: Option<u32>, x: u32, y: u32, z: u32, w: u32 },
    Uniform1I32 { location: Option<u32>, x: i32 },
    Uniform1U32 { location: Option<u32>, x: u32 },
    UniformMatrix2F32Slice { location: Option<u32>, transpose: bool, v: [u32; 4] },
    UniformMatrix3F32Slice { location: Option<u32>, transpose: bool, v: [u32; 9] },
    UniformMatrix4F32Slice { location: Option<u32>, transpose: bool, v: [u32; 16] },
    GetParameterI32 { parameter: u32 },
    GetParameterString { parameter: u32 },
    GetParameterIndexedString { parameter: u32, index: u32 },
}

/// What a [`GlCall`] is, with every string and byte buffer as a sequence.
#[allow(inconsistent_fields)]
pub enum GlCallModel {
    CreateBuffer,
    BindBuffer { target: u32, buffer: u32 },
    BufferData { target: u32, data: Seq<u8>, usage: u32 },
    DeleteBuffer { buffer: u32 },
    CreateVertexArray,
    BindVertexArray { vertex_array: u32 },
    VertexAttribPointerF32 {
        index: u32,
        size: i32,
        data_type: u32,
        normalized: bool,
        stride: i32,
        offset: i32,
    },
    EnableVertexAttribArray { index: u32 },
    DrawElements { mode: u32, count: i32, element_type: u32, offset: i32 },
    CreateShader { shader_type: u32 },
    ShaderSource { shader: u32, source: Seq<char> },
    CompileShader { shader: u32 },
    GetShaderCompileStatus { shader: u32 },
    GetShaderInfoLog { shader: u32 },
    DeleteShader { shader: u32 },
    AttachShader { program: u32, shader: u32 },
    DetachShader { program: u32, shader: u32 },
    LinkProgram { program: u32 },
    GetProgramLinkStatus { program: u32 },
    GetProgramInfoLog { program: u32 },
    UseProgram { program: u32 },
    DeleteProgram { program: u32 },
    BindAttribLocation { program: u32, index: u32, name: Seq<char> },
    BindFragDataLocation { program: u32, color_number: u32, name: Seq<char> },
    GetActiveAttributes { program: u32 },
    GetActiveAttribute { program: u32, index: u32 },
    GetActiveUniforms { program: u32 },
    GetActiveUniform { program: u32, index: u32 },
    GetUniformLocation { program: u32, name: Seq<char> },
    Uniform1F32 { location: Option<u32>, x: u32 },
    Uniform2F32 { location: Option<u32>, x: u32, y: u32 },
    Uniform3F32 { location: Option<u32>, x: u32, y: u32, z: u32 },
    Uniform4F32 { location: Option<u32>, x: u32, y: u32, z: u32, w: u32 },
    Uniform1I32 { location: Option<u32>, x: i32 },
    Uniform1U32 { location: Option<u32>, x: u32 },
    UniformMatrix2F32Slice { location: Option<u32>, transpose: bool, v: Seq<u32> },
    UniformMatrix3F32Slice { location: Option<u32>, transpose: bool, v: Seq<u32> },
    UniformMatrix4F32Slice { location: Option<u32>, transpose: bool, v: Seq<u32> },
    GetParameterI32 { parameter: u32 },
    GetParameterString { parameter: u32 },
    GetParameterIndexedString { parameter: u32, index: u32 },
}

impl View for GlCall {
    type V = GlCallModel;

    open spec fn view(&self) -> GlCallModel {
        match *self {
            GlCall::CreateBuffer => GlCallModel::CreateBuffer,
            GlCall::BindBuffer { target, buffer } => GlCallModel::BindBuffer { target, buffer },
            GlCall::BufferData { target, data, usage } => GlCallModel::BufferData {
                target,
                data: data@,
                usage,
            },
            GlCall::DeleteBuffer { buffer } => GlCallModel::DeleteBuffer { buffer },
            GlCall::CreateVertexArray => GlCallModel::CreateVertexArray,
            GlCall::BindVertexArray { vertex_array } => GlCallModel::BindVertexArray {
                vertex_array,
            },
            GlCall::VertexAttribPointerF32 {
                index,
                size,
                data_type,
                normalized,
                stride,
                offset,
            } => GlCallModel::VertexAttribPointerF32 {
                index,
                size,
                data_type,
                normalized,
                stride,
                offset,
            },
            GlCall::EnableVertexAttribArray { index } => GlCallModel::EnableVertexAttribArray {
                index,
            },
            GlCall::DrawElements { mode, count, element_type, offset } => GlCallModel::DrawElements {
                mode,
                count,
                element_type,
                offset,
            },
            GlCall::CreateShader { shader_type } => GlCallModel::CreateShader { shader_type },
            GlCall::ShaderSource { shader, source } => GlCallModel::ShaderSource {
                shader,
                source: source@,
            },
            GlCall::CompileShader { shader } => GlCallModel::CompileShader { shader },
            GlCall::GetShaderCompileStatus { shader } => GlCallModel::GetShaderCompileStatus {
                shader,
            },
            GlCall::GetShaderInfoLog { shader } => GlCallModel::GetShaderInfoLog { shader },
            GlCall::DeleteShader { shader } => GlCallModel::DeleteShader { shader },
            GlCall::AttachShader { program, shader } => GlCallModel::AttachShader {
                program,
                shader,
            },
            GlCall::DetachShader { program, shader } => GlCallModel::DetachShader {
                program,
                shader,
            },
            GlCall::LinkProgram { program } => GlCallModel::LinkProgram { program },
            GlCall::GetProgramLinkStatus { program } => GlCallModel::GetProgramLinkStatus {
                program,
            },
            GlCall::GetProgramInfoLog { program } => GlCallModel::GetProgramInfoLog { program },
            GlCall::UseProgram { program } => GlCallModel::UseProgram { program },
            GlCall::DeleteProgram { program } => GlCallModel::DeleteProgram { program },
            GlCall::BindAttribLocation { program, index, name } => GlCallModel::BindAttribLocation {
                program,
                index,
                name: name@,
            },
            GlCall::BindFragDataLocation {
                program,
                color_number,
                name,
            } => GlCallModel::BindFragDataLocation { program, color_number, name: name@ },
            GlCall::GetActiveAttributes { program } => GlCallModel::GetActiveAttributes {
                program,
            },
            GlCall::GetActiveAttribute { program, index } => GlCallModel::GetActiveAttribute {
                program,
                index,
            },
            GlCall::GetActiveUniforms { program } => GlCallModel::GetActiveUniforms { program },
            GlCall::GetActiveUniform { program, index } => GlCallModel::GetActiveUniform {
                program,
                index,
            },
            GlCall::GetUniformLocation { program, name } => GlCallModel::GetUniformLocation {
                program,
                name: name@,
            },
            GlCall::Uniform1F32 { location, x } => GlCallModel::Uniform1F32 { location, x },
            GlCall::Uniform2F32 { location, x, y } => GlCallModel::Uniform2F32 { location, x, y },
            GlCall::Uniform3F32 { location, x, y, z } => GlCallModel::Uniform3F32 {
                location,
                x,
                y,
                z,
            },
            GlCall::Uniform4F32 { location, x, y, z, w } => GlCallModel::Uniform4F32 {
                location,
                x,
                y,
                z,
                w,
            },
            GlCall::Uniform1I32 { location, x } => GlCallModel::Uniform1I32 { location, x },
            GlCall::Uniform1U32 { location, x } => GlCallModel::Uniform1U32 { location, x },
            GlCall::UniformMatrix2F32Slice {
                location,
                transpose,
                v,
            } => GlCallModel::UniformMatrix2F32Slice { location, transpose, v: v@ },
            GlCall::UniformMatrix3F32Slice {
                location,
                transpose,
                v,
            } => GlCallModel::UniformMatrix3F32Slice { location, transpose, v: v@ },
            GlCall::UniformMatrix4F32Slice {
                location,
                transpose,
                v,
            } => GlCallModel::UniformMatrix4F32Slice { location, transpose, v: v@ },
            GlCall::GetParameterI32 { parameter } => GlCallModel::GetParameterI32 { parameter },
            GlCall::GetParameterString { parameter } => GlCallModel::GetParameterString {
                parameter,
            },
            GlCall::GetParameterIndexedString {
                parameter,
                index,
            } => GlCallModel::GetParameterIndexedString { parameter, index },
        }
    }
}

/// The calls of a batch, each by its model.
pub open spec fn script(calls: Seq<GlCall>) -> Seq<GlCallModel> {
    calls.map_values(|call: GlCall| call@)
}

/// An active attribute or uniform, as the context's reflection reports it.
#[derive(Debug, PartialEq, Eq)]
pub struct ActiveVariable {
    pub size: i32,
    pub kind: u32,
    pub name: String,
}

/// What the context answered to the last call of a batch.
#[derive(Debug, PartialEq, Eq)]
pub enum GlReply {
    /// The call returns nothing, or the batch was empty.
    Nothing,
    /// A creation call: the new handle, or the driver's message.
    Created(Result<u32, String>),
    /// A compile or link status.
    Status(bool),
    /// An info log or a context string.
    Text(String),
    /// A number of active attributes or uniforms.
    Count(u32),
    /// One active attribute or uniform, if the index names one.
    Variable(Option<ActiveVariable>),
    /// A uniform location, absent where the uniform has none.
    Location(Option<u32>),
    /// An integer context parameter.
    Integer(i32),
}

/// The kinds of reply, one for each variant of [`GlReply`].
#[derive(Clone, Copy, Debug, PartialEq, Eq, Structural)]
pub enum ReplyKind {
    Nothing,
    Created,
    Status,
    Text,
    Count,
    Variable,
    Location,
    Integer,
}

impl GlReply {
    /// The kind of the reply.
    pub open spec fn kind(&self) -> ReplyKind {
        match *self {
            GlReply::Nothing => ReplyKind::Nothing,
            GlReply::Created(_) => ReplyKind::Created,
            GlReply::Status(_) => ReplyKind::Status,
            GlReply::Text(_) => ReplyKind::Text,
            GlReply::Count(_) => ReplyKind::Count,
            GlReply::Variable(_) => ReplyKind::Variable,
            GlReply::Location(_) => ReplyKind::Location,
            GlReply::Integer(_) => ReplyKind::Integer,
        }
    }
}

impl GlReply {
    /// The kind of the reply, to hold against what an operation awaits.
    pub fn reply_kind(&self) -> (kind: ReplyKind)
        ensures
            kind == self.kind(),
    {
        match self {
            GlReply::Nothing => ReplyKind::Nothing,
            GlReply::Created(_) => ReplyKind::Created,
            GlReply::Status(_) => ReplyKind::Status,
            GlReply::Text(_) => ReplyKind::Text,
            GlReply::Count(_) => ReplyKind::Count,
            GlReply::Variable(_) => ReplyKind::Variable,
            GlReply::Location(_) => ReplyKind::Location,
            GlReply::Integer(_) => ReplyKind::Integer,
        }
    }
}

/// The kind of reply that a call hands back.
pub open spec fn reply_kind_of(call: GlCallModel) -> ReplyKind {
    match call {
        GlCallModel::CreateBuffer | GlCallModel::CreateVertexArray | GlCallModel::CreateShader {
            ..
        } => ReplyKind::Created,
        GlCallModel::GetShaderCompileStatus { .. } | GlCallModel::GetProgramLinkStatus {
            ..
        } => ReplyKind::Status,
        GlCallModel::GetShaderInfoLog { .. } | GlCallModel::GetProgramInfoLog { .. }
        | GlCallModel::GetParameterString { .. } | GlCallModel::GetParameterIndexedString {
            ..
        } => ReplyKind::Text,
        GlCallModel::GetActiveAttributes { .. } | GlCallModel::GetActiveUniforms {
            ..
        } => ReplyKind::Count,
        GlCallModel::GetActiveAttribute { .. } | GlCallModel::GetActiveUniform {
            ..
        } => ReplyKind::Variable,
        GlCallModel::GetUniformLocation { .. } => ReplyKind::Location,
        GlCallModel::GetParameterI32 { .. } => ReplyKind::Integer,
        _ => ReplyKind::Nothing,
    }
}

} // verus!
