//! Shader stages: their kinds, the GLSL data types by name, the values a
//! uniform can take, and the manager that compiles stages and owns them
//! under names.
//!
//! Compiling needs answers from the context, so loading a stage runs as a
//! [`ShaderLoad`]: the caller issues what is pending, hands the reply of
//! the last call to [`ShaderLoad::resume`] together with the manager, and
//! repeats until nothing is pending.
use vstd::prelude::*;
use vstd::std_specs::convert::{FromSpecImpl, TryFromSpecImpl};
use crate::error::Error;
use crate::gl::{
    reply_kind_of, script, GlCall, GlCallModel, GlReply, ReplyKind, BOOL, COMPUTE_SHADER, DOUBLE, FLOAT,
    FLOAT_MAT2, FLOAT_MAT3, FLOAT_MAT4, FLOAT_VEC2, FLOAT_VEC3, FLOAT_VEC4, FRAGMENT_SHADER,
    GEOMETRY_SHADER, INT, TESS_CONTROL_SHADER, TESS_EVALUATION_SHADER, UNSIGNED_INT,
    VERTEX_SHADER,
};
use crate::table::{
    distinct, has_name, lemma_put, lookup, put, without, Entries, NameTable,
};

verus! {

/// The kinds of shader stage.
#[derive(Clone, Copy, Debug, PartialEq, Eq, Structural)]
pub enum ShaderType {
    Vertex,
    Fragment,
    Geometry,
    TessControl,
    TessEvaluation,
    Compute,
}

/// The number by which the graphics API knows a kind of stage.
pub open spec fn shader_type_code(shader_type: ShaderType) -> u32 {
    match shader_type {
        ShaderType::Vertex => VERTEX_SHADER,
        ShaderType::Fragment => FRAGMENT_SHADER,
        ShaderType::Geometry => GEOMETRY_SHADER,
        ShaderType::TessControl => TESS_CONTROL_SHADER,
        ShaderType::TessEvaluation => TESS_EVALUATION_SHADER,
        ShaderType::Compute => COMPUTE_SHADER,
    }
}

impl From<ShaderType> for u32 {
    fn from(shader_type: ShaderType) -> (code: u32) {
        match shader_type {
            ShaderType::Vertex => VERTEX_SHADER,
            ShaderType::Fragment => FRAGMENT_SHADER,
            ShaderType::Geometry => GEOMETRY_SHADER,
            ShaderType::TessControl => TESS_CONTROL_SHADER,
            ShaderType::TessEvaluation => TESS_EVALUATION_SHADER,
            ShaderType::Compute => COMPUTE_SHADER,
        }
    }
}

impl FromSpecImpl<ShaderType> for u32 {
    open spec fn obeys_from_spec() -> bool {
        true
    }

    open spec fn from_spec(shader_type: ShaderType) -> u32 {
        shader_type_code(shader_type)
    }
}

impl TryFrom<u32> for ShaderType {
    type Error = Error;

    fn try_from(value: u32) -> (kind: Result<ShaderType, Error>) {
        if value == VERTEX_SHADER {
            Ok(ShaderType::Vertex)
        } else if value == FRAGMENT_SHADER {
            Ok(ShaderType::Fragment)
        } else if value == GEOMETRY_SHADER {
            Ok(ShaderType::Geometry)
        } else if value == TESS_CONTROL_SHADER {
            Ok(ShaderType::TessControl)
        } else if value == TESS_EVALUATION_SHADER {
            Ok(ShaderType::TessEvaluation)
        } else if value == COMPUTE_SHADER {
            Ok(ShaderType::Compute)
        } else {
            Err(Error::UnknownShaderType(value))
        }
    }
}

/// The kind of stage with this number, or `UnknownShaderType` with the
/// number where no kind has it.
pub open spec fn shader_type_of(value: u32) -> Result<ShaderType, Error> {
    if value == VERTEX_SHADER {
        Ok(ShaderType::Vertex)
    } else if value == FRAGMENT_SHADER {
        Ok(ShaderType::Fragment)
    } else if value == GEOMETRY_SHADER {
        Ok(ShaderType::Geometry)
    } else if value == TESS_CONTROL_SHADER {
        Ok(ShaderType::TessControl)
    } else if value == TESS_EVALUATION_SHADER {
        Ok(ShaderType::TessEvaluation)
    } else if value == COMPUTE_SHADER {
        Ok(ShaderType::Compute)
    } else {
        Err(Error::UnknownShaderType(value))
    }
}

impl TryFromSpecImpl<u32> for ShaderType {
    open spec fn obeys_try_from_spec() -> bool {
        true
    }

    open spec fn try_from_spec(value: u32) -> Result<ShaderType, Error> {
        shader_type_of(value)
    }
}

/// The number of a kind of stage names that kind again.
pub proof fn lemma_shader_type_round_trip(shader_type: ShaderType)
    ensures
        shader_type_of(shader_type_code(shader_type)) == Ok::<ShaderType, Error>(shader_type),
{
}

/// The GLSL keyword of a data type, `?` for a number that names none.
pub open spec fn type_keyword(native: u32) -> Seq<char> {
    if native == FLOAT {
        "float"@
    } else if native == FLOAT_VEC2 {
        "vec2"@
    } else if native == FLOAT_VEC3 {
        "vec3"@
    } else if native == FLOAT_VEC4 {
        "vec4"@
    } else if native == DOUBLE {
        "double"@
    } else if native == INT {
        "int"@
    } else if native == UNSIGNED_INT {
        "unsigned int"@
    } else if native == BOOL {
        "bool"@
    } else if native == FLOAT_MAT2 {
        "mat2"@
    } else if native == FLOAT_MAT3 {
        "mat3"@
    } else if native == FLOAT_MAT4 {
        "mat4"@
    } else {
        "?"@
    }
}

/// Converts the number of a GLSL data type to the keyword of that type,
/// for logging or code generation.
pub fn native_gl_value_type_to_keyword(native: u32) -> (keyword: &'static str)
    ensures
        keyword@ == type_keyword(native),
{
    if native == FLOAT {
        "float"
    } else if native == FLOAT_VEC2 {
        "vec2"
    } else if native == FLOAT_VEC3 {
        "vec3"
    } else if native == FLOAT_VEC4 {
        "vec4"
    } else if native == DOUBLE {
        "double"
    } else if native == INT {
        "int"
    } else if native == UNSIGNED_INT {
        "unsigned int"
    } else if native == BOOL {
        "bool"
    } else if native == FLOAT_MAT2 {
        "mat2"
    } else if native == FLOAT_MAT3 {
        "mat3"
    } else if native == FLOAT_MAT4 {
        "mat4"
    } else {
        "?"
    }
}

/// A value for a GLSL uniform. Floats are held by their bit patterns, the
/// components of a vector in the order x, y, z, w, the elements of a matrix
/// column by column.
#[derive(Clone, Copy, Debug, PartialEq, Eq)]
pub enum GlslValue {
    /// `float`
    Float32(u32),
    /// `vec2`
    Float32Vec2([u32; 2]),
    /// `vec3`
    Float32Vec3([u32; 3]),
    /// `vec4`
    Float32Vec4([u32; 4]),
    /// `double`
    Float64(u64),
    /// `int`
    Int32(i32),
    /// `unsigned int`
    UnsignedInt32(u32),
    /// `bool`
    Bool(bool),
    /// `mat2`
    Float32Mat2([u32; 4]),
    /// `mat3`
    Float32Mat3([u32; 9]),
    /// `mat4`
    Float32Mat4([u32; 16]),
}

/// The owner of the compiled stages, each under a name of the caller's
/// choice.
#[derive(Debug)]
pub struct ShaderManager {
    shaders: NameTable<u32>,
}

impl View for ShaderManager {
    type V = Entries<u32>;

    /// The live stages: name and handle, in the order in which the names
    /// were first taken.
    closed spec fn view(&self) -> Entries<u32> {
        self.shaders@
    }
}

/// One delete call for each stage, in the order of the entries.
pub open spec fn delete_shader_calls(entries: Entries<u32>) -> Seq<GlCallModel> {
    Seq::new(entries.len(), |i: int| GlCallModel::DeleteShader { shader: entries[i].1 })
}

/// Where the loading of a stage stands.
#[derive(Clone, Copy, Debug, PartialEq, Eq, Structural)]
pub enum LoadPhase {
    /// The stage object is being created.
    Creating,
    /// The source is being compiled.
    Compiling,
    /// The compilation failed; its info log is being fetched.
    Inspecting,
    /// The stage that did not compile is being deleted.
    Discarding,
    /// The stage is registered; the one it replaced is being deleted.
    Replacing,
    /// The stage is registered under its name.
    Loaded,
    /// The source could not be read.
    FailedRead,
    /// The stage object could not be created.
    FailedCreate,
    /// The source did not compile.
    FailedCompile,
}

/// The loading of one stage.
#[derive(Debug)]
pub struct ShaderLoad {
    key: String,
    source: String,
    shader_type: u32,
    shader: u32,
    replaced: u32,
    phase: LoadPhase,
    message: String,
}

/// What a [`ShaderLoad`] holds.
pub struct ShaderLoadModel {
    /// The name to register the stage under.
    pub key: Seq<char>,
    pub source: Seq<char>,
    /// The number of the kind of stage.
    pub shader_type: u32,
    /// The stage, once it is created.
    pub shader: u32,
    /// The stage that had the name before, in phase `Replacing`.
    pub replaced: u32,
    pub phase: LoadPhase,
    /// The reader's or the driver's words, once the loading has failed.
    pub message: Seq<char>,
}

impl ShaderLoadModel {
    /// The calls to issue now; none once the loading has ended.
    pub open spec fn pending(self) -> Seq<GlCallModel> {
        match self.phase {
            LoadPhase::Creating => seq![GlCallModel::CreateShader { shader_type: self.shader_type }],
            LoadPhase::Compiling => seq![
                GlCallModel::ShaderSource { shader: self.shader, source: self.source },
                GlCallModel::CompileShader { shader: self.shader },
                GlCallModel::GetShaderCompileStatus { shader: self.shader },
            ],
            LoadPhase::Inspecting => seq![GlCallModel::GetShaderInfoLog { shader: self.shader }],
            LoadPhase::Discarding => seq![GlCallModel::DeleteShader { shader: self.shader }],
            LoadPhase::Replacing => seq![GlCallModel::DeleteShader { shader: self.replaced }],
            _ => seq![],
        }
    }

    /// The kind of reply that the pending calls end with.
    pub open spec fn awaited(self) -> ReplyKind {
        match self.phase {
            LoadPhase::Creating => ReplyKind::Created,
            LoadPhase::Compiling => ReplyKind::Status,
            LoadPhase::Inspecting => ReplyKind::Text,
            _ => ReplyKind::Nothing,
        }
    }

    /// Whether the loading has ended, well or badly.
    pub open spec fn finished(self) -> bool {
        self.phase == LoadPhase::Loaded || self.phase == LoadPhase::FailedRead || self.phase
            == LoadPhase::FailedCreate || self.phase == LoadPhase::FailedCompile
    }

    /// The loading after the reply to its pending calls.
    ///
    /// A stage that is created gets compiled. One that has compiled is
    /// loaded, after the deletion of the stage that had its name, if there
    /// was one. One that has not compiled is deleted once its info log is
    /// fetched, and the loading has failed. While an answer is awaited, a
    /// reply of another kind changes nothing; the steps that await no
    /// answer go on whatever the reply is.
    pub open spec fn next(self, stages: Entries<u32>, reply: GlReply) -> ShaderLoadModel {
        match (self.phase, reply) {
            (LoadPhase::Creating, GlReply::Created(Ok(handle))) => ShaderLoadModel {
                phase: LoadPhase::Compiling,
                shader: handle,
                ..self
            },
            (LoadPhase::Creating, GlReply::Created(Err(message))) => ShaderLoadModel {
                phase: LoadPhase::FailedCreate,
                message: message@,
                ..self
            },
            (LoadPhase::Compiling, GlReply::Status(true)) => match lookup(stages, self.key) {
                Some(previous) if previous != self.shader => ShaderLoadModel {
                    phase: LoadPhase::Replacing,
                    replaced: previous,
                    ..self
                },
                _ => ShaderLoadModel { phase: LoadPhase::Loaded, ..self },
            },
            (LoadPhase::Compiling, GlReply::Status(false)) => ShaderLoadModel {
                phase: LoadPhase::Inspecting,
                ..self
            },
            (LoadPhase::Inspecting, GlReply::Text(info_log)) => ShaderLoadModel {
                phase: LoadPhase::Discarding,
                message: info_log@,
                ..self
            },
            (LoadPhase::Discarding, _) => ShaderLoadModel {
                phase: LoadPhase::FailedCompile,
                ..self
            },
            (LoadPhase::Replacing, _) => ShaderLoadModel { phase: LoadPhase::Loaded, ..self },
            _ => self,
        }
    }

    /// The stages of the manager after the reply: the new stage takes its
    /// name when it has compiled, and nothing changes at any other step.
    pub open spec fn next_stages(self, stages: Entries<u32>, reply: GlReply) -> Entries<u32> {
        match (self.phase, reply) {
            (LoadPhase::Compiling, GlReply::Status(true)) => put(stages, self.key, self.shader),
            _ => stages,
        }
    }
}

/// The reply that a loading awaits is the reply to the last of its pending
/// calls.
pub proof fn lemma_load_awaits_last_call(load: ShaderLoadModel)
    requires
        load.pending().len() > 0,
    ensures
        load.awaited() == reply_kind_of(load.pending().last()),
{
}

impl View for ShaderLoad {
    type V = ShaderLoadModel;

    closed spec fn view(&self) -> ShaderLoadModel {
        ShaderLoadModel {
            key: self.key@,
            source: self.source@,
            shader_type: self.shader_type,
            shader: self.shader,
            replaced: self.replaced,
            phase: self.phase,
            message: self.message@,
        }
    }
}

impl ShaderLoad {
    /// Whether the loading has ended.
    pub fn is_finished(&self) -> (finished: bool)
        ensures
            finished == self@.finished(),
            finished == (self@.pending().len() == 0),
    {
        match self.phase {
            LoadPhase::Loaded | LoadPhase::FailedRead | LoadPhase::FailedCreate
            | LoadPhase::FailedCompile => true,
            _ => false,
        }
    }

    /// The kind of reply that [`ShaderLoad::resume`] takes next.
    pub fn awaits(&self) -> (kind: ReplyKind)
        ensures
            kind == self@.awaited(),
    {
        match self.phase {
            LoadPhase::Creating => ReplyKind::Created,
            LoadPhase::Compiling => ReplyKind::Status,
            LoadPhase::Inspecting => ReplyKind::Text,
            _ => ReplyKind::Nothing,
        }
    }

    /// The calls to issue now, in order.
    pub fn pending(&self) -> (calls: Vec<GlCall>)
        ensures
            script(calls@) == self@.pending(),
    {
        let mut calls: Vec<GlCall> = Vec::new();
        match self.phase {
            LoadPhase::Creating => {
                calls.push(GlCall::CreateShader { shader_type: self.shader_type });
            },
            LoadPhase::Compiling => {
                calls.push(GlCall::ShaderSource { shader: self.shader, source: self.source.clone() });
                calls.push(GlCall::CompileShader { shader: self.shader });
                calls.push(GlCall::GetShaderCompileStatus { shader: self.shader });
            },
            LoadPhase::Inspecting => {
                calls.push(GlCall::GetShaderInfoLog { shader: self.shader });
            },
            LoadPhase::Discarding => {
                calls.push(GlCall::DeleteShader { shader: self.shader });
            },
            LoadPhase::Replacing => {
                calls.push(GlCall::DeleteShader { shader: self.replaced });
            },
            _ => {},
        }
        assert(script(calls@) =~= self@.pending());
        calls
    }

    /// Takes the reply to the last pending call and moves on. The stage is
    /// registered with the manager at the moment it has compiled.
    pub fn resume(&mut self, manager: &mut ShaderManager, reply: GlReply)
        requires
            old(manager).wf(),
        ensures
            final(manager).wf(),
            final(self)@ == old(self)@.next(old(manager)@, reply),
            final(manager)@ == old(self)@.next_stages(old(manager)@, reply),
    {
        match (self.phase, reply) {
            (LoadPhase::Creating, GlReply::Created(Ok(handle))) => {
                self.phase = LoadPhase::Compiling;
                self.shader = handle;
            },
            (LoadPhase::Creating, GlReply::Created(Err(message))) => {
                self.phase = LoadPhase::FailedCreate;
                self.message = message;
            },
            (LoadPhase::Compiling, GlReply::Status(true)) => {
                match manager.shaders.insert(self.key.clone(), self.shader) {
                    Some(previous) if previous != self.shader => {
                        self.phase = LoadPhase::Replacing;
                        self.replaced = previous;
                    },
                    _ => {
                        self.phase = LoadPhase::Loaded;
                    },
                }
            },
            (LoadPhase::Compiling, GlReply::Status(false)) => {
                self.phase = LoadPhase::Inspecting;
            },
            (LoadPhase::Inspecting, GlReply::Text(info_log)) => {
                self.phase = LoadPhase::Discarding;
                self.message = info_log;
            },
            (LoadPhase::Discarding, _) => {
                self.phase = LoadPhase::FailedCompile;
            },
            (LoadPhase::Replacing, _) => {
                self.phase = LoadPhase::Loaded;
            },
            _ => {},
        }
    }

    /// How the loading ended: well, or with the reader's message as `Io`,
    /// the driver's message as `GpuResource`, or the info log as `Compile`.
    pub fn outcome(self) -> (outcome: Result<(), Error>)
        requires
            self@.finished(),
        ensures
            self@.phase == LoadPhase::Loaded <==> outcome is Ok,
            self@.phase == LoadPhase::FailedRead ==> (outcome matches Err(Error::Io(message))
                && message@ == self@.message),
            self@.phase == LoadPhase::FailedCreate ==> (outcome matches Err(
                Error::GpuResource(message),
            ) && message@ == self@.message),
            self@.phase == LoadPhase::FailedCompile ==> (outcome matches Err(
                Error::Compile { info_log },
            ) && info_log@ == self@.message),
    {
        match self.phase {
            LoadPhase::FailedRead => Err(Error::Io(self.message)),
            LoadPhase::FailedCreate => Err(Error::GpuResource(self.message)),
            LoadPhase::FailedCompile => Err(Error::Compile { info_log: self.message }),
            _ => Ok(()),
        }
    }
}

impl ShaderManager {
    /// Well-formedness: a name has at most one live stage.
    pub open spec fn wf(&self) -> bool {
        distinct(self@)
    }

    /// A manager without stages.
    pub fn new() -> (manager: ShaderManager)
        ensures
            manager.wf(),
            manager@ == Seq::<(Seq<char>, u32)>::empty(),
    {
        ShaderManager { shaders: NameTable::new() }
    }

    /// Starts loading a stage of the given kind under a name, from the
    /// source text as it was read, or from the reader's message where the
    /// source could not be read: then the loading has failed at once.
    /// The manager changes only when the stage has compiled.
    pub fn load_shader(
        &self,
        key: &str,
        source: Result<String, String>,
        shader_type: ShaderType,
    ) -> (load: ShaderLoad)
        ensures
            load@.key == key@,
            load@.shader_type == shader_type_code(shader_type),
            match source {
                Ok(text) => load@.phase == LoadPhase::Creating && load@.source == text@,
                Err(message) => load@.phase == LoadPhase::FailedRead && load@.message
                    == message@,
            },
    {
        let code: u32 = u32::from(shader_type);
        match source {
            Ok(text) => ShaderLoad {
                key: key.to_owned(),
                source: text,
                shader_type: code,
                shader: 0,
                replaced: 0,
                phase: LoadPhase::Creating,
                message: String::new(),
            },
            Err(message) => ShaderLoad {
                key: key.to_owned(),
                source: String::new(),
                shader_type: code,
                shader: 0,
                replaced: 0,
                phase: LoadPhase::FailedRead,
                message,
            },
        }
    }

    /// Whether a stage is registered under the name.
    pub fn has_shader(&self, key: &str) -> (found: bool)
        requires
            self.wf(),
        ensures
            found == has_name(self@, key@),
    {
        self.shaders.contains(key)
    }

    /// The stage registered under the name.
    pub fn get_shader(&self, key: &str) -> (shader: Option<u32>)
        requires
            self.wf(),
        ensures
            shader == lookup(self@, key@),
    {
        self.shaders.get(key)
    }

    /// Takes the stage under the name out of the manager and hands back the
    /// call that deletes it; nothing happens where the name is unknown.
    pub fn unload_shader(&mut self, key: &str) -> (calls: Vec<GlCall>)
        requires
            old(self).wf(),
        ensures
            final(self).wf(),
            final(self)@ == without(old(self)@, key@),
            script(calls@) == match lookup(old(self)@, key@) {
                Some(shader) => seq![GlCallModel::DeleteShader { shader }],
                None => seq![],
            },
    {
        let mut calls: Vec<GlCall> = Vec::new();
        match self.shaders.remove(key) {
            Some(shader) => {
                calls.push(GlCall::DeleteShader { shader });
            },
            None => {},
        }
        assert(script(calls@) =~= match lookup(old(self)@, key@) {
            Some(shader) => seq![GlCallModel::DeleteShader { shader }],
            None => seq![],
        });
        calls
    }

    /// Gives up every stage: one delete call for each, after which the
    /// manager is empty.
    pub fn release(&mut self) -> (calls: Vec<GlCall>)
        requires
            old(self).wf(),
        ensures
            final(self).wf(),
            final(self)@ == Seq::<(Seq<char>, u32)>::empty(),
            script(calls@) == delete_shader_calls(old(self)@),
    {
        let mut calls: Vec<GlCall> = Vec::new();
        let mut i: usize = 0;
        while i < self.shaders.len()
            invariant
                *self == *old(self),
                self.wf(),
                i <= self@.len(),
                calls@.len() == i,
                forall|k: int|
                    0 <= k < i ==> (#[trigger] calls@[k])@ == (GlCallModel::DeleteShader {
                        shader: self@[k].1,
                    }),
            decreases self@.len() - i,
        {
            calls.push(GlCall::DeleteShader { shader: self.shaders.value_at(i) });
            i = i + 1;
        }
        assert(script(calls@) =~= delete_shader_calls(old(self)@));
        self.shaders.clear();
        calls
    }
}

/// Loading a stage under a name that is taken leaves the name with one
/// stage, the new one, and the next calls delete the stage that had the
/// name before: nothing is leaked. Every other name keeps its stage.
pub proof fn lemma_reload_replaces(
    load: ShaderLoadModel,
    stages: Entries<u32>,
    previous: u32,
)
    requires
        distinct(stages),
        load.phase == LoadPhase::Compiling,
        lookup(stages, load.key) == Some(previous),
        previous != load.shader,
    ensures
        ({
            let reply = GlReply::Status(true);
            let after = load.next(stages, reply);
            let registered = load.next_stages(stages, reply);
            &&& distinct(registered)
            &&& registered.len() == stages.len()
            &&& lookup(registered, load.key) == Some(load.shader)
            &&& forall|other: Seq<char>|
                other != load.key ==> #[trigger] lookup(registered, other) == lookup(
                    stages,
                    other,
                )
            &&& after.pending() == seq![GlCallModel::DeleteShader { shader: previous }]
            &&& after.next(registered, GlReply::Nothing).phase == LoadPhase::Loaded
        }),
{
    lemma_put(stages, load.key, load.shader);
}

/// A stage that is created and compiles is registered under its name, and
/// the loading has ended well; every other name keeps its stage.
pub proof fn lemma_load_registers_compiled_stage(
    load: ShaderLoadModel,
    stages: Entries<u32>,
    handle: u32,
)
    requires
        distinct(stages),
        load.phase == LoadPhase::Creating,
        !has_name(stages, load.key),
    ensures
        ({
            let created = load.next(stages, GlReply::Created(Ok(handle)));
            let compiled = created.next(stages, GlReply::Status(true));
            let registered = created.next_stages(stages, GlReply::Status(true));
            &&& load.next_stages(stages, GlReply::Created(Ok(handle))) == stages
            &&& compiled.phase == LoadPhase::Loaded
            &&& registered == stages.push((load.key, handle))
            &&& lookup(registered, load.key) == Some(handle)
            &&& distinct(registered)
            &&& forall|other: Seq<char>|
                other != load.key ==> #[trigger] lookup(registered, other) == lookup(
                    stages,
                    other,
                )
        }),
{
    lemma_put(stages, load.key, handle);
}

/// A stage that does not compile never reaches the manager: its info log
/// is fetched, the stage is deleted, and the loading has failed with the
/// info log as it came.
pub proof fn lemma_failed_compile_deletes_stage(
    load: ShaderLoadModel,
    stages: Entries<u32>,
    info_log: String,
)
    requires
        load.phase == LoadPhase::Compiling,
    ensures
        ({
            let inspecting = load.next(stages, GlReply::Status(false));
            let discarding = inspecting.next(stages, GlReply::Text(info_log));
            let failed = discarding.next(stages, GlReply::Nothing);
            &&& load.next_stages(stages, GlReply::Status(false)) == stages
            &&& inspecting.next_stages(stages, GlReply::Text(info_log)) == stages
            &&& discarding.next_stages(stages, GlReply::Nothing) == stages
            &&& inspecting.pending() == seq![GlCallModel::GetShaderInfoLog { shader: load.shader }]
            &&& discarding.pending() == seq![GlCallModel::DeleteShader { shader: load.shader }]
            &&& failed.phase == LoadPhase::FailedCompile
            &&& failed.message == info_log@
            &&& failed.pending().len() == 0
        }),
{
}

/// Two loadings under one name, each of a stage of its own that compiles,
/// leave the name with exactly one stage, the second; the calls that
/// follow the second registration delete the first stage, and nothing
/// else is pending after them.
pub proof fn lemma_load_twice_keeps_one_stage(
    stages: Entries<u32>,
    first: ShaderLoadModel,
    second: ShaderLoadModel,
)
    requires
        distinct(stages),
        first.phase == LoadPhase::Compiling,
        second.phase == LoadPhase::Compiling,
        first.key == second.key,
        first.shader != second.shader,
    ensures
        ({
            let compiled = GlReply::Status(true);
            let once = first.next_stages(stages, compiled);
            let twice = second.next_stages(once, compiled);
            let replacing = second.next(once, compiled);
            &&& distinct(twice)
            &&& lookup(once, first.key) == Some(first.shader)
            &&& lookup(twice, first.key) == Some(second.shader)
            &&& twice.len() == once.len()
            &&& replacing.pending() == seq![GlCallModel::DeleteShader { shader: first.shader }]
            &&& replacing.next(twice, GlReply::Nothing).phase == LoadPhase::Loaded
            &&& replacing.next(twice, GlReply::Nothing).pending().len() == 0
        }),
{
    lemma_put(stages, first.key, first.shader);
    lemma_reload_replaces(
        second,
        first.next_stages(stages, GlReply::Status(true)),
        first.shader,
    );
}

} // verus!
