//! Shader programs: attaching stages, linking, the table of uniform
//! locations that a link leaves behind, typed uniform upload, and listings
//! of the active attributes and uniforms.
//!
//! Linking and listing need answers from the context, so they run as a
//! [`ProgramLink`] and a [`ProgramListing`]: the caller issues what is
//! pending, hands the reply of the last call to `resume`, and repeats until
//! nothing is pending.
use vstd::prelude::*;
use crate::error::Error;
use crate::gl::{
    reply_kind_of, script, ActiveVariable, GlCall, GlCallModel, GlReply, ReplyKind, FALSE, TRUE,
};
use crate::logging::{lines, LogLevel, LogLine, LogRecord};
use crate::metadata::OpenGlMetadata;
use crate::shader::{native_gl_value_type_to_keyword, type_keyword, GlslValue, ShaderManager};
use crate::table::{distinct, has_name, lookup, put, Entries, NameTable};
use crate::text::{decimal, decimal_digits};

verus! {

/// A program: its handle, whether it is linked, the stages attached to it
/// (which the manager owns), and the locations of its uniforms.
#[derive(Debug)]
pub struct ShaderProgram {
    program: u32,
    linked: bool,
    shaders: Vec<u32>,
    uniform_locations: NameTable<Option<u32>>,
}

/// What a [`ShaderProgram`] holds.
pub struct ProgramModel {
    pub handle: u32,
    pub linked: bool,
    /// The attached stages, in the order in which they were attached.
    pub attached: Seq<u32>,
    /// The active uniforms by name, each with its location, which is absent
    /// where the uniform has none.
    pub uniforms: Entries<Option<u32>>,
}

impl View for ShaderProgram {
    type V = ProgramModel;

    closed spec fn view(&self) -> ProgramModel {
        ProgramModel {
            handle: self.program,
            linked: self.linked,
            attached: self.shaders@,
            uniforms: self.uniform_locations@,
        }
    }
}

/// The extension by which a context announces uniforms of 64-bit floats.
pub open spec fn double_precision_extension() -> Seq<char> {
    "ARB_gpu_shader_fp64"@
}

/// Why a uniform was not uploaded.
#[derive(Debug, PartialEq, Eq)]
pub enum UniformWarning {
    /// The program has no active uniform of this name.
    UnknownName(String),
    /// The context could take the 64-bit float with these bits, but the
    /// upload of such values is not there yet.
    DoubleNotImplemented(u64),
    /// The context cannot take the 64-bit float with these bits.
    DoubleNotSupported(u64),
}

/// What setting a uniform comes to: the calls to issue, and the warning to
/// log where there is one.
#[derive(Debug, PartialEq, Eq)]
pub struct UniformUpload {
    pub calls: Vec<GlCall>,
    pub warning: Option<UniformWarning>,
}

/// The upload call for a value at a location, by the type of the value:
/// scalars and vectors by their components, a boolean as the unsigned 1 or
/// 0, matrices as slices that are not transposed. There is none for a
/// 64-bit float.
pub open spec fn upload_call(location: Option<u32>, value: GlslValue) -> Option<GlCallModel> {
    match value {
        GlslValue::Float32(x) => Some(GlCallModel::Uniform1F32 { location, x }),
        GlslValue::Float32Vec2(v) => Some(GlCallModel::Uniform2F32 { location, x: v[0], y: v[1] }),
        GlslValue::Float32Vec3(v) => Some(
            GlCallModel::Uniform3F32 { location, x: v[0], y: v[1], z: v[2] },
        ),
        GlslValue::Float32Vec4(v) => Some(
            GlCallModel::Uniform4F32 { location, x: v[0], y: v[1], z: v[2], w: v[3] },
        ),
        GlslValue::Float64(_) => None,
        GlslValue::Int32(x) => Some(GlCallModel::Uniform1I32 { location, x }),
        GlslValue::UnsignedInt32(x) => Some(GlCallModel::Uniform1U32 { location, x }),
        GlslValue::Bool(flag) => Some(
            GlCallModel::Uniform1U32 {
                location,
                x: if flag {
                    TRUE as u32
                } else {
                    FALSE as u32
                },
            },
        ),
        GlslValue::Float32Mat2(m) => Some(
            GlCallModel::UniformMatrix2F32Slice { location, transpose: false, v: m@ },
        ),
        GlslValue::Float32Mat3(m) => Some(
            GlCallModel::UniformMatrix3F32Slice { location, transpose: false, v: m@ },
        ),
        GlslValue::Float32Mat4(m) => Some(
            GlCallModel::UniformMatrix4F32Slice { location, transpose: false, v: m@ },
        ),
    }
}

/// Where a link stands.
#[derive(Clone, Copy, Debug, PartialEq, Eq, Structural)]
pub enum LinkPhase {
    /// The program is being linked.
    Linking,
    /// The link failed; its info log is being fetched.
    Inspecting,
    /// The link succeeded; the active uniforms are being counted.
    Counting,
    /// An active uniform is being asked for by its number.
    Reflecting,
    /// The location of that uniform is being asked for by its name.
    Locating,
    /// The program is linked.
    Linked,
    /// The program did not link.
    Failed,
}

/// The linking of one program.
#[derive(Debug)]
pub struct ProgramLink {
    program: u32,
    phase: LinkPhase,
    index: u32,
    count: u32,
    name: String,
    found: NameTable<Option<u32>>,
    message: String,
}

/// What a [`ProgramLink`] holds.
pub struct LinkModel {
    pub program: u32,
    pub phase: LinkPhase,
    /// The number of the uniform that is asked for.
    pub index: u32,
    /// The number of active uniforms.
    pub count: u32,
    /// The name of the uniform that is being located.
    pub name: Seq<char>,
    /// The uniforms located so far.
    pub found: Entries<Option<u32>>,
    /// The info log, once the link has failed.
    pub message: Seq<char>,
}

impl LinkModel {
    /// The calls to issue now; none once the link has ended.
    pub open spec fn pending(self) -> Seq<GlCallModel> {
        match self.phase {
            LinkPhase::Linking => seq![
                GlCallModel::LinkProgram { program: self.program },
                GlCallModel::GetProgramLinkStatus { program: self.program },
            ],
            LinkPhase::Inspecting => seq![GlCallModel::GetProgramInfoLog { program: self.program }],
            LinkPhase::Counting => seq![GlCallModel::GetActiveUniforms { program: self.program }],
            LinkPhase::Reflecting => seq![
                GlCallModel::GetActiveUniform { program: self.program, index: self.index },
            ],
            LinkPhase::Locating => seq![
                GlCallModel::GetUniformLocation { program: self.program, name: self.name },
            ],
            LinkPhase::Linked | LinkPhase::Failed => seq![],
        }
    }

    /// The kind of reply that the pending calls end with.
    pub open spec fn awaited(self) -> ReplyKind {
        match self.phase {
            LinkPhase::Linking => ReplyKind::Status,
            LinkPhase::Inspecting => ReplyKind::Text,
            LinkPhase::Counting => ReplyKind::Count,
            LinkPhase::Reflecting => ReplyKind::Variable,
            LinkPhase::Locating => ReplyKind::Location,
            LinkPhase::Linked | LinkPhase::Failed => ReplyKind::Nothing,
        }
    }

    /// Whether the link has ended, well or badly.
    pub open spec fn finished(self) -> bool {
        self.phase == LinkPhase::Linked || self.phase == LinkPhase::Failed
    }

    /// The uniforms located once the reply is in: a location that came
    /// goes under the name it was asked for.
    pub open spec fn located(self, reply: GlReply) -> Entries<Option<u32>> {
        match (self.phase, reply) {
            (LinkPhase::Locating, GlReply::Location(location)) => put(
                self.found,
                self.name,
                location,
            ),
            _ => self.found,
        }
    }

    /// Whether the reply is the last that the link needs: the count where
    /// the program has no active uniform; else the answer for the last
    /// uniform, which is its location, or that there is no such uniform.
    pub open spec fn completes(self, reply: GlReply) -> bool {
        match (self.phase, reply) {
            (LinkPhase::Counting, GlReply::Count(count)) => count == 0,
            (LinkPhase::Reflecting, GlReply::Variable(None)) => self.index + 1 >= self.count,
            (LinkPhase::Locating, GlReply::Location(_)) => self.index + 1 >= self.count,
            _ => false,
        }
    }

    /// The link after the reply to its pending calls. When the link
    /// completes, the located uniforms leave it for the program. A reply of
    /// another kind than the one awaited changes nothing.
    pub open spec fn next(self, reply: GlReply) -> LinkModel {
        if self.completes(reply) {
            LinkModel {
                phase: LinkPhase::Linked,
                count: if self.phase == LinkPhase::Counting {
                    0
                } else {
                    self.count
                },
                index: if self.phase == LinkPhase::Counting {
                    0
                } else {
                    (self.index + 1) as u32
                },
                found: seq![],
                ..self
            }
        } else {
            match (self.phase, reply) {
                (LinkPhase::Linking, GlReply::Status(true)) => LinkModel {
                    phase: LinkPhase::Counting,
                    ..self
                },
                (LinkPhase::Linking, GlReply::Status(false)) => LinkModel {
                    phase: LinkPhase::Inspecting,
                    ..self
                },
                (LinkPhase::Inspecting, GlReply::Text(info_log)) => LinkModel {
                    phase: LinkPhase::Failed,
                    message: info_log@,
                    ..self
                },
                (LinkPhase::Counting, GlReply::Count(count)) => LinkModel {
                    phase: LinkPhase::Reflecting,
                    index: 0,
                    count,
                    ..self
                },
                (LinkPhase::Reflecting, GlReply::Variable(Some(variable))) => LinkModel {
                    phase: LinkPhase::Locating,
                    name: variable.name@,
                    ..self
                },
                (LinkPhase::Reflecting, GlReply::Variable(None)) => LinkModel {
                    index: (self.index + 1) as u32,
                    ..self
                },
                (LinkPhase::Locating, GlReply::Location(_)) => LinkModel {
                    phase: LinkPhase::Reflecting,
                    index: (self.index + 1) as u32,
                    found: self.located(reply),
                    ..self
                },
                _ => self,
            }
        }
    }

    /// The program after the reply: linked, with the located uniforms as
    /// its table in place of any it had, when the link completes; as it
    /// was at every other step.
    pub open spec fn next_program(self, program: ProgramModel, reply: GlReply) -> ProgramModel {
        if self.completes(reply) {
            ProgramModel { linked: true, uniforms: self.located(reply), ..program }
        } else {
            program
        }
    }
}

impl LinkModel {
    /// The link and the program after a run of replies, each taken in its
    /// turn.
    pub open spec fn after(self, program: ProgramModel, replies: Seq<GlReply>) -> (
        LinkModel,
        ProgramModel,
    )
        decreases replies.len(),
    {
        if replies.len() == 0 {
            (self, program)
        } else {
            self.next(replies[0]).after(
                self.next_program(program, replies[0]),
                replies.drop_first(),
            )
        }
    }
}

/// The replies of a reflection that finds every uniform: for each of them
/// the variable, then its location.
pub open spec fn reflection(uniforms: Seq<(ActiveVariable, Option<u32>)>) -> Seq<GlReply> {
    Seq::new(
        2 * uniforms.len(),
        |i: int|
            if i % 2 == 0 {
                GlReply::Variable(Some(uniforms[i / 2].0))
            } else {
                GlReply::Location(uniforms[i / 2].1)
            },
    )
}

/// The table of the uniforms reflected: each location under the name of
/// its variable, put in the order of reflection.
pub open spec fn reflected_table(uniforms: Seq<(ActiveVariable, Option<u32>)>) -> Entries<
    Option<u32>,
>
    decreases uniforms.len(),
{
    if uniforms.len() == 0 {
        seq![]
    } else {
        put(reflected_table(uniforms.drop_last()), uniforms.last().0.name@, uniforms.last().1)
    }
}

proof fn lemma_reflection_completes(
    link: LinkModel,
    program: ProgramModel,
    uniforms: Seq<(ActiveVariable, Option<u32>)>,
    done: int,
)
    requires
        link.phase == LinkPhase::Reflecting,
        0 <= done < uniforms.len(),
        link.index == done,
        link.count == uniforms.len(),
        link.found == reflected_table(uniforms.take(done)),
    ensures
        link.after(program, reflection(uniforms.skip(done))).0.phase == LinkPhase::Linked,
        link.after(program, reflection(uniforms.skip(done))).1 == (ProgramModel {
            linked: true,
            uniforms: reflected_table(uniforms),
            ..program
        }),
    decreases uniforms.len() - done,
{
    let replies = reflection(uniforms.skip(done));
    let found = replies[0];
    let located = replies.drop_first()[0];
    let rest = replies.drop_first().drop_first();
    assert(found == GlReply::Variable(Some(uniforms[done].0)));
    assert(located == GlReply::Location(uniforms[done].1));
    let locating = link.next(found);
    assert(locating.phase == LinkPhase::Locating);
    assert(link.next_program(program, found) == program);
    let table = put(link.found, uniforms[done].0.name@, uniforms[done].1);
    assert(uniforms.take(done + 1).drop_last() =~= uniforms.take(done));
    assert(uniforms.take(done + 1).last() == uniforms[done]);
    assert(table == reflected_table(uniforms.take(done + 1)));
    let stepped = locating.next(located);
    let carried = locating.next_program(program, located);
    assert(link.after(program, replies) == locating.after(program, replies.drop_first()));
    assert(locating.after(program, replies.drop_first()) == stepped.after(carried, rest));
    if done + 1 == uniforms.len() {
        assert(uniforms.take(done + 1) =~= uniforms);
        assert(rest.len() == 0);
        assert(stepped.after(carried, rest) == (stepped, carried));
    } else {
        assert(rest =~= reflection(uniforms.skip(done + 1))) by {
            assert forall|i: int| 0 <= i < rest.len() implies rest[i] == reflection(
                uniforms.skip(done + 1),
            )[i] by {
                assert(rest[i] == replies[i + 2]);
                assert((i + 2) / 2 == i / 2 + 1);
                assert((i + 2) % 2 == i % 2);
            }
        }
        lemma_reflection_completes(stepped, carried, uniforms, done + 1);
    }
}

/// A link that succeeds and finds every active uniform leaves the program
/// linked, with the table of the uniforms reflected in place of the one it
/// had, and otherwise as it was.
pub proof fn lemma_link_installs_reflected_table(
    link: LinkModel,
    program: ProgramModel,
    uniforms: Seq<(ActiveVariable, Option<u32>)>,
)
    requires
        link.phase == LinkPhase::Linking,
        link.found.len() == 0,
        uniforms.len() <= u32::MAX,
    ensures
        ({
            let replies = seq![
                GlReply::Status(true),
                GlReply::Count(uniforms.len() as u32),
            ] + reflection(uniforms);
            &&& link.after(program, replies).0.phase == LinkPhase::Linked
            &&& link.after(program, replies).1 == (ProgramModel {
                linked: true,
                uniforms: reflected_table(uniforms),
                ..program
            })
        }),
{
    let replies = seq![GlReply::Status(true), GlReply::Count(uniforms.len() as u32)] + reflection(
        uniforms,
    );
    let counting = link.next(replies[0]);
    let rest = replies.drop_first();
    let counted = counting.next(rest[0]);
    let carried = counting.next_program(program, rest[0]);
    let tail = rest.drop_first();
    assert(link.next_program(program, replies[0]) == program);
    assert(tail =~= reflection(uniforms));
    assert(link.after(program, replies) == counting.after(program, rest));
    assert(counting.after(program, rest) == counted.after(carried, tail));
    assert(link.found =~= seq![]);
    if uniforms.len() == 0 {
        assert(tail.len() == 0);
        assert(counted.after(carried, tail) == (counted, carried));
    } else {
        assert(uniforms.take(0) =~= seq![]);
        assert(uniforms.skip(0) =~= uniforms);
        lemma_reflection_completes(counted, carried, uniforms, 0);
    }
}

/// The reply that a link awaits is the reply to the last of its pending
/// calls.
pub proof fn lemma_link_awaits_last_call(link: LinkModel)
    requires
        link.pending().len() > 0,
    ensures
        link.awaited() == reply_kind_of(link.pending().last()),
{
}

/// A link that has ended stays as it is whatever comes, and so does the
/// program: a second link of a linked program asks nothing of the context
/// and rebuilds nothing.
pub proof fn lemma_link_ended_is_inert(link: LinkModel, program: ProgramModel, reply: GlReply)
    requires
        link.finished(),
    ensures
        link.pending().len() == 0,
        !link.completes(reply),
        link.next(reply) == link,
        link.next_program(program, reply) == program,
{
}

/// The program changes at the completing step of a link and at no other,
/// and only in that it becomes linked and takes the located uniforms.
pub proof fn lemma_link_touches_program_once(link: LinkModel, program: ProgramModel, reply: GlReply)
    ensures
        link.next_program(program, reply).handle == program.handle,
        link.next_program(program, reply).attached == program.attached,
        link.next_program(program, reply) != program ==> link.completes(reply) && link.next(
            reply,
        ).phase == LinkPhase::Linked,
        link.completes(reply) ==> link.next_program(program, reply).linked && link.next(
            reply,
        ).finished(),
{
}

impl View for ProgramLink {
    type V = LinkModel;

    closed spec fn view(&self) -> LinkModel {
        LinkModel {
            program: self.program,
            phase: self.phase,
            index: self.index,
            count: self.count,
            name: self.name@,
            found: self.found@,
            message: self.message@,
        }
    }
}

impl ProgramLink {
    /// Well-formedness: the uniform asked for is one of those counted, and
    /// no uniform is located twice.
    pub open spec fn wf(&self) -> bool {
        &&& distinct(self@.found)
        &&& (self@.phase == LinkPhase::Reflecting || self@.phase == LinkPhase::Locating)
            ==> self@.index < self@.count
    }

    /// Whether the link has ended.
    pub fn is_finished(&self) -> (finished: bool)
        ensures
            finished == self@.finished(),
            finished == (self@.pending().len() == 0),
    {
        match self.phase {
            LinkPhase::Linked | LinkPhase::Failed => true,
            _ => false,
        }
    }

    /// The kind of reply that [`ProgramLink::resume`] takes next.
    pub fn awaits(&self) -> (kind: ReplyKind)
        ensures
            kind == self@.awaited(),
    {
        match self.phase {
            LinkPhase::Linking => ReplyKind::Status,
            LinkPhase::Inspecting => ReplyKind::Text,
            LinkPhase::Counting => ReplyKind::Count,
            LinkPhase::Reflecting => ReplyKind::Variable,
            LinkPhase::Locating => ReplyKind::Location,
            LinkPhase::Linked | LinkPhase::Failed => ReplyKind::Nothing,
        }
    }

    /// The calls to issue now, in order.
    pub fn pending(&self) -> (calls: Vec<GlCall>)
        ensures
            script(calls@) == self@.pending(),
    {
        let mut calls: Vec<GlCall> = Vec::new();
        match self.phase {
            LinkPhase::Linking => {
                calls.push(GlCall::LinkProgram { program: self.program });
                calls.push(GlCall::GetProgramLinkStatus { program: self.program });
            },
            LinkPhase::Inspecting => {
                calls.push(GlCall::GetProgramInfoLog { program: self.program });
            },
            LinkPhase::Counting => {
                calls.push(GlCall::GetActiveUniforms { program: self.program });
            },
            LinkPhase::Reflecting => {
                calls.push(GlCall::GetActiveUniform { program: self.program, index: self.index });
            },
            LinkPhase::Locating => {
                calls.push(
                    GlCall::GetUniformLocation { program: self.program, name: self.name.clone() },
                );
            },
            LinkPhase::Linked | LinkPhase::Failed => {},
        }
        assert(script(calls@) =~= self@.pending());
        calls
    }

    fn complete(&mut self, program: &mut ShaderProgram)
        requires
            distinct(old(self)@.found),
        ensures
            final(self).wf(),
            final(program).wf(),
            final(self)@ == (LinkModel { phase: LinkPhase::Linked, found: seq![], ..old(self)@ }),
            final(program)@ == (ProgramModel {
                linked: true,
                uniforms: old(self)@.found,
                ..old(program)@
            }),
    {
        let mut table: NameTable<Option<u32>> = NameTable::new();
        core::mem::swap(&mut table, &mut self.found);
        program.uniform_locations = table;
        program.linked = true;
        self.phase = LinkPhase::Linked;
        assert(self@.found =~= seq![]);
    }

    /// Takes the reply to the last pending call and moves on. The program
    /// changes at one step only, the one that completes the link.
    pub fn resume(&mut self, program: &mut ShaderProgram, reply: GlReply)
        requires
            old(self).wf(),
            old(program).wf(),
        ensures
            final(self).wf(),
            final(program).wf(),
            final(self)@ == old(self)@.next(reply),
            final(program)@ == old(self)@.next_program(old(program)@, reply),
    {
        match (self.phase, reply) {
            (LinkPhase::Linking, GlReply::Status(true)) => {
                self.phase = LinkPhase::Counting;
            },
            (LinkPhase::Linking, GlReply::Status(false)) => {
                self.phase = LinkPhase::Inspecting;
            },
            (LinkPhase::Inspecting, GlReply::Text(info_log)) => {
                self.phase = LinkPhase::Failed;
                self.message = info_log;
            },
            (LinkPhase::Counting, GlReply::Count(count)) => {
                self.index = 0;
                if count == 0 {
                    self.count = 0;
                    self.complete(program);
                } else {
                    self.count = count;
                    self.phase = LinkPhase::Reflecting;
                }
            },
            (LinkPhase::Reflecting, GlReply::Variable(Some(variable))) => {
                self.phase = LinkPhase::Locating;
                self.name = variable.name;
            },
            (LinkPhase::Reflecting, GlReply::Variable(None)) => {
                self.index = self.index + 1;
                if self.index >= self.count {
                    self.complete(program);
                }
            },
            (LinkPhase::Locating, GlReply::Location(location)) => {
                self.found.insert(self.name.clone(), location);
                self.index = self.index + 1;
                if self.index >= self.count {
                    self.complete(program);
                } else {
                    self.phase = LinkPhase::Reflecting;
                }
            },
            _ => {},
        }
    }

    /// How the link ended: well, or with the info log as `Link`.
    pub fn outcome(self) -> (outcome: Result<(), Error>)
        requires
            self@.finished(),
        ensures
            self@.phase == LinkPhase::Linked <==> outcome is Ok,
            self@.phase == LinkPhase::Failed ==> (outcome matches Err(Error::Link { info_log })
                && info_log@ == self@.message),
    {
        match self.phase {
            LinkPhase::Failed => Err(Error::Link { info_log: self.message }),
            _ => Ok(()),
        }
    }
}

/// Where a listing stands.
#[derive(Clone, Copy, Debug, PartialEq, Eq, Structural)]
pub enum ListingPhase {
    Counting,
    Listing,
    Done,
}

/// The listing of the active attributes or uniforms of a program.
#[derive(Debug)]
pub struct ProgramListing {
    program: u32,
    attributes: bool,
    phase: ListingPhase,
    index: u32,
    count: u32,
    records: Vec<LogRecord>,
}

/// What a [`ProgramListing`] holds.
pub struct ListingModel {
    pub program: u32,
    /// Whether attributes are listed, or uniforms.
    pub attributes: bool,
    pub phase: ListingPhase,
    /// The number of the variable that is asked for.
    pub index: u32,
    /// The number of active variables.
    pub count: u32,
    /// One record for each variable asked for so far.
    pub records: Seq<LogLine>,
}

/// The tag that starts the record of an attribute or a uniform.
pub open spec fn listing_tag(attributes: bool) -> Seq<char> {
    if attributes {
        "[ATTRIB] #"@
    } else {
        "[UNIFORM] #"@
    }
}

/// The record of one variable: for debugging, the tag, the number, the
/// keyword of the type between double quotes, and the name; a warning with
/// tag, number and `NOT FOUND` where the context knows no such variable.
pub open spec fn listing_line(
    attributes: bool,
    index: u32,
    variable: Option<ActiveVariable>,
) -> LogLine {
    match variable {
        Some(found) => LogLine {
            level: LogLevel::Debug,
            text: listing_tag(attributes) + decimal_digits(index as nat) + " \""@ + type_keyword(
                found.kind,
            ) + "\" "@ + found.name@,
        },
        None => LogLine {
            level: LogLevel::Warn,
            text: listing_tag(attributes) + decimal_digits(index as nat) + " NOT FOUND"@,
        },
    }
}

impl ListingModel {
    /// The query to issue now; none once the listing is done.
    pub open spec fn pending(self) -> Seq<GlCallModel> {
        match self.phase {
            ListingPhase::Counting => if self.attributes {
                seq![GlCallModel::GetActiveAttributes { program: self.program }]
            } else {
                seq![GlCallModel::GetActiveUniforms { program: self.program }]
            },
            ListingPhase::Listing => if self.attributes {
                seq![GlCallModel::GetActiveAttribute { program: self.program, index: self.index }]
            } else {
                seq![GlCallModel::GetActiveUniform { program: self.program, index: self.index }]
            },
            ListingPhase::Done => seq![],
        }
    }

    /// The kind of reply that the pending query hands back.
    pub open spec fn awaited(self) -> ReplyKind {
        match self.phase {
            ListingPhase::Counting => ReplyKind::Count,
            ListingPhase::Listing => ReplyKind::Variable,
            ListingPhase::Done => ReplyKind::Nothing,
        }
    }

    /// The listing after the reply to its pending query: the count opens
    /// it, and each variable adds its record. A reply of another kind than
    /// the one awaited changes nothing.
    pub open spec fn next(self, reply: GlReply) -> ListingModel {
        match (self.phase, reply) {
            (ListingPhase::Counting, GlReply::Count(count)) => ListingModel {
                phase: if count == 0 {
                    ListingPhase::Done
                } else {
                    ListingPhase::Listing
                },
                index: 0,
                count,
                ..self
            },
            (ListingPhase::Listing, GlReply::Variable(variable)) => ListingModel {
                phase: if self.index + 1 >= self.count {
                    ListingPhase::Done
                } else {
                    ListingPhase::Listing
                },
                index: (self.index + 1) as u32,
                records: self.records.push(listing_line(self.attributes, self.index, variable)),
                ..self
            },
            _ => self,
        }
    }
}

/// The reply that a listing awaits is the reply to its pending call.
pub proof fn lemma_listing_awaits_last_call(listing: ListingModel)
    requires
        listing.pending().len() > 0,
    ensures
        listing.awaited() == reply_kind_of(listing.pending().last()),
{
}

impl View for ProgramListing {
    type V = ListingModel;

    closed spec fn view(&self) -> ListingModel {
        ListingModel {
            program: self.program,
            attributes: self.attributes,
            phase: self.phase,
            index: self.index,
            count: self.count,
            records: lines(self.records@),
        }
    }
}

fn listing_record(attributes: bool, index: u32, variable: Option<ActiveVariable>) -> (record:
    LogRecord)
    ensures
        record@ == listing_line(attributes, index, variable),
{
    let mut text = if attributes {
        String::from_str("[ATTRIB] #")
    } else {
        String::from_str("[UNIFORM] #")
    };
    let number = decimal(index as u64);
    text.append(number.as_str());
    match variable {
        Some(found) => {
            text.append(" \"");
            text.append(native_gl_value_type_to_keyword(found.kind));
            text.append("\" ");
            text.append(found.name.as_str());
            LogRecord { level: LogLevel::Debug, text }
        },
        None => {
            text.append(" NOT FOUND");
            LogRecord { level: LogLevel::Warn, text }
        },
    }
}

impl ProgramListing {
    /// Well-formedness: the variable asked for is one of those counted.
    pub open spec fn wf(&self) -> bool {
        self@.phase == ListingPhase::Listing ==> self@.index < self@.count
    }

    /// Whether the listing is done.
    pub fn is_finished(&self) -> (finished: bool)
        ensures
            finished == (self@.phase == ListingPhase::Done),
            finished == (self@.pending().len() == 0),
    {
        match self.phase {
            ListingPhase::Done => true,
            _ => false,
        }
    }

    /// The kind of reply that [`ProgramListing::resume`] takes next.
    pub fn awaits(&self) -> (kind: ReplyKind)
        ensures
            kind == self@.awaited(),
    {
        match self.phase {
            ListingPhase::Counting => ReplyKind::Count,
            ListingPhase::Listing => ReplyKind::Variable,
            ListingPhase::Done => ReplyKind::Nothing,
        }
    }

    /// The query to issue now.
    pub fn pending(&self) -> (calls: Vec<GlCall>)
        ensures
            script(calls@) == self@.pending(),
    {
        let mut calls: Vec<GlCall> = Vec::new();
        match self.phase {
            ListingPhase::Counting => {
                if self.attributes {
                    calls.push(GlCall::GetActiveAttributes { program: self.program });
                } else {
                    calls.push(GlCall::GetActiveUniforms { program: self.program });
                }
            },
            ListingPhase::Listing => {
                if self.attributes {
                    calls.push(
                        GlCall::GetActiveAttribute { program: self.program, index: self.index },
                    );
                } else {
                    calls.push(GlCall::GetActiveUniform { program: self.program, index: self.index });
                }
            },
            ListingPhase::Done => {},
        }
        assert(script(calls@) =~= self@.pending());
        calls
    }

    /// Takes the reply to the pending query and moves on.
    pub fn resume(&mut self, reply: GlReply)
        requires
            old(self).wf(),
        ensures
            final(self).wf(),
            final(self)@ == old(self)@.next(reply),
    {
        match (self.phase, reply) {
            (ListingPhase::Counting, GlReply::Count(count)) => {
                self.index = 0;
                self.count = count;
                self.phase = if count == 0 {
                    ListingPhase::Done
                } else {
                    ListingPhase::Listing
                };
            },
            (ListingPhase::Listing, GlReply::Variable(variable)) => {
                let record = listing_record(self.attributes, self.index, variable);
                self.records.push(record);
                self.index = self.index + 1;
                if self.index >= self.count {
                    self.phase = ListingPhase::Done;
                }
                assert(self@.records =~= old(self)@.next(reply).records);
            },
            _ => {},
        }
    }

    /// The records of the listing, one for each variable asked for so far,
    /// in their order.
    pub fn into_records(self) -> (records: Vec<LogRecord>)
        ensures
            lines(records@) == self@.records,
    {
        self.records
    }
}

impl ShaderProgram {
    /// Well-formedness: no uniform is listed twice, and a program that is
    /// not linked knows no uniform.
    pub open spec fn wf(&self) -> bool {
        &&& distinct(self@.uniforms)
        &&& !self@.linked ==> self@.uniforms.len() == 0
    }

    /// Makes the program from what the context answered to its creation:
    /// not linked, nothing attached, no uniform known. The driver's message
    /// comes back as `GpuResource` where the creation failed.
    pub fn new(created: Result<u32, String>) -> (program: Result<ShaderProgram, Error>)
        ensures
            match created {
                Ok(handle) => program matches Ok(made) && made.wf() && made@ == (ProgramModel {
                    handle,
                    linked: false,
                    attached: seq![],
                    uniforms: seq![],
                }),
                Err(message) => program matches Err(Error::GpuResource(text)) && text@
                    == message@,
            },
    {
        match created {
            Ok(handle) => {
                let made = ShaderProgram {
                    program: handle,
                    linked: false,
                    shaders: Vec::new(),
                    uniform_locations: NameTable::new(),
                };
                assert(made@.uniforms =~= seq![]);
                Ok(made)
            },
            Err(message) => Err(Error::GpuResource(message)),
        }
    }

    /// Attaches the stage that the manager holds under the name. Where the
    /// manager has no such stage, nothing happens.
    pub fn attach_shader(&mut self, manager: &ShaderManager, key: &str) -> (calls: Vec<GlCall>)
        requires
            old(self).wf(),
            manager.wf(),
        ensures
            final(self).wf(),
            match lookup(manager@, key@) {
                Some(shader) => {
                    &&& script(calls@) == seq![
                        GlCallModel::AttachShader { program: old(self)@.handle, shader },
                    ]
                    &&& final(self)@ == (ProgramModel {
                        attached: old(self)@.attached.push(shader),
                        ..old(self)@
                    })
                },
                None => calls@.len() == 0 && final(self)@ == old(self)@,
            },
    {
        let mut calls: Vec<GlCall> = Vec::new();
        match manager.get_shader(key) {
            Some(shader) => {
                calls.push(GlCall::AttachShader { program: self.program, shader });
                self.shaders.push(shader);
                assert(script(calls@) =~= seq![
                    GlCallModel::AttachShader { program: old(self)@.handle, shader },
                ]);
            },
            None => {},
        }
        calls
    }

    /// Starts linking. On a program that is linked the link has ended well
    /// before it began: nothing is pending, and the program stays as it is.
    pub fn link(&self) -> (link: ProgramLink)
        ensures
            link.wf(),
            link@.program == self@.handle,
            link@.phase == if self@.linked {
                LinkPhase::Linked
            } else {
                LinkPhase::Linking
            },
            link@.found == Seq::<(Seq<char>, Option<u32>)>::empty(),
            self@.linked ==> link@.finished() && link@.pending().len() == 0,
    {
        ProgramLink {
            program: self.program,
            phase: if self.linked {
                LinkPhase::Linked
            } else {
                LinkPhase::Linking
            },
            index: 0,
            count: 0,
            name: String::new(),
            found: NameTable::new(),
            message: String::new(),
        }
    }

    /// Makes the program current. A program that is not linked is refused
    /// as `NotLinked`.
    pub fn use_program(&self) -> (calls: Result<Vec<GlCall>, Error>)
        ensures
            calls is Ok <==> self@.linked,
            calls matches Ok(list) ==> script(list@) == seq![
                GlCallModel::UseProgram { program: self@.handle },
            ],
            calls matches Err(error) ==> error is NotLinked,
    {
        if !self.linked {
            return Err(Error::NotLinked);
        }
        let mut list: Vec<GlCall> = Vec::new();
        list.push(GlCall::UseProgram { program: self.program });
        assert(script(list@) =~= seq![GlCallModel::UseProgram { program: self@.handle }]);
        Ok(list)
    }

    /// The handle of the program.
    pub fn get_handle(&self) -> (handle: u32)
        ensures
            handle == self@.handle,
    {
        self.program
    }

    /// Whether the program is linked.
    pub fn is_linked(&self) -> (linked: bool)
        ensures
            linked == self@.linked,
    {
        self.linked
    }

    /// The location of the uniform of this name: `None` where the program
    /// has no such uniform, `Some(None)` where it has one without location.
    pub fn uniform_location(&self, name: &str) -> (location: Option<Option<u32>>)
        requires
            self.wf(),
        ensures
            location == lookup(self@.uniforms, name@),
    {
        self.uniform_locations.get(name)
    }

    /// Binds a vertex attribute to a slot; to take effect at the next link.
    pub fn bind_attrib_location(&self, index: u32, name: &str) -> (calls: Vec<GlCall>)
        ensures
            script(calls@) == seq![
                GlCallModel::BindAttribLocation { program: self@.handle, index, name: name@ },
            ],
    {
        let mut calls: Vec<GlCall> = Vec::new();
        calls.push(GlCall::BindAttribLocation { program: self.program, index, name: name.to_owned() });
        assert(script(calls@) =~= seq![
            GlCallModel::BindAttribLocation { program: self@.handle, index, name: name@ },
        ]);
        calls
    }

    /// Binds a fragment output to a colour number; to take effect at the
    /// next link.
    pub fn bind_frag_data_location(&self, color_number: u32, name: &str) -> (calls: Vec<GlCall>)
        ensures
            script(calls@) == seq![
                GlCallModel::BindFragDataLocation {
                    program: self@.handle,
                    color_number,
                    name: name@,
                },
            ],
    {
        let mut calls: Vec<GlCall> = Vec::new();
        calls.push(
            GlCall::BindFragDataLocation {
                program: self.program,
                color_number,
                name: name.to_owned(),
            },
        );
        assert(script(calls@) =~= seq![
            GlCallModel::BindFragDataLocation { program: self@.handle, color_number, name: name@ },
        ]);
        calls
    }

    /// Sets a uniform by name.
    ///
    /// A name that the program does not know gives a warning and no call;
    /// so does every name on a program that is not linked. A known name
    /// gives one upload call, chosen by the type of the value, at the
    /// location of the uniform, be it absent. A 64-bit float is never
    /// uploaded: it gives a warning that says whether the context lists the
    /// extension for such uniforms.
    pub fn set_uniform_value(&self, name: &str, value: GlslValue, metadata: &OpenGlMetadata) -> (upload:
        UniformUpload)
        requires
            self.wf(),
            metadata.wf(),
        ensures
            !self@.linked ==> upload.calls@.len() == 0,
            match lookup(self@.uniforms, name@) {
                None => {
                    &&& upload.calls@.len() == 0
                    &&& upload.warning matches Some(UniformWarning::UnknownName(unknown))
                        && unknown@ == name@
                },
                Some(location) => match value {
                    GlslValue::Float64(bits) => {
                        &&& upload.calls@.len() == 0
                        &&& upload.warning == Some(
                            if has_name(metadata@.extensions, double_precision_extension()) {
                                UniformWarning::DoubleNotImplemented(bits)
                            } else {
                                UniformWarning::DoubleNotSupported(bits)
                            },
                        )
                    },
                    _ => {
                        &&& script(upload.calls@) == seq![upload_call(location, value).unwrap()]
                        &&& upload.warning is None
                    },
                },
            },
    {
        let mut calls: Vec<GlCall> = Vec::new();
        let location = match self.uniform_locations.get(name) {
            Some(location) => location,
            None => {
                return UniformUpload {
                    calls,
                    warning: Some(UniformWarning::UnknownName(name.to_owned())),
                };
            },
        };
        let call = match value {
            GlslValue::Float32(x) => GlCall::Uniform1F32 { location, x },
            GlslValue::Float32Vec2(v) => GlCall::Uniform2F32 { location, x: v[0], y: v[1] },
            GlslValue::Float32Vec3(v) => GlCall::Uniform3F32 { location, x: v[0], y: v[1], z: v[2] },
            GlslValue::Float32Vec4(v) => GlCall::Uniform4F32 {
                location,
                x: v[0],
                y: v[1],
                z: v[2],
                w: v[3],
            },
            GlslValue::Float64(bits) => {
                let warning = if metadata.has_extension("ARB_gpu_shader_fp64") {
                    UniformWarning::DoubleNotImplemented(bits)
                } else {
                    UniformWarning::DoubleNotSupported(bits)
                };
                return UniformUpload { calls, warning: Some(warning) };
            },
            GlslValue::Int32(x) => GlCall::Uniform1I32 { location, x },
            GlslValue::UnsignedInt32(x) => GlCall::Uniform1U32 { location, x },
            GlslValue::Bool(flag) => GlCall::Uniform1U32 {
                location,
                x: if flag {
                    TRUE as u32
                } else {
                    FALSE as u32
                },
            },
            GlslValue::Float32Mat2(m) => GlCall::UniformMatrix2F32Slice {
                location,
                transpose: false,
                v: m,
            },
            GlslValue::Float32Mat3(m) => GlCall::UniformMatrix3F32Slice {
                location,
                transpose: false,
                v: m,
            },
            GlslValue::Float32Mat4(m) => GlCall::UniformMatrix4F32Slice {
                location,
                transpose: false,
                v: m,
            },
        };
        calls.push(call);
        assert(script(calls@) =~= seq![upload_call(location, value).unwrap()]);
        UniformUpload { calls, warning: None }
    }

    /// Starts the listing of the active attributes.
    pub fn print_active_attribs(&self) -> (listing: ProgramListing)
        ensures
            listing.wf(),
            listing@ == (ListingModel {
                program: self@.handle,
                attributes: true,
                phase: ListingPhase::Counting,
                index: 0,
                count: 0,
                records: seq![],
            }),
    {
        let listing = ProgramListing {
            program: self.program,
            attributes: true,
            phase: ListingPhase::Counting,
            index: 0,
            count: 0,
            records: Vec::new(),
        };
        assert(listing@.records =~= seq![]);
        listing
    }

    /// Starts the listing of the active uniforms.
    pub fn print_active_uniforms(&self) -> (listing: ProgramListing)
        ensures
            listing.wf(),
            listing@ == (ListingModel {
                program: self@.handle,
                attributes: false,
                phase: ListingPhase::Counting,
                index: 0,
                count: 0,
                records: seq![],
            }),
    {
        let listing = ProgramListing {
            program: self.program,
            attributes: false,
            phase: ListingPhase::Counting,
            index: 0,
            count: 0,
            records: Vec::new(),
        };
        assert(listing@.records =~= seq![]);
        listing
    }

    /// Gives the program up: every attached stage is detached, in the order
    /// of attachment, and stays with the manager; then the program is
    /// deleted.
    pub fn delete(self) -> (calls: Vec<GlCall>)
        ensures
            script(calls@) == Seq::new(
                self@.attached.len(),
                |i: int|
                    GlCallModel::DetachShader { program: self@.handle, shader: self@.attached[i] },
            ).push(GlCallModel::DeleteProgram { program: self@.handle }),
    {
        let mut calls: Vec<GlCall> = Vec::new();
        let mut i: usize = 0;
        while i < self.shaders.len()
            invariant
                i <= self.shaders.len(),
                calls@.len() == i,
                forall|k: int|
                    0 <= k < i ==> (#[trigger] calls@[k])@ == (GlCallModel::DetachShader {
                        program: self.program,
                        shader: self.shaders@[k],
                    }),
            decreases self.shaders.len() - i,
        {
            calls.push(GlCall::DetachShader { program: self.program, shader: self.shaders[i] });
            i = i + 1;
        }
        calls.push(GlCall::DeleteProgram { program: self.program });
        assert(script(calls@) =~= Seq::new(
            self@.attached.len(),
            |i: int| GlCallModel::DetachShader { program: self@.handle, shader: self@.attached[i] },
        ).push(GlCallModel::DeleteProgram { program: self@.handle }));
        calls
    }
}

} // verus!
