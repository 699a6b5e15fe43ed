//! Context metadata: vendor, renderer and version strings, the version
//! number, the set of extensions, and the minimum version that the library
//! asks for.
//!
//! The values come from the context one query at a time, so collecting them
//! runs as a [`MetadataQuery`]: the caller issues what is pending, hands the
//! reply to [`MetadataQuery::resume`], and repeats until nothing is pending.
use vstd::prelude::*;
use crate::error::Error;
use crate::gl::{
    reply_kind_of, script, GlCall, GlCallModel, GlReply, ReplyKind, EXTENSIONS, MAJOR_VERSION,
    MINOR_VERSION, NUM_EXTENSIONS, RENDERER, SHADING_LANGUAGE_VERSION, VENDOR, VERSION,
};
use crate::table::{distinct, has_name, put, Entries, NameTable};
use crate::text::{decimal, decimal_digits};

verus! {

/// A version number.
#[derive(Clone, Copy, Debug, PartialEq, Eq, Structural)]
pub struct GlVersion {
    pub major: u64,
    pub minor: u64,
    pub patch: u64,
}

/// The lowest context version that the library works with: 4.3.
pub const MIN_MAJOR_VERSION: u64 = 4;

pub const MIN_MINOR_VERSION: u64 = 3;

/// The lowest context version as a value.
pub open spec fn min_opengl_version() -> GlVersion {
    GlVersion { major: MIN_MAJOR_VERSION, minor: MIN_MINOR_VERSION, patch: 0 }
}

/// Whether a version comes before another: by the major number, then the
/// minor number, then the patch number.
pub open spec fn version_precedes(version: GlVersion, other: GlVersion) -> bool {
    ||| version.major < other.major
    ||| version.major == other.major && version.minor < other.minor
    ||| version.major == other.major && version.minor == other.minor && version.patch
        < other.patch
}

/// `<` on `semver::Version`, for two versions made by `semver::Version::new`.
/// Such versions have neither pre-release nor build metadata, and the order
/// of `semver::Version` goes by major, minor and patch number before those.
#[verifier::external_body]
fn version_below(version: GlVersion, other: GlVersion) -> (below: bool)
    ensures
        below == version_precedes(version, other),
{
    semver::Version::new(version.major, version.minor, version.patch) < semver::Version::new(
        other.major,
        other.minor,
        other.patch,
    )
}

/// What the context says of itself.
#[derive(Debug)]
pub struct OpenGlMetadata {
    renderer: String,
    version_full: String,
    vendor: String,
    glsl_version: String,
    version: GlVersion,
    extensions: NameTable<()>,
}

/// What an [`OpenGlMetadata`] holds. The extensions are a set: each name
/// once, in the order in which the context listed them.
pub struct MetadataModel {
    pub renderer: Seq<char>,
    pub version_full: Seq<char>,
    pub vendor: Seq<char>,
    pub glsl_version: Seq<char>,
    pub version: GlVersion,
    pub extensions: Entries<()>,
}

impl View for OpenGlMetadata {
    type V = MetadataModel;

    closed spec fn view(&self) -> MetadataModel {
        MetadataModel {
            renderer: self.renderer@,
            version_full: self.version_full@,
            vendor: self.vendor@,
            glsl_version: self.glsl_version@,
            version: self.version,
            extensions: self.extensions@,
        }
    }
}

impl MetadataModel {
    /// The summary: four labelled lines and the number of extensions.
    pub open spec fn summary(self) -> Seq<char> {
        "[OpenGL] Version: "@ + self.version_full + "\n[OpenGL] Vendor: "@ + self.vendor
            + "\n[OpenGL] Renderer: "@ + self.renderer + "\n[OpenGL] GLSL Version: "@
            + self.glsl_version + "\n[OpenGL] "@ + decimal_digits(self.extensions.len())
            + " extension(s) supported"@
    }
}

impl OpenGlMetadata {
    /// Well-formedness: no extension is listed twice.
    pub open spec fn wf(&self) -> bool {
        distinct(self@.extensions)
    }

    /// Checks the context version against the minimum, 4.3.0: below it the
    /// context is refused as `UnsupportedVersion`.
    pub fn assert_version(&self) -> (checked: Result<(), Error>)
        ensures
            checked is Ok <==> !version_precedes(self@.version, min_opengl_version()),
            checked matches Err(error) ==> error is UnsupportedVersion,
    {
        let floor = GlVersion { major: MIN_MAJOR_VERSION, minor: MIN_MINOR_VERSION, patch: 0 };
        if version_below(self.version, floor) {
            Err(Error::UnsupportedVersion)
        } else {
            Ok(())
        }
    }

    /// The version number of the context.
    pub fn version(&self) -> (version: GlVersion)
        ensures
            version == self@.version,
    {
        self.version
    }

    /// Whether the context lists this extension.
    pub fn has_extension(&self, name: &str) -> (listed: bool)
        requires
            self.wf(),
        ensures
            listed == has_name(self@.extensions, name@),
    {
        self.extensions.contains(name)
    }

    /// The number of extensions that the context lists.
    pub fn extension_count(&self) -> (count: usize)
        requires
            self.wf(),
        ensures
            count == self@.extensions.len(),
    {
        self.extensions.len()
    }

    /// The summary of the metadata as text.
    pub fn summary(&self) -> (text: String)
        requires
            self.wf(),
        ensures
            text@ == self@.summary(),
    {
        let mut text = String::from_str("[OpenGL] Version: ");
        text.append(self.version_full.as_str());
        text.append("\n[OpenGL] Vendor: ");
        text.append(self.vendor.as_str());
        text.append("\n[OpenGL] Renderer: ");
        text.append(self.renderer.as_str());
        text.append("\n[OpenGL] GLSL Version: ");
        text.append(self.glsl_version.as_str());
        text.append("\n[OpenGL] ");
        let count = decimal(self.extensions.len() as u64);
        text.append(count.as_str());
        text.append(" extension(s) supported");
        text
    }
}

/// Where a metadata query stands: at the query that is pending.
#[derive(Clone, Copy, Debug, PartialEq, Eq, Structural)]
pub enum QueryPhase {
    ExtensionCount,
    Extension,
    Renderer,
    VersionText,
    Vendor,
    GlslVersion,
    Major,
    Minor,
    Done,
}

/// The collection of the metadata, query by query.
#[derive(Debug)]
pub struct MetadataQuery {
    phase: QueryPhase,
    index: u32,
    count: u32,
    major: i32,
    found: OpenGlMetadata,
}

/// What a [`MetadataQuery`] holds.
pub struct MetadataQueryModel {
    pub phase: QueryPhase,
    /// The number of the extension that is asked for next.
    pub index: u32,
    /// The number of extensions that the context announced.
    pub count: u32,
    /// The major version number as it came.
    pub major: i32,
    /// What was collected so far.
    pub found: MetadataModel,
}

impl MetadataQueryModel {
    /// The collection before its first query: the count of the extensions
    /// is to be asked for, every number is 0, every string is empty, and no
    /// extension is listed.
    pub open spec fn start() -> MetadataQueryModel {
        MetadataQueryModel {
            phase: QueryPhase::ExtensionCount,
            index: 0,
            count: 0,
            major: 0,
            found: MetadataModel {
                renderer: Seq::empty(),
                version_full: Seq::empty(),
                vendor: Seq::empty(),
                glsl_version: Seq::empty(),
                version: GlVersion { major: 0, minor: 0, patch: 0 },
                extensions: Seq::empty(),
            },
        }
    }

    /// The query to issue now; none once the collection is done.
    pub open spec fn pending(self) -> Seq<GlCallModel> {
        match self.phase {
            QueryPhase::ExtensionCount => seq![
                GlCallModel::GetParameterI32 { parameter: NUM_EXTENSIONS },
            ],
            QueryPhase::Extension => seq![
                GlCallModel::GetParameterIndexedString { parameter: EXTENSIONS, index: self.index },
            ],
            QueryPhase::Renderer => seq![GlCallModel::GetParameterString { parameter: RENDERER }],
            QueryPhase::VersionText => seq![GlCallModel::GetParameterString { parameter: VERSION }],
            QueryPhase::Vendor => seq![GlCallModel::GetParameterString { parameter: VENDOR }],
            QueryPhase::GlslVersion => seq![
                GlCallModel::GetParameterString { parameter: SHADING_LANGUAGE_VERSION },
            ],
            QueryPhase::Major => seq![GlCallModel::GetParameterI32 { parameter: MAJOR_VERSION }],
            QueryPhase::Minor => seq![GlCallModel::GetParameterI32 { parameter: MINOR_VERSION }],
            QueryPhase::Done => seq![],
        }
    }

    /// The kind of reply that the pending query hands back.
    pub open spec fn awaited(self) -> ReplyKind {
        match self.phase {
            QueryPhase::ExtensionCount | QueryPhase::Major | QueryPhase::Minor => ReplyKind::Integer,
            QueryPhase::Done => ReplyKind::Nothing,
            _ => ReplyKind::Text,
        }
    }

    /// The collection after the reply to its pending query.
    ///
    /// The announced number of extensions is read as unsigned; that many
    /// names are asked for, by their numbers from 0, and each joins the set.
    /// Then come the four strings and the two version numbers, read as
    /// unsigned 64-bit values; the patch number is 0. A reply of another
    /// kind than the one awaited changes nothing.
    pub open spec fn next(self, reply: GlReply) -> MetadataQueryModel {
        match (self.phase, reply) {
            (QueryPhase::ExtensionCount, GlReply::Integer(number)) => MetadataQueryModel {
                phase: if number as u32 == 0 {
                    QueryPhase::Renderer
                } else {
                    QueryPhase::Extension
                },
                count: number as u32,
                index: 0,
                ..self
            },
            (QueryPhase::Extension, GlReply::Text(name)) => MetadataQueryModel {
                phase: if self.index + 1 >= self.count {
                    QueryPhase::Renderer
                } else {
                    QueryPhase::Extension
                },
                index: (self.index + 1) as u32,
                found: MetadataModel {
                    extensions: put(self.found.extensions, name@, ()),
                    ..self.found
                },
                ..self
            },
            (QueryPhase::Renderer, GlReply::Text(text)) => MetadataQueryModel {
                phase: QueryPhase::VersionText,
                found: MetadataModel { renderer: text@, ..self.found },
                ..self
            },
            (QueryPhase::VersionText, GlReply::Text(text)) => MetadataQueryModel {
                phase: QueryPhase::Vendor,
                found: MetadataModel { version_full: text@, ..self.found },
                ..self
            },
            (QueryPhase::Vendor, GlReply::Text(text)) => MetadataQueryModel {
                phase: QueryPhase::GlslVersion,
                found: MetadataModel { vendor: text@, ..self.found },
                ..self
            },
            (QueryPhase::GlslVersion, GlReply::Text(text)) => MetadataQueryModel {
                phase: QueryPhase::Major,
                found: MetadataModel { glsl_version: text@, ..self.found },
                ..self
            },
            (QueryPhase::Major, GlReply::Integer(number)) => MetadataQueryModel {
                phase: QueryPhase::Minor,
                major: number,
                ..self
            },
            (QueryPhase::Minor, GlReply::Integer(number)) => MetadataQueryModel {
                phase: QueryPhase::Done,
                found: MetadataModel {
                    version: GlVersion { major: self.major as u64, minor: number as u64, patch: 0 },
                    ..self.found
                },
                ..self
            },
            _ => self,
        }
    }
}

/// The reply that a query awaits is the reply to its pending call.
pub proof fn lemma_query_awaits_last_call(query: MetadataQueryModel)
    requires
        query.pending().len() > 0,
    ensures
        query.awaited() == reply_kind_of(query.pending().last()),
{
}

impl View for MetadataQuery {
    type V = MetadataQueryModel;

    closed spec fn view(&self) -> MetadataQueryModel {
        MetadataQueryModel {
            phase: self.phase,
            index: self.index,
            count: self.count,
            major: self.major,
            found: self.found@,
        }
    }
}

impl MetadataQuery {
    /// Well-formedness: the extension asked for next is one of those
    /// announced, and no extension is listed twice.
    pub open spec fn wf(&self) -> bool {
        &&& distinct(self@.found.extensions)
        &&& self@.phase == QueryPhase::Extension ==> self@.index < self@.count
    }

    /// A collection that has asked nothing yet: the count of the extensions
    /// is the query that is pending, and nothing is collected.
    pub fn new() -> (query: MetadataQuery)
        ensures
            query.wf(),
            query@ == MetadataQueryModel::start(),
    {
        MetadataQuery {
            phase: QueryPhase::ExtensionCount,
            index: 0,
            count: 0,
            major: 0,
            found: OpenGlMetadata {
                renderer: String::new(),
                version_full: String::new(),
                vendor: String::new(),
                glsl_version: String::new(),
                version: GlVersion { major: 0, minor: 0, patch: 0 },
                extensions: NameTable::new(),
            },
        }
    }

    /// Whether every value is collected.
    pub fn is_finished(&self) -> (finished: bool)
        ensures
            finished == (self@.phase == QueryPhase::Done),
            finished == (self@.pending().len() == 0),
    {
        match self.phase {
            QueryPhase::Done => true,
            _ => false,
        }
    }

    /// The kind of reply that [`MetadataQuery::resume`] takes next.
    pub fn awaits(&self) -> (kind: ReplyKind)
        ensures
            kind == self@.awaited(),
    {
        match self.phase {
            QueryPhase::ExtensionCount | QueryPhase::Major | QueryPhase::Minor => ReplyKind::Integer,
            QueryPhase::Done => ReplyKind::Nothing,
            _ => ReplyKind::Text,
        }
    }

    /// The query to issue now.
    pub fn pending(&self) -> (calls: Vec<GlCall>)
        ensures
            script(calls@) == self@.pending(),
    {
        let mut calls: Vec<GlCall> = Vec::new();
        match self.phase {
            QueryPhase::ExtensionCount => {
                calls.push(GlCall::GetParameterI32 { parameter: NUM_EXTENSIONS });
            },
            QueryPhase::Extension => {
                calls.push(
                    GlCall::GetParameterIndexedString { parameter: EXTENSIONS, index: self.index },
                );
            },
            QueryPhase::Renderer => {
                calls.push(GlCall::GetParameterString { parameter: RENDERER });
            },
            QueryPhase::VersionText => {
                calls.push(GlCall::GetParameterString { parameter: VERSION });
            },
            QueryPhase::Vendor => {
                calls.push(GlCall::GetParameterString { parameter: VENDOR });
            },
            QueryPhase::GlslVersion => {
                calls.push(GlCall::GetParameterString { parameter: SHADING_LANGUAGE_VERSION });
            },
            QueryPhase::Major => {
                calls.push(GlCall::GetParameterI32 { parameter: MAJOR_VERSION });
            },
            QueryPhase::Minor => {
                calls.push(GlCall::GetParameterI32 { parameter: MINOR_VERSION });
            },
            QueryPhase::Done => {},
        }
        assert(script(calls@) =~= self@.pending());
        calls
    }

    /// Takes the reply to the pending query and moves on.
    pub fn resume(&mut self, reply: GlReply)
        requires
            old(self).wf(),
        ensures
            final(self).wf(),
            final(self)@ == old(self)@.next(reply),
    {
        match (self.phase, reply) {
            (QueryPhase::ExtensionCount, GlReply::Integer(number)) => {
                self.count = #[verifier::truncate] (number as u32);
                self.index = 0;
                self.phase = if self.count == 0 {
                    QueryPhase::Renderer
                } else {
                    QueryPhase::Extension
                };
            },
            (QueryPhase::Extension, GlReply::Text(name)) => {
                self.found.extensions.insert(name, ());
                self.index = self.index + 1;
                if self.index >= self.count {
                    self.phase = QueryPhase::Renderer;
                }
            },
            (QueryPhase::Renderer, GlReply::Text(text)) => {
                self.found.renderer = text;
                self.phase = QueryPhase::VersionText;
            },
            (QueryPhase::VersionText, GlReply::Text(text)) => {
                self.found.version_full = text;
                self.phase = QueryPhase::Vendor;
            },
            (QueryPhase::Vendor, GlReply::Text(text)) => {
                self.found.vendor = text;
                self.phase = QueryPhase::GlslVersion;
            },
            (QueryPhase::GlslVersion, GlReply::Text(text)) => {
                self.found.glsl_version = text;
                self.phase = QueryPhase::Major;
            },
            (QueryPhase::Major, GlReply::Integer(number)) => {
                self.major = number;
                self.phase = QueryPhase::Minor;
            },
            (QueryPhase::Minor, GlReply::Integer(number)) => {
                self.found.version = GlVersion {
                    major: #[verifier::truncate] (self.major as u64),
                    minor: #[verifier::truncate] (number as u64),
                    patch: 0,
                };
                self.phase = QueryPhase::Done;
            },
            _ => {},
        }
    }

    /// The metadata of a finished collection.
    pub fn finish(self) -> (metadata: OpenGlMetadata)
        requires
            self.wf(),
            self@.phase == QueryPhase::Done,
        ensures
            metadata.wf(),
            metadata@ == self@.found,
    {
        self.found
    }
}

} // verus!
