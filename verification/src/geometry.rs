//! Triangle meshes: checking the vertex arrays, moving them into GPU
//! buffers, wiring the buffers to attribute slots, drawing and release.
//!
//! Building a mesh needs answers from the context (the handles of the
//! objects it creates), so it runs as an assembly: the caller issues
//! [`MeshAssembly::pending`], hands the reply of the last call to
//! [`MeshAssembly::resume`], and repeats until nothing is pending.
use vstd::prelude::*;
use crate::error::Error;
use crate::gl::{
    reply_kind_of, script, GlCall, GlCallModel, GlReply, ReplyKind, ARRAY_BUFFER,
    ELEMENT_ARRAY_BUFFER, FLOAT, STATIC_DRAW, TRIANGLES, UNSIGNED_INT,
};
use crate::torus::{
    torus_fits, torus_index, torus_index_count, torus_indices, torus_vertex_count,
};

verus! {

/// The four bytes of a word, lowest first.
pub open spec fn word_bytes_le(word: u32) -> Seq<u8> {
    seq![
        (word % 0x100) as u8,
        (word / 0x100 % 0x100) as u8,
        (word / 0x1_0000 % 0x100) as u8,
        (word / 0x100_0000) as u8,
    ]
}

/// The four bytes of a word, highest first.
pub open spec fn word_bytes_be(word: u32) -> Seq<u8> {
    seq![
        (word / 0x100_0000) as u8,
        (word / 0x1_0000 % 0x100) as u8,
        (word / 0x100 % 0x100) as u8,
        (word % 0x100) as u8,
    ]
}

/// Whether `bytes` is what `words` look like in memory: four bytes for each
/// word, in the order of the words, every word in the machine's byte order,
/// which is either lowest byte first or highest byte first.
pub open spec fn is_byte_image(words: Seq<u32>, bytes: Seq<u8>) -> bool {
    &&& bytes.len() == 4 * words.len()
    &&& {
        ||| forall|i: int|
            0 <= i < words.len() ==> bytes.subrange(4 * i, 4 * i + 4) == word_bytes_le(
                #[trigger] words[i],
            )
        ||| forall|i: int|
            0 <= i < words.len() ==> bytes.subrange(4 * i, 4 * i + 4) == word_bytes_be(
                #[trigger] words[i],
            )
    }
}

/// `bytemuck::cast_slice` from `u32` to `u8`, copied into a vector. The
/// cast views the same memory as bytes, so the result is the byte image of
/// the words. It cannot fail in this direction: bytes need no alignment and
/// any length divides by one.
#[verifier::external_body]
fn words_as_bytes(words: &Vec<u32>) -> (bytes: Vec<u8>)
    ensures
        is_byte_image(words@, bytes@),
{
    bytemuck::cast_slice::<u32, u8>(words.as_slice()).to_vec()
}

/// The words of an optional array.
pub open spec fn words_of(array: Option<Vec<u32>>) -> Option<Seq<u32>> {
    match array {
        Some(words) => Some(words@),
        None => None,
    }
}

/// Whether the arrays describe one mesh: three position words and three
/// normal words for each vertex, two texture words and four tangent words
/// where those arrays are given, every index below the number of vertices,
/// and no more indices than one draw call can count.
pub open spec fn geometry_valid(
    indices: Seq<u32>,
    points: Seq<u32>,
    normals: Seq<u32>,
    tex_coords: Option<Seq<u32>>,
    tangents: Option<Seq<u32>>,
) -> bool {
    let vertex_count = points.len() / 3;
    &&& points.len() == 3 * vertex_count
    &&& normals.len() == 3 * vertex_count
    &&& tex_coords matches Some(words) ==> words.len() == 2 * vertex_count
    &&& tangents matches Some(words) ==> words.len() == 4 * vertex_count
    &&& forall|i: int| 0 <= i < indices.len() ==> (#[trigger] indices[i]) < vertex_count
    &&& indices.len() <= i32::MAX
}

/// One array on its way into a buffer.
#[derive(Debug)]
pub struct VertexStream {
    target: u32,
    slot: u32,
    components: i32,
    data: Vec<u8>,
}

/// What a [`VertexStream`] holds: the binding target of its buffer, the
/// attribute slot and the number of components for each vertex (both 0 for
/// the index buffer), and the bytes to upload.
pub struct StreamModel {
    pub target: u32,
    pub slot: u32,
    pub components: i32,
    pub data: Seq<u8>,
}

impl View for VertexStream {
    type V = StreamModel;

    closed spec fn view(&self) -> StreamModel {
        StreamModel {
            target: self.target,
            slot: self.slot,
            components: self.components,
            data: self.data@,
        }
    }
}

/// Where an assembly stands.
#[derive(Clone, Copy, Debug, PartialEq, Eq, Structural)]
pub enum AssemblyPhase {
    /// Buffers are being created and filled, one for each array.
    Buffers,
    /// The vertex array exists; the calls that wire it are pending.
    Wiring,
    /// A creation failed; the calls that release the buffers are pending.
    Releasing,
    /// The mesh is built.
    Ready,
    /// The mesh could not be built, and nothing of it is left on the GPU.
    Failed,
}

/// A mesh under construction.
#[derive(Debug)]
pub struct MeshAssembly {
    streams: Vec<VertexStream>,
    index_count: i32,
    buffers: Vec<u32>,
    phase: AssemblyPhase,
    vertex_array: u32,
    message: String,
}

/// What a [`MeshAssembly`] holds.
pub struct MeshAssemblyModel {
    /// The arrays, the index buffer first.
    pub streams: Seq<StreamModel>,
    /// The number of indices to draw.
    pub index_count: i32,
    /// The buffers created so far, in the order of the arrays.
    pub buffers: Seq<u32>,
    pub phase: AssemblyPhase,
    /// The vertex array, once the phase is `Wiring` or `Ready`.
    pub vertex_array: u32,
    /// The driver's message, once the phase is `Releasing` or `Failed`.
    pub message: Seq<char>,
}

impl MeshAssemblyModel {
    /// The calls that fill the buffer created last.
    pub open spec fn upload_calls(self) -> Seq<GlCallModel> {
        if self.buffers.len() == 0 {
            seq![]
        } else {
            let last = self.buffers.len() - 1;
            seq![
                GlCallModel::BindBuffer {
                    target: self.streams[last].target,
                    buffer: self.buffers[last],
                },
                GlCallModel::BufferData {
                    target: self.streams[last].target,
                    data: self.streams[last].data,
                    usage: STATIC_DRAW,
                },
            ]
        }
    }

    /// The calls that bind the vertex array, then the index buffer, then
    /// each attribute buffer with its layout: tightly packed 32-bit floats,
    /// not normalized, enabled at the slot of the array.
    pub open spec fn wiring_calls(self) -> Seq<GlCallModel> {
        Seq::new(
            (3 * self.streams.len() - 1) as nat,
            |i: int|
                if i == 0 {
                    GlCallModel::BindVertexArray { vertex_array: self.vertex_array }
                } else if i == 1 {
                    GlCallModel::BindBuffer {
                        target: self.streams[0].target,
                        buffer: self.buffers[0],
                    }
                } else {
                    let stream = (i + 1) / 3;
                    if (i + 1) % 3 == 0 {
                        GlCallModel::BindBuffer {
                            target: self.streams[stream].target,
                            buffer: self.buffers[stream],
                        }
                    } else if (i + 1) % 3 == 1 {
                        GlCallModel::VertexAttribPointerF32 {
                            index: self.streams[stream].slot,
                            size: self.streams[stream].components,
                            data_type: FLOAT,
                            normalized: false,
                            stride: 0,
                            offset: 0,
                        }
                    } else {
                        GlCallModel::EnableVertexAttribArray { index: self.streams[stream].slot }
                    }
                },
        )
    }

    /// The calls that delete every buffer created so far, each once.
    pub open spec fn release_calls(self) -> Seq<GlCallModel> {
        Seq::new(self.buffers.len(), |i: int| GlCallModel::DeleteBuffer { buffer: self.buffers[i] })
    }

    /// The calls to issue now. Nothing is pending once the assembly is
    /// `Ready` or `Failed`.
    pub open spec fn pending(self) -> Seq<GlCallModel> {
        match self.phase {
            AssemblyPhase::Buffers => self.upload_calls().push(
                if self.buffers.len() < self.streams.len() {
                    GlCallModel::CreateBuffer
                } else {
                    GlCallModel::CreateVertexArray
                },
            ),
            AssemblyPhase::Wiring => self.wiring_calls(),
            AssemblyPhase::Releasing => self.release_calls(),
            AssemblyPhase::Ready | AssemblyPhase::Failed => seq![],
        }
    }

    /// The kind of reply that the pending calls end with.
    pub open spec fn awaited(self) -> ReplyKind {
        match self.phase {
            AssemblyPhase::Buffers => ReplyKind::Created,
            _ => ReplyKind::Nothing,
        }
    }

    /// The assembly after the reply to its pending calls.
    ///
    /// A new buffer joins the list; the handle that comes when every array
    /// has its buffer is the vertex array. A failed creation turns to
    /// releasing the buffers that exist, if there are any, and once that is
    /// done the assembly has failed and owns nothing. While a handle is
    /// awaited, a reply of another kind changes nothing; the steps that
    /// await no answer go on whatever the reply is.
    pub open spec fn next(self, reply: GlReply) -> MeshAssemblyModel {
        match self.phase {
            AssemblyPhase::Buffers => match reply {
                GlReply::Created(Ok(handle)) => if self.buffers.len() < self.streams.len() {
                    MeshAssemblyModel { buffers: self.buffers.push(handle), ..self }
                } else {
                    MeshAssemblyModel {
                        phase: AssemblyPhase::Wiring,
                        vertex_array: handle,
                        ..self
                    }
                },
                GlReply::Created(Err(message)) => MeshAssemblyModel {
                    phase: if self.buffers.len() == 0 {
                        AssemblyPhase::Failed
                    } else {
                        AssemblyPhase::Releasing
                    },
                    message: message@,
                    ..self
                },
                _ => self,
            },
            AssemblyPhase::Wiring => MeshAssemblyModel { phase: AssemblyPhase::Ready, ..self },
            AssemblyPhase::Releasing => MeshAssemblyModel {
                phase: AssemblyPhase::Failed,
                buffers: seq![],
                ..self
            },
            AssemblyPhase::Ready | AssemblyPhase::Failed => self,
        }
    }

    /// The assembly after a run of replies, each taken in its turn.
    pub open spec fn after(self, replies: Seq<GlReply>) -> MeshAssemblyModel
        decreases replies.len(),
    {
        if replies.len() == 0 {
            self
        } else {
            self.next(replies[0]).after(replies.drop_first())
        }
    }

    /// Whether this is the assembly that starts from the given arrays: no
    /// buffer yet, the index buffer first, then positions at slot 0 and
    /// normals at slot 1 with three components, then texture coordinates at
    /// slot 2 with two and tangents at slot 3 with four, where given.
    pub open spec fn starts_from(
        self,
        indices: Seq<u32>,
        points: Seq<u32>,
        normals: Seq<u32>,
        tex_coords: Option<Seq<u32>>,
        tangents: Option<Seq<u32>>,
    ) -> bool {
        let with_tex: int = if tex_coords is Some {
            1
        } else {
            0
        };
        let with_tangents: int = if tangents is Some {
            1
        } else {
            0
        };
        &&& self.phase == AssemblyPhase::Buffers
        &&& self.buffers.len() == 0
        &&& self.index_count == indices.len()
        &&& self.streams.len() == 3 + with_tex + with_tangents
        &&& stream_holds(self.streams[0], ELEMENT_ARRAY_BUFFER, 0, 0, indices)
        &&& stream_holds(self.streams[1], ARRAY_BUFFER, 0, 3, points)
        &&& stream_holds(self.streams[2], ARRAY_BUFFER, 1, 3, normals)
        &&& tex_coords matches Some(words) ==> stream_holds(
            self.streams[3],
            ARRAY_BUFFER,
            2,
            2,
            words,
        )
        &&& tangents matches Some(words) ==> stream_holds(
            self.streams[3 + with_tex],
            ARRAY_BUFFER,
            3,
            4,
            words,
        )
    }
}

/// The reply that an assembly awaits is the reply to the last of its
/// pending calls.
pub proof fn lemma_assembly_awaits_last_call(assembly: MeshAssemblyModel)
    requires
        3 <= assembly.streams.len(),
        assembly.pending().len() > 0,
    ensures
        assembly.awaited() == reply_kind_of(assembly.pending().last()),
{
    if assembly.phase == AssemblyPhase::Wiring {
        let last = assembly.wiring_calls().len() - 1;
        assert(last == 3 * assembly.streams.len() - 2);
        assert((last + 1) % 3 == 2);
    }
}

/// The replies of creations that all succeed, one for each handle.
pub open spec fn created(handles: Seq<u32>) -> Seq<GlReply> {
    handles.map_values(|handle: u32| GlReply::Created(Ok(handle)))
}

/// Where every creation succeeds, the assembly ends `Ready` with exactly
/// the buffers that the context made for it, in the order of the arrays,
/// and with the vertex array that came after them.
pub proof fn lemma_assembly_builds_mesh(
    assembly: MeshAssemblyModel,
    handles: Seq<u32>,
    vertex_array: u32,
)
    requires
        assembly.phase == AssemblyPhase::Buffers,
        assembly.buffers.len() + handles.len() == assembly.streams.len(),
    ensures
        assembly.after(
            created(handles).push(GlReply::Created(Ok(vertex_array))).push(GlReply::Nothing),
        ) == (MeshAssemblyModel {
            phase: AssemblyPhase::Ready,
            buffers: assembly.buffers + handles,
            vertex_array,
            ..assembly
        }),
    decreases handles.len(),
{
    let replies = created(handles).push(GlReply::Created(Ok(vertex_array))).push(
        GlReply::Nothing,
    );
    let rest = replies.drop_first();
    if handles.len() == 0 {
        let wiring = assembly.next(replies[0]);
        let ready = wiring.next(rest[0]);
        assert(rest.drop_first().len() == 0);
        assert(ready.after(rest.drop_first()) == ready);
        assert(wiring.after(rest) == ready);
        assert(assembly.buffers + handles =~= assembly.buffers);
    } else {
        let grown = assembly.next(replies[0]);
        assert(grown.buffers == assembly.buffers.push(handles[0]));
        assert(rest =~= created(handles.drop_first()).push(
            GlReply::Created(Ok(vertex_array)),
        ).push(GlReply::Nothing));
        lemma_assembly_builds_mesh(grown, handles.drop_first(), vertex_array);
        assert(grown.buffers + handles.drop_first() =~= assembly.buffers + handles);
    }
}

/// A creation that fails when buffers exist is answered by the release of
/// every one of them, each once and in order; after that the assembly has
/// failed, owns no buffer and asks for nothing more.
pub proof fn lemma_failure_releases_every_buffer(assembly: MeshAssemblyModel, message: String)
    requires
        assembly.phase == AssemblyPhase::Buffers,
        assembly.buffers.len() > 0,
    ensures
        ({
            let failing = assembly.next(GlReply::Created(Err(message)));
            let failed = failing.next(GlReply::Nothing);
            &&& failing.pending().len() == assembly.buffers.len()
            &&& forall|i: int|
                0 <= i < assembly.buffers.len() ==> #[trigger] failing.pending()[i]
                    == (GlCallModel::DeleteBuffer { buffer: assembly.buffers[i] })
            &&& failed.phase == AssemblyPhase::Failed
            &&& failed.buffers.len() == 0
            &&& failed.pending().len() == 0
            &&& failed.message == message@
        }),
{
}

/// Whether a stream goes to `target`, feeds `slot` with `components` words
/// for each vertex, and uploads the byte image of `words`.
pub open spec fn stream_holds(
    stream: StreamModel,
    target: u32,
    slot: u32,
    components: i32,
    words: Seq<u32>,
) -> bool {
    &&& stream.target == target
    &&& stream.slot == slot
    &&& stream.components == components
    &&& is_byte_image(words, stream.data)
}

/// The index list of the torus as a sequence.
pub open spec fn torus_index_list(num_sides: nat, num_rings: nat) -> Seq<u32> {
    Seq::new(torus_index_count(num_sides, num_rings), |k: int| torus_index(num_sides, k) as u32)
}

impl View for MeshAssembly {
    type V = MeshAssemblyModel;

    closed spec fn view(&self) -> MeshAssemblyModel {
        MeshAssemblyModel {
            streams: self.streams@.map_values(|stream: VertexStream| stream@),
            index_count: self.index_count,
            buffers: self.buffers@,
            phase: self.phase,
            vertex_array: self.vertex_array,
            message: self.message@,
        }
    }
}

fn copy_bytes(bytes: &Vec<u8>) -> (copy: Vec<u8>)
    ensures
        copy@ == bytes@,
{
    let mut copy: Vec<u8> = Vec::new();
    let mut i: usize = 0;
    while i < bytes.len()
        invariant
            i <= bytes.len(),
            copy@ == bytes@.subrange(0, i as int),
        decreases bytes.len() - i,
    {
        copy.push(bytes[i]);
        assert(copy@ =~= bytes@.subrange(0, i + 1));
        i = i + 1;
    }
    assert(copy@ =~= bytes@);
    copy
}

fn stream_of(target: u32, slot: u32, components: i32, words: &Vec<u32>) -> (stream: VertexStream)
    ensures
        stream_holds(stream@, target, slot, components, words@),
{
    VertexStream { target, slot, components, data: words_as_bytes(words) }
}

impl MeshAssembly {
    /// Well-formedness: between three and five arrays, no more buffers than
    /// arrays, and all of them once the vertex array exists.
    pub open spec fn wf(&self) -> bool {
        &&& 3 <= self@.streams.len() <= 5
        &&& self@.buffers.len() <= self@.streams.len()
        &&& (self@.phase == AssemblyPhase::Wiring || self@.phase == AssemblyPhase::Ready)
            ==> self@.buffers.len() == self@.streams.len()
        &&& self@.phase == AssemblyPhase::Failed ==> self@.buffers.len() == 0
        &&& self@.phase == AssemblyPhase::Releasing ==> self@.buffers.len() > 0
    }

    /// Whether nothing is left to do.
    pub fn is_finished(&self) -> (finished: bool)
        requires
            self.wf(),
        ensures
            finished == (self@.phase == AssemblyPhase::Ready || self@.phase
                == AssemblyPhase::Failed),
            finished == (self@.pending().len() == 0),
    {
        match self.phase {
            AssemblyPhase::Ready | AssemblyPhase::Failed => true,
            _ => false,
        }
    }

    /// The kind of reply that [`MeshAssembly::resume`] takes next.
    pub fn awaits(&self) -> (kind: ReplyKind)
        ensures
            kind == self@.awaited(),
    {
        match self.phase {
            AssemblyPhase::Buffers => ReplyKind::Created,
            _ => ReplyKind::Nothing,
        }
    }

    /// The calls to issue now, in order.
    pub fn pending(&self) -> (calls: Vec<GlCall>)
        requires
            self.wf(),
        ensures
            script(calls@) == self@.pending(),
    {
        let mut calls: Vec<GlCall> = Vec::new();
        let count: usize = self.buffers.len();
        match self.phase {
            AssemblyPhase::Buffers => {
                if count > 0 {
                    let stream = &self.streams[count - 1];
                    calls.push(
                        GlCall::BindBuffer { target: stream.target, buffer: self.buffers[count - 1] },
                    );
                    calls.push(
                        GlCall::BufferData {
                            target: stream.target,
                            data: copy_bytes(&stream.data),
                            usage: STATIC_DRAW,
                        },
                    );
                }
                if count < self.streams.len() {
                    calls.push(GlCall::CreateBuffer);
                } else {
                    calls.push(GlCall::CreateVertexArray);
                }
                assert(script(calls@) =~= self@.pending());
            },
            AssemblyPhase::Wiring => {
                calls.push(GlCall::BindVertexArray { vertex_array: self.vertex_array });
                calls.push(
                    GlCall::BindBuffer { target: self.streams[0].target, buffer: self.buffers[0] },
                );
                let mut j: usize = 1;
                while j < self.streams.len()
                    invariant
                        self.wf(),
                        self.phase == AssemblyPhase::Wiring,
                        1 <= j <= self.streams.len(),
                        calls@.len() == 3 * j - 1,
                        forall|i: int|
                            0 <= i < calls@.len() ==> (#[trigger] calls@[i])@
                                == self@.wiring_calls()[i],
                    decreases self.streams.len() - j,
                {
                    let stream = &self.streams[j];
                    calls.push(GlCall::BindBuffer { target: stream.target, buffer: self.buffers[j] });
                    calls.push(
                        GlCall::VertexAttribPointerF32 {
                            index: stream.slot,
                            size: stream.components,
                            data_type: FLOAT,
                            normalized: false,
                            stride: 0,
                            offset: 0,
                        },
                    );
                    calls.push(GlCall::EnableVertexAttribArray { index: stream.slot });
                    j = j + 1;
                }
                assert(script(calls@) =~= self@.pending());
            },
            AssemblyPhase::Releasing => {
                let mut i: usize = 0;
                while i < count
                    invariant
                        count == self.buffers.len(),
                        i <= count,
                        calls@.len() == i,
                        forall|k: int|
                            0 <= k < i ==> (#[trigger] calls@[k])@ == (GlCallModel::DeleteBuffer {
                                buffer: self.buffers@[k],
                            }),
                    decreases count - i,
                {
                    calls.push(GlCall::DeleteBuffer { buffer: self.buffers[i] });
                    i = i + 1;
                }
                assert(script(calls@) =~= self@.pending());
            },
            AssemblyPhase::Ready | AssemblyPhase::Failed => {
                assert(script(calls@) =~= self@.pending());
            },
        }
        calls
    }

    /// Takes the reply to the last pending call and moves on.
    pub fn resume(&mut self, reply: GlReply)
        requires
            old(self).wf(),
        ensures
            final(self).wf(),
            final(self)@ == old(self)@.next(reply),
    {
        match self.phase {
            AssemblyPhase::Buffers => {
                match reply {
                    GlReply::Created(Ok(handle)) => {
                        if self.buffers.len() < self.streams.len() {
                            self.buffers.push(handle);
                        } else {
                            self.phase = AssemblyPhase::Wiring;
                            self.vertex_array = handle;
                        }
                    },
                    GlReply::Created(Err(message)) => {
                        self.phase = if self.buffers.len() == 0 {
                            AssemblyPhase::Failed
                        } else {
                            AssemblyPhase::Releasing
                        };
                        self.message = message;
                    },
                    _ => {},
                }
            },
            AssemblyPhase::Wiring => {
                self.phase = AssemblyPhase::Ready;
            },
            AssemblyPhase::Releasing => {
                self.phase = AssemblyPhase::Failed;
                self.buffers.clear();
            },
            AssemblyPhase::Ready | AssemblyPhase::Failed => {},
        }
        assert(final(self)@.buffers =~= old(self)@.next(reply).buffers);
    }

    /// The outcome of a finished assembly: the mesh with its vertex array
    /// and its buffers in the order of the arrays, or the driver's message
    /// from the creation that failed.
    pub fn finish(self) -> (outcome: Result<TriangleMesh, Error>)
        requires
            self.wf(),
            self@.phase == AssemblyPhase::Ready || self@.phase == AssemblyPhase::Failed,
        ensures
            self@.phase == AssemblyPhase::Ready ==> (outcome matches Ok(mesh) && mesh@
                == MeshModel {
                vertex_count: self@.index_count,
                vertex_array: self@.vertex_array,
                buffers: self@.buffers,
            }),
            self@.phase == AssemblyPhase::Failed ==> (outcome matches Err(Error::GpuResource(
                message,
            )) && message@ == self@.message),
    {
        match self.phase {
            AssemblyPhase::Ready => Ok(
                TriangleMesh {
                    vertex_count: self.index_count,
                    vertex_array: self.vertex_array,
                    buffers: self.buffers,
                },
            ),
            _ => Err(Error::GpuResource(self.message)),
        }
    }
}

/// Anything that can be drawn with the program that is current.
pub trait Drawable {
    /// The calls that draw the object.
    spec fn render_calls(&self) -> Seq<GlCallModel>;

    /// The calls to issue for one draw, in order.
    fn render(&self) -> (calls: Vec<GlCall>)
        ensures
            script(calls@) == self.render_calls(),
    ;
}

/// A triangle mesh on the GPU: the owner of its buffers and of the vertex
/// array that binds them to attribute slots.
#[derive(Debug)]
pub struct TriangleMesh {
    vertex_count: i32,
    vertex_array: u32,
    buffers: Vec<u32>,
}

/// What a [`TriangleMesh`] holds.
pub struct MeshModel {
    /// The number of indices that a draw covers.
    pub vertex_count: i32,
    pub vertex_array: u32,
    /// The buffers that the mesh owns; empty once they are released.
    pub buffers: Seq<u32>,
}

impl View for TriangleMesh {
    type V = MeshModel;

    closed spec fn view(&self) -> MeshModel {
        MeshModel {
            vertex_count: self.vertex_count,
            vertex_array: self.vertex_array,
            buffers: self.buffers@,
        }
    }
}

fn all_below(indices: &Vec<u32>, bound: usize) -> (below: bool)
    ensures
        below == (forall|i: int| 0 <= i < indices@.len() ==> (#[trigger] indices@[i]) < bound),
{
    let mut i: usize = 0;
    while i < indices.len()
        invariant
            i <= indices.len(),
            forall|k: int| 0 <= k < i ==> (#[trigger] indices@[k]) < bound,
        decreases indices.len() - i,
    {
        if indices[i] as usize >= bound {
            return false;
        }
        i = i + 1;
    }
    true
}

fn has_length(array: &Option<Vec<u32>>, per_vertex: usize, vertex_count: usize) -> (fits: bool)
    requires
        per_vertex <= 4,
        3 * vertex_count <= usize::MAX,
    ensures
        fits == (words_of(*array) matches Some(words) ==> words.len() == per_vertex
            * vertex_count),
{
    match array {
        Some(words) => {
            assert(per_vertex * vertex_count <= 4 * vertex_count) by (nonlinear_arith)
                requires
                    per_vertex <= 4,
            ;
            words.len() as u128 == (per_vertex as u128) * (vertex_count as u128)
        },
        None => true,
    }
}

impl TriangleMesh {
    /// Starts a mesh from an index list and per-vertex arrays of 32-bit
    /// floats, given by their bit patterns.
    ///
    /// The arrays are rejected as `InvalidGeometry` unless they describe one
    /// mesh. Otherwise the assembly holds one stream for each array, in the
    /// fixed order of the attribute slots.
    pub fn new(
        indices: Vec<u32>,
        points: Vec<u32>,
        normals: Vec<u32>,
        maybe_tex_coords: Option<Vec<u32>>,
        maybe_tangents: Option<Vec<u32>>,
    ) -> (assembly: Result<MeshAssembly, Error>)
        ensures
            assembly is Ok <==> geometry_valid(
                indices@,
                points@,
                normals@,
                words_of(maybe_tex_coords),
                words_of(maybe_tangents),
            ),
            assembly matches Err(error) ==> error is InvalidGeometry,
            assembly matches Ok(started) ==> started.wf() && started@.starts_from(
                indices@,
                points@,
                normals@,
                words_of(maybe_tex_coords),
                words_of(maybe_tangents),
            ),
    {
        let vertex_count: usize = points.len() / 3;
        if points.len() % 3 != 0 || normals.len() != points.len() || indices.len() > 0x7FFF_FFFF {
            return Err(Error::InvalidGeometry);
        }
        if !has_length(&maybe_tex_coords, 2, vertex_count) || !has_length(
            &maybe_tangents,
            4,
            vertex_count,
        ) || !all_below(&indices, vertex_count) {
            return Err(Error::InvalidGeometry);
        }
        let mut streams: Vec<VertexStream> = Vec::new();
        streams.push(stream_of(ELEMENT_ARRAY_BUFFER, 0, 0, &indices));
        streams.push(stream_of(ARRAY_BUFFER, 0, 3, &points));
        streams.push(stream_of(ARRAY_BUFFER, 1, 3, &normals));
        match &maybe_tex_coords {
            Some(words) => {
                streams.push(stream_of(ARRAY_BUFFER, 2, 2, words));
            },
            None => {},
        }
        match &maybe_tangents {
            Some(words) => {
                streams.push(stream_of(ARRAY_BUFFER, 3, 4, words));
            },
            None => {},
        }
        let started = MeshAssembly {
            streams,
            index_count: indices.len() as i32,
            buffers: Vec::new(),
            phase: AssemblyPhase::Buffers,
            vertex_array: 0,
            message: String::new(),
        };
        Ok(started)
    }

    /// Starts the mesh of a torus from the vertex arrays that the caller
    /// evaluated on the grid of [`crate::torus::torus_vertices`]: positions,
    /// normals and texture coordinates, no tangents. The index list is that
    /// of the torus.
    ///
    /// The input is rejected as `InvalidGeometry` where the grid does not
    /// fit or an array has not the length that the grid asks for.
    pub fn new_torus(
        num_sides: usize,
        num_rings: usize,
        points: Vec<u32>,
        normals: Vec<u32>,
        tex_coords: Vec<u32>,
    ) -> (assembly: Result<MeshAssembly, Error>)
        ensures
            assembly is Ok <==> {
                &&& torus_fits(num_sides as nat, num_rings as nat)
                &&& points@.len() == 3 * torus_vertex_count(num_sides as nat, num_rings as nat)
                &&& normals@.len() == 3 * torus_vertex_count(num_sides as nat, num_rings as nat)
                &&& tex_coords@.len() == 2 * torus_vertex_count(
                    num_sides as nat,
                    num_rings as nat,
                )
            },
            assembly matches Err(error) ==> error is InvalidGeometry,
            assembly matches Ok(started) ==> started.wf() && started@.starts_from(
                torus_index_list(num_sides as nat, num_rings as nat),
                points@,
                normals@,
                Some(tex_coords@),
                None,
            ),
    {
        let indices = match torus_indices(num_sides, num_rings) {
            Some(list) => list,
            None => {
                return Err(Error::InvalidGeometry);
            },
        };
        if points.len() % 3 != 0 || points.len() / 3 != indices_bound(num_sides, num_rings) {
            return Err(Error::InvalidGeometry);
        }
        assert(indices@ =~= torus_index_list(num_sides as nat, num_rings as nat));
        if normals.len() != points.len() || tex_coords.len() / 2 != points.len() / 3
            || tex_coords.len() % 2 != 0 {
            return Err(Error::InvalidGeometry);
        }
        TriangleMesh::new(indices, points, normals, Some(tex_coords), None)
    }

    /// The vertex array of the mesh.
    pub fn get_vertex_array(&self) -> (vertex_array: u32)
        ensures
            vertex_array == self@.vertex_array,
    {
        self.vertex_array
    }

    /// The number of indices that a draw covers.
    pub fn vertex_count(&self) -> (count: i32)
        ensures
            count == self@.vertex_count,
    {
        self.vertex_count
    }

    /// The buffers that the mesh owns, in the order of its arrays.
    pub fn buffers(&self) -> (buffers: &Vec<u32>)
        ensures
            buffers@ == self@.buffers,
    {
        &self.buffers
    }

    /// Releases the buffers: one delete call for each, in order, after
    /// which the mesh owns none. A second release finds nothing to delete.
    pub fn delete_buffers(&mut self) -> (calls: Vec<GlCall>)
        ensures
            script(calls@) == Seq::new(
                old(self)@.buffers.len(),
                |i: int| GlCallModel::DeleteBuffer { buffer: old(self)@.buffers[i] },
            ),
            final(self)@ == (MeshModel { buffers: seq![], ..old(self)@ }),
    {
        let mut calls: Vec<GlCall> = Vec::new();
        let mut i: usize = 0;
        while i < self.buffers.len()
            invariant
                *self == *old(self),
                i <= self.buffers.len(),
                calls@.len() == i,
                forall|k: int|
                    0 <= k < i ==> (#[trigger] calls@[k])@ == (GlCallModel::DeleteBuffer {
                        buffer: self.buffers@[k],
                    }),
            decreases self.buffers.len() - i,
        {
            calls.push(GlCall::DeleteBuffer { buffer: self.buffers[i] });
            i = i + 1;
        }
        assert(script(calls@) =~= Seq::new(
            old(self)@.buffers.len(),
            |i: int| GlCallModel::DeleteBuffer { buffer: old(self)@.buffers[i] },
        ));
        self.buffers.clear();
        assert(self@.buffers =~= seq![]);
        calls
    }
}

fn indices_bound(num_sides: usize, num_rings: usize) -> (count: usize)
    requires
        torus_fits(num_sides as nat, num_rings as nat),
    ensures
        count == torus_vertex_count(num_sides as nat, num_rings as nat),
{
    if num_sides == 0 {
        assert(0 * (num_rings as nat + 1) == 0) by (nonlinear_arith);
        return 0;
    }
    assert(num_rings < u32::MAX) by (nonlinear_arith)
        requires
            num_sides * (num_rings + 1) <= u32::MAX,
            num_sides > 0,
    ;
    num_sides * (num_rings + 1)
}

impl Drawable for TriangleMesh {
    /// Binding the vertex array, then one indexed draw of triangles over all
    /// indices, read as `u32` from the start of the index buffer. A mesh
    /// whose buffers are released draws nothing.
    open spec fn render_calls(&self) -> Seq<GlCallModel> {
        if self@.buffers.len() == 0 {
            seq![]
        } else {
            seq![
                GlCallModel::BindVertexArray { vertex_array: self@.vertex_array },
                GlCallModel::DrawElements {
                    mode: TRIANGLES,
                    count: self@.vertex_count,
                    element_type: UNSIGNED_INT,
                    offset: 0,
                },
            ]
        }
    }

    fn render(&self) -> (calls: Vec<GlCall>) {
        let mut calls: Vec<GlCall> = Vec::new();
        if self.buffers.len() > 0 {
            calls.push(GlCall::BindVertexArray { vertex_array: self.vertex_array });
            calls.push(
                GlCall::DrawElements {
                    mode: TRIANGLES,
                    count: self.vertex_count,
                    element_type: UNSIGNED_INT,
                    offset: 0,
                },
            );
        }
        assert(script(calls@) =~= self.render_calls());
        calls
    }
}

} // verus!
