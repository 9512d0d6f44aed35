//! What one frame records into its render pass, and how a frame that could
//! not be acquired is classified.

use crate::upload::{is_long_memory_image, is_memory_image, vertex_words};
use crate::vertex::{
    cube_vertices, lemma_indices_in_range, Vertex, INDEX_COUNT, INDICES, VERTEX_COUNT,
};
use vstd::prelude::*;

verus! {

/// Why the surface handed out no image for the next frame.
#[derive(Copy, Clone, Debug, PartialEq, Eq, Structural)]
pub enum SurfaceError {
    /// No image became free in time.
    Timeout,
    /// The surface has changed under the swap chain.
    Outdated,
    /// The swap chain is gone and has to be made anew.
    Lost,
    /// No memory is left for another frame.
    OutOfMemory,
}

/// What a failed acquisition asks of the caller.
#[derive(Copy, Clone, Debug, PartialEq, Eq, Structural)]
pub enum Severity {
    /// Skip this frame; the next one is expected to succeed.
    Transient,
    /// Reconfigure the surface, then go on.
    Recoverable,
    /// Nothing can be done; the process has to end.
    Fatal,
}

impl SurfaceError {
    pub open spec fn spec_severity(&self) -> Severity {
        match self {
            SurfaceError::Lost => Severity::Recoverable,
            SurfaceError::OutOfMemory => Severity::Fatal,
            SurfaceError::Timeout | SurfaceError::Outdated => Severity::Transient,
        }
    }

    #[verifier::when_used_as_spec(spec_severity)]
    pub fn severity(&self) -> (severity: Severity)
        ensures
            severity == self.spec_severity(),
    {
        match self {
            SurfaceError::Lost => Severity::Recoverable,
            SurfaceError::OutOfMemory => Severity::Fatal,
            _ => Severity::Transient,
        }
    }
}

/// The two resource sets that the shader stages read.
#[derive(Copy, Clone, Debug, PartialEq, Eq, Structural)]
pub enum BindGroup {
    /// The texture and its sampler, read by the fragment stage.
    Diffuse,
    /// The view-projection matrix, read by the vertex stage.
    Camera,
}

impl BindGroup {
    /// The group number under which the shader declares the set.
    pub open spec fn slot(self) -> u32 {
        match self {
            BindGroup::Diffuse => 0,
            BindGroup::Camera => 1,
        }
    }
}

/// Width of one entry of an index buffer.
#[derive(Copy, Clone, Debug, PartialEq, Eq, Structural)]
pub enum IndexFormat {
    Uint16,
    Uint32,
}

impl IndexFormat {
    pub open spec fn byte_size(self) -> nat {
        match self {
            IndexFormat::Uint16 => 2,
            IndexFormat::Uint32 => 4,
        }
    }
}

/// One step of a render pass.
#[derive(Copy, Clone, Debug, PartialEq, Eq)]
pub enum RenderCommand {
    SetPipeline,
    SetBindGroup { index: u32, group: BindGroup },
    /// Binds the whole vertex buffer.
    SetVertexBuffer { slot: u32 },
    /// Binds the whole index buffer.
    SetIndexBuffer { format: IndexFormat },
    /// Draws the indices from `first_index` up to, not including,
    /// `end_index`, once for each instance from `first_instance` up to, not
    /// including, `end_instance`.
    DrawIndexed {
        first_index: u32,
        end_index: u32,
        base_vertex: i32,
        first_instance: u32,
        end_instance: u32,
    },
}

/// The pass of one frame: the pipeline, the two resource sets under their
/// group numbers, the two mesh buffers, and then a single draw of the first
/// `num_indices` indices, one instance.
pub open spec fn frame_commands(num_indices: u32) -> Seq<RenderCommand> {
    seq![
        RenderCommand::SetPipeline,
        RenderCommand::SetBindGroup { index: 0, group: BindGroup::Diffuse },
        RenderCommand::SetBindGroup { index: 1, group: BindGroup::Camera },
        RenderCommand::SetVertexBuffer { slot: 0 },
        RenderCommand::SetIndexBuffer { format: IndexFormat::Uint16 },
        RenderCommand::DrawIndexed {
            first_index: 0,
            end_index: num_indices,
            base_vertex: 0,
            first_instance: 0,
            end_instance: 1,
        },
    ]
}

/// Records the pass of one frame.
pub fn record_frame(num_indices: u32) -> (commands: Vec<RenderCommand>)
    ensures
        commands@ == frame_commands(num_indices),
{
    let mut commands: Vec<RenderCommand> = Vec::new();
    commands.push(RenderCommand::SetPipeline);
    commands.push(RenderCommand::SetBindGroup { index: 0, group: BindGroup::Diffuse });
    commands.push(RenderCommand::SetBindGroup { index: 1, group: BindGroup::Camera });
    commands.push(RenderCommand::SetVertexBuffer { slot: 0 });
    commands.push(RenderCommand::SetIndexBuffer { format: IndexFormat::Uint16 });
    commands.push(
        RenderCommand::DrawIndexed {
            first_index: 0,
            end_index: num_indices,
            base_vertex: 0,
            first_instance: 0,
            end_instance: 1,
        },
    );
    assert(commands@ =~= frame_commands(num_indices));
    commands
}

/// The pass ends with its only draw, and everything that the draw reads is
/// bound before it: the pipeline, each resource set under the group number
/// of its own slot, the vertex buffer and the index buffer.
pub proof fn lemma_frame_binds_before_it_draws(num_indices: u32)
    ensures
        ({
            let commands = frame_commands(num_indices);
            &&& commands.len() == 6
            &&& commands.last() is DrawIndexed
            &&& forall|i: int| 0 <= i < 5 ==> !(#[trigger] commands[i] is DrawIndexed)
            &&& commands[0] is SetPipeline
            &&& commands[1] == (RenderCommand::SetBindGroup {
                index: BindGroup::Diffuse.slot(),
                group: BindGroup::Diffuse,
            })
            &&& commands[2] == (RenderCommand::SetBindGroup {
                index: BindGroup::Camera.slot(),
                group: BindGroup::Camera,
            })
            &&& commands[3] is SetVertexBuffer
            &&& commands[4] is SetIndexBuffer
        }),
{
}

/// A draw of the whole index table stays inside both mesh buffers. It reads
/// each entry of the table once, and the index buffer holds exactly as many
/// entries of the bound width as the draw reads. Every entry that it reads
/// names a corner of the corner table, and the corner that it names lies
/// inside the vertex buffer from its first byte to its last.
pub proof fn lemma_full_draw_stays_in_bounds(index_bytes: Seq<u8>, vertex_bytes: Seq<u8>)
    requires
        is_memory_image(index_bytes, INDICES@),
        is_long_memory_image(vertex_bytes, vertex_words(cube_vertices())),
    ensures
        frame_commands(INDEX_COUNT as u32).last() matches RenderCommand::DrawIndexed {
            first_index,
            end_index,
            base_vertex,
            first_instance,
            end_instance,
        } && {
            &&& first_index == 0
            &&& end_index == INDICES@.len()
            &&& end_instance - first_instance == 1
            &&& forall|i: int|
                first_index <= i < end_index ==> {
                    let corner = base_vertex + #[trigger] INDICES[i];
                    &&& 0 <= corner < VERTEX_COUNT
                    &&& (corner + 1) * Vertex::byte_size() <= vertex_bytes.len()
                }
        },
        frame_commands(INDEX_COUNT as u32)[4] matches RenderCommand::SetIndexBuffer { format }
            && index_bytes.len() == format.byte_size() * INDEX_COUNT,
{
    lemma_indices_in_range();
    assert(cube_vertices().len() == 8);
    assert(vertex_bytes.len() == 160);
}

} // verus!
