//! The per-frame command recorder: the fixed sequence of barriers,
//! render-pass boundaries, binds, and draws that one frame encodes. The
//! sequence is data; the caller plays each command into the backend's
//! command buffer in order.

use vstd::prelude::*;

use crate::surface::Extent2D;

verus! {

/// A clear color, one byte per component.
#[derive(Clone, Copy, Debug, PartialEq, Eq, Structural)]
pub struct ClearColor {
    pub red: u8,
    pub green: u8,
    pub blue: u8,
    pub alpha: u8,
}

/// The clear color every frame starts from: opaque black.
pub open spec fn spec_clear_black() -> ClearColor {
    ClearColor { red: 0, green: 0, blue: 0, alpha: 255 }
}

/// One drawable: a vertex buffer and how many vertices to draw from it.
#[derive(Clone, Copy, Debug, PartialEq, Eq, Structural)]
pub struct Mesh {
    /// How many vertex records the buffer holds.
    pub vertex_count: u32,
    /// The backend vertex-buffer handle.
    pub vertex_buffer: u64,
}

/// One encoded command of a frame.
#[derive(Clone, Copy, Debug, PartialEq, Eq, Structural)]
pub enum RenderCommand {
    /// Begin the shared command buffer for one-time submission.
    BeginCommandBuffer,
    /// Set the dynamic viewport to the full extent.
    SetViewport { extent: Extent2D },
    /// Set the dynamic scissor to the full extent.
    SetScissor { extent: Extent2D },
    /// Transition the acquired image from its previous layout to
    /// color-attachment-writable.
    BarrierToColorAttachment { image: u64 },
    /// Begin a render pass targeting the image's view with a clear color.
    BeginRendering { view: u64, extent: Extent2D, clear: ClearColor },
    /// Bind the active graphics pipeline.
    BindPipeline { pipeline: u64 },
    /// Bind a drawable's vertex buffer at binding 0, offset 0.
    BindVertexBuffer { buffer: u64 },
    /// Draw a drawable's full vertex range, one instance.
    Draw { vertex_count: u32 },
    /// End the render pass.
    EndRendering,
    /// Transition the image to the presentable layout.
    BarrierToPresent { image: u64 },
    /// End the shared command buffer.
    EndCommandBuffer,
}

/// The bind-and-draw pair of each drawable, in order.
pub open spec fn spec_mesh_commands(meshes: Seq<Mesh>) -> Seq<RenderCommand>
    decreases meshes.len(),
{
    if meshes.len() == 0 {
        Seq::empty()
    } else {
        spec_mesh_commands(meshes.drop_last()) + seq![
            RenderCommand::BindVertexBuffer { buffer: meshes.last().vertex_buffer },
            RenderCommand::Draw { vertex_count: meshes.last().vertex_count },
        ]
    }
}

/// The fixed command sequence of one frame: begin; set the dynamic viewport
/// and scissor; barrier the acquired image to color-attachment-writable;
/// begin the render pass on its view, cleared to opaque black; bind the
/// pipeline; bind and draw each drawable; end the render pass; barrier the
/// image to the presentable layout; end.
pub open spec fn spec_frame_commands(
    extent: Extent2D,
    image: u64,
    view: u64,
    pipeline: u64,
    meshes: Seq<Mesh>,
) -> Seq<RenderCommand> {
    seq![
        RenderCommand::BeginCommandBuffer,
        RenderCommand::SetViewport { extent },
        RenderCommand::SetScissor { extent },
        RenderCommand::BarrierToColorAttachment { image },
        RenderCommand::BeginRendering { view, extent, clear: spec_clear_black() },
        RenderCommand::BindPipeline { pipeline },
    ] + spec_mesh_commands(meshes) + seq![
        RenderCommand::EndRendering,
        RenderCommand::BarrierToPresent { image },
        RenderCommand::EndCommandBuffer,
    ]
}

/// Records the fixed command sequence of one frame over the given
/// drawables.
pub fn record_frame_commands(
    extent: Extent2D,
    image: u64,
    view: u64,
    pipeline: u64,
    meshes: &Vec<Mesh>,
) -> (r: Vec<RenderCommand>)
    ensures
        r@ == spec_frame_commands(extent, image, view, pipeline, meshes@),
{
    let mut commands: Vec<RenderCommand> = Vec::new();
    commands.push(RenderCommand::BeginCommandBuffer);
    commands.push(RenderCommand::SetViewport { extent });
    commands.push(RenderCommand::SetScissor { extent });
    commands.push(RenderCommand::BarrierToColorAttachment { image });
    commands.push(
        RenderCommand::BeginRendering {
            view,
            extent,
            clear: ClearColor { red: 0, green: 0, blue: 0, alpha: 255 },
        },
    );
    commands.push(RenderCommand::BindPipeline { pipeline });
    let ghost head = commands@;
    assert(spec_mesh_commands(meshes@.take(0)) =~= Seq::<RenderCommand>::empty());
    assert(commands@ =~= head + spec_mesh_commands(meshes@.take(0)));
    let mut i: usize = 0;
    while i < meshes.len()
        invariant
            i <= meshes@.len(),
            commands@ == head + spec_mesh_commands(meshes@.take(i as int)),
        decreases meshes@.len() - i,
    {
        let mesh = meshes[i];
        commands.push(RenderCommand::BindVertexBuffer { buffer: mesh.vertex_buffer });
        commands.push(RenderCommand::Draw { vertex_count: mesh.vertex_count });
        proof {
            let taken = meshes@.take(i + 1);
            assert(taken.drop_last() =~= meshes@.take(i as int));
            assert(taken.last() == meshes@[i as int]);
            assert(commands@ =~= head + spec_mesh_commands(taken));
        }
        i += 1;
    }
    assert(meshes@.take(meshes@.len() as int) =~= meshes@);
    commands.push(RenderCommand::EndRendering);
    commands.push(RenderCommand::BarrierToPresent { image });
    commands.push(RenderCommand::EndCommandBuffer);
    assert(commands@ =~= spec_frame_commands(extent, image, view, pipeline, meshes@));
    commands
}

} // verus!
