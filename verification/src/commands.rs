//! The command sequence of one frame, and the packed vertex data that it
//! draws.

use crate::framebuffer::Framebuffer;
use crate::pipeline::{GraphicsPipeline, Viewport};
use crate::vertex::{Vertex, ONE};
use vstd::prelude::*;

verus! {

/// A colour of four floats, each held by its bit pattern.
#[derive(Clone, Copy, Debug, PartialEq, Eq, Structural)]
pub struct ClearColor {
    pub red: u32,
    pub green: u32,
    pub blue: u32,
    pub alpha: u32,
}

/// One recorded command.
#[derive(Clone, Copy, Debug, PartialEq, Eq, Structural)]
pub enum Command {
    /// Enters the render pass of the framebuffer and clears its attachment.
    BeginRenderPass { framebuffer: Framebuffer, clear_color: ClearColor },
    SetViewport(Viewport),
    BindPipelineGraphics(GraphicsPipeline),
    /// Binds the uploaded vertex data at a binding.
    BindVertexBuffers { first_binding: u32 },
    Draw { vertex_count: u32, instance_count: u32, first_vertex: u32, first_instance: u32 },
    EndRenderPass,
}

/// The background that every frame is cleared to: opaque blue.
pub open spec fn background() -> ClearColor {
    ClearColor { red: 0, green: 0, blue: ONE, alpha: ONE }
}

/// The commands of one frame: enter the render pass and clear to the
/// background, set the viewport, bind the pipeline and the vertex data, draw
/// each uploaded vertex once as one instance, and leave the render pass. A
/// frame without vertices has nothing uploaded: it binds no vertex data and
/// draws nothing, and shows the background.
pub open spec fn frame_commands(
    framebuffer: Framebuffer,
    viewport: Viewport,
    pipeline: GraphicsPipeline,
    vertex_count: u32,
) -> Seq<Command> {
    if vertex_count == 0 {
        seq![
            Command::BeginRenderPass { framebuffer, clear_color: background() },
            Command::SetViewport(viewport),
            Command::BindPipelineGraphics(pipeline),
            Command::EndRenderPass,
        ]
    } else {
        seq![
            Command::BeginRenderPass { framebuffer, clear_color: background() },
            Command::SetViewport(viewport),
            Command::BindPipelineGraphics(pipeline),
            Command::BindVertexBuffers { first_binding: 0 },
            Command::Draw { vertex_count, instance_count: 1, first_vertex: 0, first_instance: 0 },
            Command::EndRenderPass,
        ]
    }
}

/// How many vertices a command sequence draws in all.
pub open spec fn vertices_drawn(commands: Seq<Command>) -> nat
    decreases commands.len(),
{
    if commands.len() == 0 {
        0
    } else {
        vertices_drawn(commands.drop_last()) + match commands.last() {
            Command::Draw { vertex_count, .. } => vertex_count as nat,
            _ => 0,
        }
    }
}

/// Records the commands of one frame.
pub fn create_command_buffer(
    framebuffer: Framebuffer,
    viewport: Viewport,
    pipeline: GraphicsPipeline,
    vertex_count: u32,
) -> (commands: Vec<Command>)
    ensures
        commands@ == frame_commands(framebuffer, viewport, pipeline, vertex_count),
{
    let clear_color = ClearColor { red: 0, green: 0, blue: ONE, alpha: ONE };
    let mut commands: Vec<Command> = Vec::new();
    commands.push(Command::BeginRenderPass { framebuffer, clear_color });
    commands.push(Command::SetViewport(viewport));
    commands.push(Command::BindPipelineGraphics(pipeline));
    if vertex_count > 0 {
        commands.push(Command::BindVertexBuffers { first_binding: 0 });
        commands.push(
            Command::Draw { vertex_count, instance_count: 1, first_vertex: 0, first_instance: 0 },
        );
    }
    commands.push(Command::EndRenderPass);
    proof {
        assert(commands@ =~= frame_commands(framebuffer, viewport, pipeline, vertex_count));
    }
    commands
}

/// A frame's commands draw exactly the given number of vertices: in one
/// draw, or in none where there are no vertices.
pub proof fn frame_draws_each_vertex_once(
    framebuffer: Framebuffer,
    viewport: Viewport,
    pipeline: GraphicsPipeline,
    vertex_count: u32,
)
    ensures
        vertices_drawn(frame_commands(framebuffer, viewport, pipeline, vertex_count))
            == vertex_count,
{
    let c = frame_commands(framebuffer, viewport, pipeline, vertex_count);
    if vertex_count == 0 {
        let c3 = c.drop_last();
        let c2 = c3.drop_last();
        let c1 = c2.drop_last();
        let c0 = c1.drop_last();
        assert(c0.len() == 0);
        assert(vertices_drawn(c0) == 0);
        assert(vertices_drawn(c1) == 0);
        assert(vertices_drawn(c2) == 0);
        assert(vertices_drawn(c3) == 0);
    } else {
        let c5 = c.drop_last();
        let c4 = c5.drop_last();
        let c3 = c4.drop_last();
        let c2 = c3.drop_last();
        let c1 = c2.drop_last();
        let c0 = c1.drop_last();
        assert(c0.len() == 0);
        assert(vertices_drawn(c0) == 0);
        assert(vertices_drawn(c1) == 0);
        assert(vertices_drawn(c2) == 0);
        assert(vertices_drawn(c3) == 0);
        assert(vertices_drawn(c4) == 0);
        assert(vertices_drawn(c5) == vertex_count);
    }
}

/// The vertex buffer contents for a sequence of vertices: their positions one
/// after the other, four words each, with nothing in between.
pub open spec fn packed(vertices: Seq<Vertex>) -> Seq<u32> {
    Seq::new(vertices.len() * 4, |k: int| vertices[k / 4].position@[k % 4])
}

/// Packs vertices into the words that are uploaded for a draw.
pub fn pack_vertices(vertices: &Vec<Vertex>) -> (words: Vec<u32>)
    ensures
        words@ == packed(vertices@),
{
    let mut words: Vec<u32> = Vec::new();
    let mut i: usize = 0;
    while i < vertices.len()
        invariant
            0 <= i <= vertices@.len(),
            words@ == packed(vertices@.take(i as int)),
        decreases vertices@.len() - i,
    {
        let position = vertices[i].position;
        let ghost before = words@;
        words.push(position[0]);
        words.push(position[1]);
        words.push(position[2]);
        words.push(position[3]);
        proof {
            let target = packed(vertices@.take(i as int + 1));
            assert(words@.len() == target.len());
            assert forall|k: int| 0 <= k < words@.len() implies words@[k] == target[k] by {
                if k < 4 * i {
                    assert(words@[k] == before[k]);
                    assert(vertices@.take(i as int)[k / 4] == vertices@.take(i as int + 1)[k / 4]);
                } else {
                    assert(k / 4 == i);
                    assert(vertices@.take(i as int + 1)[i as int] == vertices@[i as int]);
                }
            }
            assert(words@ =~= target);
        }
        i = i + 1;
    }
    proof {
        assert(vertices@.take(i as int) =~= vertices@);
    }
    words
}

} // verus!
