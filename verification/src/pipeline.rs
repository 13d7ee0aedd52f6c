//! The render pass and the graphics pipeline, described as plain values.
//!
//! The viewport is fixed in the pipeline, not supplied per draw. A pipeline
//! is therefore good for one surface size only: whenever the swapchain is
//! recreated, the render pass, the pipeline and the framebuffers are built
//! again together.

use crate::extent::Extent;
use crate::swapchain::Format;
use crate::vertex::ONE;
use vstd::prelude::*;

verus! {

/// What happens to an attachment's contents when a render pass begins.
#[derive(Clone, Copy, Debug, PartialEq, Eq, Structural)]
pub enum LoadOp {
    Load,
    Clear,
    DontCare,
}

/// What happens to an attachment's contents when a render pass ends.
#[derive(Clone, Copy, Debug, PartialEq, Eq, Structural)]
pub enum StoreOp {
    Store,
    DontCare,
}

#[derive(Clone, Copy, Debug, PartialEq, Eq, Structural)]
pub enum ImageLayout {
    Undefined,
    General,
    ColorAttachmentOptimal,
    PresentSrc,
}

#[derive(Clone, Copy, Debug, PartialEq, Eq, Structural)]
pub struct AttachmentDescription {
    pub format: Format,
    pub load_op: LoadOp,
    pub store_op: StoreOp,
    pub initial_layout: ImageLayout,
    pub final_layout: ImageLayout,
}

/// A subpass's use of one attachment of its render pass.
#[derive(Clone, Copy, Debug, PartialEq, Eq, Structural)]
pub struct AttachmentReference {
    pub attachment: u32,
    pub layout: ImageLayout,
}

/// A render pass with exactly one attachment and exactly one subpass, whose
/// only colour output is `color_output`.
#[derive(Clone, Copy, Debug, PartialEq, Eq, Structural)]
pub struct RenderPass {
    pub attachment: AttachmentDescription,
    pub color_output: AttachmentReference,
}

/// How vertices are assembled into primitives.
#[derive(Clone, Copy, Debug, PartialEq, Eq, Structural)]
pub enum PrimitiveTopology {
    PointList,
    LineList,
    TriangleList,
}

/// Which record the vertex buffer holds.
#[derive(Clone, Copy, Debug, PartialEq, Eq, Structural)]
pub enum VertexLayout {
    /// A position of four floats.
    Position,
    /// A position of four floats, then a colour of four floats.
    PositionColor,
}

/// How often the vertex buffer moves on to its next record.
#[derive(Clone, Copy, Debug, PartialEq, Eq, Structural)]
pub enum VertexInputRate {
    /// Once for each vertex.
    Vertex,
    /// Once for each instance.
    Instance,
}

/// One attribute that the vertex shader reads from the vertex buffer.
#[derive(Clone, Copy, Debug, PartialEq, Eq, Structural)]
pub struct VertexInputAttribute {
    pub location: u32,
    pub binding: u32,
    pub format: Format,
    /// Where the attribute starts within one record, in bytes.
    pub offset: u32,
}

/// The vertex buffer binding and the attributes read from it.
#[derive(Clone, Copy, Debug, PartialEq, Eq, Structural)]
pub struct VertexInputState {
    /// The distance from one record to the next, in bytes.
    pub stride: u32,
    pub input_rate: VertexInputRate,
    pub position: VertexInputAttribute,
    pub color: Option<VertexInputAttribute>,
}

/// The range of depths that is drawn to: two floats, each held by its bit
/// pattern.
#[derive(Clone, Copy, Debug, PartialEq, Eq, Structural)]
pub struct DepthRange {
    pub start: u32,
    pub end: u32,
}

/// The part of the target that is drawn into, in whole pixels, and the range
/// of depths.
#[derive(Clone, Copy, Debug, PartialEq, Eq, Structural)]
pub struct Viewport {
    pub origin: Extent,
    pub dimensions: Extent,
    pub depth_range: DepthRange,
}

#[derive(Clone, Copy, Debug, PartialEq, Eq, Structural)]
pub struct GraphicsPipeline {
    pub topology: PrimitiveTopology,
    pub vertex_input: VertexInputState,
    /// The fixed viewport.
    pub viewport: Viewport,
    pub render_pass: RenderPass,
    pub subpass: u32,
}

/// The bytes that four packed floats take.
pub const ATTRIBUTE_SIZE: u32 = 16;

/// The size in bytes of one packed record of a layout.
pub open spec fn record_size(layout: VertexLayout) -> nat {
    match layout {
        VertexLayout::Position => 16,
        VertexLayout::PositionColor => 32,
    }
}

/// The attribute at `location`: four floats, read from binding zero, one
/// attribute after the other without padding.
pub open spec fn packed_attribute(location: u32) -> VertexInputAttribute {
    VertexInputAttribute {
        location,
        binding: 0,
        format: Format::R32G32B32A32Sfloat,
        offset: (location * ATTRIBUTE_SIZE) as u32,
    }
}

/// The vertex input for a layout: its stride is the size of one packed
/// record, read once for each vertex; the position is attribute zero, and
/// the colour, where the layout has one, is attribute one.
pub open spec fn packed_vertex_input(layout: VertexLayout) -> VertexInputState {
    VertexInputState {
        stride: record_size(layout) as u32,
        input_rate: VertexInputRate::Vertex,
        position: packed_attribute(0),
        color: match layout {
            VertexLayout::Position => None,
            VertexLayout::PositionColor => Some(packed_attribute(1)),
        },
    }
}

/// The render pass of the renderer for targets of a format: the attachment is
/// cleared on load and stored at the end, arrives in the general layout and
/// leaves ready for presentation, and is the subpass's only colour output.
pub open spec fn presenting_render_pass(format: Format) -> RenderPass {
    RenderPass {
        attachment: AttachmentDescription {
            format,
            load_op: LoadOp::Clear,
            store_op: StoreOp::Store,
            initial_layout: ImageLayout::General,
            final_layout: ImageLayout::PresentSrc,
        },
        color_output: AttachmentReference {
            attachment: 0,
            layout: ImageLayout::ColorAttachmentOptimal,
        },
    }
}

/// The full range of depths: from `0.0` to `1.0`.
pub open spec fn full_depth() -> DepthRange {
    DepthRange { start: 0, end: ONE }
}

/// The viewport that covers a whole target of the size `extent`, over the
/// full range of depths.
pub open spec fn full_viewport(extent: Extent) -> Viewport {
    Viewport { origin: Extent { width: 0, height: 0 }, dimensions: extent, depth_range: full_depth() }
}

/// The pipeline of the renderer: points, the packed vertex input of the
/// layout, the given viewport fixed, drawing in subpass zero of the render
/// pass.
pub open spec fn point_pipeline(
    render_pass: RenderPass,
    viewport: Viewport,
    layout: VertexLayout,
) -> GraphicsPipeline {
    GraphicsPipeline {
        topology: PrimitiveTopology::PointList,
        vertex_input: packed_vertex_input(layout),
        viewport,
        render_pass,
        subpass: 0,
    }
}

/// Builds the description of the vertex input for a layout.
pub fn vertex_input_state(layout: VertexLayout) -> (state: VertexInputState)
    ensures
        state == packed_vertex_input(layout),
{
    let position = VertexInputAttribute {
        location: 0,
        binding: 0,
        format: Format::R32G32B32A32Sfloat,
        offset: 0,
    };
    match layout {
        VertexLayout::Position => VertexInputState {
            stride: 16,
            input_rate: VertexInputRate::Vertex,
            position,
            color: None,
        },
        VertexLayout::PositionColor => VertexInputState {
            stride: 32,
            input_rate: VertexInputRate::Vertex,
            position,
            color: Some(
                VertexInputAttribute {
                    location: 1,
                    binding: 0,
                    format: Format::R32G32B32A32Sfloat,
                    offset: 16,
                },
            ),
        },
    }
}

/// The attributes of a packed vertex input tile the record: the position
/// starts at zero, the colour where the position ends, and the stride is
/// where the last attribute ends.
pub proof fn vertex_input_is_packed(layout: VertexLayout)
    ensures
        packed_vertex_input(layout).stride == record_size(layout),
        packed_vertex_input(layout).position.offset == 0,
        match packed_vertex_input(layout).color {
            Some(color) => {
                &&& color.offset == ATTRIBUTE_SIZE
                &&& packed_vertex_input(layout).stride == color.offset + ATTRIBUTE_SIZE
            },
            None => packed_vertex_input(layout).stride == ATTRIBUTE_SIZE,
        },
{
}

/// Builds the description of the render pass for targets of a format.
pub fn create_render_pass(format: Format) -> (render_pass: RenderPass)
    ensures
        render_pass == presenting_render_pass(format),
{
    let attachment = AttachmentDescription {
        format,
        load_op: LoadOp::Clear,
        store_op: StoreOp::Store,
        initial_layout: ImageLayout::General,
        final_layout: ImageLayout::PresentSrc,
    };
    let color_output = AttachmentReference {
        attachment: 0,
        layout: ImageLayout::ColorAttachmentOptimal,
    };
    RenderPass { attachment, color_output }
}

/// Builds the viewport that covers a whole target.
pub fn viewport_for(extent: Extent) -> (viewport: Viewport)
    ensures
        viewport == full_viewport(extent),
{
    Viewport {
        origin: Extent { width: 0, height: 0 },
        dimensions: extent,
        depth_range: DepthRange { start: 0, end: ONE },
    }
}

/// Builds the description of the graphics pipeline.
pub fn create_pipeline(render_pass: RenderPass, viewport: Viewport, layout: VertexLayout) -> (pipeline:
    GraphicsPipeline)
    ensures
        pipeline == point_pipeline(render_pass, viewport, layout),
{
    GraphicsPipeline {
        topology: PrimitiveTopology::PointList,
        vertex_input: vertex_input_state(layout),
        viewport,
        render_pass,
        subpass: 0,
    }
}

} // verus!
