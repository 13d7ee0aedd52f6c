//! What the drawing systems keep between frames: the pipeline that draws
//! coloured points, and the viewport.

use crate::commands::{create_command_buffer, frame_commands, Command};
use crate::framebuffer::Framebuffer;
use crate::pipeline::{
    create_pipeline, create_render_pass, point_pipeline, presenting_render_pass,
    GraphicsPipeline, RenderPass, VertexLayout, Viewport,
};
use crate::swapchain::{AcquireOutcome, Format, SwapchainImage};
use crate::vulkan::FatalError;
use vstd::prelude::*;

verus! {

/// A viewport kept for the systems that draw.
#[derive(Clone, Copy, Debug, PartialEq, Eq, Structural)]
pub struct ViewportResource {
    pub viewport: Viewport,
}

impl ViewportResource {
    /// A copy of the viewport held.
    pub fn get_viewport(&self) -> (viewport: Viewport)
        ensures
            viewport == self.viewport,
    {
        Viewport {
            origin: self.viewport.origin,
            dimensions: self.viewport.dimensions,
            depth_range: self.viewport.depth_range,
        }
    }
}

/// The pipeline that draws points with a position and a colour into targets
/// in the sRGB format.
#[derive(Clone, Copy, Debug, PartialEq, Eq, Structural)]
pub struct VulkanPipeline {
    pub graphics_pipeline: GraphicsPipeline,
    pub render_pass: RenderPass,
}

/// What `VulkanPipeline::draw` decides for one frame, by what acquiring the
/// image reported: the commands for an image that was acquired, nothing for
/// a swapchain that is out of date, and a fatal error otherwise or where one
/// draw cannot cover the points.
pub open spec fn drawn(
    pipeline: VulkanPipeline,
    before: AcquireOutcome,
    target: SwapchainImage,
    viewport: Viewport,
    points: nat,
) -> Result<Option<Seq<Command>>, FatalError> {
    match before {
        AcquireOutcome::OutOfDate => Ok(None),
        AcquireOutcome::Failed => Err(FatalError::AcquireFailed),
        _ => if points > u32::MAX {
            Err(FatalError::TooManyVertices)
        } else {
            Ok(
                Some(
                    frame_commands(
                        Framebuffer { render_pass: pipeline.render_pass, attachment: target },
                        viewport,
                        pipeline.graphics_pipeline,
                        points as u32,
                    ),
                ),
            )
        },
    }
}

/// The views of what `draw` returns.
pub open spec fn drawn_view(result: Result<Option<Vec<Command>>, FatalError>) -> Result<
    Option<Seq<Command>>,
    FatalError,
> {
    match result {
        Ok(Some(commands)) => Ok(Some(commands@)),
        Ok(None) => Ok(None),
        Err(error) => Err(error),
    }
}

impl VulkanPipeline {
    /// The pipeline with `viewport` fixed in it, for sRGB targets and points
    /// with a position and a colour.
    pub open spec fn new_spec(viewport: Viewport) -> VulkanPipeline {
        let render_pass = presenting_render_pass(Format::B8G8R8A8Srgb);
        VulkanPipeline {
            graphics_pipeline: point_pipeline(render_pass, viewport, VertexLayout::PositionColor),
            render_pass,
        }
    }

    /// Builds the pipeline with `viewport` fixed in it.
    pub fn new(viewport: Viewport) -> (pipeline: VulkanPipeline)
        ensures
            pipeline == Self::new_spec(viewport),
    {
        let render_pass = create_render_pass(Format::B8G8R8A8Srgb);
        let graphics_pipeline = create_pipeline(render_pass, viewport, VertexLayout::PositionColor);
        VulkanPipeline { graphics_pipeline, render_pass }
    }

    /// The commands that draw `pixels` into `target`, if the frame is to be
    /// drawn at all.
    pub fn draw(
        &self,
        before: AcquireOutcome,
        target: SwapchainImage,
        viewport: Viewport,
        pixels: &Vec<[[u32; 4]; 2]>,
    ) -> (commands: Result<Option<Vec<Command>>, FatalError>)
        ensures
            drawn_view(commands) == drawn(*self, before, target, viewport, pixels@.len()),
    {
        match before {
            AcquireOutcome::OutOfDate => Ok(None),
            AcquireOutcome::Failed => Err(FatalError::AcquireFailed),
            _ => {
                if pixels.len() > u32::MAX as usize {
                    Err(FatalError::TooManyVertices)
                } else {
                    let frame_buffer = Framebuffer {
                        render_pass: self.render_pass,
                        attachment: target,
                    };
                    Ok(
                        Some(
                            create_command_buffer(
                                frame_buffer,
                                viewport,
                                self.graphics_pipeline,
                                pixels.len() as u32,
                            ),
                        ),
                    )
                }
            },
        }
    }
}

} // verus!
