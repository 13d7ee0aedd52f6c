//! The systems that run on the entities: building the pipeline once, and
//! turning the bodies into one frame's points and commands.

use crate::commands::Command;
use crate::resources::{drawn, drawn_view, ViewportResource, VulkanPipeline};
use crate::swapchain::{AcquireOutcome, SwapchainImage};
use crate::components::{is_record_of, Body, Vertebrae};
use crate::vulkan::FatalError;
use vstd::prelude::*;

verus! {

/// The points of all bodies, body after body, each in the order of its
/// spine.
pub open spec fn all_points(bodies: Seq<Body>) -> Seq<Vertebrae>
    decreases bodies.len(),
{
    if bodies.len() == 0 {
        Seq::empty()
    } else {
        all_points(bodies.drop_last()) + bodies.last().spine@
    }
}

/// `pixels` are the packed records of `points`, one for each and in order.
pub open spec fn are_records_of(pixels: Seq<[[u32; 4]; 2]>, points: Seq<Vertebrae>) -> bool {
    &&& pixels.len() == points.len()
    &&& forall|i: int| 0 <= i < points.len() ==> is_record_of(#[trigger] pixels[i], points[i])
}

/// Builds the pipeline with the viewport held fixed in it.
pub fn create_pipelines(viewport: &ViewportResource) -> (pipeline: VulkanPipeline)
    ensures
        pipeline == VulkanPipeline::new_spec(viewport.viewport),
{
    VulkanPipeline::new(viewport.get_viewport())
}

/// Gathers the packed records of all bodies.
pub fn collect_pixels(bodies: &Vec<Body>) -> (pixels: Vec<[[u32; 4]; 2]>)
    ensures
        are_records_of(pixels@, all_points(bodies@)),
{
    let mut pixels: Vec<[[u32; 4]; 2]> = Vec::new();
    let mut i: usize = 0;
    while i < bodies.len()
        invariant
            0 <= i <= bodies@.len(),
            are_records_of(pixels@, all_points(bodies@.take(i as int))),
        decreases bodies@.len() - i,
    {
        let mut part = bodies[i].get_pixels();
        let ghost before = pixels@;
        let ghost added = part@;
        pixels.append(&mut part);
        proof {
            let taken = bodies@.take(i as int + 1);
            assert(taken.drop_last() =~= bodies@.take(i as int));
            assert(taken.last() == bodies@[i as int]);
            let points = all_points(taken);
            assert(points == all_points(bodies@.take(i as int)) + bodies@[i as int].spine@);
            assert(pixels@ == before + added);
            assert forall|k: int| 0 <= k < points.len() implies is_record_of(
                #[trigger] pixels@[k],
                points[k],
            ) by {
                if k < before.len() {
                    assert(pixels@[k] == before[k]);
                } else {
                    assert(pixels@[k] == added[k - before.len()]);
                }
            }
        }
        i = i + 1;
    }
    proof {
        assert(bodies@.take(i as int) =~= bodies@);
    }
    pixels
}

/// One frame: the packed records of all bodies, to be uploaded, and the
/// commands that draw them into `target`. Nothing is drawn where the
/// swapchain is out of date.
pub fn render(
    pipeline: &VulkanPipeline,
    before: AcquireOutcome,
    target: SwapchainImage,
    viewport: &ViewportResource,
    bodies: &Vec<Body>,
) -> (frame: (Vec<[[u32; 4]; 2]>, Result<Option<Vec<Command>>, FatalError>))
    ensures
        are_records_of(frame.0@, all_points(bodies@)),
        drawn_view(frame.1) == drawn(
            *pipeline,
            before,
            target,
            viewport.viewport,
            all_points(bodies@).len(),
        ),
{
    let pixels = collect_pixels(bodies);
    let commands = pipeline.draw(before, target, viewport.get_viewport(), &pixels);
    (pixels, commands)
}

} // verus!
