//! What holds of the frame scheduler whatever it is told, in whatever order.

use crate::commands::{frame_commands, frame_draws_each_vertex_once, packed, vertices_drawn};
use crate::extent::Extent;
use crate::framebuffer::Framebuffer;
use crate::pipeline::{full_viewport, point_pipeline, VertexLayout};
use crate::swapchain::{
    all_of_extent, AcquireOutcome, PresentOutcome, SwapchainCreateInfo, SwapchainImage,
};
use crate::vulkan::{
    ActionView, EventView, FrameMarker, Phase, RecreateOutcomeView, VulkanView,
};
use crate::vertex::{
    is_nan, settled_points_are_wrapped, settles, within_bounds, wrapped, Vertex,
};
use vstd::prelude::*;

verus! {

/// One thing that the machine is told, with the points that there are to
/// draw at that time.
pub struct Input {
    pub event: EventView,
    pub vertices: Seq<Vertex>,
}

/// The state after a series of inputs, the first in the sequence first.
pub open spec fn run(start: VulkanView, inputs: Seq<Input>) -> VulkanView
    decreases inputs.len(),
{
    if inputs.len() == 0 {
        start
    } else {
        run(start, inputs.drop_last()).step(inputs.last().event, inputs.last().vertices).0
    }
}

/// The state made for a new swapchain is one that the machine can be in.
pub proof fn fresh_is_well_formed(
    swapchain: SwapchainCreateInfo,
    images: Seq<SwapchainImage>,
    layout: VertexLayout,
)
    requires
        images.len() > 0,
        all_of_extent(images, swapchain.image_extent),
    ensures
        VulkanView::fresh(swapchain, images, layout).wf(),
        VulkanView::fresh(swapchain, images, layout).phase == Phase::Idle,
{
}

/// No event leads out of the states that the machine can be in.
pub proof fn step_keeps_well_formed(state: VulkanView, event: EventView, vertices: Seq<Vertex>)
    requires
        state.wf(),
    ensures
        state.step(event, vertices).0.wf(),
{
    let next = state.step(event, vertices).0;
    match event {
        EventView::Recreated(RecreateOutcomeView::Recreated(images)) => {
            if let Phase::Recreating(extent) = state.phase {
                if images.len() > 0 && all_of_extent(images, extent) {
                    assert(next.coherent());
                }
            }
        },
        _ => {},
    }
}

/// No series of events leads out of the states that the machine can be in.
pub proof fn run_keeps_well_formed(start: VulkanView, inputs: Seq<Input>)
    requires
        start.wf(),
    ensures
        run(start, inputs).wf(),
    decreases inputs.len(),
{
    if inputs.len() > 0 {
        run_keeps_well_formed(start, inputs.drop_last());
        step_keeps_well_formed(
            run(start, inputs.drop_last()),
            inputs.last().event,
            inputs.last().vertices,
        );
    }
}

/// After any series of events, the size-dependent parts agree: each
/// framebuffer draws into an image of the swapchain's extent, and the viewport
/// and the viewport fixed in the pipeline cover exactly that extent.
pub proof fn extents_always_agree(start: VulkanView, inputs: Seq<Input>)
    requires
        start.wf(),
    ensures
        ({
            let state = run(start, inputs);
            &&& state.viewport == full_viewport(state.swapchain.image_extent)
            &&& state.graphics_pipeline.viewport == state.viewport
            &&& state.frame_buffers.len() == state.images.len()
            &&& forall|i: int|
                0 <= i < state.frame_buffers.len() ==> {
                    &&& (#[trigger] state.frame_buffers[i]).attachment == state.images[i]
                    &&& state.frame_buffers[i].attachment.extent == state.swapchain.image_extent
                }
        }),
{
    run_keeps_well_formed(start, inputs);
}

/// Between ticks exactly one marker is held, after any series of events;
/// while a submission is under way, and once the machine has stopped, none
/// is.
pub proof fn one_marker_between_ticks(start: VulkanView, inputs: Seq<Input>)
    requires
        start.wf(),
    ensures
        run(start, inputs).phase == Phase::Idle ==> run(start, inputs).previous_frame_end is Some,
        run(start, inputs).phase is Submitted ==> run(start, inputs).previous_frame_end is None,
        run(start, inputs).phase == Phase::Closed ==> run(start, inputs).previous_frame_end
            is None,
{
    run_keeps_well_formed(start, inputs);
}

/// A submission takes the marker held with it and leaves none behind; what
/// it reports back becomes the one marker held.
pub proof fn submission_replaces_the_marker(state: VulkanView, outcome: PresentOutcome)
    requires
        state.wf(),
        state.phase is Recording,
        outcome != PresentOutcome::Failed,
    ensures
        ({
            let (submitted, action) = state.step(EventView::Recorded, Seq::empty());
            let (done, _) = submitted.step(EventView::Presented(outcome), Seq::empty());
            &&& action matches ActionView::Submit { after, .. } && Some(after)
                == state.previous_frame_end
            &&& submitted.previous_frame_end is None
            &&& done.previous_frame_end == Some(
                if outcome == PresentOutcome::Presented {
                    FrameMarker::InFlight
                } else {
                    FrameMarker::Now
                },
            ) || done.phase == Phase::Closed
        }),
{
}

/// A swapchain that is out of date on acquire ends the tick: nothing is
/// recorded and nothing submitted, and the swapchain is marked for
/// recreation.
pub proof fn out_of_date_acquire_draws_nothing(state: VulkanView, vertices: Seq<Vertex>)
    ensures
        ({
            let (next, action) = state.step(
                EventView::Acquired(AcquireOutcome::OutOfDate),
                vertices,
            );
            &&& !(action is Record)
            &&& !(action is Submit)
            &&& state.phase == Phase::Acquiring ==> {
                &&& next.recreate_swapchain
                &&& next.phase == Phase::Idle || next.phase == Phase::Closed
            }
        }),
{
}

/// Commands are recorded only in answer to an image that was acquired, and
/// submitted only in answer to commands that were recorded for that image.
pub proof fn draws_follow_acquired_images(state: VulkanView, event: EventView, vertices: Seq<Vertex>)
    ensures
        ({
            let (next, action) = state.step(event, vertices);
            &&& action matches ActionView::Record { image_index, .. } ==> {
                &&& state.phase == Phase::Acquiring
                &&& event == EventView::Acquired(AcquireOutcome::Ready(image_index)) || event
                    == EventView::Acquired(AcquireOutcome::Suboptimal(image_index))
                &&& next.phase == Phase::Recording(image_index)
            }
            &&& action matches ActionView::Submit { image_index, .. } ==> {
                &&& state.phase == Phase::Recording(image_index)
                &&& event == EventView::Recorded
            }
        }),
{
}

/// Whatever is recorded draws through the framebuffer of the acquired image,
/// with the viewport and the pipeline that fit the swapchain's extent, and
/// covers exactly the vertices that there are; what is uploaded are those
/// vertices, packed.
pub proof fn recorded_commands_fit_the_swapchain(
    state: VulkanView,
    event: EventView,
    vertices: Seq<Vertex>,
)
    requires
        state.wf(),
    ensures
        state.step(event, vertices).1 matches ActionView::Record {
            image_index,
            commands,
            vertices: uploaded,
        } ==> {
            &&& uploaded == packed(vertices)
            &&& uploaded.len() == 4 * vertices.len()
            &&& image_index < state.images.len()
            &&& vertices.len() <= u32::MAX
            &&& commands == frame_commands(
                Framebuffer {
                    render_pass: state.render_pass,
                    attachment: state.images[image_index as int],
                },
                full_viewport(state.swapchain.image_extent),
                point_pipeline(
                    state.render_pass,
                    full_viewport(state.swapchain.image_extent),
                    state.layout,
                ),
                vertices.len() as u32,
            )
            &&& state.images[image_index as int].extent == state.swapchain.image_extent
        },
{
}

/// A change of the window's size, and a swapchain that is reported
/// suboptimal or out of date, mark the swapchain for recreation.
pub proof fn staleness_is_marked(state: VulkanView, vertices: Seq<Vertex>, index: u32)
    ensures
        state.phase != Phase::Closed ==> state.step(
            EventView::Resized,
            vertices,
        ).0.recreate_swapchain,
        state.phase == Phase::Acquiring ==> state.step(
            EventView::Acquired(AcquireOutcome::Suboptimal(index)),
            vertices,
        ).0.recreate_swapchain,
        state.phase == Phase::Acquiring ==> state.step(
            EventView::Acquired(AcquireOutcome::OutOfDate),
            vertices,
        ).0.recreate_swapchain,
        state.phase is Submitted ==> state.step(
            EventView::Presented(PresentOutcome::OutOfDate),
            vertices,
        ).0.recreate_swapchain,
{
}

/// A swapchain marked for recreation stays marked until a recreated
/// swapchain is taken over.
pub proof fn mark_stays_until_recreated(state: VulkanView, event: EventView, vertices: Seq<Vertex>)
    requires
        state.recreate_swapchain,
        !(event matches EventView::Recreated(RecreateOutcomeView::Recreated(_))),
    ensures
        state.step(event, vertices).0.recreate_swapchain,
{
}

/// The first tick on a surface with area after the swapchain was marked
/// asks for a swapchain of the surface's size that is otherwise as before.
/// Once that swapchain is taken over, the framebuffers, the viewport and the
/// viewport fixed in the pipeline all have the surface's size, the mark is
/// gone, and the frame that follows is drawn with them.
pub proof fn resize_settles_in_one_tick(
    state: VulkanView,
    surface: Extent,
    images: Seq<SwapchainImage>,
    index: u32,
    vertices: Seq<Vertex>,
)
    requires
        state.wf(),
        state.phase == Phase::Idle,
        state.recreate_swapchain,
        !surface.zero_area(),
        images.len() > 0,
        all_of_extent(images, surface),
        index < images.len(),
        vertices.len() <= u32::MAX,
    ensures
        ({
            let (recreating, first) = state.step(
                EventView::RedrawEventsCleared { surface },
                vertices,
            );
            let (acquiring, second) = recreating.step(
                EventView::Recreated(RecreateOutcomeView::Recreated(images)),
                vertices,
            );
            let (recording, third) = acquiring.step(
                EventView::Acquired(AcquireOutcome::Ready(index)),
                vertices,
            );
            &&& first == ActionView::Recreate(
                SwapchainCreateInfo { image_extent: surface, ..state.swapchain },
            )
            &&& second == ActionView::Acquire
            &&& acquiring.wf()
            &&& !acquiring.recreate_swapchain
            &&& acquiring.swapchain == (SwapchainCreateInfo {
                image_extent: surface,
                ..state.swapchain
            })
            &&& acquiring.viewport == full_viewport(surface)
            &&& acquiring.graphics_pipeline.viewport == full_viewport(surface)
            &&& acquiring.frame_buffers.len() == images.len()
            &&& forall|i: int|
                0 <= i < images.len() ==> (#[trigger] acquiring.frame_buffers[i]).attachment.extent
                    == surface
            &&& third == ActionView::Record {
                image_index: index,
                commands: frame_commands(
                    Framebuffer { render_pass: state.render_pass, attachment: images[index as int] },
                    full_viewport(surface),
                    point_pipeline(state.render_pass, full_viewport(surface), state.layout),
                    vertices.len() as u32,
                ),
                vertices: packed(vertices),
            }
        }),
{
    step_keeps_well_formed(state, EventView::RedrawEventsCleared { surface }, vertices);
    let recreating = state.step(EventView::RedrawEventsCleared { surface }, vertices).0;
    step_keeps_well_formed(
        recreating,
        EventView::Recreated(RecreateOutcomeView::Recreated(images)),
        vertices,
    );
}

/// A frame that is drawn on a stale swapchain and reported suboptimal is
/// the last such frame: the tick after it recreates the swapchain before it
/// acquires an image.
pub proof fn suboptimal_frame_is_followed_by_recreation(
    state: VulkanView,
    index: u32,
    vertices: Seq<Vertex>,
    presented: PresentOutcome,
    surface: Extent,
)
    requires
        state.wf(),
        state.phase == Phase::Acquiring,
        !state.close_requested,
        index < state.frame_buffers.len(),
        vertices.len() <= u32::MAX,
        presented != PresentOutcome::Failed,
        !surface.zero_area(),
    ensures
        ({
            let recording = state.step(
                EventView::Acquired(AcquireOutcome::Suboptimal(index)),
                vertices,
            ).0;
            let submitted = recording.step(EventView::Recorded, vertices).0;
            let idle = submitted.step(EventView::Presented(presented), vertices).0;
            let (next, action) = idle.step(EventView::RedrawEventsCleared { surface }, vertices);
            &&& idle.phase == Phase::Idle
            &&& action == ActionView::Recreate(
                SwapchainCreateInfo { image_extent: surface, ..state.swapchain },
            )
            &&& next.phase == Phase::Recreating(surface)
        }),
{
}

/// An extent that the surface does not support ends the tick and changes
/// nothing else: the swapchain stays marked and is recreated in a later
/// tick.
pub proof fn unsupported_extent_is_tried_again(state: VulkanView, extent: Extent)
    requires
        state.wf(),
        state.phase == Phase::Recreating(extent),
        state.recreate_swapchain,
        !state.close_requested,
    ensures
        state.step(
            EventView::Recreated(RecreateOutcomeView::ExtentNotSupported),
            Seq::empty(),
        ) == (
            VulkanView { phase: Phase::Idle, ..state },
            ActionView::Nothing,
        ),
{
}

/// A surface without area is not drawn to: the tick does nothing.
pub proof fn minimised_surface_is_skipped(state: VulkanView, surface: Extent, vertices: Seq<Vertex>)
    requires
        surface.zero_area(),
    ensures
        state.step(EventView::RedrawEventsCleared { surface }, vertices) == (
            state,
            ActionView::Nothing,
        ),
{
}

/// Between ticks, or stopped: no tick is under way.
pub open spec fn at_rest(state: VulkanView) -> bool {
    state.phase == Phase::Idle || state.phase == Phase::Closed
}

/// Once a tick has ended, nothing is recreated, acquired, recorded or
/// submitted until the next tick begins: whatever else the machine is told
/// in between, it stays at rest. With `out_of_date_acquire_draws_nothing`
/// this makes a tick whose image could not be acquired a tick without a
/// draw.
pub proof fn nothing_is_drawn_between_ticks(start: VulkanView, inputs: Seq<Input>, position: int)
    requires
        at_rest(start),
        forall|i: int| 0 <= i < inputs.len() ==> !((#[trigger] inputs[i]).event is RedrawEventsCleared),
        0 <= position < inputs.len(),
    ensures
        ({
            let before = run(start, inputs.take(position));
            let (after, action) = before.step(
                inputs[position].event,
                inputs[position].vertices,
            );
            &&& at_rest(before)
            &&& at_rest(after)
            &&& action is Nothing || action is Drain
        }),
    decreases position,
{
    if position > 0 {
        nothing_is_drawn_between_ticks(start, inputs, position - 1);
        assert(inputs.take(position).drop_last() =~= inputs.take(position - 1));
        assert(inputs.take(position).last() == inputs[position - 1]);
    }
}

/// What a tick uploads went through the wrap. Where the points `before`
/// have the targets `targets` and come to rest as `after`, and the machine
/// answers by recording a frame, the words uploaded for point `i` are its
/// position then: the first two are its target's coordinates, wrapped, and
/// lie within the drift space where the target is a number; the third and
/// the fourth are what they were before the tick. This is what
/// `Vulkan::event_handler` does to the feed it is given.
pub proof fn uploaded_vertices_are_wrapped(
    state: VulkanView,
    event: EventView,
    before: Seq<Vertex>,
    targets: Seq<(u32, u32)>,
    after: Seq<Vertex>,
    i: int,
)
    requires
        state.draws(event, before.len()),
        settles(before, targets, after),
        0 <= i < before.len(),
        i < targets.len(),
    ensures
        state.step(event, after).1 matches ActionView::Record { vertices: uploaded, commands, .. }
            && {
            &&& uploaded.len() == 4 * before.len()
            &&& uploaded[4 * i] == wrapped(targets[i].0)
            &&& uploaded[4 * i + 1] == wrapped(targets[i].1)
            &&& uploaded[4 * i + 2] == before[i].position@[2]
            &&& uploaded[4 * i + 3] == before[i].position@[3]
            &&& !is_nan(targets[i].0) ==> within_bounds(uploaded[4 * i])
            &&& !is_nan(targets[i].1) ==> within_bounds(uploaded[4 * i + 1])
            &&& vertices_drawn(commands) == before.len()
        },
{
    settled_points_are_wrapped(before, targets, after, i);
    let uploaded = packed(after);
    assert(uploaded[4 * i] == after[(4 * i) / 4].position@[(4 * i) % 4]);
    assert(uploaded[4 * i + 1] == after[(4 * i + 1) / 4].position@[(4 * i + 1) % 4]);
    assert(uploaded[4 * i + 2] == after[(4 * i + 2) / 4].position@[(4 * i + 2) % 4]);
    assert(uploaded[4 * i + 3] == after[(4 * i + 3) / 4].position@[(4 * i + 3) % 4]);
    if let ActionView::Record { commands, image_index, .. } = state.step(event, after).1 {
        frame_draws_each_vertex_once(
            state.frame_buffers[image_index as int],
            state.viewport,
            state.graphics_pipeline,
            after.len() as u32,
        );
    }
}

} // verus!
