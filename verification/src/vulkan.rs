//! The frame scheduler: one state machine that takes the window's events
//! and the outcomes of the work it asked for, and answers each with the next
//! thing to do.
//!
//! A tick starts with `Event::RedrawEventsCleared` and runs through
//! acquiring an image, recording the commands, submitting them and
//! presenting. Whoever drives the machine carries out each `Action` and
//! reports what came of it with the next event. The machine itself never
//! waits and never fails: what cannot go on ends in `Action::Abort`.
//!
//! The swapchain, the render pass, the pipeline and the framebuffers change
//! only together, when a recreated swapchain is taken over.
//!
//! The points to draw come from a `VertexFeed`. The machine fetches them
//! when it records a frame, and only then: what it hands out for upload are
//! the points as they have come to rest, wrapped at the boundary of the
//! drift space.

use crate::commands::{create_command_buffer, frame_commands, pack_vertices, packed, Command};
use crate::extent::Extent;
use crate::frame_laws::step_keeps_well_formed;
use crate::framebuffer::{create_frame_buffers, framebuffers_over, Framebuffer};
use crate::pipeline::{
    create_pipeline, create_render_pass, full_viewport, point_pipeline, presenting_render_pass,
    viewport_for, GraphicsPipeline, RenderPass, VertexLayout, Viewport,
};
use crate::swapchain::{
    all_of_extent, images_match, AcquireOutcome, PresentOutcome, SwapchainCreateInfo,
    SwapchainImage,
};
use crate::vertex::{settles, Vertex, VertexFeed};
use vstd::prelude::*;

verus! {

/// Where the machine stands within a tick.
#[derive(Clone, Copy, Debug, PartialEq, Eq, Structural)]
pub enum Phase {
    /// Between ticks.
    Idle,
    /// A swapchain of this extent has been asked for.
    Recreating(Extent),
    /// The next image has been asked for.
    Acquiring,
    /// The commands for the image at this index are being recorded.
    Recording(u32),
    /// The frame for the image at this index has been submitted.
    Submitted(u32),
    /// The machine has stopped, by request or after a fatal error.
    Closed,
}

/// Stands for work on the device that may not be complete yet.
#[derive(Clone, Copy, Debug, PartialEq, Eq, Structural)]
pub enum FrameMarker {
    /// Nothing to wait for.
    Now,
    /// The frame submitted last.
    InFlight,
}

/// Whether the event loop goes on.
#[derive(Clone, Copy, Debug, PartialEq, Eq, Structural)]
pub enum ControlFlow {
    Poll,
    Wait,
    Exit,
}

/// What ends the renderer.
#[derive(Clone, Copy, Debug, PartialEq, Eq, Structural)]
pub enum FatalError {
    /// The swapchain could not be recreated, for another reason than an
    /// extent that the surface does not support.
    RecreateFailed,
    /// The recreated swapchain has no image, or one of another size than
    /// was asked for.
    ImagesMismatch,
    /// No image could be acquired, for another reason than a swapchain that
    /// is out of date.
    AcquireFailed,
    /// The acquired index has no framebuffer.
    ImageIndexOutOfRange,
    /// There are more vertices than one draw can cover.
    TooManyVertices,
    /// The frame could not be submitted or presented, for another reason
    /// than a swapchain that is out of date.
    PresentFailed,
}

/// What came of recreating the swapchain.
#[derive(Debug, PartialEq, Eq)]
pub enum RecreateOutcome {
    /// The images of the new swapchain, in its order.
    Recreated(Vec<SwapchainImage>),
    /// The surface does not support the extent right now.
    ExtentNotSupported,
    /// Any other failure.
    Failed,
}

/// What the machine is told.
#[derive(Debug, PartialEq, Eq)]
pub enum Event {
    /// The window is to be closed.
    CloseRequested,
    /// The window has another size.
    Resized,
    /// All pending window events are handled: time for a frame. `surface` is
    /// the size of the window now. Finished work on the previous frame is
    /// retired before the first action of the tick is carried out.
    RedrawEventsCleared { surface: Extent },
    /// Answers `Action::Recreate`.
    Recreated(RecreateOutcome),
    /// Answers `Action::Acquire`.
    Acquired(AcquireOutcome),
    /// Answers `Action::Record`: the vertices are uploaded and the commands
    /// recorded.
    Recorded,
    /// Answers `Action::Submit`.
    Presented(PresentOutcome),
    /// Anything else that the event loop delivers.
    Other,
}

/// What the machine asks for.
#[derive(Debug, PartialEq, Eq)]
pub enum Action {
    Nothing,
    /// Recreate the swapchain with these parameters, handing the current
    /// one over, and report `Event::Recreated`.
    Recreate(SwapchainCreateInfo),
    /// Acquire the next image and report `Event::Acquired`.
    Acquire,
    /// Upload `vertices`, the packed positions of the points as they have
    /// come to rest, where there are any; record these commands and report
    /// `Event::Recorded`.
    Record { image_index: u32, commands: Vec<Command>, vertices: Vec<u32> },
    /// Submit the recorded commands after `after` and after the image is
    /// acquired, present the image once they are done, and report
    /// `Event::Presented`.
    Submit { image_index: u32, after: FrameMarker },
    /// Wait for this marker, then release the device's resources.
    Drain(FrameMarker),
    /// Stop with a diagnostic.
    Abort(FatalError),
}

/// The renderer's state.
#[derive(Debug)]
pub struct Vulkan {
    /// The parameters of the current swapchain.
    pub swapchain: SwapchainCreateInfo,
    /// The images of the current swapchain.
    pub images: Vec<SwapchainImage>,
    pub layout: VertexLayout,
    pub render_pass: RenderPass,
    pub viewport: Viewport,
    pub graphics_pipeline: GraphicsPipeline,
    /// One framebuffer for each image.
    pub frame_buffers: Vec<Framebuffer>,
    /// The swapchain is to be recreated before the next image is acquired.
    pub recreate_swapchain: bool,
    /// What the next submission waits for. Held whenever no submission is
    /// under way.
    pub previous_frame_end: Option<FrameMarker>,
    pub phase: Phase,
    /// The window is to be closed once the tick under way has ended.
    pub close_requested: bool,
}

pub enum RecreateOutcomeView {
    Recreated(Seq<SwapchainImage>),
    ExtentNotSupported,
    Failed,
}

pub enum EventView {
    CloseRequested,
    Resized,
    RedrawEventsCleared { surface: Extent },
    Recreated(RecreateOutcomeView),
    Acquired(AcquireOutcome),
    Recorded,
    Presented(PresentOutcome),
    Other,
}

pub enum ActionView {
    Nothing,
    Recreate(SwapchainCreateInfo),
    Acquire,
    Record { image_index: u32, commands: Seq<Command>, vertices: Seq<u32> },
    Submit { image_index: u32, after: FrameMarker },
    Drain(FrameMarker),
    Abort(FatalError),
}

pub struct VulkanView {
    pub swapchain: SwapchainCreateInfo,
    pub images: Seq<SwapchainImage>,
    pub layout: VertexLayout,
    pub render_pass: RenderPass,
    pub viewport: Viewport,
    pub graphics_pipeline: GraphicsPipeline,
    pub frame_buffers: Seq<Framebuffer>,
    pub recreate_swapchain: bool,
    pub previous_frame_end: Option<FrameMarker>,
    pub phase: Phase,
    pub close_requested: bool,
}

impl View for RecreateOutcome {
    type V = RecreateOutcomeView;

    open spec fn view(&self) -> RecreateOutcomeView {
        match self {
            RecreateOutcome::Recreated(images) => RecreateOutcomeView::Recreated(images@),
            RecreateOutcome::ExtentNotSupported => RecreateOutcomeView::ExtentNotSupported,
            RecreateOutcome::Failed => RecreateOutcomeView::Failed,
        }
    }
}

impl View for Event {
    type V = EventView;

    open spec fn view(&self) -> EventView {
        match self {
            Event::CloseRequested => EventView::CloseRequested,
            Event::Resized => EventView::Resized,
            Event::RedrawEventsCleared { surface } => EventView::RedrawEventsCleared {
                surface: *surface,
            },
            Event::Recreated(outcome) => EventView::Recreated(outcome@),
            Event::Acquired(outcome) => EventView::Acquired(*outcome),
            Event::Recorded => EventView::Recorded,
            Event::Presented(outcome) => EventView::Presented(*outcome),
            Event::Other => EventView::Other,
        }
    }
}

impl View for Action {
    type V = ActionView;

    open spec fn view(&self) -> ActionView {
        match self {
            Action::Nothing => ActionView::Nothing,
            Action::Recreate(info) => ActionView::Recreate(*info),
            Action::Acquire => ActionView::Acquire,
            Action::Record { image_index, commands, vertices } => ActionView::Record {
                image_index: *image_index,
                commands: commands@,
                vertices: vertices@,
            },
            Action::Submit { image_index, after } => ActionView::Submit {
                image_index: *image_index,
                after: *after,
            },
            Action::Drain(marker) => ActionView::Drain(*marker),
            Action::Abort(error) => ActionView::Abort(*error),
        }
    }
}

impl View for Vulkan {
    type V = VulkanView;

    open spec fn view(&self) -> VulkanView {
        VulkanView {
            swapchain: self.swapchain,
            images: self.images@,
            layout: self.layout,
            render_pass: self.render_pass,
            viewport: self.viewport,
            graphics_pipeline: self.graphics_pipeline,
            frame_buffers: self.frame_buffers@,
            recreate_swapchain: self.recreate_swapchain,
            previous_frame_end: self.previous_frame_end,
            phase: self.phase,
            close_requested: self.close_requested,
        }
    }
}

/// The marker held, or nothing to wait for where none is held.
pub open spec fn marker_or_now(marker: Option<FrameMarker>) -> FrameMarker {
    match marker {
        Some(held) => held,
        None => FrameMarker::Now,
    }
}

impl VulkanView {
    /// The state right after a swapchain of these parameters and images has
    /// been created.
    pub open spec fn fresh(
        swapchain: SwapchainCreateInfo,
        images: Seq<SwapchainImage>,
        layout: VertexLayout,
    ) -> VulkanView {
        let render_pass = presenting_render_pass(swapchain.image_format);
        let viewport = full_viewport(swapchain.image_extent);
        VulkanView {
            swapchain,
            images,
            layout,
            render_pass,
            viewport,
            graphics_pipeline: point_pipeline(render_pass, viewport, layout),
            frame_buffers: framebuffers_over(render_pass, images),
            recreate_swapchain: false,
            previous_frame_end: Some(FrameMarker::Now),
            phase: Phase::Idle,
            close_requested: false,
        }
    }

    /// Everything that depends on the surface's size agrees with the
    /// swapchain: its images, the viewport, the viewport fixed in the
    /// pipeline, and the framebuffers, one for each image in order.
    pub open spec fn coherent(self) -> bool {
        &&& self.images.len() > 0
        &&& all_of_extent(self.images, self.swapchain.image_extent)
        &&& self.render_pass == presenting_render_pass(self.swapchain.image_format)
        &&& self.viewport == full_viewport(self.swapchain.image_extent)
        &&& self.graphics_pipeline == point_pipeline(self.render_pass, self.viewport, self.layout)
        &&& self.frame_buffers == framebuffers_over(self.render_pass, self.images)
    }

    /// A marker is held exactly while no submission is under way and the
    /// machine has not stopped.
    pub open spec fn marker_held(self) -> bool {
        match self.phase {
            Phase::Submitted(_) | Phase::Closed => self.previous_frame_end is None,
            _ => self.previous_frame_end is Some,
        }
    }

    /// The state is one that the machine can be in.
    pub open spec fn wf(self) -> bool {
        &&& self.coherent()
        &&& self.marker_held()
        &&& self.phase matches Phase::Recording(index) ==> index < self.frame_buffers.len()
        &&& self.phase matches Phase::Submitted(index) ==> index < self.frame_buffers.len()
        &&& self.close_requested ==> self.phase != Phase::Idle
    }

    /// The state after the swapchain has been replaced by one of the size
    /// `extent` with these images: the viewport, the pipeline and the
    /// framebuffers are built again for it, and nothing else changes.
    pub open spec fn resized(self, extent: Extent, images: Seq<SwapchainImage>) -> VulkanView {
        let viewport = full_viewport(extent);
        VulkanView {
            swapchain: SwapchainCreateInfo { image_extent: extent, ..self.swapchain },
            images,
            viewport,
            graphics_pipeline: point_pipeline(self.render_pass, viewport, self.layout),
            frame_buffers: framebuffers_over(self.render_pass, images),
            ..self
        }
    }

    /// The end of a tick: back to idle, or, where the window is to be closed,
    /// the end of the machine.
    pub open spec fn end_tick(self) -> (VulkanView, ActionView) {
        if self.close_requested {
            (
                VulkanView { phase: Phase::Closed, previous_frame_end: None, ..self },
                ActionView::Drain(marker_or_now(self.previous_frame_end)),
            )
        } else {
            (VulkanView { phase: Phase::Idle, ..self }, ActionView::Nothing)
        }
    }

    /// The end of the machine after a fatal error.
    pub open spec fn abort(self, error: FatalError) -> (VulkanView, ActionView) {
        (
            VulkanView { phase: Phase::Closed, previous_frame_end: None, ..self },
            ActionView::Abort(error),
        )
    }

    pub open spec fn on_close_requested(self) -> (VulkanView, ActionView) {
        match self.phase {
            Phase::Closed => (self, ActionView::Nothing),
            Phase::Idle => (
                VulkanView {
                    phase: Phase::Closed,
                    previous_frame_end: None,
                    close_requested: true,
                    ..self
                },
                ActionView::Drain(marker_or_now(self.previous_frame_end)),
            ),
            _ => (VulkanView { close_requested: true, ..self }, ActionView::Nothing),
        }
    }

    pub open spec fn on_resized(self) -> (VulkanView, ActionView) {
        match self.phase {
            Phase::Closed => (self, ActionView::Nothing),
            _ => (VulkanView { recreate_swapchain: true, ..self }, ActionView::Nothing),
        }
    }

    /// The start of a tick. Nothing happens on a surface without area; a
    /// swapchain that is to be recreated is recreated first, with the
    /// surface's size and otherwise as it is.
    pub open spec fn on_redraw(self, surface: Extent) -> (VulkanView, ActionView) {
        if self.phase != Phase::Idle || surface.zero_area() {
            (self, ActionView::Nothing)
        } else if self.recreate_swapchain {
            (
                VulkanView { phase: Phase::Recreating(surface), ..self },
                ActionView::Recreate(
                    SwapchainCreateInfo { image_extent: surface, ..self.swapchain },
                ),
            )
        } else {
            (VulkanView { phase: Phase::Acquiring, ..self }, ActionView::Acquire)
        }
    }

    /// A recreated swapchain is taken over and the tick goes on; an extent
    /// that is not supported ends the tick, to be tried again in the next.
    pub open spec fn on_recreated(self, outcome: RecreateOutcomeView) -> (VulkanView, ActionView) {
        match self.phase {
            Phase::Recreating(extent) => match outcome {
                RecreateOutcomeView::Recreated(images) => if images.len() > 0 && all_of_extent(
                    images,
                    extent,
                ) {
                    (
                        VulkanView {
                            recreate_swapchain: false,
                            phase: Phase::Acquiring,
                            ..self.resized(extent, images)
                        },
                        ActionView::Acquire,
                    )
                } else {
                    self.abort(FatalError::ImagesMismatch)
                },
                RecreateOutcomeView::ExtentNotSupported => self.end_tick(),
                RecreateOutcomeView::Failed => self.abort(FatalError::RecreateFailed),
            },
            _ => (self, ActionView::Nothing),
        }
    }

    /// An image with this index can be drawn into, and one draw covers this
    /// many vertices.
    pub open spec fn can_record(self, index: u32, vertex_count: nat) -> bool {
        index < self.frame_buffers.len() && vertex_count <= u32::MAX
    }

    /// The event is answered by recording a frame of this many vertices.
    pub open spec fn draws(self, event: EventView, vertex_count: nat) -> bool {
        self.phase == Phase::Acquiring && match event {
            EventView::Acquired(AcquireOutcome::Ready(index)) => self.can_record(
                index,
                vertex_count,
            ),
            EventView::Acquired(AcquireOutcome::Suboptimal(index)) => self.can_record(
                index,
                vertex_count,
            ),
            _ => false,
        }
    }

    /// The frame for the acquired image: `vertices`, packed, are what is
    /// uploaded, and the commands draw them through the image's framebuffer,
    /// with the viewport and the pipeline of the state, each vertex once.
    pub open spec fn record(self, index: u32, suboptimal: bool, vertices: Seq<Vertex>) -> (
        VulkanView,
        ActionView,
    ) {
        let vertex_count = vertices.len();
        let flagged = VulkanView {
            recreate_swapchain: self.recreate_swapchain || suboptimal,
            ..self
        };
        if index >= self.frame_buffers.len() {
            flagged.abort(FatalError::ImageIndexOutOfRange)
        } else if vertex_count > u32::MAX {
            flagged.abort(FatalError::TooManyVertices)
        } else {
            (
                VulkanView { phase: Phase::Recording(index), ..flagged },
                ActionView::Record {
                    image_index: index,
                    commands: frame_commands(
                        self.frame_buffers[index as int],
                        self.viewport,
                        self.graphics_pipeline,
                        vertex_count as u32,
                    ),
                    vertices: packed(vertices),
                },
            )
        }
    }

    /// An acquired image is drawn into; a suboptimal one as well, but the
    /// swapchain is then recreated in the next tick. A swapchain that is out
    /// of date ends the tick without a draw.
    pub open spec fn on_acquired(self, outcome: AcquireOutcome, vertices: Seq<Vertex>) -> (
        VulkanView,
        ActionView,
    ) {
        match self.phase {
            Phase::Acquiring => match outcome {
                AcquireOutcome::Ready(index) => self.record(index, false, vertices),
                AcquireOutcome::Suboptimal(index) => self.record(index, true, vertices),
                AcquireOutcome::OutOfDate => (VulkanView {
                    recreate_swapchain: true,
                    ..self
                }).end_tick(),
                AcquireOutcome::Failed => self.abort(FatalError::AcquireFailed),
            },
            _ => (self, ActionView::Nothing),
        }
    }

    /// The recorded commands are submitted after the marker held, which is
    /// given away with them.
    pub open spec fn on_recorded(self) -> (VulkanView, ActionView) {
        match self.phase {
            Phase::Recording(index) => (
                VulkanView { phase: Phase::Submitted(index), previous_frame_end: None, ..self },
                ActionView::Submit {
                    image_index: index,
                    after: marker_or_now(self.previous_frame_end),
                },
            ),
            _ => (self, ActionView::Nothing),
        }
    }

    /// The submitted frame becomes what the next one waits for. After a
    /// swapchain that is out of date there is nothing to wait for, and the
    /// swapchain is recreated in the next tick.
    pub open spec fn on_presented(self, outcome: PresentOutcome) -> (VulkanView, ActionView) {
        match self.phase {
            Phase::Submitted(_) => match outcome {
                PresentOutcome::Presented => (VulkanView {
                    previous_frame_end: Some(FrameMarker::InFlight),
                    ..self
                }).end_tick(),
                PresentOutcome::OutOfDate => (VulkanView {
                    recreate_swapchain: true,
                    previous_frame_end: Some(FrameMarker::Now),
                    ..self
                }).end_tick(),
                PresentOutcome::Failed => self.abort(FatalError::PresentFailed),
            },
            _ => (self, ActionView::Nothing),
        }
    }

    /// The state after an event and the action that answers it, where
    /// `vertices` are the points to draw as they have come to rest. An event
    /// that the phase does not wait for changes nothing.
    pub open spec fn step(self, event: EventView, vertices: Seq<Vertex>) -> (
        VulkanView,
        ActionView,
    ) {
        match event {
            EventView::CloseRequested => self.on_close_requested(),
            EventView::Resized => self.on_resized(),
            EventView::RedrawEventsCleared { surface } => self.on_redraw(surface),
            EventView::Recreated(outcome) => self.on_recreated(outcome),
            EventView::Acquired(outcome) => self.on_acquired(outcome, vertices),
            EventView::Recorded => self.on_recorded(),
            EventView::Presented(outcome) => self.on_presented(outcome),
            EventView::Other => (self, ActionView::Nothing),
        }
    }
}

/// What becomes of the points when an event is answered. Where a frame is
/// recorded, every point that has moved comes to rest and the targets are
/// used up; otherwise the points and their targets are as before.
pub open spec fn feed_after(recorded: bool, before: VertexFeed, after: VertexFeed) -> bool {
    if recorded {
        settles(before.vertices@, before.moved@, after.vertices@) && after.moved@.len() == 0
    } else {
        after.vertices@ == before.vertices@ && after.moved@ == before.moved@
    }
}

/// What the event loop is told to do after an event: to exit on a request to
/// close, and otherwise what it was told before.
pub open spec fn control_after(event: EventView, before: ControlFlow) -> ControlFlow {
    match event {
        EventView::CloseRequested => ControlFlow::Exit,
        _ => before,
    }
}

impl Vulkan {
    /// The renderer for a swapchain that has just been created with the
    /// parameters `swapchain` and holds `images`: idle, with nothing to wait
    /// for, and with the render pass, the viewport, the pipeline and the
    /// framebuffers that belong to it.
    ///
    /// Fails with `ImagesMismatch` exactly when there is no image or an image
    /// is of another size than the parameters say.
    pub fn new(swapchain: SwapchainCreateInfo, images: Vec<SwapchainImage>, layout: VertexLayout) -> (created:
        Result<Vulkan, FatalError>)
        ensures
            match created {
                Ok(vulkan) => {
                    &&& vulkan@ == VulkanView::fresh(swapchain, images@, layout)
                    &&& vulkan@.wf()
                },
                Err(error) => {
                    &&& error == FatalError::ImagesMismatch
                    &&& !(images@.len() > 0 && all_of_extent(images@, swapchain.image_extent))
                },
            },
    {
        if !images_match(&images, swapchain.image_extent) {
            return Err(FatalError::ImagesMismatch);
        }
        let render_pass = create_render_pass(swapchain.image_format);
        let viewport = viewport_for(swapchain.image_extent);
        let graphics_pipeline = create_pipeline(render_pass, viewport, layout);
        let frame_buffers = create_frame_buffers(render_pass, &images);
        Ok(
            Vulkan {
                swapchain,
                images,
                layout,
                render_pass,
                viewport,
                graphics_pipeline,
                frame_buffers,
                recreate_swapchain: false,
                previous_frame_end: Some(FrameMarker::Now),
                phase: Phase::Idle,
                close_requested: false,
            },
        )
    }

    /// Makes everything that depends on the window's size fit these images:
    /// the viewport becomes the size of the first image, the pipeline is
    /// built again with that viewport fixed in it, and the framebuffers are
    /// built, one for each image. Returns the framebuffers; the swapchain
    /// and the framebuffers held are left to the caller.
    pub fn window_size_dependent_setup(&mut self, images: &Vec<SwapchainImage>) -> (framebuffers:
        Vec<Framebuffer>)
        requires
            images@.len() > 0,
        ensures
            final(self)@ == (VulkanView {
                viewport: full_viewport(images@[0].extent),
                graphics_pipeline: point_pipeline(
                    old(self).render_pass,
                    full_viewport(images@[0].extent),
                    old(self).layout,
                ),
                ..old(self)@
            }),
            framebuffers@ == framebuffers_over(old(self).render_pass, images@),
    {
        let extent = images[0].extent;
        self.viewport = viewport_for(extent);
        self.graphics_pipeline = create_pipeline(self.render_pass, self.viewport, self.layout);
        create_frame_buffers(self.render_pass, images)
    }

    /// The contents of the vertex buffer for these vertices: their positions
    /// one after the other, without padding.
    pub fn set_vertexes(&self, data: &Vec<Vertex>) -> (words: Vec<u32>)
        ensures
            words@ == packed(data@),
    {
        pack_vertices(data)
    }

    fn take_marker(&mut self) -> (marker: FrameMarker)
        ensures
            marker == marker_or_now(old(self).previous_frame_end),
            final(self)@ == (VulkanView { previous_frame_end: None, ..old(self)@ }),
    {
        let marker = match self.previous_frame_end {
            Some(held) => held,
            None => FrameMarker::Now,
        };
        self.previous_frame_end = None;
        marker
    }

    fn end_tick(&mut self) -> (action: Action)
        ensures
            (final(self)@, action@) == old(self)@.end_tick(),
    {
        if self.close_requested {
            let marker = self.take_marker();
            self.phase = Phase::Closed;
            Action::Drain(marker)
        } else {
            self.phase = Phase::Idle;
            Action::Nothing
        }
    }

    fn abort(&mut self, error: FatalError) -> (action: Action)
        ensures
            (final(self)@, action@) == old(self)@.abort(error),
    {
        self.phase = Phase::Closed;
        self.previous_frame_end = None;
        Action::Abort(error)
    }

    fn on_close_requested(&mut self) -> (action: Action)
        ensures
            (final(self)@, action@) == old(self)@.on_close_requested(),
    {
        match self.phase {
            Phase::Closed => Action::Nothing,
            Phase::Idle => {
                let marker = self.take_marker();
                self.phase = Phase::Closed;
                self.close_requested = true;
                Action::Drain(marker)
            },
            _ => {
                self.close_requested = true;
                Action::Nothing
            },
        }
    }

    fn on_redraw(&mut self, surface: Extent) -> (action: Action)
        ensures
            (final(self)@, action@) == old(self)@.on_redraw(surface),
    {
        let idle = match self.phase {
            Phase::Idle => true,
            _ => false,
        };
        if !idle || surface.is_zero_area() {
            Action::Nothing
        } else if self.recreate_swapchain {
            self.phase = Phase::Recreating(surface);
            Action::Recreate(crate::swapchain::recreate(&self.swapchain, surface))
        } else {
            self.phase = Phase::Acquiring;
            Action::Acquire
        }
    }

    fn on_recreated(&mut self, outcome: RecreateOutcome) -> (action: Action)
        ensures
            (final(self)@, action@) == old(self)@.on_recreated(outcome@),
    {
        match self.phase {
            Phase::Recreating(extent) => match outcome {
                RecreateOutcome::Recreated(images) => {
                    if images_match(&images, extent) {
                        self.frame_buffers = self.window_size_dependent_setup(&images);
                        self.swapchain = crate::swapchain::recreate(&self.swapchain, extent);
                        self.images = images;
                        self.recreate_swapchain = false;
                        self.phase = Phase::Acquiring;
                        Action::Acquire
                    } else {
                        self.abort(FatalError::ImagesMismatch)
                    }
                },
                RecreateOutcome::ExtentNotSupported => self.end_tick(),
                RecreateOutcome::Failed => self.abort(FatalError::RecreateFailed),
            },
            _ => Action::Nothing,
        }
    }

    fn record(&mut self, index: u32, suboptimal: bool, test: &mut VertexFeed) -> (action: Action)
        ensures
            (final(self)@, action@) == old(self)@.record(index, suboptimal, final(test).vertices@),
            feed_after(
                old(self)@.can_record(index, old(test).vertices@.len()),
                *old(test),
                *final(test),
            ),
    {
        if suboptimal {
            self.recreate_swapchain = true;
        }
        if index as usize >= self.frame_buffers.len() {
            self.abort(FatalError::ImageIndexOutOfRange)
        } else if test.vertices.len() > u32::MAX as usize {
            self.abort(FatalError::TooManyVertices)
        } else {
            let vertices = test.get();
            let words = pack_vertices(&vertices);
            let commands = create_command_buffer(
                self.frame_buffers[index as usize],
                self.viewport,
                self.graphics_pipeline,
                vertices.len() as u32,
            );
            self.phase = Phase::Recording(index);
            Action::Record { image_index: index, commands, vertices: words }
        }
    }

    fn on_acquired(&mut self, outcome: AcquireOutcome, test: &mut VertexFeed) -> (action: Action)
        ensures
            (final(self)@, action@) == old(self)@.on_acquired(outcome, final(test).vertices@),
            feed_after(
                old(self)@.draws(EventView::Acquired(outcome), old(test).vertices@.len()),
                *old(test),
                *final(test),
            ),
    {
        match self.phase {
            Phase::Acquiring => match outcome {
                AcquireOutcome::Ready(index) => self.record(index, false, test),
                AcquireOutcome::Suboptimal(index) => self.record(index, true, test),
                AcquireOutcome::OutOfDate => {
                    self.recreate_swapchain = true;
                    self.end_tick()
                },
                AcquireOutcome::Failed => self.abort(FatalError::AcquireFailed),
            },
            _ => Action::Nothing,
        }
    }

    fn on_recorded(&mut self) -> (action: Action)
        ensures
            (final(self)@, action@) == old(self)@.on_recorded(),
    {
        match self.phase {
            Phase::Recording(index) => {
                let after = self.take_marker();
                self.phase = Phase::Submitted(index);
                Action::Submit { image_index: index, after }
            },
            _ => Action::Nothing,
        }
    }

    fn on_presented(&mut self, outcome: PresentOutcome) -> (action: Action)
        ensures
            (final(self)@, action@) == old(self)@.on_presented(outcome),
    {
        match self.phase {
            Phase::Submitted(_) => match outcome {
                PresentOutcome::Presented => {
                    self.previous_frame_end = Some(FrameMarker::InFlight);
                    self.end_tick()
                },
                PresentOutcome::OutOfDate => {
                    self.recreate_swapchain = true;
                    self.previous_frame_end = Some(FrameMarker::Now);
                    self.end_tick()
                },
                PresentOutcome::Failed => self.abort(FatalError::PresentFailed),
            },
            _ => Action::Nothing,
        }
    }

    /// Takes one event and answers with what to do next. `test` holds the
    /// points to draw. Where the answer is to record a frame, the points
    /// that have moved come to rest first, and what is uploaded is their
    /// positions then; any other answer leaves the points alone.
    pub fn event_handler(
        &mut self,
        event: Event,
        control_flow: &mut ControlFlow,
        test: &mut VertexFeed,
    ) -> (action: Action)
        ensures
            (final(self)@, action@) == old(self)@.step(event@, final(test).vertices@),
            feed_after(
                old(self)@.draws(event@, old(test).vertices@.len()),
                *old(test),
                *final(test),
            ),
            action@ is Record <==> old(self)@.draws(event@, old(test).vertices@.len()),
            *final(control_flow) == control_after(event@, *old(control_flow)),
            old(self)@.wf() ==> final(self)@.wf(),
    {
        let ghost before = self@;
        let ghost told = event@;
        let action = self.answer(event, control_flow, test);
        proof {
            if before.wf() {
                step_keeps_well_formed(before, told, test.vertices@);
            }
        }
        action
    }

    fn answer(&mut self, event: Event, control_flow: &mut ControlFlow, test: &mut VertexFeed) -> (action:
        Action)
        ensures
            (final(self)@, action@) == old(self)@.step(event@, final(test).vertices@),
            feed_after(
                old(self)@.draws(event@, old(test).vertices@.len()),
                *old(test),
                *final(test),
            ),
            action@ is Record <==> old(self)@.draws(event@, old(test).vertices@.len()),
            *final(control_flow) == control_after(event@, *old(control_flow)),
    {
        match event {
            Event::CloseRequested => {
                *control_flow = ControlFlow::Exit;
                self.on_close_requested()
            },
            Event::Resized => {
                match self.phase {
                    Phase::Closed => {},
                    _ => {
                        self.recreate_swapchain = true;
                    },
                }
                Action::Nothing
            },
            Event::RedrawEventsCleared { surface } => self.on_redraw(surface),
            Event::Recreated(outcome) => self.on_recreated(outcome),
            Event::Acquired(outcome) => self.on_acquired(outcome, test),
            Event::Recorded => self.on_recorded(),
            Event::Presented(outcome) => self.on_presented(outcome),
            Event::Other => Action::Nothing,
        }
    }
}

} // verus!
