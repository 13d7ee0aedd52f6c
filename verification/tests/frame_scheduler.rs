use gamess9::commands::{ClearColor, Command};
use gamess9::extent::Extent;
use gamess9::framebuffer::Framebuffer;
use gamess9::pipeline::{create_pipeline, create_render_pass, viewport_for, VertexLayout};
use gamess9::swapchain::{
    AcquireOutcome, Format, PresentMode, PresentOutcome, SwapchainCreateInfo, SwapchainImage,
};
use gamess9::vertex::{Vertex, VertexFeed};
use gamess9::vulkan::{
    Action, ControlFlow, Event, FatalError, FrameMarker, Phase, RecreateOutcome, Vulkan,
};

fn info(extent: Extent) -> SwapchainCreateInfo {
    SwapchainCreateInfo {
        min_image_count: 3,
        image_format: Format::B8G8R8A8Unorm,
        image_extent: extent,
        color_attachment: true,
        present_mode: PresentMode::Immediate,
    }
}

fn images(first: u64, count: u64, extent: Extent) -> Vec<SwapchainImage> {
    (0..count).map(|i| SwapchainImage { handle: first + i, extent }).collect()
}

fn engine(extent: Extent) -> Vulkan {
    Vulkan::new(info(extent), images(100, 3, extent), VertexLayout::Position).unwrap()
}

fn vertices(count: usize) -> VertexFeed {
    VertexFeed::new(vec![Vertex { position: [0, 0, 0, 0] }; count])
}

fn tell(engine: &mut Vulkan, event: Event, count: usize) -> Action {
    let mut control_flow = ControlFlow::Poll;
    engine.event_handler(event, &mut control_flow, &mut vertices(count))
}

fn tell_of(engine: &mut Vulkan, event: Event, feed: &mut VertexFeed) -> Action {
    let mut control_flow = ControlFlow::Poll;
    engine.event_handler(event, &mut control_flow, feed)
}

fn record(engine: &Vulkan, index: u32, count: u32) -> Action {
    Action::Record {
        image_index: index,
        commands: expected_commands(engine, index as usize, count),
        vertices: vec![0; 4 * count as usize],
    }
}

fn floats(x: f32, y: f32, z: f32, w: f32) -> Vertex {
    Vertex { position: [x.to_bits(), y.to_bits(), z.to_bits(), w.to_bits()] }
}

fn redraw(extent: Extent) -> Event {
    Event::RedrawEventsCleared { surface: extent }
}

fn expected_commands(engine: &Vulkan, index: usize, count: u32) -> Vec<Command> {
    if count == 0 {
        return vec![
            Command::BeginRenderPass {
                framebuffer: engine.frame_buffers[index],
                clear_color: ClearColor {
                    red: 0.0f32.to_bits(),
                    green: 0.0f32.to_bits(),
                    blue: 1.0f32.to_bits(),
                    alpha: 1.0f32.to_bits(),
                },
            },
            Command::SetViewport(engine.viewport),
            Command::BindPipelineGraphics(engine.graphics_pipeline),
            Command::EndRenderPass,
        ];
    }
    vec![
        Command::BeginRenderPass {
            framebuffer: engine.frame_buffers[index],
            clear_color: ClearColor {
                red: 0.0f32.to_bits(),
                green: 0.0f32.to_bits(),
                blue: 1.0f32.to_bits(),
                alpha: 1.0f32.to_bits(),
            },
        },
        Command::SetViewport(engine.viewport),
        Command::BindPipelineGraphics(engine.graphics_pipeline),
        Command::BindVertexBuffers { first_binding: 0 },
        Command::Draw { vertex_count: count, instance_count: 1, first_vertex: 0, first_instance: 0 },
        Command::EndRenderPass,
    ]
}

fn check_coherent(engine: &Vulkan) {
    let extent = engine.swapchain.image_extent;
    assert_eq!(engine.viewport, viewport_for(extent));
    assert_eq!(engine.graphics_pipeline.viewport, engine.viewport);
    assert_eq!(engine.render_pass, create_render_pass(engine.swapchain.image_format));
    assert_eq!(
        engine.graphics_pipeline,
        create_pipeline(engine.render_pass, engine.viewport, engine.layout)
    );
    assert_eq!(engine.frame_buffers.len(), engine.images.len());
    for (framebuffer, image) in engine.frame_buffers.iter().zip(engine.images.iter()) {
        assert_eq!(framebuffer.attachment, *image);
        assert_eq!(framebuffer.attachment.extent, extent);
        assert_eq!(framebuffer.render_pass, engine.render_pass);
    }
}

#[test]
fn new_engine_is_idle_with_nothing_to_wait_for() {
    let e = Extent::new(1280, 800);
    let engine = engine(e);
    assert_eq!(engine.phase, Phase::Idle);
    assert_eq!(engine.previous_frame_end, Some(FrameMarker::Now));
    assert!(!engine.recreate_swapchain);
    assert!(!engine.close_requested);
    assert_eq!(engine.swapchain, info(e));
    assert_eq!(engine.images, images(100, 3, e));
    check_coherent(&engine);
}

#[test]
fn new_engine_refuses_images_of_another_size() {
    let e = Extent::new(1280, 800);
    let wrong = images(1, 3, Extent::new(640, 480));
    assert_eq!(
        Vulkan::new(info(e), wrong, VertexLayout::Position).err(),
        Some(FatalError::ImagesMismatch)
    );
    assert_eq!(
        Vulkan::new(info(e), Vec::new(), VertexLayout::Position).err(),
        Some(FatalError::ImagesMismatch)
    );
}

#[test]
fn a_frame_runs_through_all_phases() {
    let e = Extent::new(1280, 800);
    let mut engine = engine(e);
    assert_eq!(tell(&mut engine, redraw(e), 4), Action::Acquire);
    assert_eq!(engine.phase, Phase::Acquiring);
    let action = tell(&mut engine, Event::Acquired(AcquireOutcome::Ready(2)), 4);
    assert_eq!(action, record(&engine, 2, 4));
    assert_eq!(engine.phase, Phase::Recording(2));
    assert_eq!(
        tell(&mut engine, Event::Recorded, 4),
        Action::Submit { image_index: 2, after: FrameMarker::Now }
    );
    assert_eq!(engine.phase, Phase::Submitted(2));
    assert_eq!(engine.previous_frame_end, None);
    assert_eq!(tell(&mut engine, Event::Presented(PresentOutcome::Presented), 4), Action::Nothing);
    assert_eq!(engine.phase, Phase::Idle);
    assert_eq!(engine.previous_frame_end, Some(FrameMarker::InFlight));
    assert!(!engine.recreate_swapchain);
}

#[test]
fn next_frame_waits_for_the_previous_one() {
    let e = Extent::new(64, 64);
    let mut engine = engine(e);
    for _ in 0..2 {
        tell(&mut engine, redraw(e), 1);
        tell(&mut engine, Event::Acquired(AcquireOutcome::Ready(0)), 1);
        tell(&mut engine, Event::Recorded, 1);
        tell(&mut engine, Event::Presented(PresentOutcome::Presented), 1);
    }
    tell(&mut engine, redraw(e), 1);
    tell(&mut engine, Event::Acquired(AcquireOutcome::Ready(1)), 1);
    assert_eq!(
        tell(&mut engine, Event::Recorded, 1),
        Action::Submit { image_index: 1, after: FrameMarker::InFlight }
    );
}

#[test]
fn draw_covers_exactly_the_vertices_there_are() {
    let e = Extent::new(64, 64);
    for count in [1usize, 4, 1000] {
        let mut engine = engine(e);
        tell(&mut engine, redraw(e), count);
        match tell(&mut engine, Event::Acquired(AcquireOutcome::Ready(0)), count) {
            Action::Record { commands, vertices, .. } => {
                assert_eq!(vertices.len(), 4 * count);
                let draws: Vec<&Command> =
                    commands.iter().filter(|c| matches!(c, Command::Draw { .. })).collect();
                assert_eq!(
                    draws,
                    vec![&Command::Draw {
                        vertex_count: count as u32,
                        instance_count: 1,
                        first_vertex: 0,
                        first_instance: 0
                    }]
                );
            }
            other => panic!("no commands: {:?}", other),
        }
    }
}

#[test]
fn minimised_window_skips_the_tick() {
    let mut engine = engine(Extent::new(64, 64));
    for surface in [Extent::new(0, 64), Extent::new(64, 0), Extent::new(0, 0)] {
        assert_eq!(tell(&mut engine, redraw(surface), 1), Action::Nothing);
        assert_eq!(engine.phase, Phase::Idle);
        assert_eq!(engine.previous_frame_end, Some(FrameMarker::Now));
    }
    tell(&mut engine, Event::Resized, 1);
    assert_eq!(tell(&mut engine, redraw(Extent::new(0, 0)), 1), Action::Nothing);
    assert!(engine.recreate_swapchain);
    assert_eq!(engine.phase, Phase::Idle);
}

#[test]
fn out_of_date_acquire_draws_nothing() {
    let e = Extent::new(64, 64);
    let mut engine = engine(e);
    tell(&mut engine, redraw(e), 4);
    assert_eq!(tell(&mut engine, Event::Acquired(AcquireOutcome::OutOfDate), 4), Action::Nothing);
    assert_eq!(engine.phase, Phase::Idle);
    assert!(engine.recreate_swapchain);
    assert_eq!(engine.previous_frame_end, Some(FrameMarker::Now));
    assert_eq!(tell(&mut engine, Event::Recorded, 4), Action::Nothing);
    assert_eq!(tell(&mut engine, Event::Presented(PresentOutcome::Presented), 4), Action::Nothing);
    assert_eq!(engine.phase, Phase::Idle);
}

#[test]
fn suboptimal_acquire_draws_and_recreates_next_tick() {
    let e = Extent::new(64, 64);
    let mut engine = engine(e);
    tell(&mut engine, redraw(e), 2);
    let action = tell(&mut engine, Event::Acquired(AcquireOutcome::Suboptimal(1)), 2);
    assert_eq!(action, record(&engine, 1, 2));
    assert!(engine.recreate_swapchain);
    tell(&mut engine, Event::Recorded, 2);
    tell(&mut engine, Event::Presented(PresentOutcome::Presented), 2);
    assert_eq!(engine.phase, Phase::Idle);
    let bigger = Extent::new(128, 96);
    assert_eq!(
        tell(&mut engine, redraw(bigger), 2),
        Action::Recreate(SwapchainCreateInfo { image_extent: bigger, ..info(e) })
    );
    assert_eq!(engine.phase, Phase::Recreating(bigger));
}

#[test]
fn resize_rebuilds_everything_for_the_new_size() {
    let e = Extent::new(1280, 800);
    let bigger = Extent::new(1920, 1080);
    let mut engine = engine(e);
    assert_eq!(tell(&mut engine, Event::Resized, 3), Action::Nothing);
    assert!(engine.recreate_swapchain);
    assert_eq!(
        tell(&mut engine, redraw(bigger), 3),
        Action::Recreate(SwapchainCreateInfo { image_extent: bigger, ..info(e) })
    );
    let recreated = images(200, 4, bigger);
    assert_eq!(
        tell(&mut engine, Event::Recreated(RecreateOutcome::Recreated(recreated.clone())), 3),
        Action::Acquire
    );
    assert!(!engine.recreate_swapchain);
    assert_eq!(engine.swapchain, SwapchainCreateInfo { image_extent: bigger, ..info(e) });
    assert_eq!(engine.images, recreated);
    assert_eq!(engine.viewport.dimensions, bigger);
    assert_eq!(engine.graphics_pipeline.viewport.dimensions, bigger);
    assert_eq!(engine.frame_buffers.len(), 4);
    check_coherent(&engine);
    let action = tell(&mut engine, Event::Acquired(AcquireOutcome::Ready(3)), 3);
    let framebuffer = Framebuffer { render_pass: engine.render_pass, attachment: recreated[3] };
    assert_eq!(engine.frame_buffers[3], framebuffer);
    assert_eq!(action, record(&engine, 3, 3));
}

#[test]
fn unsupported_extent_is_tried_again_next_tick() {
    let e = Extent::new(64, 64);
    let other = Extent::new(65, 64);
    let mut engine = engine(e);
    tell(&mut engine, Event::Resized, 1);
    tell(&mut engine, redraw(other), 1);
    assert_eq!(
        tell(&mut engine, Event::Recreated(RecreateOutcome::ExtentNotSupported), 1),
        Action::Nothing
    );
    assert_eq!(engine.phase, Phase::Idle);
    assert!(engine.recreate_swapchain);
    assert_eq!(engine.swapchain, info(e));
    check_coherent(&engine);
    let settled = Extent::new(70, 64);
    assert_eq!(
        tell(&mut engine, redraw(settled), 1),
        Action::Recreate(SwapchainCreateInfo { image_extent: settled, ..info(e) })
    );
}

#[test]
fn out_of_date_present_falls_back_to_nothing_to_wait_for() {
    let e = Extent::new(64, 64);
    let mut engine = engine(e);
    tell(&mut engine, redraw(e), 1);
    tell(&mut engine, Event::Acquired(AcquireOutcome::Ready(0)), 1);
    tell(&mut engine, Event::Recorded, 1);
    assert_eq!(tell(&mut engine, Event::Presented(PresentOutcome::OutOfDate), 1), Action::Nothing);
    assert_eq!(engine.phase, Phase::Idle);
    assert!(engine.recreate_swapchain);
    assert_eq!(engine.previous_frame_end, Some(FrameMarker::Now));
}

#[test]
fn other_failures_are_fatal() {
    let e = Extent::new(64, 64);

    let mut a = engine(e);
    tell(&mut a, redraw(e), 1);
    assert_eq!(
        tell(&mut a, Event::Acquired(AcquireOutcome::Failed), 1),
        Action::Abort(FatalError::AcquireFailed)
    );
    assert_eq!(a.phase, Phase::Closed);

    let mut b = engine(e);
    tell(&mut b, redraw(e), 1);
    tell(&mut b, Event::Acquired(AcquireOutcome::Ready(0)), 1);
    tell(&mut b, Event::Recorded, 1);
    assert_eq!(
        tell(&mut b, Event::Presented(PresentOutcome::Failed), 1),
        Action::Abort(FatalError::PresentFailed)
    );

    let mut c = engine(e);
    tell(&mut c, Event::Resized, 1);
    tell(&mut c, redraw(e), 1);
    assert_eq!(
        tell(&mut c, Event::Recreated(RecreateOutcome::Failed), 1),
        Action::Abort(FatalError::RecreateFailed)
    );

    let mut d = engine(e);
    tell(&mut d, Event::Resized, 1);
    tell(&mut d, redraw(e), 1);
    let wrong = images(1, 3, Extent::new(1, 1));
    assert_eq!(
        tell(&mut d, Event::Recreated(RecreateOutcome::Recreated(wrong)), 1),
        Action::Abort(FatalError::ImagesMismatch)
    );

    let mut f = engine(e);
    tell(&mut f, redraw(e), 1);
    assert_eq!(
        tell(&mut f, Event::Acquired(AcquireOutcome::Ready(3)), 1),
        Action::Abort(FatalError::ImageIndexOutOfRange)
    );
    assert_eq!(tell(&mut f, redraw(e), 1), Action::Nothing);
    assert_eq!(f.phase, Phase::Closed);
}

#[test]
fn close_request_between_ticks_drains_the_last_frame() {
    let e = Extent::new(64, 64);
    let mut engine = engine(e);
    tell(&mut engine, redraw(e), 1);
    tell(&mut engine, Event::Acquired(AcquireOutcome::Ready(0)), 1);
    tell(&mut engine, Event::Recorded, 1);
    tell(&mut engine, Event::Presented(PresentOutcome::Presented), 1);
    let mut control_flow = ControlFlow::Poll;
    let action = engine.event_handler(Event::CloseRequested, &mut control_flow, &mut vertices(1));
    assert_eq!(action, Action::Drain(FrameMarker::InFlight));
    assert_eq!(control_flow, ControlFlow::Exit);
    assert_eq!(engine.phase, Phase::Closed);
    assert_eq!(tell(&mut engine, redraw(e), 1), Action::Nothing);
}

#[test]
fn close_request_within_a_tick_waits_for_its_end() {
    let e = Extent::new(64, 64);
    let mut engine = engine(e);
    tell(&mut engine, redraw(e), 1);
    let mut control_flow = ControlFlow::Wait;
    let action = engine.event_handler(Event::CloseRequested, &mut control_flow, &mut vertices(1));
    assert_eq!(action, Action::Nothing);
    assert_eq!(control_flow, ControlFlow::Exit);
    assert_eq!(engine.phase, Phase::Acquiring);
    tell(&mut engine, Event::Acquired(AcquireOutcome::Ready(0)), 1);
    tell(&mut engine, Event::Recorded, 1);
    assert_eq!(
        tell(&mut engine, Event::Presented(PresentOutcome::Presented), 1),
        Action::Drain(FrameMarker::InFlight)
    );
    assert_eq!(engine.phase, Phase::Closed);
}

#[test]
fn other_events_leave_control_flow_and_state_alone() {
    let e = Extent::new(64, 64);
    let mut engine = engine(e);
    let mut control_flow = ControlFlow::Wait;
    assert_eq!(
        engine.event_handler(Event::Other, &mut control_flow, &mut vertices(1)),
        Action::Nothing
    );
    assert_eq!(control_flow, ControlFlow::Wait);
    assert_eq!(engine.phase, Phase::Idle);
    assert_eq!(tell(&mut engine, Event::Recorded, 1), Action::Nothing);
    assert_eq!(tell(&mut engine, Event::Acquired(AcquireOutcome::Ready(0)), 1), Action::Nothing);
    assert_eq!(engine.phase, Phase::Idle);
}

#[test]
fn window_size_dependent_setup_follows_the_first_image() {
    let e = Extent::new(64, 64);
    let bigger = Extent::new(640, 480);
    let mut engine = engine(e);
    let recreated = images(7, 2, bigger);
    let framebuffers = engine.window_size_dependent_setup(&recreated);
    assert_eq!(engine.viewport, viewport_for(bigger));
    assert_eq!(engine.graphics_pipeline.viewport, viewport_for(bigger));
    assert_eq!(
        framebuffers,
        vec![
            Framebuffer { render_pass: engine.render_pass, attachment: recreated[0] },
            Framebuffer { render_pass: engine.render_pass, attachment: recreated[1] },
        ]
    );
}

#[test]
fn ten_thousand_ticks_keep_exactly_one_marker() {
    let mut extent = Extent::new(640, 480);
    let mut engine = engine(extent);
    let mut seed: u32 = 12345;
    let mut handle: u64 = 1000;
    for tick in 0..10_000u32 {
        seed = seed.wrapping_mul(1_664_525).wrapping_add(1_013_904_223);
        let roll = (seed >> 16) % 16;
        if roll == 0 {
            extent = Extent::new(320 + (seed % 640), 240 + ((seed >> 8) % 480));
            tell(&mut engine, Event::Resized, 4);
        }
        let surface = if roll == 1 { Extent::new(0, 0) } else { extent };
        let mut draws = 0;
        let mut acquired_out_of_date = false;
        let mut action = tell(&mut engine, redraw(surface), 4);
        loop {
            let event = match action {
                Action::Nothing => break,
                Action::Recreate(create_info) => {
                    assert_eq!(create_info.image_extent, surface);
                    if roll == 2 {
                        Event::Recreated(RecreateOutcome::ExtentNotSupported)
                    } else {
                        handle += 3;
                        Event::Recreated(RecreateOutcome::Recreated(images(handle, 3, surface)))
                    }
                }
                Action::Acquire => match roll {
                    3 => {
                        acquired_out_of_date = true;
                        Event::Acquired(AcquireOutcome::OutOfDate)
                    }
                    4 => Event::Acquired(AcquireOutcome::Suboptimal(tick % 3)),
                    _ => Event::Acquired(AcquireOutcome::Ready(tick % 3)),
                },
                Action::Record { image_index, commands, vertices } => {
                    draws += 1;
                    assert!(!acquired_out_of_date);
                    assert_eq!(vertices, vec![0; 16]);
                    assert_eq!(commands, expected_commands(&engine, image_index as usize, 4));
                    assert_eq!(engine.viewport.dimensions, engine.swapchain.image_extent);
                    Event::Recorded
                }
                Action::Submit { .. } => {
                    assert_eq!(engine.previous_frame_end, None);
                    if roll == 5 {
                        Event::Presented(PresentOutcome::OutOfDate)
                    } else {
                        Event::Presented(PresentOutcome::Presented)
                    }
                }
                other => panic!("unexpected action {:?}", other),
            };
            action = tell(&mut engine, event, 4);
        }
        assert!(draws <= 1);
        assert_eq!(engine.phase, Phase::Idle);
        assert!(engine.previous_frame_end.is_some());
        check_coherent(&engine);
    }
}

#[test]
fn two_frames_after_a_resize_draw_at_the_surface_size() {
    let e = Extent::new(640, 480);
    let bigger = Extent::new(800, 600);
    let mut engine = engine(e);
    tell(&mut engine, Event::Resized, 1);
    for frame in 0..2u64 {
        let mut action = tell(&mut engine, redraw(bigger), 1);
        if let Action::Recreate(_) = action {
            let recreated = images(10 * (frame + 1), 3, bigger);
            action = tell(&mut engine, Event::Recreated(RecreateOutcome::Recreated(recreated)), 1);
        }
        assert_eq!(action, Action::Acquire);
        match tell(&mut engine, Event::Acquired(AcquireOutcome::Ready(0)), 1) {
            Action::Record { commands, .. } => {
                assert_eq!(commands[1], Command::SetViewport(viewport_for(bigger)));
                match commands[0] {
                    Command::BeginRenderPass { framebuffer, .. } => {
                        assert_eq!(framebuffer.attachment.extent, bigger)
                    }
                    other => panic!("unexpected command {:?}", other),
                }
                match commands[2] {
                    Command::BindPipelineGraphics(pipeline) => {
                        assert_eq!(pipeline.viewport, viewport_for(bigger))
                    }
                    other => panic!("unexpected command {:?}", other),
                }
            }
            other => panic!("unexpected action {:?}", other),
        }
        tell(&mut engine, Event::Recorded, 1);
        tell(&mut engine, Event::Presented(PresentOutcome::Presented), 1);
    }
    assert_eq!(engine.swapchain.image_extent, bigger);
    check_coherent(&engine);
}

#[test]
fn frame_without_points_binds_and_draws_nothing() {
    let e = Extent::new(64, 64);
    let mut engine = engine(e);
    tell(&mut engine, redraw(e), 0);
    let action = tell(&mut engine, Event::Acquired(AcquireOutcome::Ready(1)), 0);
    match &action {
        Action::Record { commands, vertices, .. } => {
            assert!(vertices.is_empty());
            assert_eq!(commands.len(), 4);
            assert!(!commands.iter().any(|c| matches!(c, Command::Draw { .. })));
            assert!(!commands.iter().any(|c| matches!(c, Command::BindVertexBuffers { .. })));
            assert!(matches!(commands[0], Command::BeginRenderPass { .. }));
            assert_eq!(commands[3], Command::EndRenderPass);
        }
        other => panic!("unexpected action {:?}", other),
    }
    assert_eq!(action, record(&engine, 1, 0));
    assert_eq!(
        tell(&mut engine, Event::Recorded, 0),
        Action::Submit { image_index: 1, after: FrameMarker::Now }
    );
}

#[test]
fn tick_uploads_the_points_as_they_come_to_rest() {
    let e = Extent::new(64, 64);
    let mut engine = engine(e);
    let mut feed = VertexFeed::new(vec![floats(1.0, 0.0, 0.25, 0.5), floats(-1.0, 0.5, 7.0, -3.0)]);
    feed.moved = vec![
        ((1.0f32 + 0.01f32).to_bits(), 0.0f32.to_bits()),
        ((-1.0f32 - 0.01f32).to_bits(), 0.75f32.to_bits()),
    ];
    assert_eq!(tell_of(&mut engine, redraw(e), &mut feed), Action::Acquire);
    match tell_of(&mut engine, Event::Acquired(AcquireOutcome::Ready(0)), &mut feed) {
        Action::Record { vertices, commands, .. } => {
            let uploaded: Vec<f32> = vertices.iter().map(|w| f32::from_bits(*w)).collect();
            assert_eq!(uploaded, vec![-1.0, 0.0, 0.25, 0.5, 1.0, 0.75, 7.0, -3.0]);
            assert_eq!(
                commands[4],
                Command::Draw { vertex_count: 2, instance_count: 1, first_vertex: 0, first_instance: 0 }
            );
        }
        other => panic!("unexpected action {:?}", other),
    }
    assert_eq!(feed.vertices, vec![floats(-1.0, 0.0, 0.25, 0.5), floats(1.0, 0.75, 7.0, -3.0)]);
    assert!(feed.moved.is_empty());
}

#[test]
fn points_are_left_alone_where_nothing_is_recorded() {
    let e = Extent::new(64, 64);
    let mut engine = engine(e);
    let start = vec![floats(0.5, 0.5, 0.0, 1.0)];
    let targets = vec![(2.0f32.to_bits(), (-2.0f32).to_bits())];
    let mut feed = VertexFeed { vertices: start.clone(), moved: targets.clone() };
    tell_of(&mut engine, redraw(Extent::new(0, 0)), &mut feed);
    tell_of(&mut engine, Event::Resized, &mut feed);
    tell_of(&mut engine, Event::Recorded, &mut feed);
    tell_of(&mut engine, redraw(e), &mut feed);
    tell_of(&mut engine, Event::Recreated(RecreateOutcome::ExtentNotSupported), &mut feed);
    tell_of(&mut engine, redraw(e), &mut feed);
    tell_of(&mut engine, Event::Recreated(RecreateOutcome::Recreated(images(1, 3, e))), &mut feed);
    assert_eq!(
        tell_of(&mut engine, Event::Acquired(AcquireOutcome::OutOfDate), &mut feed),
        Action::Nothing
    );
    assert_eq!(feed, VertexFeed { vertices: start.clone(), moved: targets.clone() });
    tell_of(&mut engine, redraw(e), &mut feed);
    tell_of(&mut engine, Event::Recreated(RecreateOutcome::Recreated(images(4, 3, e))), &mut feed);
    assert_eq!(
        tell_of(&mut engine, Event::Acquired(AcquireOutcome::Ready(9)), &mut feed),
        Action::Abort(FatalError::ImageIndexOutOfRange)
    );
    assert_eq!(feed, VertexFeed { vertices: start, moved: targets });
}

#[test]
fn drifting_points_stay_within_bounds_over_many_ticks() {
    let e = Extent::new(64, 64);
    let mut engine = engine(e);
    let mut feed = VertexFeed::new(vec![
        floats(-0.5, -0.5, 0.0, 1.0),
        floats(0.5, -0.5, 2.0, 1.0),
        floats(0.5, 0.5, 0.0, 3.0),
        floats(-0.5, 0.5, 4.0, 5.0),
    ]);
    let kept: Vec<(u32, u32)> = feed.vertices.iter().map(|v| (v.position[2], v.position[3])).collect();
    for tick in 0..2_000u32 {
        feed.moved = feed
            .vertices
            .iter()
            .map(|v| {
                let x = f32::from_bits(v.position[0]) + 0.013;
                let y = f32::from_bits(v.position[1]) - 0.007 * (1 + tick % 3) as f32;
                (x.to_bits(), y.to_bits())
            })
            .collect();
        tell_of(&mut engine, redraw(e), &mut feed);
        match tell_of(&mut engine, Event::Acquired(AcquireOutcome::Ready(tick % 3)), &mut feed) {
            Action::Record { vertices, .. } => {
                assert_eq!(vertices.len(), 16);
                for (point, words) in vertices.chunks(4).enumerate() {
                    let x = f32::from_bits(words[0]);
                    let y = f32::from_bits(words[1]);
                    assert!(-1.0 <= x && x <= 1.0);
                    assert!(-1.0 <= y && y <= 1.0);
                    assert_eq!((words[2], words[3]), kept[point]);
                }
            }
            other => panic!("unexpected action {:?}", other),
        }
        tell_of(&mut engine, Event::Recorded, &mut feed);
        tell_of(&mut engine, Event::Presented(PresentOutcome::Presented), &mut feed);
    }
}
