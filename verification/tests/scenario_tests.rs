use imperium::app::{collect_window_signals, loop_instruction, maintain_surface, LoopInstruction};
use imperium::command::Encoder;
use imperium::device::{
    AdapterInfo, Device, Instance, SurfaceCaps, MEMORY_CPU_VISIBLE, MEMORY_DEVICE_LOCAL,
};
use imperium::input::Event;
use imperium::render::{Graphics, Surface, WindowSurface};
use imperium::spatial::pass::SpatialPass;
use imperium::types::{Color, Extent2d};

fn graphics_640_480() -> Graphics {
    let mut instance = Instance::create("scenario");
    let device = Device::create(
        &mut instance,
        AdapterInfo {
            memory_types: vec![MEMORY_DEVICE_LOCAL, MEMORY_CPU_VISIBLE],
            min_buffer_copy_pitch_alignment: 64,
            formats: None,
            caps: SurfaceCaps {
                min_image_count: 2,
                max_image_count: 2,
                min_extent: Extent2d { width: 1, height: 1 },
                max_extent: Extent2d { width: 4096, height: 4096 },
            },
        },
    )
    .unwrap();
    let surface =
        Surface::create(WindowSurface::create(Extent2d { width: 640, height: 480 }), &device);
    Graphics::create(device, surface)
}

#[test]
fn frame_loop_survives_a_resize_and_matches_the_new_size() {
    // Create device + 2-image swapchain.
    let mut graphics = graphics_640_480();
    assert_eq!(graphics.render_surface.swapchain.image_count, 2);
    let mut pass = SpatialPass::new(&mut graphics).unwrap();

    // Acquire frame 0, submit an empty draw, present.
    let frame = pass.next(&mut graphics).unwrap();
    assert_eq!(frame.frame_index, 0);
    let (presented, _) = frame.begin_render(
        &mut pass.frame_aggregator,
        &mut graphics,
        &pass.pass,
        Color::black(),
        Encoder::new(),
    );
    assert!(presented);

    // A resize arrives from the event collector: the surface goes
    // invalid.
    let signals = collect_window_signals(&vec![Event::Resized { width: 1280, height: 720 }]);
    assert!(signals.should_invalidate);
    assert!(!signals.should_terminate);
    graphics.render_surface.invalidate();
    assert!(!graphics.render_surface.is_valid);

    // Surface maintenance before the next frame rebuilds the swapchain
    // for the new window size.
    maintain_surface(
        &mut graphics.render_surface,
        &mut graphics.device,
        Extent2d { width: 1280, height: 720 },
    );
    assert!(graphics.render_surface.is_valid);
    assert!(graphics.render_surface.did_rebuild);

    // The next acquire reacts to the rebuild and hands out a frame whose
    // viewport extent exactly matches the new window size.
    let frame = pass.next(&mut graphics).unwrap();
    assert!(!graphics.render_surface.did_rebuild);
    assert_eq!(frame.frame_index, 0);
    assert_eq!(
        graphics.render_surface.extent,
        Extent2d { width: 1280, height: 720 }
    );
    assert_eq!(graphics.render_surface.viewport.width, 1280);
    assert_eq!(graphics.render_surface.viewport.height, 720);
    let (presented, _) = frame.begin_render(
        &mut pass.frame_aggregator,
        &mut graphics,
        &pass.pass,
        Color::black(),
        Encoder::new(),
    );
    assert!(presented);

    // A close request ends the loop.
    let signals = collect_window_signals(&vec![Event::CloseRequested]);
    assert_eq!(loop_instruction(signals.should_terminate), LoopInstruction::Exit);
    assert_eq!(loop_instruction(false), LoopInstruction::Continue);
}

#[test]
fn acquire_failure_invalidates_for_a_rebuild_next_tick() {
    let mut graphics = graphics_640_480();
    let mut pass = SpatialPass::new(&mut graphics).unwrap();
    graphics.render_surface.invalidate();
    // No frame this tick: not an error, the caller just skips rendering.
    assert!(pass.next(&mut graphics).is_none());
    assert!(!graphics.render_surface.is_valid);
}
