use imperium::command::{Encoder, Frame, FrameAggregator};
use imperium::device::{
    AdapterInfo, Device, Instance, SurfaceCaps, MEMORY_CPU_VISIBLE, MEMORY_DEVICE_LOCAL,
};
use imperium::render::{Graphics, RenderPass, Surface, WindowSurface, STD_DEPTH_FORMAT};
use imperium::types::{Color, Extent2d};

fn graphics_with_images(min_images: u32, max_images: u32) -> Graphics {
    let mut instance = Instance::create("test");
    let device = Device::create(
        &mut instance,
        AdapterInfo {
            memory_types: vec![MEMORY_DEVICE_LOCAL, MEMORY_CPU_VISIBLE],
            min_buffer_copy_pitch_alignment: 64,
            formats: None,
            caps: SurfaceCaps {
                min_image_count: min_images,
                max_image_count: max_images,
                min_extent: Extent2d { width: 1, height: 1 },
                max_extent: Extent2d { width: 4096, height: 4096 },
            },
        },
    )
    .unwrap();
    let surface = Surface::create(WindowSurface::create(Extent2d { width: 64, height: 64 }), &device);
    Graphics::create(device, surface)
}

fn aggregator_for(graphics: &mut Graphics) -> FrameAggregator {
    let pass = RenderPass::create_basic(&graphics.device);
    FrameAggregator::create(&pass, Some(STD_DEPTH_FORMAT), graphics).unwrap()
}

#[test]
fn aggregator_has_one_slot_per_swapchain_image() {
    let mut graphics = graphics_with_images(2, 2);
    let aggregator = aggregator_for(&mut graphics);
    assert_eq!(aggregator.framebuffers.len(), 2);
    assert_eq!(aggregator.command_pools.len(), 2);
    assert_eq!(aggregator.framebuffer_fences.len(), 2);
    assert_eq!(aggregator.acquire_semaphores.len(), 2);
    assert_eq!(aggregator.present_semaphores.len(), 2);
    // Fences are created signaled so the first wait never blocks.
    assert!(aggregator.framebuffer_fences[0].signaled);
    assert!(aggregator.framebuffer_fences[1].signaled);
}

#[test]
fn acquire_prepares_the_slot_before_reuse() {
    let mut graphics = graphics_with_images(2, 2);
    let mut aggregator = aggregator_for(&mut graphics);

    let frame = aggregator.acquire_next(&mut graphics).unwrap();
    assert_eq!(frame.frame_index, 0);
    assert_eq!(frame.semaphore_index, 0);
    // The fence was waited on and cleared, and only then the pool reset.
    assert!(!aggregator.framebuffer_fences[0].signaled);
    assert_eq!(aggregator.command_pools[0].resets, 1);
    assert!(!aggregator.command_pools[0].in_flight);
    assert!(aggregator.acquire_semaphores[0].pending);
}

#[test]
fn frame_slot_exclusivity_across_n_plus_one_acquires() {
    let mut graphics = graphics_with_images(2, 2);
    let mut aggregator = aggregator_for(&mut graphics);
    let pass = RenderPass::create_basic(&graphics.device);

    // Three consecutive acquires on a two-slot aggregator: the third
    // reuses slot zero.
    let f0 = aggregator.acquire_next(&mut graphics).unwrap();
    assert!(f0.begin_render(&mut aggregator, &mut graphics, &pass, Color::black(), Encoder::new()).0);
    let f1 = aggregator.acquire_next(&mut graphics).unwrap();
    assert!(f1.begin_render(&mut aggregator, &mut graphics, &pass, Color::black(), Encoder::new()).0);
    assert_eq!(f0.frame_index, 0);
    assert_eq!(f1.frame_index, 1);
    // Slot zero's submission is in flight, its fence signaled by the
    // retired work.
    assert!(aggregator.command_pools[0].in_flight);
    assert!(aggregator.framebuffer_fences[0].signaled);
    assert_eq!(aggregator.command_pools[0].resets, 1);

    let f2 = aggregator.acquire_next(&mut graphics).unwrap();
    assert_eq!(f2.frame_index, 0);
    assert_eq!(f2.semaphore_index, 0);
    // The reused slot's fence was waited on and cleared, and its pool
    // reset, before the slot was handed out again.
    assert!(!aggregator.command_pools[0].in_flight);
    assert!(!aggregator.framebuffer_fences[0].signaled);
    assert_eq!(aggregator.command_pools[0].resets, 2);
}

#[test]
fn submission_pairs_the_semaphores_and_presents() {
    let mut graphics = graphics_with_images(2, 2);
    let mut aggregator = aggregator_for(&mut graphics);
    let pass = RenderPass::create_basic(&graphics.device);

    let frame = aggregator.acquire_next(&mut graphics).unwrap();
    let si = frame.semaphore_index;
    assert!(aggregator.acquire_semaphores[si].pending);
    let flights = graphics.device.submissions_in_flight;

    let (presented, _) = frame.begin_render(&mut aggregator, &mut graphics, &pass, Color::black(), Encoder::new());
    assert!(presented);
    // The submission consumed the acquire semaphore, the presentation
    // consumed the present semaphore.
    assert!(!aggregator.acquire_semaphores[si].pending);
    assert!(!aggregator.present_semaphores[si].pending);
    assert!(aggregator.framebuffer_fences[frame.frame_index].signaled);
    assert_eq!(graphics.device.submissions_in_flight, flights + 1);
}

#[test]
fn acquire_yields_no_frame_on_an_invalid_surface() {
    let mut graphics = graphics_with_images(2, 2);
    let mut aggregator = aggregator_for(&mut graphics);
    graphics.render_surface.invalidate();
    assert!(aggregator.acquire_next(&mut graphics).is_none());
}

#[test]
fn presentation_failure_is_a_boolean_not_an_error() {
    let mut graphics = graphics_with_images(2, 2);
    let mut aggregator = aggregator_for(&mut graphics);
    let pass = RenderPass::create_basic(&graphics.device);
    let frame = aggregator.acquire_next(&mut graphics).unwrap();
    // The surface goes out of date between acquire and present.
    graphics.render_surface.invalidate();
    let (presented, _) = frame.begin_render(&mut aggregator, &mut graphics, &pass, Color::black(), Encoder::new());
    assert!(!presented);
}

#[test]
fn image_and_semaphore_indices_rotate_independently() {
    let mut graphics = graphics_with_images(3, 3);
    let mut aggregator = aggregator_for(&mut graphics);
    let pass = RenderPass::create_basic(&graphics.device);
    let mut image_order = Vec::new();
    let mut pair_order = Vec::new();
    for _ in 0..6 {
        let frame = aggregator.acquire_next(&mut graphics).unwrap();
        image_order.push(frame.frame_index);
        pair_order.push(frame.semaphore_index);
        assert!(frame.begin_render(&mut aggregator, &mut graphics, &pass, Color::black(), Encoder::new()).0);
    }
    assert_eq!(image_order, vec![0, 1, 2, 0, 1, 2]);
    assert_eq!(pair_order, vec![0, 1, 2, 0, 1, 2]);
}

#[test]
fn command_buffer_records_the_pass_frame() {
    let mut graphics = graphics_with_images(2, 2);
    let aggregator = aggregator_for(&mut graphics);
    let pass = RenderPass::create_basic(&graphics.device);

    let mut cmd = imperium::command::CommandBuffer::new(&aggregator.command_pools[0]);
    let encoder = cmd.begin_draw(
        &aggregator.framebuffers[1],
        &pass,
        &graphics.render_surface,
        Color::white(),
    );
    cmd.end_pass(encoder);
    cmd.finish();
    assert!(cmd.finished);
    assert_eq!(cmd.commands.len(), 4);
    match &cmd.commands[2] {
        imperium::command::Command::BeginRenderPass { framebuffer, clear_color } => {
            assert_eq!(*framebuffer, 1);
            assert_eq!(*clear_color, Color::white());
        }
        other => panic!("unexpected command: {:?}", other),
    }
    assert_eq!(cmd.commands[3], imperium::command::Command::EndRenderPass);
    let _ = Frame::new(0, 0);
}
