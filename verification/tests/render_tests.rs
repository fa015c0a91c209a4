use imperium::buffer::ImageLayout;
use imperium::device::{
    AdapterInfo, Device, Format, Instance, SurfaceCaps, MEMORY_CPU_VISIBLE, MEMORY_DEVICE_LOCAL,
};
use imperium::render::{
    words_to_le_bytes, Mat4, RenderTransform, Surface, SwapchainConfig, WindowSurface,
    FLOAT_ONE_BITS, STD_DEPTH_FORMAT,
};
use imperium::types::Extent2d;

fn caps(min_images: u32, max_images: u32) -> SurfaceCaps {
    SurfaceCaps {
        min_image_count: min_images,
        max_image_count: max_images,
        min_extent: Extent2d { width: 16, height: 16 },
        max_extent: Extent2d { width: 4096, height: 4096 },
    }
}

fn test_device(surface_caps: SurfaceCaps) -> Device {
    let mut instance = Instance::create("test");
    Device::create(
        &mut instance,
        AdapterInfo {
            memory_types: vec![MEMORY_DEVICE_LOCAL, MEMORY_CPU_VISIBLE],
            min_buffer_copy_pitch_alignment: 64,
            formats: None,
            caps: surface_caps,
        },
    )
    .unwrap()
}

#[test]
fn swapchain_config_prefers_double_buffering() {
    let cfg = SwapchainConfig::from_caps(
        &caps(2, 3),
        Format::Rgba8Srgb,
        Extent2d { width: 800, height: 600 },
    );
    assert_eq!(cfg.image_count, 2);
    assert_eq!(cfg.extent, Extent2d { width: 800, height: 600 });

    // The bounds win when they exclude two images.
    assert_eq!(
        SwapchainConfig::from_caps(&caps(3, 4), Format::Rgba8Srgb, Extent2d { width: 32, height: 32 })
            .image_count,
        3
    );
    assert_eq!(
        SwapchainConfig::from_caps(&caps(1, 1), Format::Rgba8Srgb, Extent2d { width: 32, height: 32 })
            .image_count,
        1
    );
}

#[test]
fn swapchain_extent_is_clamped_to_the_supported_range() {
    let cfg = SwapchainConfig::from_caps(
        &caps(2, 3),
        Format::Rgba8Srgb,
        Extent2d { width: 8, height: 9000 },
    );
    assert_eq!(cfg.extent, Extent2d { width: 16, height: 4096 });
}

#[test]
fn surface_creation_is_valid_and_not_just_rebuilt() {
    let device = test_device(caps(2, 3));
    let surface = Surface::create(WindowSurface::create(Extent2d { width: 640, height: 480 }), &device);
    assert!(surface.is_valid);
    assert!(!surface.did_rebuild);
    assert_eq!(surface.swapchain.image_count, 2);
    assert_eq!(surface.extent, Extent2d { width: 640, height: 480 });
    assert_eq!(surface.viewport.width, 640);
    assert_eq!(surface.viewport.height, 480);
    assert_eq!(surface.backbuffer, Some(2));
}

#[test]
fn rebuild_waits_idle_revalidates_and_sets_the_one_shot_flag() {
    let mut device = test_device(caps(2, 3));
    let mut surface =
        Surface::create(WindowSurface::create(Extent2d { width: 640, height: 480 }), &device);
    surface.invalidate();
    assert!(!surface.is_valid);

    device.submissions_in_flight = 5;
    surface.rebuild(Extent2d { width: 1024, height: 768 }, &mut device);
    // The device idled before the old swapchain was destroyed.
    assert_eq!(device.submissions_in_flight, 0);
    assert!(surface.is_valid);
    assert!(surface.did_rebuild);
    assert_eq!(surface.extent, Extent2d { width: 1024, height: 768 });
    assert_eq!(surface.swapchain.next_image, 0);
    assert_eq!(surface.swapchain.generation, 1);

    // Exactly one read of the flag observes the rebuild.
    assert!(surface.consume_rebuilt());
    assert!(!surface.consume_rebuilt());
    assert!(!surface.consume_rebuilt());
    assert!(surface.is_valid);
}

#[test]
fn framebuffers_take_the_backbuffer_once() {
    let device = test_device(caps(2, 2));
    let mut surface =
        Surface::create(WindowSurface::create(Extent2d { width: 64, height: 64 }), &device);
    let pass = imperium::render::RenderPass::create_basic(&device);
    let fbs = surface
        .create_framebuffers(&pass, Some(STD_DEPTH_FORMAT), &device)
        .unwrap();
    assert_eq!(fbs.len(), 2);
    assert_eq!(fbs[0].image_index, 0);
    assert_eq!(fbs[1].image_index, 1);
    assert!(fbs[0].has_depth);
    assert_eq!(fbs[0].extent, Extent2d { width: 64, height: 64 });
    // The backbuffer was taken: a second call yields nothing.
    let again = surface
        .create_framebuffers(&pass, Some(STD_DEPTH_FORMAT), &device)
        .unwrap();
    assert!(again.is_empty());
}

#[test]
fn basic_render_pass_describes_color_and_depth() {
    let device = test_device(caps(2, 3));
    let pass = imperium::render::RenderPass::create_basic(&device);
    assert_eq!(pass.attachments.len(), 2);
    assert_eq!(pass.attachments[0].format, Some(device.color_format));
    assert_eq!(pass.attachments[0].final_layout, ImageLayout::Present);
    assert_eq!(pass.attachments[1].format, Some(Format::D32FloatS8Uint));
    assert_eq!(
        pass.attachments[1].final_layout,
        ImageLayout::DepthStencilAttachment
    );
    assert_eq!(pass.subpass.color_attachment, 0);
    assert_eq!(pass.subpass.depth_stencil_attachment, Some(1));
}

#[test]
fn transform_block_serializes_to_forty_eight_words() {
    let transform = RenderTransform::identity();
    let words = transform.to_words();
    assert_eq!(words.len(), 48);
    assert_eq!(words[0], FLOAT_ONE_BITS);
    assert_eq!(words[1], 0);
    assert_eq!(words[5], FLOAT_ONE_BITS);
    // The little-endian bytes of the float one.
    let bytes = words_to_le_bytes(&words);
    assert_eq!(bytes.len(), 192);
    assert_eq!(&bytes[0..4], &[0, 0, 128, 63]);

    let m = Mat4::new([7; 16]);
    let t2 = RenderTransform::new(m, Mat4::identity(), Mat4::identity());
    assert_eq!(t2.to_words()[15], 7);
}

#[test]
fn transform_uploads_into_a_uniform_buffer() {
    let device = test_device(caps(2, 3));
    let buffer = RenderTransform::identity().alloc_buffer(&device).unwrap();
    assert_eq!(buffer.count, 1);
    let bytes = buffer.read_back(&device);
    assert_eq!(bytes.len(), 192);
    assert_eq!(&bytes[0..4], &[0, 0, 128, 63]);
}
