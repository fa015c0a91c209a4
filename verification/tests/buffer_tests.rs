use imperium::buffer::{
    aligned_row_pitch, stage_rows, unstage_rows, Buffer, ImageLayout, TextureBuffer,
    ASPECT_COLOR, IMAGE_USAGE_SAMPLED, IMAGE_USAGE_TRANSFER_DST, USAGE_UNIFORM, USAGE_VERTEX,
};
use imperium::device::{
    AdapterInfo, Device, DeviceError, Instance, SurfaceCaps, MEMORY_CPU_VISIBLE,
    MEMORY_DEVICE_LOCAL,
};
use imperium::texture::Texture;
use imperium::types::Extent2d;

fn test_device(memory_types: Vec<u32>) -> Device {
    let mut instance = Instance::create("test");
    Device::create(
        &mut instance,
        AdapterInfo {
            memory_types,
            min_buffer_copy_pitch_alignment: 64,
            formats: None,
            caps: SurfaceCaps {
                min_image_count: 2,
                max_image_count: 3,
                min_extent: Extent2d { width: 1, height: 1 },
                max_extent: Extent2d { width: 4096, height: 4096 },
            },
        },
    )
    .unwrap()
}

#[test]
fn fill_buffer_read_back_round_trip() {
    let device = test_device(vec![MEMORY_CPU_VISIBLE]);
    let mut buffer = Buffer::alloc_empty(4, 4, USAGE_UNIFORM, MEMORY_CPU_VISIBLE, &device).unwrap();
    assert_eq!(buffer.count, 4);

    let data: Vec<u8> = (1..=8).collect();
    buffer.fill_buffer(&data, &device);
    assert_eq!(buffer.count, 2);
    assert_eq!(buffer.read_back(&device), data);

    // Refilling with fewer bytes: count tracks the most recent fill.
    buffer.fill_buffer(&[9, 9, 9, 9], &device);
    assert_eq!(buffer.count, 1);
    assert_eq!(buffer.read_back(&device), vec![9, 9, 9, 9]);
}

#[test]
fn alloc_vertex_fills_and_counts_elements() {
    let device = test_device(vec![MEMORY_CPU_VISIBLE]);
    let bytes: Vec<u8> = (0..16).collect();
    let buffer = Buffer::alloc_vertex(&bytes, 8, &device).unwrap();
    assert_eq!(buffer.usage, USAGE_VERTEX);
    assert_eq!(buffer.count, 2);
    assert_eq!(buffer.read_back(&device), bytes);
}

#[test]
fn allocation_is_fatal_without_host_visible_memory() {
    let device = test_device(vec![MEMORY_DEVICE_LOCAL]);
    let r = Buffer::alloc_vertex(&[0, 0, 0, 0], 4, &device);
    assert_eq!(r.unwrap_err(), DeviceError::NoCompatibleMemoryType);
}

#[test]
fn row_pitch_is_smallest_aligned_multiple() {
    // width * 4 = 12, alignment 64: the smallest multiple is 64.
    assert_eq!(aligned_row_pitch(3, 64), 64);
    // Already aligned: stays.
    assert_eq!(aligned_row_pitch(16, 64), 64);
    assert_eq!(aligned_row_pitch(32, 64), 128);
    // Alignment one never pads.
    assert_eq!(aligned_row_pitch(5, 1), 20);
    // width * 4 = 40, alignment 16 -> 48.
    assert_eq!(aligned_row_pitch(10, 16), 48);
}

#[test]
fn staged_rows_pad_and_read_back_exactly() {
    // 2x2 image, 8-byte rows, pitch 16.
    let pixels: Vec<u8> = (1..=16).collect();
    let pitch = aligned_row_pitch(2, 16);
    assert_eq!(pitch, 16);
    let staged = stage_rows(&pixels, 2, 2, pitch);
    assert_eq!(staged.len(), 32);
    // Row contents at pitched offsets, zero padding after each row.
    assert_eq!(&staged[0..8], &pixels[0..8]);
    assert_eq!(&staged[8..16], &[0; 8]);
    assert_eq!(&staged[16..24], &pixels[8..16]);
    assert_eq!(&staged[24..32], &[0; 8]);
    // Reading back row by row with the same pitch reproduces the buffer.
    let back = unstage_rows(&staged, 2, 2, pitch);
    assert_eq!(back, pixels);
}

#[test]
fn texture_upload_lands_pixels_in_shader_read_only_layout() {
    let mut device = test_device(vec![MEMORY_DEVICE_LOCAL, MEMORY_CPU_VISIBLE]);
    let pixels: Vec<u8> = (0..16).collect();
    let texture = Texture::from_bytes(&pixels, Extent2d { width: 2, height: 2 });
    let flights_before = device.submissions_in_flight;
    let buffer = TextureBuffer::create(&texture, &mut device).unwrap();
    assert_eq!(buffer.image, pixels);
    assert_eq!(buffer.layout, ImageLayout::ShaderReadOnly);
    assert_eq!(buffer.extent, Extent2d { width: 2, height: 2 });
    assert_eq!(buffer.usage, IMAGE_USAGE_TRANSFER_DST | IMAGE_USAGE_SAMPLED);
    assert_eq!(buffer.aspects, ASPECT_COLOR);
    // The upload blocked on its fence: nothing left in flight.
    assert_eq!(device.submissions_in_flight, flights_before);
}

#[test]
fn texture_upload_is_fatal_without_device_local_memory() {
    let mut device = test_device(vec![MEMORY_CPU_VISIBLE]);
    let texture = Texture::new();
    let r = TextureBuffer::create(&texture, &mut device);
    assert_eq!(r.unwrap_err(), DeviceError::NoCompatibleMemoryType);
}
