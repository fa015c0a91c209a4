use imperium::device::{
    AdapterInfo, Device, DeviceError, Format, Instance, LogExpect, SurfaceCaps,
    MEMORY_COHERENT, MEMORY_CPU_VISIBLE, MEMORY_DEVICE_LOCAL,
};
use imperium::types::Extent2d;

fn caps() -> SurfaceCaps {
    SurfaceCaps {
        min_image_count: 2,
        max_image_count: 3,
        min_extent: Extent2d { width: 1, height: 1 },
        max_extent: Extent2d { width: 4096, height: 4096 },
    }
}

fn adapter(memory_types: Vec<u32>, formats: Option<Vec<Format>>) -> AdapterInfo {
    AdapterInfo {
        memory_types,
        min_buffer_copy_pitch_alignment: 64,
        formats,
        caps: caps(),
    }
}

fn device_with_types(memory_types: Vec<u32>) -> Device {
    let mut instance = Instance::create("test");
    Device::create(&mut instance, adapter(memory_types, None)).unwrap()
}

#[test]
fn resolver_returns_lowest_matching_type() {
    let device = device_with_types(vec![
        MEMORY_DEVICE_LOCAL,
        MEMORY_CPU_VISIBLE,
        MEMORY_CPU_VISIBLE | MEMORY_COHERENT,
    ]);
    assert_eq!(device.upload_type_for(u64::MAX, MEMORY_CPU_VISIBLE), Ok(1));
    assert_eq!(device.upload_type_for(u64::MAX, MEMORY_DEVICE_LOCAL), Ok(0));
    assert_eq!(
        device.upload_type_for(u64::MAX, MEMORY_CPU_VISIBLE | MEMORY_COHERENT),
        Ok(2)
    );
}

#[test]
fn resolver_honors_requirement_mask() {
    let device = device_with_types(vec![
        MEMORY_CPU_VISIBLE,
        MEMORY_CPU_VISIBLE,
        MEMORY_CPU_VISIBLE,
    ]);
    // Bit 0 excluded: the lowest allowed index is 1.
    assert_eq!(device.upload_type_for(!1u64, MEMORY_CPU_VISIBLE), Ok(1));
    // Only bit 2 allowed.
    assert_eq!(device.upload_type_for(0b100, MEMORY_CPU_VISIBLE), Ok(2));
}

#[test]
fn resolver_fails_fatally_when_nothing_matches() {
    let device = device_with_types(vec![MEMORY_DEVICE_LOCAL]);
    let err = device.upload_type_for(u64::MAX, MEMORY_CPU_VISIBLE).unwrap_err();
    assert_eq!(err, DeviceError::NoCompatibleMemoryType);
    assert_eq!(
        err.message(),
        "Could not find appropriate vertex buffer memory type."
    );
}

#[test]
fn device_negotiates_first_srgb_format() {
    let mut instance = Instance::create("test");
    let device = Device::create(
        &mut instance,
        adapter(
            vec![MEMORY_CPU_VISIBLE],
            Some(vec![Format::Bgra8Unorm, Format::Bgra8Srgb, Format::Rgba8Srgb]),
        ),
    )
    .unwrap();
    assert_eq!(device.color_format, Format::Bgra8Srgb);
}

#[test]
fn device_defaults_to_rgba8_srgb_without_a_format_list() {
    let device = device_with_types(vec![MEMORY_CPU_VISIBLE]);
    assert_eq!(device.color_format, Format::Rgba8Srgb);
}

#[test]
fn device_creation_fails_without_an_srgb_format() {
    let mut instance = Instance::create("test");
    let r = Device::create(
        &mut instance,
        adapter(vec![MEMORY_CPU_VISIBLE], Some(vec![Format::Bgra8Unorm])),
    );
    assert_eq!(r.unwrap_err(), DeviceError::NoCompatibleFormat);
}

#[test]
fn instance_issues_distinct_device_ids() {
    let mut instance = Instance::create("test");
    let d0 = Device::create(&mut instance, adapter(vec![MEMORY_CPU_VISIBLE], None)).unwrap();
    let d1 = Device::create(&mut instance, adapter(vec![MEMORY_CPU_VISIBLE], None)).unwrap();
    assert_ne!(d0.id, d1.id);
    assert_eq!(d0.create_token().device_id, d0.id);
}

#[test]
fn shader_modules_take_whole_word_binaries() {
    let device = device_with_types(vec![MEMORY_CPU_VISIBLE]);
    let module = device.load_shader_raw(&[1, 2, 3, 4, 5, 6, 7, 8]).unwrap();
    assert_eq!(module.code, vec![1, 2, 3, 4, 5, 6, 7, 8]);
    let err = device.load_shader_raw(&[1, 2, 3]).unwrap_err();
    assert_eq!(err, DeviceError::ShaderModuleInvalid);
    assert_eq!(err.message(), "Failed to create shader module.");
    assert_eq!(
        device.load_shader_raw(&[]).unwrap_err(),
        DeviceError::ShaderModuleInvalid
    );
}

#[test]
fn log_expect_unwraps_present_values() {
    let ok: Result<u32, &str> = Ok(7);
    assert_eq!(ok.log_expect("should not trip"), 7);
    let some: Option<u32> = Some(9);
    assert_eq!(some.log_expect("should not trip"), 9);
}
