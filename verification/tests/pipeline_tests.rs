use imperium::device::{
    AdapterInfo, Device, Instance, SurfaceCaps, MEMORY_CPU_VISIBLE, MEMORY_DEVICE_LOCAL,
};
use imperium::pipeline::{
    Descriptor, DescriptorPool, DescriptorSet, DescriptorSetLayout, DescriptorType,
    PipelineError, ShaderStage, TextureSampler,
};
use imperium::render::{Graphics, RenderPass, Surface, WindowSurface};
use imperium::spatial::material::{Material, MaterialBuffer, MaterialError, MaterialTextureBuffers};
use imperium::spatial::pipe::mesh::{
    MaterialLayoutRegistry, MeshPipelineError, MeshRenderPipeline, PUSH_CONSTANT_WORDS,
    VERTEX_STRIDE,
};
use imperium::types::{Extent2d, OpaqueColor};

fn test_device() -> Device {
    let mut instance = Instance::create("test");
    Device::create(
        &mut instance,
        AdapterInfo {
            memory_types: vec![MEMORY_DEVICE_LOCAL, MEMORY_CPU_VISIBLE],
            min_buffer_copy_pitch_alignment: 64,
            formats: None,
            caps: SurfaceCaps {
                min_image_count: 2,
                max_image_count: 3,
                min_extent: Extent2d { width: 1, height: 1 },
                max_extent: Extent2d { width: 4096, height: 4096 },
            },
        },
    )
    .unwrap()
}

const SHADER: [u8; 8] = [3, 2, 35, 7, 0, 0, 0, 1];

#[test]
fn layout_orders_binding_types_positionally() {
    let device = test_device();
    let layout = DescriptorSetLayout::create(
        &[
            (DescriptorType::UniformBuffer, ShaderStage::Vertex),
            (DescriptorType::SampledImage, ShaderStage::Fragment),
        ],
        &device,
    );
    assert_eq!(
        layout.bindings,
        vec![DescriptorType::UniformBuffer, DescriptorType::SampledImage]
    );
    assert_eq!(layout.stages, vec![1, 2]);
}

#[test]
fn pool_sizes_ranges_by_summing_layout_requests() {
    let device = test_device();
    let a = DescriptorSetLayout::create(
        &[
            (DescriptorType::UniformBuffer, ShaderStage::Vertex),
            (DescriptorType::SampledImage, ShaderStage::Fragment),
        ],
        &device,
    );
    let b = DescriptorSetLayout::create(
        &[(DescriptorType::SampledImage, ShaderStage::Fragment)],
        &device,
    );
    let pool = DescriptorPool::new(5, &[(&a, 2), (&b, 3)], &device);
    assert_eq!(pool.max_sets, 5);
    assert_eq!(pool.avail_uniform, 2);
    assert_eq!(pool.avail_image, 5);
    assert_eq!(pool.avail_sampler, 0);
}

#[test]
fn set_allocation_exhausts_the_pool() {
    let mut device = test_device();
    let layout = DescriptorSetLayout::create(
        &[(DescriptorType::UniformBuffer, ShaderStage::Vertex)],
        &device,
    );
    let mut pool = DescriptorPool::new(1, &[(&layout, 1)], &device);
    let set = DescriptorSet::new(&layout, &mut pool, &mut device).unwrap();
    assert_eq!(set.bindings, vec![DescriptorType::UniformBuffer]);
    assert_eq!(pool.sets_allocated, 1);
    assert_eq!(pool.avail_uniform, 0);

    let err = DescriptorSet::new(&layout, &mut pool, &mut device).unwrap_err();
    assert_eq!(err, PipelineError::DescriptorSetAllocation);
    assert_eq!(
        err.message(),
        "Failed to create descriptor set. Perhaps the descriptor pool was not initialized properly?"
    );
}

#[test]
fn batch_writes_mark_only_the_given_bindings() {
    let mut device = test_device();
    let layout = DescriptorSetLayout::create(
        &[
            (DescriptorType::UniformBuffer, ShaderStage::Vertex),
            (DescriptorType::SampledImage, ShaderStage::Fragment),
            (DescriptorType::Sampler, ShaderStage::Fragment),
        ],
        &device,
    );
    let mut pool = DescriptorPool::new(1, &[(&layout, 1)], &device);
    let mut set = DescriptorSet::new(&layout, &mut pool, &mut device).unwrap();
    set.write_inputs(
        &[(Some(Descriptor::Buffer), 0), (None, 1), (Some(Descriptor::Sampler), 2)],
        &device,
    );
    assert_eq!(set.written, vec![true, false, true]);
}

#[test]
fn sampler_ids_are_fresh_per_device_object() {
    let mut device = test_device();
    let s1 = TextureSampler::new(&mut device);
    let s2 = TextureSampler::new(&mut device);
    assert_ne!(s1.id, s2.id);
}

#[test]
fn mesh_pipeline_bakes_the_fixed_vertex_layout() {
    let mut device = test_device();
    let pass = RenderPass::create_basic(&device);
    let mut registry = MaterialLayoutRegistry::new();
    let pipeline =
        MeshRenderPipeline::create(&mut device, &pass, &mut registry, &SHADER, &SHADER).unwrap();

    assert_eq!(MeshRenderPipeline::num_push_constants(), 48);
    assert_eq!(PUSH_CONSTANT_WORDS, 48);
    let desc = &pipeline.pipeline.pipeline.desc;
    assert_eq!(desc.vertex_buffers.len(), 1);
    assert_eq!(desc.vertex_buffers[0].stride, VERTEX_STRIDE);
    let offsets: Vec<u32> = desc.attributes.iter().map(|a| a.offset).collect();
    assert_eq!(offsets, vec![0, 12, 24, 32, 48]);
    assert!(registry.layout.is_some());
    assert!(!pipeline.is_bound);
}

#[test]
fn mesh_pipeline_rejects_invalid_shader_binaries() {
    let mut device = test_device();
    let pass = RenderPass::create_basic(&device);
    let mut registry = MaterialLayoutRegistry::new();
    let err = MeshRenderPipeline::create(&mut device, &pass, &mut registry, &SHADER[0..3], &SHADER)
        .unwrap_err();
    assert_eq!(err, MeshPipelineError::InvalidShader);
}

#[test]
fn mesh_pipeline_reset_clears_the_bound_flag() {
    let mut device = test_device();
    let pass = RenderPass::create_basic(&device);
    let mut registry = MaterialLayoutRegistry::new();
    let mut pipeline =
        MeshRenderPipeline::create(&mut device, &pass, &mut registry, &SHADER, &SHADER).unwrap();
    pipeline.is_bound = true;
    pipeline.reset();
    assert!(!pipeline.is_bound);
}

#[test]
fn material_buffer_needs_the_registered_layout() {
    let mut device = test_device();
    let registry = MaterialLayoutRegistry::new();
    let err = MaterialBuffer::empty(&registry, &mut device).unwrap_err();
    assert_eq!(err, MaterialError::Pipeline(PipelineError::MaterialLayoutMissing));
    assert_eq!(
        err.message(),
        "Failed to create material buffer - the mesh render pipeline has not yet been initialised."
    );
}

#[test]
fn material_buffer_writes_the_present_bindings() {
    let mut device = test_device();
    let pass = RenderPass::create_basic(&device);
    let mut registry = MaterialLayoutRegistry::new();
    let _pipeline =
        MeshRenderPipeline::create(&mut device, &pass, &mut registry, &SHADER, &SHADER).unwrap();

    let material = MaterialBuffer::empty(&registry, &mut device).unwrap();
    // Data block and sampler written; no textures.
    assert_eq!(
        material.descriptor_set.written,
        vec![true, true, false, false, false, false]
    );
    // The data block holds one zeroed element.
    assert_eq!(material.data_buffer.count, 1);
    assert_eq!(material.data_buffer.read_back(&device), vec![0, 0, 0, 0]);
}

#[test]
fn material_upload_packs_the_option_bits() {
    let mut instance = Instance::create("test");
    let device = Device::create(
        &mut instance,
        AdapterInfo {
            memory_types: vec![MEMORY_DEVICE_LOCAL, MEMORY_CPU_VISIBLE],
            min_buffer_copy_pitch_alignment: 64,
            formats: None,
            caps: SurfaceCaps {
                min_image_count: 2,
                max_image_count: 3,
                min_extent: Extent2d { width: 1, height: 1 },
                max_extent: Extent2d { width: 4096, height: 4096 },
            },
        },
    )
    .unwrap();
    let surface = Surface::create(WindowSurface::create(Extent2d { width: 64, height: 64 }), &device);
    let mut graphics = Graphics::create(device, surface);

    let pass = RenderPass::create_basic(&graphics.device);
    let mut registry = MaterialLayoutRegistry::new();
    let _pipeline = MeshRenderPipeline::create(
        &mut graphics.device,
        &pass,
        &mut registry,
        &SHADER,
        &SHADER,
    )
    .unwrap();

    let albedo = imperium::texture::Texture::from_bytes(
        &[10, 20, 30, 40],
        Extent2d { width: 1, height: 1 },
    );
    let material = Material::new(
        Some(albedo),
        None,
        None,
        None,
        OpaqueColor::new(500, 600, 700),
        250,
        750,
    );
    let buffer = material.create_buffer(&mut graphics, &registry).unwrap();
    assert!(buffer.texture_buffers.albedo.is_some());
    assert!(buffer.texture_buffers.normal.is_none());
    let bytes = buffer.data_buffer.read_back(&graphics.device);
    // Options word: albedo bit only.
    assert_eq!(&bytes[0..4], &[1, 0, 0, 0]);
    // Color channels follow, little endian.
    assert_eq!(&bytes[4..8], &[244, 1, 0, 0]);
    assert_eq!(&bytes[8..12], &[88, 2, 0, 0]);
    assert_eq!(&bytes[12..16], &[188, 2, 0, 0]);
    assert_eq!(&bytes[16..20], &[250, 0, 0, 0]);
    assert_eq!(&bytes[20..24], &[238, 2, 0, 0]);
    // Albedo, sampler and data block written; other textures not.
    assert_eq!(
        buffer.descriptor_set.written,
        vec![true, true, true, false, false, false]
    );
}

#[test]
fn color_material_buffers_pack_their_block() {
    let mut device = test_device();
    let pass = RenderPass::create_basic(&device);
    let mut registry = MaterialLayoutRegistry::new();
    let _pipeline =
        MeshRenderPipeline::create(&mut device, &pass, &mut registry, &SHADER, &SHADER).unwrap();

    let m = MaterialBuffer::with_color(OpaqueColor::new(1000, 0, 0), 100, 200, &registry, &mut device)
        .unwrap();
    assert!(m.texture_buffers.albedo.is_none());
    let bytes = m.data_buffer.read_back(&device);
    // No option bits; the red channel has the full fixed-point value.
    assert_eq!(&bytes[0..4], &[0, 0, 0, 0]);
    assert_eq!(&bytes[4..8], &[232, 3, 0, 0]);
}

#[test]
fn texture_buffer_list_helpers_track_presence() {
    let none = MaterialTextureBuffers::none();
    assert!(none.albedo.is_none());
    assert!(none.roughness.is_none());
}
