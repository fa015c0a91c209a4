use imperium::spatial::light::{Light, LightData, LightsList, PointLight, MAX_LIGHTS};
use imperium::spatial::model::{BufferedMesh, ModelVertex};
use imperium::types::{OpaqueColor, Vec3Fx};

#[test]
fn point_light_carries_its_color() {
    let light = PointLight::new(OpaqueColor::new(100, 200, 300));
    assert_eq!(light.color, OpaqueColor::new(100, 200, 300));
    let data = light.get_data(Vec3Fx::new(1, 2, 3));
    assert_eq!(data.pos, Vec3Fx::new(1, 2, 3));
    assert_eq!(data.color, OpaqueColor::new(100, 200, 300));
}

#[test]
fn the_sun_has_its_fixed_color() {
    let sun = PointLight::create_sun();
    assert_eq!(sun.color, OpaqueColor::new(1000, 880, 480));
}

#[test]
fn lights_list_appends_until_full() {
    let mut list = LightsList::new();
    assert_eq!(list.count, 0);
    for i in 0..MAX_LIGHTS {
        list.add_light(LightData::new(
            Vec3Fx::new(i as i64, 0, 0),
            OpaqueColor::black(),
        ));
    }
    assert_eq!(list.count, MAX_LIGHTS);
    // A full list ignores further lights.
    list.add_light(LightData::new(Vec3Fx::new(99, 0, 0), OpaqueColor::black()));
    assert_eq!(list.count, MAX_LIGHTS);
    assert_eq!(list.lights[MAX_LIGHTS - 1].pos.x, (MAX_LIGHTS - 1) as i64);
}

#[test]
fn removing_a_light_shifts_the_rest_down() {
    let mut list = LightsList::new();
    for i in 0..3 {
        list.add_light(LightData::new(Vec3Fx::new(i, 0, 0), OpaqueColor::black()));
    }
    let removed = list.remove_light(1);
    assert_eq!(removed.pos.x, 1);
    assert_eq!(list.count, 2);
    assert_eq!(list.lights[0].pos.x, 0);
    assert_eq!(list.lights[1].pos.x, 2);
    // The freed slot holds the dark default.
    assert_eq!(list.lights[2], LightData::new(Vec3Fx::zero(), OpaqueColor::black()));
}

#[test]
fn vertices_take_bone_influences_in_free_slots() {
    let mut v = ModelVertex::new([1, 2, 3], [4, 5, 6], [7, 8]);
    assert_eq!(v.bone_weights, [0, 0, 0, 0]);
    v.add_bone(11, 500);
    v.add_bone(12, 300);
    assert_eq!(v.bone_ids, [11, 12, 0, 0]);
    assert_eq!(v.bone_weights, [500, 300, 0, 0]);
    // Two more fill the vertex; a fifth bone is ignored.
    v.add_bone(13, 100);
    v.add_bone(14, 100);
    v.add_bone(15, 100);
    assert_eq!(v.bone_ids, [11, 12, 13, 14]);
}

#[test]
fn vertex_words_follow_the_attribute_order() {
    let v = ModelVertex::new([1, 2, 3], [4, 5, 6], [7, 8]);
    let words = v.to_words();
    assert_eq!(words[0..8], [1, 2, 3, 4, 5, 6, 7, 8]);
    assert_eq!(words.len(), 16);
}

#[test]
fn mesh_draws_record_through_the_pipeline() {
    let mut instance = imperium::device::Instance::create("test");
    let mut device = imperium::device::Device::create(
        &mut instance,
        imperium::device::AdapterInfo {
            memory_types: vec![
                imperium::device::MEMORY_DEVICE_LOCAL,
                imperium::device::MEMORY_CPU_VISIBLE,
            ],
            min_buffer_copy_pitch_alignment: 64,
            formats: None,
            caps: imperium::device::SurfaceCaps {
                min_image_count: 2,
                max_image_count: 3,
                min_extent: imperium::types::Extent2d { width: 1, height: 1 },
                max_extent: imperium::types::Extent2d { width: 4096, height: 4096 },
            },
        },
    )
    .unwrap();
    let shader = [3u8, 2, 35, 7];
    let pass = imperium::render::RenderPass::create_basic(&device);
    let mut registry = imperium::spatial::pipe::mesh::MaterialLayoutRegistry::new();
    let mut pipeline = imperium::spatial::pipe::mesh::MeshRenderPipeline::create(
        &mut device,
        &pass,
        &mut registry,
        &shader,
        &shader,
    )
    .unwrap();
    let material = imperium::spatial::material::MaterialBuffer::empty(&registry, &mut device).unwrap();

    let verts = [ModelVertex::new([0, 0, 0], [0, 0, 0], [0, 0]); 3];
    let mesh = BufferedMesh::create(&verts, Some(&[0, 1, 2]), &device).unwrap();
    let mut encoder = imperium::command::Encoder::new();
    mesh.render(
        &material.descriptor_set,
        imperium::render::RenderTransform::identity(),
        &mut pipeline,
        &mut encoder,
    );
    assert!(pipeline.is_bound);
    assert_eq!(
        encoder.commands.last(),
        Some(&imperium::command::Command::DrawIndexed { index_count: 3, instance_count: 1 })
    );
}

#[test]
fn buffered_meshes_pack_vertices_at_the_pipeline_stride() {
    let mut instance = imperium::device::Instance::create("test");
    let device = imperium::device::Device::create(
        &mut instance,
        imperium::device::AdapterInfo {
            memory_types: vec![imperium::device::MEMORY_CPU_VISIBLE],
            min_buffer_copy_pitch_alignment: 64,
            formats: None,
            caps: imperium::device::SurfaceCaps {
                min_image_count: 2,
                max_image_count: 3,
                min_extent: imperium::types::Extent2d { width: 1, height: 1 },
                max_extent: imperium::types::Extent2d { width: 4096, height: 4096 },
            },
        },
    )
    .unwrap();

    let verts = [
        ModelVertex::new([1, 0, 0], [0, 1, 0], [0, 0]),
        ModelVertex::new([2, 0, 0], [0, 2, 0], [0, 0]),
    ];
    let mesh = BufferedMesh::create(&verts, Some(&[0, 1, 0]), &device).unwrap();
    assert_eq!(mesh.vertex_buffer.count, 2);
    assert_eq!(mesh.vertex_buffer.stride, 64);
    let bytes = mesh.vertex_buffer.read_back(&device);
    assert_eq!(bytes.len(), 128);
    assert_eq!(&bytes[0..4], &[1, 0, 0, 0]);
    assert_eq!(&bytes[64..68], &[2, 0, 0, 0]);

    let index_buffer = mesh.index_buffer.unwrap();
    assert_eq!(index_buffer.count, 3);
    assert_eq!(
        index_buffer.read_back(&device),
        vec![0, 0, 0, 0, 1, 0, 0, 0, 0, 0, 0, 0]
    );
}
