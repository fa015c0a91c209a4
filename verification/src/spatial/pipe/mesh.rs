//! The mesh render pipeline: the one-time compilation of the standard
//! mesh pipeline, its descriptor layouts, and per-draw recording.
//!
//! Vertex buffers bound to this pipeline must match the fixed attribute
//! layout baked into it: position at byte 0, normal at 12, texture
//! coordinates at 24, bone ids at 32 and bone weights at 48, in a
//! 64-byte vertex.

use vstd::prelude::*;

use crate::buffer::Buffer;
use crate::command::{Command, Encoder};
use crate::device::Device;
use crate::pipeline::{
    count_of_type,
    lemma_count_of_type_bound,
    pool_capacity,
    AttributeDesc,
    Descriptor,
    DescriptorPool,
    DescriptorSet,
    DescriptorSetInterface,
    DescriptorSetLayout,
    DescriptorType,
    FrontFace,
    GraphicsPipelineDesc,
    Pipeline,
    PipelineController,
    PipelineLayout,
    Primitive,
    PushConstantRange,
    Rasterizer,
    ShaderStage,
    TextureSampler,
    VertexBufferDesc,
    VertexFormat,
    VertexInput,
    DepthStencilDesc,
    SHADER_STAGE_VERTEX,
};
use crate::render::{RenderPass, RenderTransform};

verus! {

/// Most bones a skinned mesh may carry.
pub const MAX_BONES: usize = 100;

/// Bytes of the bone uniform block: a count word and one 64-byte matrix
/// per bone.
pub const BONES_BLOCK_BYTES: usize = 6404;

/// Bytes of the lights uniform block: a count word and one 36-byte
/// light per slot.
pub const LIGHTS_BLOCK_BYTES: usize = 724;

/// Bytes of one mesh vertex.
pub const VERTEX_STRIDE: u32 = 64;

/// Push-constant words of the per-draw transform block: three 4x4
/// matrices of 32-bit words.
pub const PUSH_CONSTANT_WORDS: u32 = 48;

/// The binding types of the shared material descriptor layout: the
/// material data block, the sampler, and the four material textures.
pub open spec fn material_layout_bindings() -> Seq<DescriptorType> {
    seq![
        DescriptorType::UniformBuffer,
        DescriptorType::Sampler,
        DescriptorType::SampledImage,
        DescriptorType::SampledImage,
        DescriptorType::SampledImage,
        DescriptorType::SampledImage,
    ]
}

/// Where material buffers find the layout their descriptor sets are
/// allocated against, and the sampler they share. One initialization
/// point: the mesh render pipeline registers both when it is created.
pub struct MaterialLayoutRegistry {
    pub layout: Option<DescriptorSetLayout>,
    pub sampler: Option<TextureSampler>,
}

impl MaterialLayoutRegistry {
    /// Registered means: the layout is the shared material layout and
    /// the sampler exists.
    pub open spec fn wf(self) -> bool {
        &&& self.layout is Some <==> self.sampler is Some
        &&& match self.layout {
            Option::Some(l) => l.bindings@ == material_layout_bindings() && l.wf(),
            Option::None => true,
        }
    }

    pub fn new() -> (r: MaterialLayoutRegistry)
        ensures
            r.wf(),
            r.layout is None,
    {
        MaterialLayoutRegistry { layout: Option::None, sampler: Option::None }
    }
}

/// Errors of mesh-pipeline creation; all fatal.
#[derive(Clone, Copy, PartialEq, Eq, Structural, Debug)]
pub enum MeshPipelineError {
    Allocation,
    InvalidShader,
}

impl MeshPipelineError {
    pub fn message(&self) -> &'static str {
        match self {
            MeshPipelineError::Allocation => {
                "Could not find appropriate vertex buffer memory type."
            },
            MeshPipelineError::InvalidShader => "Failed to create shader module.",
        }
    }
}

/// The structure responsible for rendering mesh objects, compiled once
/// from the shader binaries and the fixed vertex layout.
#[derive(Debug)]
pub struct MeshRenderPipeline {
    pub pipeline: PipelineController,
    pub descriptor_pool: DescriptorPool,
    pub intrinsic_descriptor_interface: DescriptorSetInterface,
    pub material_input_layout: DescriptorSetLayout,
    pub bone_uniform: Buffer,
    pub is_bound: bool,
}

impl MeshRenderPipeline {
    /// The fixed vertex attribute table of the mesh pipeline.
    pub open spec fn vertex_attributes() -> Seq<AttributeDesc> {
        seq![
            AttributeDesc {
                location: 0,
                binding: 0,
                format: VertexFormat::Rgb32Float,
                offset: 0,
            },
            AttributeDesc {
                location: 1,
                binding: 0,
                format: VertexFormat::Rgb32Float,
                offset: 12,
            },
            AttributeDesc {
                location: 2,
                binding: 0,
                format: VertexFormat::Rg32Float,
                offset: 24,
            },
            AttributeDesc {
                location: 3,
                binding: 0,
                format: VertexFormat::Rgba32Int,
                offset: 32,
            },
            AttributeDesc {
                location: 4,
                binding: 0,
                format: VertexFormat::Rgba32Float,
                offset: 48,
            },
        ]
    }

    /// Words of the per-draw push-constant block.
    pub fn num_push_constants() -> (r: usize)
        ensures
            r == PUSH_CONSTANT_WORDS,
    {
        48
    }

    /// Compiles the mesh pipeline: allocates the intrinsic uniforms,
    /// builds the intrinsic and material layouts, registers the material
    /// layout and shared sampler, sizes the descriptor pool, allocates
    /// and writes the intrinsic set, and compiles the pipeline over the
    /// fixed vertex layout and push-constant range.
    pub fn create(
        device: &mut Device,
        render_pass: &RenderPass,
        registry: &mut MaterialLayoutRegistry,
        vertex_shader: &[u8],
        fragment_shader: &[u8],
    ) -> (r: Result<MeshRenderPipeline, MeshPipelineError>)
        requires
            old(device).wf(),
            old(device).next_resource_id + 4 < u64::MAX,
        ensures
            final(device).wf(),
            final(device).submissions_in_flight == old(device).submissions_in_flight,
            final(device).id == old(device).id,
            final(device).capabilities == old(device).capabilities,
            final(device).color_format == old(device).color_format,
            final(device).memory_types == old(device).memory_types,
            final(device).min_buffer_copy_pitch_alignment == old(
                device,
            ).min_buffer_copy_pitch_alignment,
            match r {
                Result::Ok(m) => {
                    &&& final(registry).wf()
                    &&& final(registry).layout is Some
                    &&& m.material_input_layout.bindings@ == material_layout_bindings()
                    &&& m.pipeline.pipeline.desc.vertex_buffers@ == seq![
                        VertexBufferDesc { binding: 0, stride: VERTEX_STRIDE, rate: 0 },
                    ]
                    &&& m.pipeline.pipeline.desc.attributes@ == Self::vertex_attributes()
                    &&& m.pipeline.layout.push_constant_ranges@ == seq![
                        PushConstantRange {
                            stages: SHADER_STAGE_VERTEX,
                            start: 0,
                            end: PUSH_CONSTANT_WORDS,
                        },
                    ]
                    &&& m.pipeline.pipeline.desc.vertex_shader.code@ == vertex_shader@
                    &&& m.pipeline.pipeline.desc.fragment_shader matches Option::Some(f)
                        && f.code@ == fragment_shader@
                    &&& !m.is_bound
                    &&& m.intrinsic_descriptor_interface.set.wf()
                    &&& m.bone_uniform.wf()
                },
                Result::Err(e) => match e {
                    MeshPipelineError::Allocation => !(exists|j: int|
                        crate::device::mem_type_matches(
                            old(device).memory_types@,
                            u64::MAX,
                            crate::device::MEMORY_CPU_VISIBLE,
                            j,
                        )),
                    MeshPipelineError::InvalidShader => {
                        !(vertex_shader@.len() > 0 && vertex_shader@.len() % 4 == 0)
                            || !(fragment_shader@.len() > 0 && fragment_shader@.len() % 4 == 0)
                    },
                },
            },
    {
        let lights_uniform = match Buffer::alloc_uniform_empty(1, LIGHTS_BLOCK_BYTES, device) {
            Result::Ok(b) => b,
            Result::Err(_) => {
                return Result::Err(MeshPipelineError::Allocation);
            },
        };
        let bone_uniform = match Buffer::alloc_uniform_empty(1, BONES_BLOCK_BYTES, device) {
            Result::Ok(b) => b,
            Result::Err(_) => {
                return Result::Err(MeshPipelineError::Allocation);
            },
        };

        let vertex_shader_module = match device.load_shader_raw(vertex_shader) {
            Result::Ok(m) => m,
            Result::Err(_) => {
                return Result::Err(MeshPipelineError::InvalidShader);
            },
        };
        let fragment_shader_module = match device.load_shader_raw(fragment_shader) {
            Result::Ok(m) => m,
            Result::Err(_) => {
                return Result::Err(MeshPipelineError::InvalidShader);
            },
        };

        let mut intrinsic_inputs: Vec<(DescriptorType, ShaderStage)> = Vec::new();
        intrinsic_inputs.push((DescriptorType::UniformBuffer, ShaderStage::Vertex));
        intrinsic_inputs.push((DescriptorType::UniformBuffer, ShaderStage::Fragment));
        let instrinsic_set_layout = DescriptorSetLayout::create(
            intrinsic_inputs.as_slice(),
            device,
        );

        let mut material_inputs: Vec<(DescriptorType, ShaderStage)> = Vec::new();
        material_inputs.push((DescriptorType::UniformBuffer, ShaderStage::Fragment));
        material_inputs.push((DescriptorType::Sampler, ShaderStage::Fragment));
        material_inputs.push((DescriptorType::SampledImage, ShaderStage::Fragment));
        material_inputs.push((DescriptorType::SampledImage, ShaderStage::Fragment));
        material_inputs.push((DescriptorType::SampledImage, ShaderStage::Fragment));
        material_inputs.push((DescriptorType::SampledImage, ShaderStage::Fragment));
        let material_input_layout = DescriptorSetLayout::create(material_inputs.as_slice(), device);
        proof {
            assert(material_input_layout.bindings@ =~= material_layout_bindings());
        }

        // One initialization point for the shared material layout and
        // sampler.
        let shared_sampler = TextureSampler::new(device);
        registry.layout = Option::Some(
            DescriptorSetLayout {
                bindings: crate::pipeline::clone_bindings(&material_input_layout.bindings),
                stages: crate::pipeline::clone_stages(&material_input_layout.stages),
            },
        );
        registry.sampler = Option::Some(shared_sampler);
        proof {
            assert(registry.layout->Some_0.bindings@ =~= material_layout_bindings());
        }

        let mut pool_layouts: Vec<(&DescriptorSetLayout, usize)> = Vec::new();
        pool_layouts.push((&instrinsic_set_layout, 1));
        proof {
            lemma_count_of_type_bound(instrinsic_set_layout.bindings@, DescriptorType::UniformBuffer);
            lemma_count_of_type_bound(instrinsic_set_layout.bindings@, DescriptorType::SampledImage);
            lemma_count_of_type_bound(instrinsic_set_layout.bindings@, DescriptorType::Sampler);
            assert(pool_layouts@.skip(1) =~= Seq::<(&DescriptorSetLayout, usize)>::empty());
            assert(pool_layouts@.len() == 1 && pool_layouts@[0].0 == &instrinsic_set_layout
                && pool_layouts@[0].1 == 1usize);
            assert(pool_capacity(
                Seq::<(&DescriptorSetLayout, usize)>::empty(),
                DescriptorType::UniformBuffer,
            ) == 0);
            assert(pool_capacity(
                Seq::<(&DescriptorSetLayout, usize)>::empty(),
                DescriptorType::SampledImage,
            ) == 0);
            assert(pool_capacity(
                Seq::<(&DescriptorSetLayout, usize)>::empty(),
                DescriptorType::Sampler,
            ) == 0);
            assert(pool_capacity(pool_layouts@, DescriptorType::UniformBuffer) == count_of_type(
                instrinsic_set_layout.bindings@,
                DescriptorType::UniformBuffer,
            ));
            assert(pool_capacity(pool_layouts@, DescriptorType::SampledImage) == count_of_type(
                instrinsic_set_layout.bindings@,
                DescriptorType::SampledImage,
            ));
            assert(pool_capacity(pool_layouts@, DescriptorType::Sampler) == count_of_type(
                instrinsic_set_layout.bindings@,
                DescriptorType::Sampler,
            ));
        }
        let mut descriptor_pool = DescriptorPool::new(1, pool_layouts.as_slice(), device);

        let mut set_inputs: Vec<(Option<Descriptor>, u32)> = Vec::new();
        set_inputs.push((Option::Some(Descriptor::Buffer), 0));
        set_inputs.push((Option::Some(Descriptor::Buffer), 1));
        proof {
            let b = instrinsic_set_layout.bindings@;
            let tail = seq![DescriptorType::UniformBuffer];
            assert(b =~= seq![DescriptorType::UniformBuffer, DescriptorType::UniformBuffer]);
            assert(b.skip(1) =~= tail);
            assert(tail.skip(1) =~= Seq::<DescriptorType>::empty());
            assert(count_of_type(Seq::<DescriptorType>::empty(), DescriptorType::UniformBuffer)
                == 0);
            assert(count_of_type(tail, DescriptorType::UniformBuffer) == 1);
            assert(count_of_type(b, DescriptorType::UniformBuffer) == 2);
            assert(count_of_type(Seq::<DescriptorType>::empty(), DescriptorType::SampledImage)
                == 0);
            assert(count_of_type(tail, DescriptorType::SampledImage) == 0);
            assert(count_of_type(b, DescriptorType::SampledImage) == 0);
            assert(count_of_type(Seq::<DescriptorType>::empty(), DescriptorType::Sampler) == 0);
            assert(count_of_type(tail, DescriptorType::Sampler) == 0);
            assert(count_of_type(b, DescriptorType::Sampler) == 0);
        }
        let intrinsic_descriptor_set = match DescriptorSet::with_inputs(
            set_inputs.as_slice(),
            &instrinsic_set_layout,
            &mut descriptor_pool,
            device,
        ) {
            Result::Ok(s) => s,
            Result::Err(_) => {
                proof {
                    assert(false);
                }
                return Result::Err(MeshPipelineError::Allocation);
            },
        };
        let intrinsic_descriptor_interface = DescriptorSetInterface::new(
            instrinsic_set_layout,
            intrinsic_descriptor_set,
        );

        let mut layout_refs: Vec<&DescriptorSetLayout> = Vec::new();
        layout_refs.push(&intrinsic_descriptor_interface.layout);
        layout_refs.push(&material_input_layout);
        let mut ranges: Vec<PushConstantRange> = Vec::new();
        ranges.push(
            PushConstantRange { stages: SHADER_STAGE_VERTEX, start: 0, end: PUSH_CONSTANT_WORDS },
        );
        let pipeline_layout = PipelineLayout::create(
            layout_refs.as_slice(),
            ranges.as_slice(),
            device,
        );

        let mut vertex_buffers: Vec<VertexBufferDesc> = Vec::new();
        vertex_buffers.push(VertexBufferDesc { binding: 0, stride: VERTEX_STRIDE, rate: 0 });
        let mut attributes: Vec<AttributeDesc> = Vec::new();
        attributes.push(
            AttributeDesc { location: 0, binding: 0, format: VertexFormat::Rgb32Float, offset: 0 },
        );
        attributes.push(
            AttributeDesc { location: 1, binding: 0, format: VertexFormat::Rgb32Float, offset: 12 },
        );
        attributes.push(
            AttributeDesc { location: 2, binding: 0, format: VertexFormat::Rg32Float, offset: 24 },
        );
        attributes.push(
            AttributeDesc { location: 3, binding: 0, format: VertexFormat::Rgba32Int, offset: 32 },
        );
        attributes.push(
            AttributeDesc {
                location: 4,
                binding: 0,
                format: VertexFormat::Rgba32Float,
                offset: 48,
            },
        );

        let pipeline_desc = GraphicsPipelineDesc {
            vertex_shader: vertex_shader_module,
            fragment_shader: Option::Some(fragment_shader_module),
            primitive: Primitive::TriangleList,
            rasterizer: Rasterizer {
                cull_back_faces: true,
                front_face: FrontFace::CounterClockwise,
                depth_clamping: false,
                conservative: true,
            },
            vertex_buffers,
            attributes,
            depth_stencil: DepthStencilDesc {
                depth_test: true,
                depth_write: true,
                depth_bounds: false,
            },
            alpha_blending: true,
        };
        proof {
            assert(pipeline_desc.attributes@ =~= Self::vertex_attributes());
            assert(pipeline_desc.vertex_buffers@ =~= seq![
                VertexBufferDesc { binding: 0, stride: VERTEX_STRIDE, rate: 0 },
            ]);
            assert forall|i: int|
                0 <= i < pipeline_desc.attributes@.len() implies crate::pipeline::has_buffer_binding(
                pipeline_desc.vertex_buffers@,
                (#[trigger] pipeline_desc.attributes@[i]).binding,
            ) by {
                assert(pipeline_desc.vertex_buffers@[0].binding == 0);
                assert(pipeline_desc.attributes@[i].binding == 0);
            }
        }
        let pipeline_object = match Pipeline::create(pipeline_desc, device) {
            Result::Ok(p) => p,
            Result::Err(_) => {
                proof {
                    assert(false);
                }
                return Result::Err(MeshPipelineError::InvalidShader);
            },
        };

        let pipeline = PipelineController::new(pipeline_object, pipeline_layout);
        Result::Ok(
            MeshRenderPipeline {
                pipeline,
                descriptor_pool,
                intrinsic_descriptor_interface,
                material_input_layout,
                bone_uniform,
                is_bound: false,
            },
        )
    }

    /// Binds the mesh pipeline for the following draws.
    pub fn bind_pipeline(&self, encoder: &mut Encoder)
        ensures
            final(encoder).commands@ == old(encoder).commands@.push(
                Command::BindPipeline { pipeline: self.pipeline.pipeline.id },
            ),
    {
        self.pipeline.bind(encoder);
    }

    /// Binds the intrinsic set and the draw's material set together.
    pub fn bind_descriptors(&self, material_set: &DescriptorSet, encoder: &mut Encoder)
        ensures
            final(encoder).commands@.len() == old(encoder).commands@.len() + 1,
            final(encoder).commands@.drop_last() == old(encoder).commands@,
            final(encoder).commands@.last() matches Command::BindDescriptorSets {
                first_set,
                sets,
            } && first_set == 0 && sets@ == seq![
                self.intrinsic_descriptor_interface.set.id,
                material_set.id,
            ],
    {
        let mut input_sets: Vec<&DescriptorSet> = Vec::new();
        input_sets.push(&self.intrinsic_descriptor_interface.set);
        input_sets.push(material_set);
        proof {
            let s = input_sets@;
            assert(s.drop_last() =~= seq![&self.intrinsic_descriptor_interface.set]);
            assert(s.drop_last().drop_last() =~= Seq::<&DescriptorSet>::empty());
            assert(crate::pipeline::set_ids(Seq::<&DescriptorSet>::empty()) =~= Seq::<u64>::empty());
            assert(crate::pipeline::set_ids(s.drop_last()) =~= seq![
                self.intrinsic_descriptor_interface.set.id,
            ]);
            assert(crate::pipeline::set_ids(s) =~= seq![
                self.intrinsic_descriptor_interface.set.id,
                material_set.id,
            ]);
        }
        self.pipeline.bind_descriptor_sets(input_sets.as_slice(), encoder);
    }

    /// Records one mesh draw: binds the pipeline on first use, binds the
    /// descriptor sets, the vertex data and the per-draw transform, and
    /// issues the draw — indexed when the mesh has an index buffer.
    pub fn render(
        &mut self,
        vertex_input: &VertexInput,
        material_set: &DescriptorSet,
        transform: RenderTransform,
        encoder: &mut Encoder,
    )
        requires
            vertex_input.vertex_buffer.count <= u32::MAX,
            match vertex_input.index_buffer {
                Option::Some(b) => b.count <= u32::MAX,
                Option::None => true,
            },
        ensures
            final(self).pipeline == old(self).pipeline,
            final(self).is_bound,
            final(encoder).commands@.len() > old(encoder).commands@.len(),
            // The draw that lands last matches the vertex data handed in.
            final(encoder).commands@.last() == if vertex_input.index_buffer is Some {
                Command::DrawIndexed {
                    index_count: vertex_input.index_buffer->Some_0.count as u32,
                    instance_count: 1,
                }
            } else {
                Command::Draw {
                    vertex_count: vertex_input.vertex_buffer.count as u32,
                    instance_count: 1,
                }
            },
    {
        if !self.is_bound {
            self.bind_pipeline(encoder);
            self.is_bound = true;
        }
        self.bind_descriptors(material_set, encoder);
        encoder.bind_vertex_buffer(0);
        let words = transform.to_words();
        encoder.push_graphics_constants(SHADER_STAGE_VERTEX, 0, words);
        match vertex_input.index_buffer {
            Option::Some(index_buffer) => {
                encoder.bind_index_buffer();
                encoder.draw_indexed(index_buffer.count as u32, 1);
            },
            Option::None => {
                encoder.draw(vertex_input.vertex_buffer.count as u32, 1);
            },
        }
    }

    /// Called when the renderer needs to be reset, for example when
    /// another renderer's context is set up.
    pub fn reset(&mut self)
        ensures
            *final(self) == (MeshRenderPipeline { is_bound: false, ..*old(self) }),
    {
        self.is_bound = false;
    }
}

} // verus!
