//! Materials: host-side material descriptions and the GPU-side material
//! buffer with its descriptor set.

use vstd::prelude::*;

use std::sync::Arc;

use crate::buffer::{Buffer, TextureBuffer};
use crate::device::Device;
use crate::pipeline::{
    Descriptor,
    DescriptorPool,
    DescriptorSet,
    DescriptorSetLayout,
    DescriptorType,
    PipelineError,
};
use crate::spatial::pipe::mesh::{material_layout_bindings, MaterialLayoutRegistry};
use crate::types::OpaqueColor;

verus! {

/// Whether a texture, if present, fits the device's upload path.
pub open spec fn texture_fits(t: Option<crate::texture::Texture>, device: Device) -> bool {
    match t {
        Option::Some(tex) => tex.wf() && (tex.dimensions.height as nat) * (4 * (
        tex.dimensions.width as nat) + (device.min_buffer_copy_pitch_alignment as nat))
            <= usize::MAX,
        Option::None => true,
    }
}

/// Whether an uploaded texture buffer, if present, holds exactly the
/// pixels of the matching texture, in the shader-read-only layout.
pub open spec fn uploaded_matches(
    buffer: Option<Arc<TextureBuffer>>,
    texture: Option<crate::texture::Texture>,
) -> bool {
    match (buffer, texture) {
        (Option::Some(tb), Option::Some(tex)) => tb.image@ == tex.data@ && tb.layout
            == crate::buffer::ImageLayout::ShaderReadOnly,
        (Option::None, Option::None) => true,
        _ => false,
    }
}

/// An error of material upload: a device allocation failure or a
/// descriptor-layer failure.
#[derive(Clone, Copy, PartialEq, Eq, Structural, Debug)]
pub enum MaterialError {
    Device(crate::device::DeviceError),
    Pipeline(PipelineError),
}

impl MaterialError {
    pub fn message(&self) -> &'static str {
        match self {
            MaterialError::Device(d) => d.message(),
            MaterialError::Pipeline(p) => p.message(),
        }
    }
}

fn device_of(graphics: &crate::render::Graphics) -> (r: &Device)
    ensures
        r == graphics.device,
{
    &graphics.device
}

/// Option bit: the material samples an albedo texture.
pub const USE_ALBEDO_BIT: u32 = 1;

/// Option bit: the material samples a normal map.
pub const USE_NORMAL_BIT: u32 = 2;

/// Option bit: the material samples a metallic map.
pub const USE_METALLIC_BIT: u32 = 4;

/// Option bit: the material samples a roughness map.
pub const USE_ROUGHNESS_BIT: u32 = 8;

/// The material block as the fragment stage reads it: which textures to
/// sample, the global color and the global material scalars, all in
/// fixed-point thousandths.
#[derive(Clone, Copy, PartialEq, Eq, Structural, Debug)]
pub struct ShaderData {
    pub albedo_global: OpaqueColor,
    pub options: u32,
    pub metallic_global: u32,
    pub roughness_global: u32,
}

impl ShaderData {
    pub fn new(
        options: u32,
        albedo_global: OpaqueColor,
        metallic_global: u32,
        roughness_global: u32,
    ) -> (r: ShaderData)
        ensures
            r == (ShaderData { albedo_global, options, metallic_global, roughness_global }),
    {
        ShaderData { albedo_global, options, metallic_global, roughness_global }
    }

    /// The words of the block, as uploaded: options, color channels,
    /// metallic, roughness.
    pub open spec fn words(self) -> Seq<u32> {
        seq![
            self.options,
            self.albedo_global.r,
            self.albedo_global.g,
            self.albedo_global.b,
            self.metallic_global,
            self.roughness_global,
        ]
    }

    pub fn to_words(&self) -> (r: Vec<u32>)
        ensures
            r@ == self.words(),
    {
        let mut out: Vec<u32> = Vec::new();
        out.push(self.options);
        out.push(self.albedo_global.r);
        out.push(self.albedo_global.g);
        out.push(self.albedo_global.b);
        out.push(self.metallic_global);
        out.push(self.roughness_global);
        proof {
            assert(out@ =~= self.words());
        }
        out
    }
}

/// Bytes of the material data block: six 32-bit words.
pub const SHADER_DATA_BYTES: usize = 24;

/// A material: the optional textures and the global fallbacks, in
/// fixed-point thousandths.
pub struct Material {
    pub albedo_texture: Option<crate::texture::Texture>,
    pub normal_texture: Option<crate::texture::Texture>,
    pub metallic_texture: Option<crate::texture::Texture>,
    pub roughness_texture: Option<crate::texture::Texture>,
    pub albedo_global: OpaqueColor,
    pub metallic_global: u32,
    pub roughness_global: u32,
}

impl Material {
    pub fn new(
        albedo_texture: Option<crate::texture::Texture>,
        normal_texture: Option<crate::texture::Texture>,
        metallic_texture: Option<crate::texture::Texture>,
        roughness_texture: Option<crate::texture::Texture>,
        albedo_global: OpaqueColor,
        metallic_global: u32,
        roughness_global: u32,
    ) -> (r: Material)
        ensures
            r.albedo_texture is Some == albedo_texture is Some,
            r.normal_texture is Some == normal_texture is Some,
            r.metallic_texture is Some == metallic_texture is Some,
            r.roughness_texture is Some == roughness_texture is Some,
            r.albedo_global == albedo_global,
            r.metallic_global == metallic_global,
            r.roughness_global == roughness_global,
    {
        Material {
            albedo_texture,
            normal_texture,
            metallic_texture,
            roughness_texture,
            albedo_global,
            metallic_global,
            roughness_global,
        }
    }

    /// A textureless material: a plain color with material scalars.
    pub fn color(color: OpaqueColor, metallic: u32, roughness: u32) -> (r: Material)
        ensures
            r.albedo_texture is None,
            r.normal_texture is None,
            r.metallic_texture is None,
            r.roughness_texture is None,
            r.albedo_global == color,
            r.metallic_global == metallic,
            r.roughness_global == roughness,
    {
        Material {
            albedo_texture: Option::None,
            normal_texture: Option::None,
            metallic_texture: Option::None,
            roughness_texture: Option::None,
            albedo_global: color,
            metallic_global: metallic,
            roughness_global: roughness,
        }
    }

    /// Uploads the material to the GPU: creates a texture buffer for
    /// each texture it carries, packs the data block with the matching
    /// option bits, and builds the material buffer with its descriptor
    /// set.
    pub fn create_buffer(
        &self,
        graphics: &mut crate::render::Graphics,
        registry: &MaterialLayoutRegistry,
    ) -> (r: Result<MaterialBuffer, MaterialError>)
        requires
            registry.wf(),
            old(graphics).device.wf(),
            old(graphics).device.next_resource_id < u64::MAX,
            old(graphics).device.min_buffer_copy_pitch_alignment <= u32::MAX,
            old(graphics).device.submissions_in_flight < u64::MAX,
            texture_fits(self.albedo_texture, old(graphics).device),
            texture_fits(self.normal_texture, old(graphics).device),
            texture_fits(self.metallic_texture, old(graphics).device),
            texture_fits(self.roughness_texture, old(graphics).device),
        ensures
            final(graphics).render_surface == old(graphics).render_surface,
            match r {
                Result::Ok(m) => {
                    &&& registry.layout is Some
                    &&& m.texture_buffers.albedo is Some == self.albedo_texture is Some
                    &&& m.texture_buffers.normal is Some == self.normal_texture is Some
                    &&& m.texture_buffers.metallic is Some == self.metallic_texture is Some
                    &&& m.texture_buffers.roughness is Some == self.roughness_texture is Some
                    // Each uploaded texture buffer holds its texture's
                    // pixels, ready for shader reads.
                    &&& uploaded_matches(m.texture_buffers.albedo, self.albedo_texture)
                    &&& uploaded_matches(m.texture_buffers.normal, self.normal_texture)
                    &&& uploaded_matches(m.texture_buffers.metallic, self.metallic_texture)
                    &&& uploaded_matches(m.texture_buffers.roughness, self.roughness_texture)
                    &&& m.data_buffer.count == 1
                    &&& m.data_buffer.filled_bytes()
                        == crate::render::le_bytes_of_words(
                        (ShaderData {
                            albedo_global: self.albedo_global,
                            options: self.option_bits(),
                            metallic_global: self.metallic_global,
                            roughness_global: self.roughness_global,
                        }).words(),
                    )
                    &&& m.descriptor_set.wf()
                    &&& m.descriptor_set.bindings@ == material_layout_bindings()
                },
                Result::Err(e) => match e {
                    MaterialError::Device(d) => {
                        &&& d == crate::device::DeviceError::NoCompatibleMemoryType
                        &&& (forall|j: int|
                            !crate::device::mem_type_matches(
                                old(graphics).device.memory_types@,
                                u64::MAX,
                                crate::device::MEMORY_DEVICE_LOCAL,
                                j,
                            )) || (forall|j: int|
                            !crate::device::mem_type_matches(
                                old(graphics).device.memory_types@,
                                u64::MAX,
                                crate::device::MEMORY_CPU_VISIBLE,
                                j,
                            ))
                    },
                    MaterialError::Pipeline(p) => {
                        &&& p == PipelineError::MaterialLayoutMissing
                        &&& registry.layout is None
                    },
                },
            },
    {
        let mut albedo: Option<Arc<TextureBuffer>> = Option::None;
        let mut normal: Option<Arc<TextureBuffer>> = Option::None;
        let mut metallic: Option<Arc<TextureBuffer>> = Option::None;
        let mut roughness: Option<Arc<TextureBuffer>> = Option::None;

        if let Option::Some(tex) = &self.albedo_texture {
            match TextureBuffer::create(tex, &mut graphics.device) {
                Result::Ok(t) => {
                    albedo = Option::Some(Arc::new(t));
                },
                Result::Err(e) => {
                    return Result::Err(MaterialError::Device(e));
                },
            }
        }
        if let Option::Some(tex) = &self.normal_texture {
            match TextureBuffer::create(tex, &mut graphics.device) {
                Result::Ok(t) => {
                    normal = Option::Some(Arc::new(t));
                },
                Result::Err(e) => {
                    return Result::Err(MaterialError::Device(e));
                },
            }
        }
        if let Option::Some(tex) = &self.metallic_texture {
            match TextureBuffer::create(tex, &mut graphics.device) {
                Result::Ok(t) => {
                    metallic = Option::Some(Arc::new(t));
                },
                Result::Err(e) => {
                    return Result::Err(MaterialError::Device(e));
                },
            }
        }
        if let Option::Some(tex) = &self.roughness_texture {
            match TextureBuffer::create(tex, &mut graphics.device) {
                Result::Ok(t) => {
                    roughness = Option::Some(Arc::new(t));
                },
                Result::Err(e) => {
                    return Result::Err(MaterialError::Device(e));
                },
            }
        }

        let options: u32 = (if self.albedo_texture.is_some() {
            USE_ALBEDO_BIT
        } else {
            0
        }) | (if self.normal_texture.is_some() {
            USE_NORMAL_BIT
        } else {
            0
        }) | (if self.metallic_texture.is_some() {
            USE_METALLIC_BIT
        } else {
            0
        }) | (if self.roughness_texture.is_some() {
            USE_ROUGHNESS_BIT
        } else {
            0
        });
        let shader_data = ShaderData::new(
            options,
            self.albedo_global,
            self.metallic_global,
            self.roughness_global,
        );
        let words = shader_data.to_words();
        let bytes = crate::render::words_to_le_bytes(&words);
        proof {
            assert(bytes@.len() == 24);
            assert(24nat % 24nat == 0nat) by (nonlinear_arith);
        }
        let data_buffer = match Buffer::alloc_uniform(bytes.as_slice(), 24, device_of(graphics)) {
            Result::Ok(b) => b,
            Result::Err(e) => {
                return Result::Err(MaterialError::Device(e));
            },
        };
        let texture_buffers = MaterialTextureBuffers { albedo, normal, metallic, roughness };
        match MaterialBuffer::new(texture_buffers, data_buffer, registry, &mut graphics.device) {
            Result::Ok(m) => Result::Ok(m),
            Result::Err(e) => Result::Err(MaterialError::Pipeline(e)),
        }
    }

    /// The option bits of this material: one per texture it carries.
    pub open spec fn option_bits(self) -> u32 {
        (if self.albedo_texture is Some {
            USE_ALBEDO_BIT
        } else {
            0
        }) | (if self.normal_texture is Some {
            USE_NORMAL_BIT
        } else {
            0
        }) | (if self.metallic_texture is Some {
            USE_METALLIC_BIT
        } else {
            0
        }) | (if self.roughness_texture is Some {
            USE_ROUGHNESS_BIT
        } else {
            0
        })
    }
}

/// The uploaded textures of a material, if it has them.
#[derive(Debug)]
pub struct MaterialTextureBuffers {
    pub albedo: Option<Arc<TextureBuffer>>,
    pub normal: Option<Arc<TextureBuffer>>,
    pub metallic: Option<Arc<TextureBuffer>>,
    pub roughness: Option<Arc<TextureBuffer>>,
}

impl MaterialTextureBuffers {
    pub fn new(
        albedo: Option<Arc<TextureBuffer>>,
        normal: Option<Arc<TextureBuffer>>,
        metallic: Option<Arc<TextureBuffer>>,
        roughness: Option<Arc<TextureBuffer>>,
    ) -> (r: MaterialTextureBuffers)
        ensures
            r.albedo is Some == albedo is Some,
            r.normal is Some == normal is Some,
            r.metallic is Some == metallic is Some,
            r.roughness is Some == roughness is Some,
    {
        MaterialTextureBuffers { albedo, normal, metallic, roughness }
    }

    /// No textures at all.
    pub fn none() -> (r: MaterialTextureBuffers)
        ensures
            r.albedo is None,
            r.normal is None,
            r.metallic is None,
            r.roughness is None,
    {
        MaterialTextureBuffers {
            albedo: Option::None,
            normal: Option::None,
            metallic: Option::None,
            roughness: Option::None,
        }
    }

    /// An albedo texture alone.
    pub fn from_albedo(albedo: Arc<TextureBuffer>) -> (r: MaterialTextureBuffers)
        ensures
            r.albedo is Some,
            r.normal is None,
            r.metallic is None,
            r.roughness is None,
    {
        MaterialTextureBuffers {
            albedo: Option::Some(albedo),
            normal: Option::None,
            metallic: Option::None,
            roughness: Option::None,
        }
    }
}

/// A material on the GPU: its textures, its data block, and the
/// descriptor set binding them for the fragment stage.
#[derive(Debug)]
pub struct MaterialBuffer {
    pub texture_buffers: MaterialTextureBuffers,
    pub data_buffer: Buffer,
    pub descriptor_set: DescriptorSet,
}

impl MaterialBuffer {
    /// Allocates the material's descriptor set against the shared
    /// material layout. Fails exactly when the mesh render pipeline has
    /// not registered that layout yet.
    fn create_desc_set(
        registry: &MaterialLayoutRegistry,
        device: &mut Device,
    ) -> (r: Result<DescriptorSet, PipelineError>)
        requires
            registry.wf(),
            old(device).next_resource_id < u64::MAX,
        ensures
            final(device).submissions_in_flight == old(device).submissions_in_flight,
            final(device).id == old(device).id,
            final(device).color_format == old(device).color_format,
            final(device).memory_types == old(device).memory_types,
            final(device).capabilities == old(device).capabilities,
            final(device).min_buffer_copy_pitch_alignment == old(
                device,
            ).min_buffer_copy_pitch_alignment,
            match r {
                Result::Ok(s) => {
                    &&& registry.layout is Some
                    &&& s.wf()
                    &&& s.bindings@ == material_layout_bindings()
                    &&& forall|i: int| 0 <= i < s.written@.len() ==> !s.written@[i]
                },
                Result::Err(e) => {
                    &&& e == PipelineError::MaterialLayoutMissing
                    &&& registry.layout is None
                    &&& final(device).next_resource_id == old(device).next_resource_id
                },
            },
    {
        match &registry.layout {
            Option::Some(layout) => {
                let mut pool_layouts: Vec<(&DescriptorSetLayout, usize)> = Vec::new();
                pool_layouts.push((layout, 1));
                proof {
                    crate::pipeline::lemma_count_of_type_bound(
                        layout.bindings@,
                        DescriptorType::UniformBuffer,
                    );
                    crate::pipeline::lemma_count_of_type_bound(
                        layout.bindings@,
                        DescriptorType::SampledImage,
                    );
                    crate::pipeline::lemma_count_of_type_bound(
                        layout.bindings@,
                        DescriptorType::Sampler,
                    );
                    assert(pool_layouts@.skip(1) =~= Seq::<(&DescriptorSetLayout, usize)>::empty());
                    assert(pool_layouts@.len() == 1 && pool_layouts@[0].0 == layout
                        && pool_layouts@[0].1 == 1usize);
                    assert(crate::pipeline::pool_capacity(
                        Seq::<(&DescriptorSetLayout, usize)>::empty(),
                        DescriptorType::UniformBuffer,
                    ) == 0);
                    assert(crate::pipeline::pool_capacity(
                        Seq::<(&DescriptorSetLayout, usize)>::empty(),
                        DescriptorType::SampledImage,
                    ) == 0);
                    assert(crate::pipeline::pool_capacity(
                        Seq::<(&DescriptorSetLayout, usize)>::empty(),
                        DescriptorType::Sampler,
                    ) == 0);
                    assert(crate::pipeline::pool_capacity(
                        pool_layouts@,
                        DescriptorType::UniformBuffer,
                    ) == crate::pipeline::count_of_type(
                        layout.bindings@,
                        DescriptorType::UniformBuffer,
                    ));
                    assert(crate::pipeline::pool_capacity(
                        pool_layouts@,
                        DescriptorType::SampledImage,
                    ) == crate::pipeline::count_of_type(
                        layout.bindings@,
                        DescriptorType::SampledImage,
                    ));
                    assert(crate::pipeline::pool_capacity(pool_layouts@, DescriptorType::Sampler)
                        == crate::pipeline::count_of_type(
                        layout.bindings@,
                        DescriptorType::Sampler,
                    ));
                }
                let mut descriptor_pool = DescriptorPool::new(1, pool_layouts.as_slice(), device);
                match DescriptorSet::new(layout, &mut descriptor_pool, device) {
                    Result::Ok(s) => Result::Ok(s),
                    Result::Err(_) => {
                        proof {
                            assert(false);
                        }
                        Result::Err(PipelineError::MaterialLayoutMissing)
                    },
                }
            },
            Option::None => Result::Err(PipelineError::MaterialLayoutMissing),
        }
    }

    /// Builds the material buffer: allocates a descriptor set against
    /// the shared layout and writes the data block, the shared sampler
    /// and each texture the material carries.
    pub fn new(
        texture_buffers: MaterialTextureBuffers,
        data_buffer: Buffer,
        registry: &MaterialLayoutRegistry,
        device: &mut Device,
    ) -> (r: Result<MaterialBuffer, PipelineError>)
        requires
            registry.wf(),
            old(device).next_resource_id < u64::MAX,
        ensures
            final(device).submissions_in_flight == old(device).submissions_in_flight,
            final(device).id == old(device).id,
            final(device).color_format == old(device).color_format,
            final(device).memory_types == old(device).memory_types,
            final(device).capabilities == old(device).capabilities,
            final(device).min_buffer_copy_pitch_alignment == old(
                device,
            ).min_buffer_copy_pitch_alignment,
            match r {
                Result::Ok(m) => {
                    &&& registry.layout is Some
                    &&& m.descriptor_set.wf()
                    &&& m.descriptor_set.bindings@ == material_layout_bindings()
                    // The data block and the sampler are always written;
                    // each texture binding exactly when the material has
                    // that texture.
                    &&& m.descriptor_set.written@ == seq![
                        true,
                        true,
                        m.texture_buffers.albedo is Some,
                        m.texture_buffers.normal is Some,
                        m.texture_buffers.metallic is Some,
                        m.texture_buffers.roughness is Some,
                    ]
                    &&& m.texture_buffers == texture_buffers
                    &&& m.data_buffer == data_buffer
                },
                Result::Err(e) => {
                    &&& e == PipelineError::MaterialLayoutMissing
                    &&& registry.layout is None
                },
            },
    {
        let descriptor_set = match Self::create_desc_set(registry, device) {
            Result::Ok(s) => s,
            Result::Err(e) => {
                return Result::Err(e);
            },
        };
        let mut this = MaterialBuffer { texture_buffers, data_buffer, descriptor_set };
        this.write_descriptor_input(device);
        proof {
            assert(this.descriptor_set.written@ =~= seq![
                true,
                true,
                this.texture_buffers.albedo is Some,
                this.texture_buffers.normal is Some,
                this.texture_buffers.metallic is Some,
                this.texture_buffers.roughness is Some,
            ]);
        }
        Result::Ok(this)
    }

    /// An all-defaults material buffer: no textures, a zeroed data
    /// block.
    pub fn empty(registry: &MaterialLayoutRegistry, device: &mut Device) -> (r: Result<
        MaterialBuffer,
        MaterialError,
    >)
        requires
            registry.wf(),
            old(device).wf(),
            old(device).next_resource_id < u64::MAX,
        ensures
            match r {
                Result::Ok(m) => {
                    &&& registry.layout is Some
                    &&& m.descriptor_set.wf()
                    &&& m.descriptor_set.bindings@ == material_layout_bindings()
                    &&& m.descriptor_set.written@ == seq![true, true, false, false, false, false]
                    &&& m.texture_buffers.albedo is None
                    &&& m.texture_buffers.normal is None
                    &&& m.texture_buffers.metallic is None
                    &&& m.texture_buffers.roughness is None
                    &&& m.data_buffer.filled_bytes() == seq![0u8, 0u8, 0u8, 0u8]
                    &&& m.data_buffer.count == 1
                },
                Result::Err(e) => match e {
                    MaterialError::Device(d) => {
                        &&& d == crate::device::DeviceError::NoCompatibleMemoryType
                        &&& forall|j: int|
                            !crate::device::mem_type_matches(
                                old(device).memory_types@,
                                u64::MAX,
                                crate::device::MEMORY_CPU_VISIBLE,
                                j,
                            )
                    },
                    MaterialError::Pipeline(p) => {
                        &&& p == PipelineError::MaterialLayoutMissing
                        &&& registry.layout is None
                    },
                },
            },
    {
        let mut zero_block: Vec<u8> = Vec::new();
        let mut i: usize = 0;
        while i < 4
            invariant
                i <= 4,
                zero_block@ =~= Seq::new(i as nat, |k: int| 0u8),
            decreases 4 - i,
        {
            zero_block.push(0u8);
            i = i + 1;
        }
        let data_buffer = match Buffer::alloc_uniform(zero_block.as_slice(), 4, device) {
            Result::Ok(b) => b,
            Result::Err(e) => {
                return Result::Err(MaterialError::Device(e));
            },
        };
        proof {
            assert(data_buffer.filled_bytes() =~= seq![0u8, 0u8, 0u8, 0u8]);
        }
        match Self::new(MaterialTextureBuffers::none(), data_buffer, registry, device) {
            Result::Ok(m) => Result::Ok(m),
            Result::Err(e) => Result::Err(MaterialError::Pipeline(e)),
        }
    }

    /// A material buffer over one albedo texture, with global material
    /// scalars and a black global color.
    pub fn basic_albedo(
        albedo: Arc<TextureBuffer>,
        metallic: u32,
        roughness: u32,
        registry: &MaterialLayoutRegistry,
        device: &mut Device,
    ) -> (r: Result<MaterialBuffer, MaterialError>)
        requires
            registry.wf(),
            old(device).wf(),
            old(device).next_resource_id < u64::MAX,
        ensures
            match r {
                Result::Ok(m) => {
                    &&& registry.layout is Some
                    &&& m.descriptor_set.wf()
                    &&& m.texture_buffers.albedo is Some
                    &&& m.texture_buffers.normal is None
                    &&& m.texture_buffers.metallic is None
                    &&& m.texture_buffers.roughness is None
                    &&& m.data_buffer.count == 1
                    &&& m.data_buffer.filled_bytes() == crate::render::le_bytes_of_words(
                        (ShaderData {
                            albedo_global: OpaqueColor { r: 0, g: 0, b: 0 },
                            options: USE_ALBEDO_BIT,
                            metallic_global: metallic,
                            roughness_global: roughness,
                        }).words(),
                    )
                },
                Result::Err(e) => match e {
                    MaterialError::Device(d) => {
                        &&& d == crate::device::DeviceError::NoCompatibleMemoryType
                        &&& forall|j: int|
                            !crate::device::mem_type_matches(
                                old(device).memory_types@,
                                u64::MAX,
                                crate::device::MEMORY_CPU_VISIBLE,
                                j,
                            )
                    },
                    MaterialError::Pipeline(p) => {
                        &&& p == PipelineError::MaterialLayoutMissing
                        &&& registry.layout is None
                    },
                },
            },
    {
        let shader_data = ShaderData::new(
            USE_ALBEDO_BIT,
            OpaqueColor { r: 0, g: 0, b: 0 },
            metallic,
            roughness,
        );
        let words = shader_data.to_words();
        let bytes = crate::render::words_to_le_bytes(&words);
        proof {
            assert(bytes@.len() == 24);
            assert(24nat % 24nat == 0nat) by (nonlinear_arith);
        }
        let data_buffer = match Buffer::alloc_uniform(bytes.as_slice(), 24, device) {
            Result::Ok(b) => b,
            Result::Err(e) => {
                return Result::Err(MaterialError::Device(e));
            },
        };
        match Self::new(MaterialTextureBuffers::from_albedo(albedo), data_buffer, registry, device) {
            Result::Ok(m) => Result::Ok(m),
            Result::Err(e) => Result::Err(MaterialError::Pipeline(e)),
        }
    }

    /// A textureless material buffer: a plain color with material
    /// scalars.
    pub fn with_color(
        color: OpaqueColor,
        metallic: u32,
        roughness: u32,
        registry: &MaterialLayoutRegistry,
        device: &mut Device,
    ) -> (r: Result<MaterialBuffer, MaterialError>)
        requires
            registry.wf(),
            old(device).wf(),
            old(device).next_resource_id < u64::MAX,
        ensures
            match r {
                Result::Ok(m) => {
                    &&& registry.layout is Some
                    &&& m.descriptor_set.wf()
                    &&& m.texture_buffers.albedo is None
                    &&& m.texture_buffers.normal is None
                    &&& m.texture_buffers.metallic is None
                    &&& m.texture_buffers.roughness is None
                    &&& m.data_buffer.count == 1
                    &&& m.data_buffer.filled_bytes() == crate::render::le_bytes_of_words(
                        (ShaderData {
                            albedo_global: color,
                            options: 0,
                            metallic_global: metallic,
                            roughness_global: roughness,
                        }).words(),
                    )
                },
                Result::Err(e) => match e {
                    MaterialError::Device(d) => {
                        &&& d == crate::device::DeviceError::NoCompatibleMemoryType
                        &&& forall|j: int|
                            !crate::device::mem_type_matches(
                                old(device).memory_types@,
                                u64::MAX,
                                crate::device::MEMORY_CPU_VISIBLE,
                                j,
                            )
                    },
                    MaterialError::Pipeline(p) => {
                        &&& p == PipelineError::MaterialLayoutMissing
                        &&& registry.layout is None
                    },
                },
            },
    {
        let shader_data = ShaderData::new(0, color, metallic, roughness);
        let words = shader_data.to_words();
        let bytes = crate::render::words_to_le_bytes(&words);
        proof {
            assert(bytes@.len() == 24);
            assert(24nat % 24nat == 0nat) by (nonlinear_arith);
        }
        let data_buffer = match Buffer::alloc_uniform(bytes.as_slice(), 24, device) {
            Result::Ok(b) => b,
            Result::Err(e) => {
                return Result::Err(MaterialError::Device(e));
            },
        };
        match Self::new(MaterialTextureBuffers::none(), data_buffer, registry, device) {
            Result::Ok(m) => Result::Ok(m),
            Result::Err(e) => Result::Err(MaterialError::Pipeline(e)),
        }
    }

    /// Writes the material's inputs into its descriptor set: the data
    /// block at binding zero, the shared sampler at one, and each
    /// present texture at its binding.
    pub fn write_descriptor_input(&mut self, device: &Device)
        requires
            old(self).descriptor_set.wf(),
            old(self).descriptor_set.bindings@ == material_layout_bindings(),
        ensures
            final(self).descriptor_set.wf(),
            final(self).descriptor_set.bindings@ == old(self).descriptor_set.bindings@,
            final(self).descriptor_set.id == old(self).descriptor_set.id,
            final(self).texture_buffers == old(self).texture_buffers,
            final(self).data_buffer == old(self).data_buffer,
            final(self).descriptor_set.written@ == old(self).descriptor_set.written@.update(
                0,
                true,
            ).update(1, true).update(2, old(self).texture_buffers.albedo is Some || old(
                self,
            ).descriptor_set.written@[2]).update(3, old(self).texture_buffers.normal is Some || old(
                self,
            ).descriptor_set.written@[3]).update(4, old(
                self,
            ).texture_buffers.metallic is Some || old(self).descriptor_set.written@[4]).update(
                5,
                old(self).texture_buffers.roughness is Some || old(self).descriptor_set.written@[5],
            ),
    {
        self.descriptor_set.write_descriptor(Option::Some(Descriptor::Buffer), 0, device);
        self.descriptor_set.write_descriptor(Option::Some(Descriptor::Sampler), 1, device);
        let has_albedo = self.texture_buffers.albedo.is_some();
        let has_normal = self.texture_buffers.normal.is_some();
        let has_metallic = self.texture_buffers.metallic.is_some();
        let has_roughness = self.texture_buffers.roughness.is_some();
        if has_albedo {
            self.descriptor_set.write_descriptor(Option::Some(Descriptor::Image), 2, device);
        } else {
            self.descriptor_set.write_descriptor(Option::None, 2, device);
        }
        if has_normal {
            self.descriptor_set.write_descriptor(Option::Some(Descriptor::Image), 3, device);
        } else {
            self.descriptor_set.write_descriptor(Option::None, 3, device);
        }
        if has_metallic {
            self.descriptor_set.write_descriptor(Option::Some(Descriptor::Image), 4, device);
        } else {
            self.descriptor_set.write_descriptor(Option::None, 4, device);
        }
        if has_roughness {
            self.descriptor_set.write_descriptor(Option::Some(Descriptor::Image), 5, device);
        } else {
            self.descriptor_set.write_descriptor(Option::None, 5, device);
        }
    }
}

} // verus!
