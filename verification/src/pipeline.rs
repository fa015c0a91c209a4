//! Shader-resource binding and compiled pipeline state: descriptor-set
//! layouts, pools, sets, pipeline layouts and pipelines.
//!
//! A layout is an ordered list of (binding type, stage) pairs with
//! positional binding indices. A pool is pre-sized by summing requested
//! counts across the layouts sharing it and never grows. A set allocated
//! against one layout may only be written with matching binding types.
//! Pipelines are compiled once and rebound per draw, never patched.

use vstd::prelude::*;

use crate::buffer::{Buffer, TextureBuffer};
use crate::command::{Command, Encoder};
use crate::device::{Device, ShaderModule};

verus! {

/// Stage flag of the vertex stage.
pub const SHADER_STAGE_VERTEX: u32 = 1;

/// Stage flag of the fragment stage.
pub const SHADER_STAGE_FRAGMENT: u32 = 2;

/// The shader stage a binding is visible to.
#[derive(Clone, Copy, PartialEq, Eq, Structural, Debug)]
pub enum ShaderStage {
    Vertex,
    Fragment,
}

impl ShaderStage {
    pub open spec fn flags_spec(self) -> u32 {
        match self {
            ShaderStage::Vertex => SHADER_STAGE_VERTEX,
            ShaderStage::Fragment => SHADER_STAGE_FRAGMENT,
        }
    }

    pub fn flags(&self) -> (r: u32)
        ensures
            r == self.flags_spec(),
    {
        match self {
            ShaderStage::Vertex => SHADER_STAGE_VERTEX,
            ShaderStage::Fragment => SHADER_STAGE_FRAGMENT,
        }
    }
}

/// What kind of shader resource a binding takes.
#[derive(Clone, Copy, PartialEq, Eq, Structural, Debug)]
pub enum DescriptorType {
    UniformBuffer,
    SampledImage,
    Sampler,
}

/// A concrete shader resource to write into a binding.
#[derive(Clone, Copy, PartialEq, Eq, Structural, Debug)]
pub enum Descriptor {
    Buffer,
    Image,
    Sampler,
}

/// The binding type a descriptor occupies.
pub open spec fn descriptor_type_of(d: Descriptor) -> DescriptorType {
    match d {
        Descriptor::Buffer => DescriptorType::UniformBuffer,
        Descriptor::Image => DescriptorType::SampledImage,
        Descriptor::Sampler => DescriptorType::Sampler,
    }
}

/// Errors of the descriptor and pipeline layer. Compilation failure and
/// pool exhaustion at creation are fatal configuration errors.
#[derive(Clone, Copy, PartialEq, Eq, Structural, Debug)]
pub enum PipelineError {
    Compilation,
    DescriptorSetAllocation,
    MaterialLayoutMissing,
}

impl PipelineError {
    pub fn message(&self) -> &'static str {
        match self {
            PipelineError::Compilation => "Failed to create graphics pipeline.",
            PipelineError::DescriptorSetAllocation => {
                "Failed to create descriptor set. Perhaps the descriptor pool was not initialized properly?"
            },
            PipelineError::MaterialLayoutMissing => {
                "Failed to create material buffer - the mesh render pipeline has not yet been initialised."
            },
        }
    }
}

/// Represents a shader input that can be written into a descriptor set:
/// its binding type, and the descriptor to write, if the data exists
/// yet.
pub trait ShaderInput {
    spec fn binding_type_spec(&self) -> DescriptorType;

    spec fn descriptor_spec(&self) -> Option<Descriptor>;

    fn get_descriptor(&self) -> (r: Option<Descriptor>)
        ensures
            r == self.descriptor_spec(),
    ;

    fn get_binding_type(&self) -> (r: DescriptorType)
        ensures
            r == self.binding_type_spec(),
    ;
}

impl ShaderInput for Buffer {
    open spec fn binding_type_spec(&self) -> DescriptorType {
        DescriptorType::UniformBuffer
    }

    open spec fn descriptor_spec(&self) -> Option<Descriptor> {
        Option::Some(Descriptor::Buffer)
    }

    fn get_descriptor(&self) -> (r: Option<Descriptor>) {
        Option::Some(Descriptor::Buffer)
    }

    fn get_binding_type(&self) -> (r: DescriptorType) {
        DescriptorType::UniformBuffer
    }
}

impl ShaderInput for TextureBuffer {
    open spec fn binding_type_spec(&self) -> DescriptorType {
        DescriptorType::SampledImage
    }

    open spec fn descriptor_spec(&self) -> Option<Descriptor> {
        Option::Some(Descriptor::Image)
    }

    fn get_descriptor(&self) -> (r: Option<Descriptor>) {
        Option::Some(Descriptor::Image)
    }

    fn get_binding_type(&self) -> (r: DescriptorType) {
        DescriptorType::SampledImage
    }
}

/// A texture sampler created on the device.
#[derive(Clone, Copy, PartialEq, Eq, Structural, Debug)]
pub struct TextureSampler {
    pub id: u64,
}

impl TextureSampler {
    pub fn new(device: &mut Device) -> (r: TextureSampler)
        requires
            old(device).next_resource_id < u64::MAX,
        ensures
            r.id == old(device).next_resource_id,
            final(device).next_resource_id == old(device).next_resource_id + 1,
            final(device).id == old(device).id,
            final(device).color_format == old(device).color_format,
            final(device).memory_types == old(device).memory_types,
            final(device).min_buffer_copy_pitch_alignment == old(
                device,
            ).min_buffer_copy_pitch_alignment,
            final(device).capabilities == old(device).capabilities,
            final(device).submissions_in_flight == old(device).submissions_in_flight,
    {
        TextureSampler { id: device.fresh_resource_id() }
    }
}

impl ShaderInput for TextureSampler {
    open spec fn binding_type_spec(&self) -> DescriptorType {
        DescriptorType::Sampler
    }

    open spec fn descriptor_spec(&self) -> Option<Descriptor> {
        Option::Some(Descriptor::Sampler)
    }

    fn get_descriptor(&self) -> (r: Option<Descriptor>) {
        Option::Some(Descriptor::Sampler)
    }

    fn get_binding_type(&self) -> (r: DescriptorType) {
        DescriptorType::Sampler
    }
}

/// A binding-type placeholder for data that is not initialized yet: all
/// that matters is that the layout is right.
#[derive(Clone, Copy, PartialEq, Eq, Structural, Debug)]
pub struct ShaderInputDescriptor {
    pub binding_type: DescriptorType,
}

impl ShaderInputDescriptor {
    pub fn image_descriptor() -> (r: ShaderInputDescriptor)
        ensures
            r.binding_type == DescriptorType::SampledImage,
    {
        ShaderInputDescriptor { binding_type: DescriptorType::SampledImage }
    }

    pub fn sampler_descriptor() -> (r: ShaderInputDescriptor)
        ensures
            r.binding_type == DescriptorType::Sampler,
    {
        ShaderInputDescriptor { binding_type: DescriptorType::Sampler }
    }

    pub fn uniform_buffer_descriptor() -> (r: ShaderInputDescriptor)
        ensures
            r.binding_type == DescriptorType::UniformBuffer,
    {
        ShaderInputDescriptor { binding_type: DescriptorType::UniformBuffer }
    }
}

impl ShaderInput for ShaderInputDescriptor {
    open spec fn binding_type_spec(&self) -> DescriptorType {
        self.binding_type
    }

    open spec fn descriptor_spec(&self) -> Option<Descriptor> {
        Option::None
    }

    fn get_descriptor(&self) -> (r: Option<Descriptor>) {
        Option::None
    }

    fn get_binding_type(&self) -> (r: DescriptorType) {
        self.binding_type
    }
}

/// An ordered (binding type, stage) list; binding indices are
/// positional and must stay consistent across layout, pool sizing and
/// any allocated set.
#[derive(Clone, Debug)]
pub struct DescriptorSetLayout {
    pub bindings: Vec<DescriptorType>,
    pub stages: Vec<u32>,
}

/// How many bindings of type `t` a binding list holds.
pub open spec fn count_of_type(bindings: Seq<DescriptorType>, t: DescriptorType) -> nat
    decreases bindings.len(),
{
    if bindings.len() == 0 {
        0
    } else {
        (if bindings[0] == t {
            1nat
        } else {
            0nat
        }) + count_of_type(bindings.skip(1), t)
    }
}

impl DescriptorSetLayout {
    pub open spec fn wf(self) -> bool {
        self.stages@.len() == self.bindings@.len()
    }

    /// Builds the layout from an ordered list of (binding type, stage)
    /// pairs; binding index `i` takes the type of entry `i`.
    pub fn create(inputs: &[(DescriptorType, ShaderStage)], device: &Device) -> (r:
        DescriptorSetLayout)
        ensures
            r.wf(),
            r.bindings@.len() == inputs@.len(),
            forall|i: int| 0 <= i < inputs@.len() ==> r.bindings@[i] == inputs@[i].0,
            forall|i: int|
                0 <= i < inputs@.len() ==> r.stages@[i] == inputs@[i].1.flags_spec(),
    {
        let mut bindings: Vec<DescriptorType> = Vec::new();
        let mut stages: Vec<u32> = Vec::new();
        let mut i: usize = 0;
        while i < inputs.len()
            invariant
                i <= inputs@.len(),
                bindings@.len() == i as nat,
                stages@.len() == i as nat,
                forall|k: int| 0 <= k < i ==> bindings@[k] == inputs@[k].0,
                forall|k: int| 0 <= k < i ==> stages@[k] == inputs@[k].1.flags_spec(),
            decreases inputs@.len() - i,
        {
            let (binding_type, stage) = inputs[i];
            bindings.push(binding_type);
            stages.push(stage.flags());
            i = i + 1;
        }
        DescriptorSetLayout { bindings, stages }
    }
}

/// The per-type capacity a pool was created with: the sum over the
/// layouts sharing the pool of each layout's count of the type, times
/// the number of sets requested for that layout.
pub open spec fn pool_capacity(
    layouts: Seq<(&DescriptorSetLayout, usize)>,
    t: DescriptorType,
) -> nat
    decreases layouts.len(),
{
    if layouts.len() == 0 {
        0
    } else {
        count_of_type(layouts[0].0.bindings@, t) * (layouts[0].1 as nat) + pool_capacity(
            layouts.skip(1),
            t,
        )
    }
}

/// Pre-sized per-type descriptor ranges; pools do not grow dynamically.
#[derive(Clone, Copy, PartialEq, Eq, Structural, Debug)]
pub struct DescriptorPool {
    pub max_sets: usize,
    pub sets_allocated: usize,
    pub avail_uniform: u64,
    pub avail_image: u64,
    pub avail_sampler: u64,
}

impl DescriptorPool {
    /// Sizes the pool for `max_sets` sets over the given (layout, count)
    /// requests.
    pub fn new(
        max_sets: usize,
        input_layouts: &[(&DescriptorSetLayout, usize)],
        device: &Device,
    ) -> (r: DescriptorPool)
        requires
            pool_capacity(input_layouts@, DescriptorType::UniformBuffer) <= u64::MAX,
            pool_capacity(input_layouts@, DescriptorType::SampledImage) <= u64::MAX,
            pool_capacity(input_layouts@, DescriptorType::Sampler) <= u64::MAX,
        ensures
            r.max_sets == max_sets,
            r.sets_allocated == 0,
            r.avail_uniform == pool_capacity(input_layouts@, DescriptorType::UniformBuffer),
            r.avail_image == pool_capacity(input_layouts@, DescriptorType::SampledImage),
            r.avail_sampler == pool_capacity(input_layouts@, DescriptorType::Sampler),
    {
        let mut avail_uniform: u64 = 0;
        let mut avail_image: u64 = 0;
        let mut avail_sampler: u64 = 0;
        let ghost all = input_layouts@;
        let mut i: usize = 0;
        proof {
            assert(all.skip(0) =~= all);
        }
        while i < input_layouts.len()
            invariant
                i <= all.len(),
                all == input_layouts@,
                avail_uniform + pool_capacity(all.skip(i as int), DescriptorType::UniformBuffer)
                    == pool_capacity(all, DescriptorType::UniformBuffer),
                avail_image + pool_capacity(all.skip(i as int), DescriptorType::SampledImage)
                    == pool_capacity(all, DescriptorType::SampledImage),
                avail_sampler + pool_capacity(all.skip(i as int), DescriptorType::Sampler)
                    == pool_capacity(all, DescriptorType::Sampler),
                pool_capacity(all, DescriptorType::UniformBuffer) <= u64::MAX,
                pool_capacity(all, DescriptorType::SampledImage) <= u64::MAX,
                pool_capacity(all, DescriptorType::Sampler) <= u64::MAX,
            decreases all.len() - i,
        {
            let (layout, count) = input_layouts[i];
            let nu = count_descriptors(layout, DescriptorType::UniformBuffer);
            let ni = count_descriptors(layout, DescriptorType::SampledImage);
            let ns = count_descriptors(layout, DescriptorType::Sampler);
            proof {
                assert(all.skip(i as int)[0] == all[i as int]);
                assert(all.skip(i as int).skip(1) =~= all.skip(i as int + 1));
                let rest_u = pool_capacity(all.skip(i as int + 1), DescriptorType::UniformBuffer);
                let rest_i = pool_capacity(all.skip(i as int + 1), DescriptorType::SampledImage);
                let rest_s = pool_capacity(all.skip(i as int + 1), DescriptorType::Sampler);
                assert(pool_capacity(all.skip(i as int), DescriptorType::UniformBuffer)
                    == count_of_type(all[i as int].0.bindings@, DescriptorType::UniformBuffer) * (
                all[i as int].1 as nat) + rest_u);
                assert(pool_capacity(all.skip(i as int), DescriptorType::SampledImage)
                    == count_of_type(all[i as int].0.bindings@, DescriptorType::SampledImage) * (
                all[i as int].1 as nat) + rest_i);
                assert(pool_capacity(all.skip(i as int), DescriptorType::Sampler)
                    == count_of_type(all[i as int].0.bindings@, DescriptorType::Sampler) * (
                all[i as int].1 as nat) + rest_s);
            }
            let add_u = nu as u64 * count as u64;
            let add_i = ni as u64 * count as u64;
            let add_s = ns as u64 * count as u64;
            avail_uniform = avail_uniform + add_u;
            avail_image = avail_image + add_i;
            avail_sampler = avail_sampler + add_s;
            i = i + 1;
        }
        proof {
            assert(all.skip(all.len() as int) =~= Seq::<(&DescriptorSetLayout, usize)>::empty());
        }
        DescriptorPool {
            max_sets,
            sets_allocated: 0,
            avail_uniform,
            avail_image,
            avail_sampler,
        }
    }

    /// Whether the pool can still provide a set with the given bindings.
    pub open spec fn can_allocate(self, bindings: Seq<DescriptorType>) -> bool {
        &&& self.sets_allocated < self.max_sets
        &&& count_of_type(bindings, DescriptorType::UniformBuffer) <= self.avail_uniform
        &&& count_of_type(bindings, DescriptorType::SampledImage) <= self.avail_image
        &&& count_of_type(bindings, DescriptorType::Sampler) <= self.avail_sampler
    }
}

/// Counts the bindings of one type in a layout.
fn count_descriptors(layout: &DescriptorSetLayout, t: DescriptorType) -> (r: usize)
    ensures
        r == count_of_type(layout.bindings@, t),
        r <= layout.bindings@.len(),
{
    let ghost all = layout.bindings@;
    let mut n: usize = 0;
    let mut i: usize = 0;
    proof {
        assert(all.skip(0) =~= all);
        lemma_count_of_type_bound(all, t);
    }
    while i < layout.bindings.len()
        invariant
            i <= all.len(),
            all == layout.bindings@,
            n + count_of_type(all.skip(i as int), t) == count_of_type(all, t),
            n <= i,
            count_of_type(all, t) <= all.len(),
        decreases all.len() - i,
    {
        proof {
            assert(all.skip(i as int)[0] == all[i as int]);
            assert(all.skip(i as int).skip(1) =~= all.skip(i as int + 1));
        }
        if matches_type(layout.bindings[i], t) {
            n = n + 1;
        }
        i = i + 1;
    }
    proof {
        assert(all.skip(all.len() as int) =~= Seq::<DescriptorType>::empty());
    }
    n
}

/// A type's count never exceeds the binding list's length.
pub proof fn lemma_count_of_type_bound(bindings: Seq<DescriptorType>, t: DescriptorType)
    ensures
        count_of_type(bindings, t) <= bindings.len(),
    decreases bindings.len(),
{
    if bindings.len() > 0 {
        lemma_count_of_type_bound(bindings.skip(1), t);
    }
}

fn matches_type(a: DescriptorType, b: DescriptorType) -> (r: bool)
    ensures
        r == (a == b),
{
    match (a, b) {
        (DescriptorType::UniformBuffer, DescriptorType::UniformBuffer) => true,
        (DescriptorType::SampledImage, DescriptorType::SampledImage) => true,
        (DescriptorType::Sampler, DescriptorType::Sampler) => true,
        _ => false,
    }
}

/// Represents the set of shader inputs bound together for a draw. A set
/// is allocated against one layout and stays valid only while every
/// write matches that layout's binding types — mismatches are ruled out
/// by contract.
#[derive(Clone, Debug)]
pub struct DescriptorSet {
    pub id: u64,
    pub bindings: Vec<DescriptorType>,
    pub written: Vec<bool>,
}

impl DescriptorSet {
    pub open spec fn wf(self) -> bool {
        self.written@.len() == self.bindings@.len()
    }

    /// Allocates a set against the layout from the pool. Succeeds
    /// exactly when the pool still has a set and enough descriptors of
    /// each type; failure is the descriptive pool error, since it means
    /// the pool was not sized for this layout.
    pub fn new(
        input_layout: &DescriptorSetLayout,
        descriptor_pool: &mut DescriptorPool,
        device: &mut Device,
    ) -> (r: Result<DescriptorSet, PipelineError>)
        requires
            old(device).next_resource_id < u64::MAX,
        ensures
            final(device).submissions_in_flight == old(device).submissions_in_flight,
            final(device).id == old(device).id,
            final(device).color_format == old(device).color_format,
            final(device).memory_types == old(device).memory_types,
            final(device).capabilities == old(device).capabilities,
            final(device).min_buffer_copy_pitch_alignment == old(
                device,
            ).min_buffer_copy_pitch_alignment,
            match r {
                Result::Ok(s) => {
                    &&& old(descriptor_pool).can_allocate(input_layout.bindings@)
                    &&& s.wf()
                    &&& s.bindings@ == input_layout.bindings@
                    &&& forall|i: int| 0 <= i < s.written@.len() ==> !s.written@[i]
                    &&& s.id == old(device).next_resource_id
                    &&& final(device).next_resource_id == old(device).next_resource_id + 1
                    &&& final(descriptor_pool).max_sets == old(descriptor_pool).max_sets
                    &&& final(descriptor_pool).sets_allocated == old(
                        descriptor_pool,
                    ).sets_allocated + 1
                    &&& final(descriptor_pool).avail_uniform == old(
                        descriptor_pool,
                    ).avail_uniform - count_of_type(
                        input_layout.bindings@,
                        DescriptorType::UniformBuffer,
                    )
                    &&& final(descriptor_pool).avail_image == old(descriptor_pool).avail_image
                        - count_of_type(input_layout.bindings@, DescriptorType::SampledImage)
                    &&& final(descriptor_pool).avail_sampler == old(
                        descriptor_pool,
                    ).avail_sampler - count_of_type(input_layout.bindings@, DescriptorType::Sampler)
                },
                Result::Err(e) => {
                    &&& e == PipelineError::DescriptorSetAllocation
                    &&& !old(descriptor_pool).can_allocate(input_layout.bindings@)
                    &&& *final(descriptor_pool) == *old(descriptor_pool)
                    &&& final(device).next_resource_id == old(device).next_resource_id
                },
            },
    {
        let nu = count_descriptors(input_layout, DescriptorType::UniformBuffer);
        let ni = count_descriptors(input_layout, DescriptorType::SampledImage);
        let ns = count_descriptors(input_layout, DescriptorType::Sampler);
        if descriptor_pool.sets_allocated >= descriptor_pool.max_sets
            || (nu as u64) > descriptor_pool.avail_uniform
            || (ni as u64) > descriptor_pool.avail_image
            || (ns as u64) > descriptor_pool.avail_sampler {
            return Result::Err(PipelineError::DescriptorSetAllocation);
        }
        descriptor_pool.sets_allocated = descriptor_pool.sets_allocated + 1;
        descriptor_pool.avail_uniform = descriptor_pool.avail_uniform - nu as u64;
        descriptor_pool.avail_image = descriptor_pool.avail_image - ni as u64;
        descriptor_pool.avail_sampler = descriptor_pool.avail_sampler - ns as u64;
        let id = device.fresh_resource_id();
        let bindings = clone_bindings(&input_layout.bindings);
        let mut written: Vec<bool> = Vec::new();
        let mut i: usize = 0;
        while i < bindings.len()
            invariant
                i <= bindings@.len(),
                written@.len() == i as nat,
                forall|k: int| 0 <= k < i ==> !written@[k],
                bindings@ == input_layout.bindings@,
            decreases bindings@.len() - i,
        {
            written.push(false);
            i = i + 1;
        }
        Result::Ok(DescriptorSet { id, bindings, written })
    }

    /// Allocates a set and writes the given descriptors, each at its
    /// stated binding; entries whose data does not exist yet are passed
    /// over. All bindings must match the layout's types.
    pub fn with_inputs(
        inputs: &[(Option<Descriptor>, u32)],
        input_layout: &DescriptorSetLayout,
        descriptor_pool: &mut DescriptorPool,
        device: &mut Device,
    ) -> (r: Result<DescriptorSet, PipelineError>)
        requires
            old(device).next_resource_id < u64::MAX,
            forall|i: int|
                0 <= i < inputs@.len() ==> (inputs@[i].1 as int) < input_layout.bindings@.len(),
            forall|i: int|
                0 <= i < inputs@.len() ==> match (#[trigger] inputs@[i]).0 {
                    Option::Some(d) => descriptor_type_of(d) == input_layout.bindings@[inputs@[i].1 as int],
                    Option::None => true,
                },
        ensures
            final(device).submissions_in_flight == old(device).submissions_in_flight,
            final(device).id == old(device).id,
            final(device).color_format == old(device).color_format,
            final(device).memory_types == old(device).memory_types,
            final(device).capabilities == old(device).capabilities,
            final(device).min_buffer_copy_pitch_alignment == old(
                device,
            ).min_buffer_copy_pitch_alignment,
            final(device).next_resource_id <= old(device).next_resource_id + 1,
            match r {
                Result::Ok(s) => {
                    &&& old(descriptor_pool).can_allocate(input_layout.bindings@)
                    &&& s.wf()
                    &&& s.bindings@ == input_layout.bindings@
                    &&& forall|b: int|
                        0 <= b < s.written@.len() ==> (s.written@[b] == exists|i: int|
                            0 <= i < inputs@.len() && inputs@[i].0 is Some && inputs@[i].1 == b)
                },
                Result::Err(e) => {
                    &&& e == PipelineError::DescriptorSetAllocation
                    &&& !old(descriptor_pool).can_allocate(input_layout.bindings@)
                    &&& *final(descriptor_pool) == *old(descriptor_pool)
                },
            },
    {
        let mut descriptor_set = match Self::new(input_layout, descriptor_pool, device) {
            Result::Ok(s) => s,
            Result::Err(e) => {
                return Result::Err(e);
            },
        };
        let mut i: usize = 0;
        while i < inputs.len()
            invariant
                i <= inputs@.len(),
                descriptor_set.wf(),
                descriptor_set.bindings@ == input_layout.bindings@,
                descriptor_set.id == old(device).next_resource_id,
                forall|k: int|
                    0 <= k < inputs@.len() ==> (inputs@[k].1 as int)
                        < input_layout.bindings@.len(),
                forall|k: int|
                    0 <= k < inputs@.len() ==> match (#[trigger] inputs@[k]).0 {
                        Option::Some(d) => descriptor_type_of(d)
                            == input_layout.bindings@[inputs@[k].1 as int],
                        Option::None => true,
                    },
                forall|b: int|
                    0 <= b < descriptor_set.written@.len() ==> (descriptor_set.written@[b]
                        == exists|k: int|
                        0 <= k < i && inputs@[k].0 is Some && inputs@[k].1 == b),
            decreases inputs@.len() - i,
        {
            let (descriptor, binding) = inputs[i];
            if let Option::Some(d) = descriptor {
                descriptor_set.written.set(binding as usize, true);
            }
            i = i + 1;
        }
        Result::Ok(descriptor_set)
    }

    /// Writes one descriptor at a binding; a missing descriptor writes
    /// nothing. The descriptor's type must match the binding's.
    pub fn write_descriptor(&mut self, descriptor: Option<Descriptor>, binding: u32, device: &Device)
        requires
            old(self).wf(),
            (binding as int) < old(self).bindings@.len(),
            match descriptor {
                Option::Some(d) => descriptor_type_of(d) == old(self).bindings@[binding as int],
                Option::None => true,
            },
        ensures
            final(self).wf(),
            final(self).id == old(self).id,
            final(self).bindings == old(self).bindings,
            final(self).written@ == if descriptor is Some {
                old(self).written@.update(binding as int, true)
            } else {
                old(self).written@
            },
    {
        if let Option::Some(d) = descriptor {
            self.written.set(binding as usize, true);
        }
    }

    /// Writes a shader input's descriptor at a binding. The input's
    /// binding type must match the layout's at that binding.
    pub fn write_input<I: ShaderInput>(&mut self, shader_input: &I, binding: u32, device: &Device)
        requires
            old(self).wf(),
            (binding as int) < old(self).bindings@.len(),
            match shader_input.descriptor_spec() {
                Option::Some(d) => descriptor_type_of(d) == old(self).bindings@[binding as int],
                Option::None => true,
            },
        ensures
            final(self).wf(),
            final(self).id == old(self).id,
            final(self).bindings == old(self).bindings,
            final(self).written@ == if shader_input.descriptor_spec() is Some {
                old(self).written@.update(binding as int, true)
            } else {
                old(self).written@
            },
    {
        let descriptor = shader_input.get_descriptor();
        self.write_descriptor(descriptor, binding, device);
    }

    /// Writes a batch of descriptors, each at its stated binding;
    /// entries whose data does not exist yet are passed over. All
    /// bindings must match the layout's types.
    pub fn write_inputs(&mut self, inputs: &[(Option<Descriptor>, u32)], device: &Device)
        requires
            old(self).wf(),
            forall|i: int|
                0 <= i < inputs@.len() ==> (inputs@[i].1 as int) < old(self).bindings@.len(),
            forall|i: int|
                0 <= i < inputs@.len() ==> match (#[trigger] inputs@[i]).0 {
                    Option::Some(d) => descriptor_type_of(d)
                        == old(self).bindings@[inputs@[i].1 as int],
                    Option::None => true,
                },
        ensures
            final(self).wf(),
            final(self).id == old(self).id,
            final(self).bindings == old(self).bindings,
            final(self).written@.len() == old(self).written@.len(),
            // A binding ends written when it was written before or some
            // entry of the batch writes it.
            forall|b: int|
                0 <= b < final(self).written@.len() ==> (final(self).written@[b] == (old(
                    self,
                ).written@[b] || exists|i: int|
                    0 <= i < inputs@.len() && (#[trigger] inputs@[i]).0 is Some && inputs@[i].1
                        == b)),
    {
        let mut i: usize = 0;
        while i < inputs.len()
            invariant
                i <= inputs@.len(),
                self.wf(),
                self.bindings == old(self).bindings,
                self.id == old(self).id,
                self.written@.len() == old(self).written@.len(),
                forall|k: int|
                    0 <= k < inputs@.len() ==> (inputs@[k].1 as int) < self.bindings@.len(),
                forall|k: int|
                    0 <= k < inputs@.len() ==> match (#[trigger] inputs@[k]).0 {
                        Option::Some(d) => descriptor_type_of(d)
                            == self.bindings@[inputs@[k].1 as int],
                        Option::None => true,
                    },
                forall|b: int|
                    0 <= b < self.written@.len() ==> (self.written@[b] == (old(
                        self,
                    ).written@[b] || exists|k: int|
                        0 <= k < i && (#[trigger] inputs@[k]).0 is Some && inputs@[k].1 == b)),
            decreases inputs@.len() - i,
        {
            let (descriptor, binding) = inputs[i];
            self.write_descriptor(descriptor, binding, device);
            i = i + 1;
        }
    }

    /// Binds the set for the following draws.
    pub fn bind(&self, pipeline_layout: &PipelineLayout, encoder: &mut Encoder)
        ensures
            final(encoder).commands@.len() == old(encoder).commands@.len() + 1,
            final(encoder).commands@.drop_last() == old(encoder).commands@,
            final(encoder).commands@.last() matches Command::BindDescriptorSets {
                first_set,
                sets,
            } && first_set == 0 && sets@ == seq![self.id],
    {
        let mut sets: Vec<u64> = Vec::new();
        sets.push(self.id);
        proof {
            assert(sets@ =~= seq![self.id]);
        }
        encoder.bind_graphics_descriptor_sets(0, sets);
    }
}

pub fn clone_bindings(bindings: &Vec<DescriptorType>) -> (r: Vec<DescriptorType>)
    ensures
        r@ == bindings@,
{
    let mut out: Vec<DescriptorType> = Vec::new();
    let mut i: usize = 0;
    while i < bindings.len()
        invariant
            i <= bindings@.len(),
            out@ =~= bindings@.take(i as int),
        decreases bindings@.len() - i,
    {
        out.push(bindings[i]);
        i = i + 1;
    }
    proof {
        assert(out@ =~= bindings@);
    }
    out
}

/// A layout and a set allocated against it, kept together.
#[derive(Debug)]
pub struct DescriptorSetInterface {
    pub layout: DescriptorSetLayout,
    pub set: DescriptorSet,
}

impl DescriptorSetInterface {
    pub fn new(layout: DescriptorSetLayout, set: DescriptorSet) -> (r: DescriptorSetInterface)
        ensures
            r.layout == layout,
            r.set == set,
    {
        DescriptorSetInterface { layout, set }
    }

    pub fn bind(&self, pipeline_layout: &PipelineLayout, encoder: &mut Encoder)
        ensures
            final(encoder).commands@.len() == old(encoder).commands@.len() + 1,
            final(encoder).commands@.drop_last() == old(encoder).commands@,
            final(encoder).commands@.last() matches Command::BindDescriptorSets {
                first_set,
                sets,
            } && first_set == 0 && sets@ == seq![self.set.id],
    {
        self.set.bind(pipeline_layout, encoder);
    }

    pub fn write_descriptor(&mut self, descriptor: Option<Descriptor>, binding: u32, device: &Device)
        requires
            old(self).set.wf(),
            (binding as int) < old(self).set.bindings@.len(),
            match descriptor {
                Option::Some(d) => descriptor_type_of(d) == old(
                    self,
                ).set.bindings@[binding as int],
                Option::None => true,
            },
        ensures
            final(self).set.wf(),
            final(self).layout == old(self).layout,
            final(self).set.id == old(self).set.id,
            final(self).set.bindings == old(self).set.bindings,
            final(self).set.written@ == if descriptor is Some {
                old(self).set.written@.update(binding as int, true)
            } else {
                old(self).set.written@
            },
    {
        self.set.write_descriptor(descriptor, binding, device);
    }

    pub fn write_input<I: ShaderInput>(&mut self, shader_input: &I, binding: u32, device: &Device)
        requires
            old(self).set.wf(),
            (binding as int) < old(self).set.bindings@.len(),
            match shader_input.descriptor_spec() {
                Option::Some(d) => descriptor_type_of(d) == old(
                    self,
                ).set.bindings@[binding as int],
                Option::None => true,
            },
        ensures
            final(self).set.wf(),
            final(self).layout == old(self).layout,
            final(self).set.id == old(self).set.id,
            final(self).set.bindings == old(self).set.bindings,
            final(self).set.written@ == if shader_input.descriptor_spec() is Some {
                old(self).set.written@.update(binding as int, true)
            } else {
                old(self).set.written@
            },
    {
        self.set.write_input(shader_input, binding, device);
    }
}

/// A push-constant range: stage flags and the half-open word range.
#[derive(Clone, Copy, PartialEq, Eq, Structural, Debug)]
pub struct PushConstantRange {
    pub stages: u32,
    pub start: u32,
    pub end: u32,
}

/// A compiled pipeline layout: the set layouts and push-constant ranges
/// pipelines over it use.
#[derive(Clone, Debug)]
pub struct PipelineLayout {
    pub set_layouts: Vec<DescriptorSetLayout>,
    pub push_constant_ranges: Vec<PushConstantRange>,
}

impl PipelineLayout {
    /// Compiles the layout from the given set layouts and push-constant
    /// ranges.
    pub fn create(
        input_layout: &[&DescriptorSetLayout],
        push_constant_ranges: &[PushConstantRange],
        device: &Device,
    ) -> (r: PipelineLayout)
        ensures
            r.set_layouts@.len() == input_layout@.len(),
            forall|i: int|
                0 <= i < input_layout@.len() ==> r.set_layouts@[i].bindings@
                    == input_layout@[i].bindings@,
            r.push_constant_ranges@ == push_constant_ranges@,
    {
        let mut set_layouts: Vec<DescriptorSetLayout> = Vec::new();
        let mut i: usize = 0;
        while i < input_layout.len()
            invariant
                i <= input_layout@.len(),
                set_layouts@.len() == i as nat,
                forall|k: int|
                    0 <= k < i ==> set_layouts@[k].bindings@ == input_layout@[k].bindings@,
            decreases input_layout@.len() - i,
        {
            let layout = input_layout[i];
            set_layouts.push(
                DescriptorSetLayout {
                    bindings: clone_bindings(&layout.bindings),
                    stages: clone_stages(&layout.stages),
                },
            );
            i = i + 1;
        }
        let mut ranges: Vec<PushConstantRange> = Vec::new();
        let mut i: usize = 0;
        while i < push_constant_ranges.len()
            invariant
                i <= push_constant_ranges@.len(),
                ranges@ =~= push_constant_ranges@.take(i as int),
            decreases push_constant_ranges@.len() - i,
        {
            ranges.push(push_constant_ranges[i]);
            i = i + 1;
        }
        proof {
            assert(ranges@ =~= push_constant_ranges@);
        }
        PipelineLayout { set_layouts, push_constant_ranges: ranges }
    }

    /// Binds several sets, first set index zero.
    pub fn bind_descriptor_sets(&self, input_sets: &[&DescriptorSet], encoder: &mut Encoder)
        ensures
            final(encoder).commands@.len() == old(encoder).commands@.len() + 1,
            final(encoder).commands@.drop_last() == old(encoder).commands@,
            final(encoder).commands@.last() matches Command::BindDescriptorSets {
                first_set,
                sets,
            } && first_set == 0 && sets@ == set_ids(input_sets@),
    {
        let mut sets: Vec<u64> = Vec::new();
        let mut i: usize = 0;
        while i < input_sets.len()
            invariant
                i <= input_sets@.len(),
                sets@ =~= set_ids(input_sets@.take(i as int)),
            decreases input_sets@.len() - i,
        {
            sets.push(input_sets[i].id);
            proof {
                assert(input_sets@.take(i as int + 1).drop_last() =~= input_sets@.take(i as int));
                assert(sets@ =~= set_ids(input_sets@.take(i as int + 1)));
            }
            i = i + 1;
        }
        proof {
            assert(input_sets@.take(input_sets@.len() as int) =~= input_sets@);
        }
        encoder.bind_graphics_descriptor_sets(0, sets);
    }
}

/// The ids of a list of descriptor sets, in order.
pub open spec fn set_ids(sets: Seq<&DescriptorSet>) -> Seq<u64>
    decreases sets.len(),
{
    if sets.len() == 0 {
        Seq::empty()
    } else {
        set_ids(sets.drop_last()).push(sets.last().id)
    }
}

pub fn clone_stages(stages: &Vec<u32>) -> (r: Vec<u32>)
    ensures
        r@ == stages@,
{
    let mut out: Vec<u32> = Vec::new();
    let mut i: usize = 0;
    while i < stages.len()
        invariant
            i <= stages@.len(),
            out@ =~= stages@.take(i as int),
        decreases stages@.len() - i,
    {
        out.push(stages[i]);
        i = i + 1;
    }
    proof {
        assert(out@ =~= stages@);
    }
    out
}

/// Primitive topology of a pipeline.
#[derive(Clone, Copy, PartialEq, Eq, Structural, Debug)]
pub enum Primitive {
    TriangleList,
    LineList,
    PointList,
}

/// Winding order the rasterizer treats as front-facing.
#[derive(Clone, Copy, PartialEq, Eq, Structural, Debug)]
pub enum FrontFace {
    CounterClockwise,
    Clockwise,
}

/// Rasterizer state of a pipeline; faces are culled by flag bits.
#[derive(Clone, Copy, PartialEq, Eq, Structural, Debug)]
pub struct Rasterizer {
    pub cull_back_faces: bool,
    pub front_face: FrontFace,
    pub depth_clamping: bool,
    pub conservative: bool,
}

/// One vertex buffer binding of a pipeline.
#[derive(Clone, Copy, PartialEq, Eq, Structural, Debug)]
pub struct VertexBufferDesc {
    pub binding: u32,
    pub stride: u32,
    pub rate: u32,
}

/// Formats a vertex attribute can take.
#[derive(Clone, Copy, PartialEq, Eq, Structural, Debug)]
pub enum VertexFormat {
    Rg32Float,
    Rgb32Float,
    Rgba32Float,
    Rgba32Int,
}

/// One vertex attribute: its shader location, source binding, format
/// and byte offset inside the vertex.
#[derive(Clone, Copy, PartialEq, Eq, Structural, Debug)]
pub struct AttributeDesc {
    pub location: u32,
    pub binding: u32,
    pub format: VertexFormat,
    pub offset: u32,
}

/// Depth/stencil state of a pipeline.
#[derive(Clone, Copy, PartialEq, Eq, Structural, Debug)]
pub struct DepthStencilDesc {
    pub depth_test: bool,
    pub depth_write: bool,
    pub depth_bounds: bool,
}

/// Everything a graphics pipeline is compiled from.
#[derive(Clone, Debug)]
pub struct GraphicsPipelineDesc {
    pub vertex_shader: ShaderModule,
    pub fragment_shader: Option<ShaderModule>,
    pub primitive: Primitive,
    pub rasterizer: Rasterizer,
    pub vertex_buffers: Vec<VertexBufferDesc>,
    pub attributes: Vec<AttributeDesc>,
    pub depth_stencil: DepthStencilDesc,
    pub alpha_blending: bool,
}

/// Whether some declared vertex buffer uses the binding slot `b`.
pub open spec fn has_buffer_binding(bufs: Seq<VertexBufferDesc>, b: u32) -> bool {
    exists|j: int| 0 <= j < bufs.len() && (#[trigger] bufs[j]).binding == b
}

impl GraphicsPipelineDesc {
    /// A description compiles when its shaders are valid modules and
    /// every attribute reads from a declared vertex buffer binding.
    pub open spec fn wf(self) -> bool {
        &&& self.vertex_shader.wf()
        &&& match self.fragment_shader {
            Option::Some(m) => m.wf(),
            Option::None => true,
        }
        &&& forall|i: int|
            0 <= i < self.attributes@.len() ==> has_buffer_binding(
                self.vertex_buffers@,
                (#[trigger] self.attributes@[i]).binding,
            )
    }
}

/// A compiled, immutable graphics pipeline.
#[derive(Clone, Debug)]
pub struct Pipeline {
    pub id: u64,
    pub desc: GraphicsPipelineDesc,
}

impl Pipeline {
    /// Compiles a pipeline. Succeeds exactly when the description is
    /// well-formed; failure is fatal.
    pub fn create(pipeline_desc: GraphicsPipelineDesc, device: &mut Device) -> (r: Result<
        Pipeline,
        PipelineError,
    >)
        requires
            old(device).next_resource_id < u64::MAX,
        ensures
            final(device).submissions_in_flight == old(device).submissions_in_flight,
            final(device).id == old(device).id,
            final(device).color_format == old(device).color_format,
            final(device).memory_types == old(device).memory_types,
            final(device).capabilities == old(device).capabilities,
            final(device).min_buffer_copy_pitch_alignment == old(
                device,
            ).min_buffer_copy_pitch_alignment,
            match r {
                Result::Ok(p) => {
                    &&& pipeline_desc.wf()
                    &&& p.desc == pipeline_desc
                    &&& p.id == old(device).next_resource_id
                },
                Result::Err(e) => {
                    &&& e == PipelineError::Compilation
                    &&& !pipeline_desc.wf()
                    &&& final(device).next_resource_id == old(device).next_resource_id
                },
            },
    {
        if pipeline_desc.vertex_shader.code.len() == 0
            || pipeline_desc.vertex_shader.code.len() % 4 != 0 {
            return Result::Err(PipelineError::Compilation);
        }
        if let Option::Some(m) = &pipeline_desc.fragment_shader {
            if m.code.len() == 0 || m.code.len() % 4 != 0 {
                return Result::Err(PipelineError::Compilation);
            }
        }
        let mut i: usize = 0;
        while i < pipeline_desc.attributes.len()
            invariant
                i <= pipeline_desc.attributes@.len(),
                forall|k: int|
                    0 <= k < i ==> has_buffer_binding(
                        pipeline_desc.vertex_buffers@,
                        (#[trigger] pipeline_desc.attributes@[k]).binding,
                    ),
            decreases pipeline_desc.attributes@.len() - i,
        {
            let attr_binding = pipeline_desc.attributes[i].binding;
            let mut found: bool = false;
            let mut j: usize = 0;
            while j < pipeline_desc.vertex_buffers.len()
                invariant
                    j <= pipeline_desc.vertex_buffers@.len(),
                    i < pipeline_desc.attributes@.len(),
                    attr_binding == pipeline_desc.attributes@[i as int].binding,
                    found == exists|k: int|
                        0 <= k < j && (#[trigger] pipeline_desc.vertex_buffers@[k]).binding
                            == attr_binding,
                decreases pipeline_desc.vertex_buffers@.len() - j,
            {
                if pipeline_desc.vertex_buffers[j].binding == attr_binding {
                    found = true;
                }
                j = j + 1;
            }
            if !found {
                return Result::Err(PipelineError::Compilation);
            }
            i = i + 1;
        }
        let id = device.fresh_resource_id();
        Result::Ok(Pipeline { id, desc: pipeline_desc })
    }

    /// Binds the pipeline for the following draws.
    pub fn bind(&self, encoder: &mut Encoder)
        ensures
            final(encoder).commands@ == old(encoder).commands@.push(
                Command::BindPipeline { pipeline: self.id },
            ),
    {
        encoder.bind_graphics_pipeline(self.id);
    }
}

/// A pipeline together with its layout.
#[derive(Debug)]
pub struct PipelineController {
    pub pipeline: Pipeline,
    pub layout: PipelineLayout,
}

impl PipelineController {
    pub fn new(pipeline: Pipeline, layout: PipelineLayout) -> (r: PipelineController)
        ensures
            r.pipeline == pipeline,
            r.layout == layout,
    {
        PipelineController { pipeline, layout }
    }

    pub fn bind_descriptor_sets(&self, input_sets: &[&DescriptorSet], encoder: &mut Encoder)
        ensures
            final(encoder).commands@.len() == old(encoder).commands@.len() + 1,
            final(encoder).commands@.drop_last() == old(encoder).commands@,
            final(encoder).commands@.last() matches Command::BindDescriptorSets {
                first_set,
                sets,
            } && first_set == 0 && sets@ == set_ids(input_sets@),
    {
        self.layout.bind_descriptor_sets(input_sets, encoder);
    }

    pub fn bind(&self, encoder: &mut Encoder)
        ensures
            final(encoder).commands@ == old(encoder).commands@.push(
                Command::BindPipeline { pipeline: self.pipeline.id },
            ),
    {
        self.pipeline.bind(encoder);
    }
}

/// The vertex data of one draw: a vertex buffer and, optionally, an
/// index buffer over it.
pub struct VertexInput<'a> {
    pub vertex_buffer: &'a Buffer,
    pub index_buffer: Option<&'a Buffer>,
}

} // verus!
