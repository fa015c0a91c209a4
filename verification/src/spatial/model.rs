//! Mesh vertex data: the packed vertex the mesh pipeline consumes, and
//! meshes buffered on the GPU.

use vstd::prelude::*;

use crate::buffer::Buffer;
use crate::device::{Device, DeviceError};
use crate::render::{le_bytes_of_words, words_to_le_bytes};

verus! {

/// Most bones that can influence one vertex.
pub const BONES_PER_VERTEX: usize = 4;

/// One packed mesh vertex, matching the mesh pipeline's fixed attribute
/// layout: position, normal and texture coordinates carried as 32-bit
/// float bit patterns, then four bone ids and four bone weights.
#[derive(Clone, Copy, PartialEq, Eq, Debug)]
pub struct ModelVertex {
    pub pos: [u32; 3],
    pub normal: [u32; 3],
    pub uv: [u32; 2],
    pub bone_ids: [i32; 4],
    pub bone_weights: [u32; 4],
}

impl ModelVertex {
    /// The sixteen words of the vertex, in attribute order.
    pub open spec fn words(self) -> Seq<u32> {
        seq![
            self.pos@[0],
            self.pos@[1],
            self.pos@[2],
            self.normal@[0],
            self.normal@[1],
            self.normal@[2],
            self.uv@[0],
            self.uv@[1],
            self.bone_ids@[0] as u32,
            self.bone_ids@[1] as u32,
            self.bone_ids@[2] as u32,
            self.bone_ids@[3] as u32,
            self.bone_weights@[0],
            self.bone_weights@[1],
            self.bone_weights@[2],
            self.bone_weights@[3],
        ]
    }

    /// A vertex with no bone influences yet.
    pub fn new(pos: [u32; 3], normal: [u32; 3], uv: [u32; 2]) -> (r: ModelVertex)
        ensures
            r.pos == pos,
            r.normal == normal,
            r.uv == uv,
            r.bone_ids@ =~= Seq::new(4, |i: int| 0i32),
            r.bone_weights@ =~= Seq::new(4, |i: int| 0u32),
    {
        ModelVertex { pos, normal, uv, bone_ids: [0, 0, 0, 0], bone_weights: [0, 0, 0, 0] }
    }

    /// Attaches a bone influence in the first free slot: the first slot
    /// whose weight is the zero bit pattern. A vertex whose slots are
    /// all taken is left unchanged.
    pub fn add_bone(&mut self, id: i32, weight: u32)
        ensures
            ({
                let slots = old(self).bone_weights@;
                if slots[0] == 0 {
                    final(self).bone_ids@ == old(self).bone_ids@.update(0, id)
                        && final(self).bone_weights@ == slots.update(0, weight)
                } else if slots[1] == 0 {
                    final(self).bone_ids@ == old(self).bone_ids@.update(1, id)
                        && final(self).bone_weights@ == slots.update(1, weight)
                } else if slots[2] == 0 {
                    final(self).bone_ids@ == old(self).bone_ids@.update(2, id)
                        && final(self).bone_weights@ == slots.update(2, weight)
                } else if slots[3] == 0 {
                    final(self).bone_ids@ == old(self).bone_ids@.update(3, id)
                        && final(self).bone_weights@ == slots.update(3, weight)
                } else {
                    *final(self) == *old(self)
                }
            }),
            final(self).pos == old(self).pos,
            final(self).normal == old(self).normal,
            final(self).uv == old(self).uv,
    {
        if self.bone_weights[0] == 0 {
            self.bone_ids.set(0, id);
            self.bone_weights.set(0, weight);
        } else if self.bone_weights[1] == 0 {
            self.bone_ids.set(1, id);
            self.bone_weights.set(1, weight);
        } else if self.bone_weights[2] == 0 {
            self.bone_ids.set(2, id);
            self.bone_weights.set(2, weight);
        } else if self.bone_weights[3] == 0 {
            self.bone_ids.set(3, id);
            self.bone_weights.set(3, weight);
        }
    }

    /// The vertex's sixteen words, for upload.
    pub fn to_words(&self) -> (r: Vec<u32>)
        ensures
            r@ == self.words(),
            r@.len() == 16,
    {
        let mut out: Vec<u32> = Vec::new();
        out.push(self.pos[0]);
        out.push(self.pos[1]);
        out.push(self.pos[2]);
        out.push(self.normal[0]);
        out.push(self.normal[1]);
        out.push(self.normal[2]);
        out.push(self.uv[0]);
        out.push(self.uv[1]);
        out.push(self.bone_ids[0] as u32);
        out.push(self.bone_ids[1] as u32);
        out.push(self.bone_ids[2] as u32);
        out.push(self.bone_ids[3] as u32);
        out.push(self.bone_weights[0]);
        out.push(self.bone_weights[1]);
        out.push(self.bone_weights[2]);
        out.push(self.bone_weights[3]);
        proof {
            assert(out@ =~= self.words());
        }
        out
    }
}

/// The words of a whole vertex list, vertex by vertex.
pub open spec fn vertices_words(verts: Seq<ModelVertex>) -> Seq<u32>
    decreases verts.len(),
{
    if verts.len() == 0 {
        Seq::empty()
    } else {
        vertices_words(verts.drop_last()) + verts.last().words()
    }
}

/// A mesh buffered on the GPU: its vertex buffer and, when the mesh is
/// indexed, its index buffer.
pub struct BufferedMesh {
    pub vertex_buffer: Buffer,
    pub index_buffer: Option<Buffer>,
}

impl BufferedMesh {
    /// Buffers a mesh: packs the vertices into a vertex buffer, and the
    /// indices, when given, into an index buffer.
    pub fn create(verts: &[ModelVertex], indices: Option<&[u32]>, device: &Device) -> (r: Result<
        BufferedMesh,
        DeviceError,
    >)
        requires
            device.wf(),
            verts@.len() * 64 <= usize::MAX,
            match indices {
                Option::Some(ix) => 4 * ix@.len() <= usize::MAX,
                Option::None => true,
            },
        ensures
            match r {
                Result::Ok(m) => {
                    &&& m.vertex_buffer.wf()
                    &&& m.vertex_buffer.filled_bytes() == le_bytes_of_words(
                        vertices_words(verts@),
                    )
                    &&& m.vertex_buffer.count == verts@.len()
                    &&& m.index_buffer is Some == indices is Some
                    &&& match (m.index_buffer, indices) {
                        (Option::Some(b), Option::Some(ix)) => b.filled_bytes()
                            == le_bytes_of_words(ix@) && b.count == ix@.len(),
                        _ => true,
                    }
                },
                Result::Err(e) => {
                    &&& e == DeviceError::NoCompatibleMemoryType
                    &&& forall|j: int|
                        !crate::device::mem_type_matches(
                            device.memory_types@,
                            u64::MAX,
                            crate::device::MEMORY_CPU_VISIBLE,
                            j,
                        )
                },
            },
    {
        let mut words: Vec<u32> = Vec::new();
        let mut i: usize = 0;
        proof {
            assert(vertices_words(verts@.take(0)) =~= Seq::<u32>::empty());
            assert(words@ =~= vertices_words(verts@.take(0)));
        }
        while i < verts.len()
            invariant
                i <= verts@.len(),
                verts@.len() * 64 <= usize::MAX,
                words@ == vertices_words(verts@.take(i as int)),
                words@.len() == 16 * i as nat,
            decreases verts@.len() - i,
        {
            proof {
                assert((i as nat + 1) * 16nat == i as nat * 16nat + 16nat) by (nonlinear_arith);
                assert(16 * (i as nat + 1) == 16 * i as nat + 16) by (nonlinear_arith);
                assert(i as nat * 16 <= verts@.len() * 64) by (nonlinear_arith)
                    requires i as nat <= verts@.len();
            }
            let mut vwords = verts[i].to_words();
            words.append(&mut vwords);
            proof {
                assert(verts@.take(i as int + 1).drop_last() =~= verts@.take(i as int));
                assert(verts@.take(i as int + 1).last() == verts@[i as int]);
                assert(words@ =~= vertices_words(verts@.take(i as int + 1)));
            }
            i = i + 1;
        }
        proof {
            assert(verts@.take(verts@.len() as int) =~= verts@);
            assert(16 * verts@.len() <= verts@.len() * 64 && 4 * (16 * verts@.len())
                <= verts@.len() * 64) by (nonlinear_arith);
            assert(16 * verts@.len() * 4 == 4 * words@.len()) by (nonlinear_arith)
                requires words@.len() == 16 * verts@.len();
        }
        let bytes = words_to_le_bytes(&words);
        let vertex_buffer = match Buffer::alloc_vertex(bytes.as_slice(), 64, device) {
            Result::Ok(b) => b,
            Result::Err(e) => {
                return Result::Err(e);
            },
        };
        proof {
            let n = verts@.len() as int;
            assert(bytes@.len() == 4 * (16 * n));
            assert(4 * (16 * n) == 64 * n) by (nonlinear_arith);
            assert(bytes@.len() % 64nat == 0 && bytes@.len() / 64nat == n) by (nonlinear_arith)
                requires bytes@.len() == 64 * n, n >= 0;
        }

        let index_buffer = match indices {
            Option::Some(ix) => {
                let mut iwords: Vec<u32> = Vec::new();
                let mut k: usize = 0;
                while k < ix.len()
                    invariant
                        k <= ix@.len(),
                        iwords@ =~= ix@.take(k as int),
                    decreases ix@.len() - k,
                {
                    iwords.push(ix[k]);
                    k = k + 1;
                }
                proof {
                    assert(iwords@ =~= ix@);
                }
                let ibytes = words_to_le_bytes(&iwords);
                proof {
                    let n = ix@.len() as int;
                    assert(ibytes@.len() % 4nat == 0 && ibytes@.len() / 4nat == n)
                        by (nonlinear_arith)
                        requires ibytes@.len() == 4 * n, n >= 0;
                }
                proof {
                    assert(crate::device::MEMORY_CPU_VISIBLE & crate::device::MEMORY_CPU_VISIBLE
                        == crate::device::MEMORY_CPU_VISIBLE) by (bit_vector);
                }
                match Buffer::alloc_filled(
                    ibytes.as_slice(),
                    4,
                    crate::buffer::USAGE_VERTEX,
                    crate::device::MEMORY_CPU_VISIBLE,
                    device,
                ) {
                    Result::Ok(b) => Option::Some(b),
                    Result::Err(e) => {
                        return Result::Err(e);
                    },
                }
            },
            Option::None => Option::None,
        };
        Result::Ok(BufferedMesh { vertex_buffer, index_buffer })
    }

    /// Records this mesh's draw through the mesh render pipeline.
    pub fn render(
        &self,
        material_set: &crate::pipeline::DescriptorSet,
        transform: crate::render::RenderTransform,
        pipeline: &mut crate::spatial::pipe::mesh::MeshRenderPipeline,
        encoder: &mut crate::command::Encoder,
    )
        requires
            self.vertex_buffer.count <= u32::MAX,
            match self.index_buffer {
                Option::Some(b) => b.count <= u32::MAX,
                Option::None => true,
            },
        ensures
            final(pipeline).is_bound,
            final(encoder).commands@.len() > old(encoder).commands@.len(),
            final(encoder).commands@.last() == if self.index_buffer is Some {
                crate::command::Command::DrawIndexed {
                    index_count: self.index_buffer->Some_0.count as u32,
                    instance_count: 1,
                }
            } else {
                crate::command::Command::Draw {
                    vertex_count: self.vertex_buffer.count as u32,
                    instance_count: 1,
                }
            },
    {
        let vertex_input = crate::pipeline::VertexInput {
            vertex_buffer: &self.vertex_buffer,
            index_buffer: self.index_buffer.as_ref(),
        };
        pipeline.render(&vertex_input, material_set, transform, encoder);
    }

    /// Wraps already-buffered vertex data.
    pub fn from_raw_buffers(vertex_buffer: Buffer, index_buffer: Option<Buffer>) -> (r:
        BufferedMesh)
        ensures
            r.vertex_buffer == vertex_buffer,
            r.index_buffer == index_buffer,
    {
        BufferedMesh { vertex_buffer, index_buffer }
    }
}

} // verus!
