//! The frame buffer: one vertex list and one index list that hold every
//! shape drawn in a frame, ready for a single indexed draw call.

use vstd::prelude::*;
use crate::mesh::{
    indices_below, lemma_padded_wf, lemma_padding_aligns, remapped, Mesh, MeshModel, MAX_VERTICES,
};

verus! {

/// A frame has no room for the vertices of one more shape.
#[derive(Debug, Clone, Copy, PartialEq, Eq, Structural)]
pub struct CapacityExceeded;

/// Vertex and index capacity of the buffers on the graphics device.
#[derive(Debug, Clone, Copy, PartialEq, Eq, Structural)]
pub struct BufferCapacity {
    pub max_vertices: usize,
    pub max_indices: usize,
}

impl BufferCapacity {
    /// Room for one quad: four vertices and six indices.
    pub fn initial() -> (capacity: Self)
        ensures
            capacity == (BufferCapacity { max_vertices: 4, max_indices: 6 }),
    {
        BufferCapacity { max_vertices: 4, max_indices: 6 }
    }

    /// Bytes that a vertex buffer of this capacity takes, with vertices of
    /// `vertex_size` bytes each; `None` where the size has no 64 bits.
    pub fn vertex_buffer_size(&self, vertex_size: usize) -> (size: Option<u64>)
        ensures
            size is Some <==> self.max_vertices * vertex_size <= u64::MAX,
            size matches Some(bytes) ==> bytes == self.max_vertices * vertex_size,
    {
        (self.max_vertices as u64).checked_mul(vertex_size as u64)
    }

    /// Bytes that an index buffer of this capacity takes, two for each
    /// index; `None` where the size has no 64 bits.
    pub fn index_buffer_size(&self) -> (size: Option<u64>)
        ensures
            size is Some <==> 2 * self.max_indices <= u64::MAX,
            size matches Some(bytes) ==> bytes == 2 * self.max_indices,
    {
        (self.max_indices as u64).checked_mul(2)
    }
}

/// Whether `world` is what `to_world` makes of `local`, vertex by vertex.
pub open spec fn images<L, V, F: Fn(&L) -> V>(to_world: F, local: Seq<L>, world: Seq<V>) -> bool {
    &&& world.len() == local.len()
    &&& forall|i: int|
        0 <= i < local.len() ==> call_ensures(to_world, (&local[i],), #[trigger] world[i])
}

/// Geometry of one frame, in draw order: what was drawn later comes later
/// and ends up on top.
#[derive(Debug)]
pub struct Scene<V> {
    vertices: Vec<V>,
    indices: Vec<u16>,
}

impl<V> View for Scene<V> {
    type V = MeshModel<V>;

    closed spec fn view(&self) -> MeshModel<V> {
        MeshModel { vertices: self.vertices@, indices: self.indices@ }
    }
}

impl<V> Scene<V> {
    /// What every scene satisfies: each index names a vertex of the frame,
    /// and the vertices can be counted in 16 bits.
    #[verifier::type_invariant]
    pub open spec fn inv(&self) -> bool {
        &&& self@.wf()
        &&& self@.fits_frame()
    }

    /// An empty frame.
    pub fn new() -> (scene: Self)
        ensures
            scene.inv(),
            scene@ == MeshModel::<V>::empty(),
    {
        Scene { vertices: Vec::new(), indices: Vec::new() }
    }

    /// The vertices of the frame.
    pub fn vertices(&self) -> (vertices: &[V])
        ensures
            vertices@ == self@.vertices,
            vertices@.len() <= MAX_VERTICES,
    {
        proof {
            use_type_invariant(self);
        }
        self.vertices.as_slice()
    }

    /// The indices of the frame.
    pub fn indices(&self) -> (indices: &[u16])
        ensures
            indices@ == self@.indices,
            indices_below(indices@, self@.vertices.len()),
    {
        proof {
            use_type_invariant(self);
        }
        self.indices.as_slice()
    }

    /// Draws `mesh` on top of what the frame holds. Each vertex goes through
    /// `to_world` and is appended; each index is appended, moved up by the
    /// number of vertices that were in the frame before.
    ///
    /// Where the frame would end up with more than [`MAX_VERTICES`]
    /// vertices, nothing is drawn and the frame stays as it was.
    pub fn draw<L, F: Fn(&L) -> V>(&mut self, mesh: &Mesh<L>, to_world: F) -> (result: Result<
        (),
        CapacityExceeded,
    >)
        requires
            forall|i: int|
                0 <= i < mesh@.vertices.len() ==> call_requires(
                    to_world,
                    (&#[trigger] mesh@.vertices[i],),
                ),
        ensures
            final(self).inv(),
            result is Ok <==> old(self)@.vertices.len() + mesh@.vertices.len() <= MAX_VERTICES,
            result is Err ==> final(self)@ == old(self)@,
            result is Ok ==> ({
                let before = old(self)@.vertices.len() as int;
                let after = final(self)@.vertices.len() as int;
                let world = final(self)@.vertices.subrange(before, after);
                &&& after == before + mesh@.vertices.len()
                &&& images(to_world, mesh@.vertices, world)
                &&& final(self)@ == old(self)@.appended(world, mesh@.indices)
            }),
    {
        proof {
            use_type_invariant(&*self);
            use_type_invariant(mesh);
        }
        let local = mesh.vertices();
        let local_indices = mesh.indices();
        let offset: usize = self.vertices.len();
        if local.len() > MAX_VERTICES - offset {
            return Err(CapacityExceeded);
        }
        let ghost before = self@;
        let mut vertices: Vec<V> = Vec::new();
        let mut indices: Vec<u16> = Vec::new();
        core::mem::swap(&mut self.indices, &mut indices);
        core::mem::swap(&mut self.vertices, &mut vertices);

        let mut i: usize = 0;
        while i < local.len()
            invariant
                i <= local.len(),
                local@ == mesh@.vertices,
                offset + local.len() <= MAX_VERTICES,
                vertices@.len() == offset + i,
                vertices@.subrange(0, offset as int) == before.vertices,
                forall|j: int|
                    0 <= j < local.len() ==> call_requires(to_world, (&#[trigger] local@[j],)),
                forall|j: int|
                    0 <= j < i ==> call_ensures(
                        to_world,
                        (&local@[j],),
                        #[trigger] vertices@[offset + j],
                    ),
            decreases local.len() - i,
        {
            let ghost pushed = vertices@;
            let world = to_world(&local[i]);
            vertices.push(world);
            proof {
                assert(vertices@.subrange(0, offset as int) == pushed.subrange(0, offset as int));
                assert forall|j: int| 0 <= j < i + 1 implies call_ensures(
                    to_world,
                    (&local@[j],),
                    #[trigger] vertices@[offset + j],
                ) by {
                    if j < i {
                        assert(vertices@[offset + j] == pushed[offset + j]);
                    }
                }
            }
            i += 1;
        }

        let ghost all = remapped(local_indices@, offset as nat);
        let mut k: usize = 0;
        while k < local_indices.len()
            invariant
                k <= local_indices.len(),
                indices_below(local_indices@, local@.len() as nat),
                offset + local.len() <= MAX_VERTICES,
                all == remapped(local_indices@, offset as nat),
                indices@ == before.indices + all.subrange(0, k as int),
            decreases local_indices.len() - k,
        {
            let index: u16 = local_indices[k];
            let moved: u16 = (offset + index as usize) as u16;
            indices.push(moved);
            proof {
                assert(all[k as int] == moved);
                assert(all.subrange(0, k + 1) == all.subrange(0, k as int).push(moved));
            }
            k += 1;
        }
        proof {
            assert(all.subrange(0, all.len() as int) == all);
            let world = vertices@.subrange(offset as int, vertices@.len() as int);
            assert forall|j: int| 0 <= j < local@.len() implies call_ensures(
                to_world,
                (&local@[j],),
                #[trigger] world[j],
            ) by {
                assert(world[j] == vertices@[offset + j]);
            }
            assert forall|j: int| 0 <= j < indices@.len() implies (#[trigger] indices@[j])
                < vertices@.len() by {
                if j < before.indices.len() {
                    assert(indices@[j] == before.indices[j]);
                } else {
                    let n = j - before.indices.len();
                    assert(indices@[j] == all[n]);
                    assert(local_indices@[n] < local@.len());
                }
            }
            assert(vertices@ == before.vertices + world);
        }
        self.vertices = vertices;
        self.indices = indices;
        Ok(())
    }

    /// Pads the index list for upload, so that its bytes can be copied
    /// between buffers: appends as many indices as the remainder of the
    /// index count by the copy alignment, all of them 0, and returns the
    /// number of indices to draw, which is the count before padding.
    pub fn pad_indices(&mut self) -> (drawn: usize)
        ensures
            final(self).inv(),
            drawn == old(self)@.indices.len(),
            final(self)@ == old(self)@.padded(old(self)@.indices.len() % 4),
            (2 * final(self)@.indices.len()) % 4 == 0,
    {
        proof {
            use_type_invariant(&*self);
        }
        let ghost before = self@;
        let drawn: usize = self.indices.len();
        let padding: usize = drawn % copy_buffer_alignment();
        let mut indices: Vec<u16> = Vec::new();
        core::mem::swap(&mut self.indices, &mut indices);
        let mut k: usize = 0;
        while k < padding
            invariant
                k <= padding,
                padding == before.indices.len() % 4,
                before.wf(),
                indices@ == before.indices + Seq::new(k as nat, |j: int| 0u16),
            decreases padding - k,
        {
            indices.push(0);
            k += 1;
        }
        proof {
            if padding > 0 {
                assert(before.indices[0] < before.vertices.len());
            }
            lemma_padded_wf(before, padding as nat);
            lemma_padding_aligns(before.indices.len(), 4);
        }
        self.indices = indices;
        drawn
    }

    /// Says whether the buffers on the device are too small for the frame,
    /// and if so what capacity to ask for: the frame's own counts.
    pub fn resize_request(&self, capacity: BufferCapacity) -> (request: Option<BufferCapacity>)
        ensures
            request is Some <==> self@.vertices.len() > capacity.max_vertices || self@.indices.len()
                > capacity.max_indices,
            request matches Some(wanted) ==> wanted.max_vertices == self@.vertices.len()
                && wanted.max_indices == self@.indices.len(),
    {
        if self.vertices.len() > capacity.max_vertices || self.indices.len() > capacity.max_indices {
            Some(BufferCapacity { max_vertices: self.vertices.len(), max_indices: self.indices.len() })
        } else {
            None
        }
    }

    /// The index list as the bytes that are uploaded, two per index in the
    /// byte order of the machine.
    pub fn index_bytes(&self) -> (bytes: &[u8])
        ensures
            bytes@.len() == 2 * self@.indices.len(),
            bytes@ == low_byte_first(self@.indices) || bytes@ == high_byte_first(self@.indices),
    {
        index_slice_bytes(self.indices.as_slice())
    }
}

/// The bytes of `indices` with the low byte of each index before its high
/// byte.
pub open spec fn low_byte_first(indices: Seq<u16>) -> Seq<u8> {
    Seq::new(
        2 * indices.len(),
        |k: int|
            if k % 2 == 0 {
                (indices[k / 2] % 256) as u8
            } else {
                (indices[k / 2] / 256) as u8
            },
    )
}

/// The bytes of `indices` with the high byte of each index before its low
/// byte.
pub open spec fn high_byte_first(indices: Seq<u16>) -> Seq<u8> {
    Seq::new(
        2 * indices.len(),
        |k: int|
            if k % 2 == 0 {
                (indices[k / 2] / 256) as u8
            } else {
                (indices[k / 2] % 256) as u8
            },
    )
}

/// `wgpu::COPY_BUFFER_ALIGNMENT`, the number that the offsets and sizes of
/// copies between buffers have to be multiples of. It is the constant 4.
#[verifier::external_body]
fn copy_buffer_alignment() -> (alignment: usize)
    ensures
        alignment == 4,
{
    wgpu::COPY_BUFFER_ALIGNMENT as usize
}

/// `bytemuck::cast_slice` from 16-bit indices to bytes. The cast views the
/// memory of the slice as bytes: it yields two bytes for each index, which
/// are the index in the byte order of the machine, the same order for the
/// whole slice. From a type of alignment 2 to one of size 1 it cannot fail.
#[verifier::external_body]
fn index_slice_bytes(indices: &[u16]) -> (bytes: &[u8])
    ensures
        bytes@ == low_byte_first(indices@) || bytes@ == high_byte_first(indices@),
{
    bytemuck::cast_slice(indices)
}

impl<V> Default for Scene<V> {
    fn default() -> (scene: Self)
        ensures
            scene.inv(),
            scene@ == MeshModel::<V>::empty(),
    {
        Scene::new()
    }
}

} // verus!
