//! Indexed triangle geometry: a list of vertices and a list of 16-bit
//! indices into it.
//!
//! The vertex type is left open. A shape caches its tessellation as a
//! [`Mesh`] of local-space vertices; a frame collects the world-space
//! vertices of every shape drawn into it.

use vstd::prelude::*;

verus! {

/// Most vertices that one frame can hold. Indices are 16 bits wide, and
/// the count of vertices itself has to fit in an index.
pub const MAX_VERTICES: usize = 65535;

/// Indexed geometry as a mathematical value.
pub struct MeshModel<V> {
    pub vertices: Seq<V>,
    pub indices: Seq<u16>,
}

impl<V> MeshModel<V> {
    /// Geometry without vertices or indices.
    pub open spec fn empty() -> Self {
        MeshModel { vertices: Seq::empty(), indices: Seq::empty() }
    }

    /// Every index names a vertex.
    pub open spec fn wf(self) -> bool {
        indices_below(self.indices, self.vertices.len())
    }

    /// The vertices can be numbered by 16-bit indices within one frame.
    pub open spec fn fits_frame(self) -> bool {
        self.vertices.len() <= MAX_VERTICES
    }

    /// The vertex that the `k`-th index names.
    pub open spec fn corner(self, k: int) -> V
        recommends
            self.wf(),
            0 <= k < self.indices.len(),
    {
        self.vertices[self.indices[k] as int]
    }

    /// This geometry followed by `vertices`, with `indices` counted from the
    /// first of the new vertices.
    pub open spec fn appended(self, vertices: Seq<V>, indices: Seq<u16>) -> Self {
        MeshModel {
            vertices: self.vertices + vertices,
            indices: self.indices + remapped(indices, self.vertices.len()),
        }
    }

    /// This geometry with `count` further indices, all naming vertex 0.
    pub open spec fn padded(self, count: nat) -> Self {
        MeshModel { vertices: self.vertices, indices: self.indices + Seq::new(count, |k: int| 0u16) }
    }
}

/// `indices` moved up by `offset`, the number of vertices that precede the
/// ones they were counted from.
pub open spec fn remapped(indices: Seq<u16>, offset: nat) -> Seq<u16> {
    Seq::new(indices.len(), |k: int| (indices[k] + offset) as u16)
}

/// Whether every entry of `indices` is below `bound`.
pub open spec fn indices_below(indices: Seq<u16>, bound: nat) -> bool {
    forall|k: int| 0 <= k < indices.len() ==> (#[trigger] indices[k]) < bound
}

/// What a mesh holds after it took in the outcome of a tessellation.
pub open spec fn stored<V>(tessellated: Option<(Vec<V>, Vec<u16>)>) -> MeshModel<V> {
    match tessellated {
        Some((vertices, indices)) => if indices_below(indices@, vertices@.len()) {
            MeshModel { vertices: vertices@, indices: indices@ }
        } else {
            MeshModel::empty()
        },
        None => MeshModel::empty(),
    }
}

/// Triangle geometry whose indices all name one of its vertices.
#[derive(Debug)]
pub struct Mesh<V> {
    vertices: Vec<V>,
    indices: Vec<u16>,
}

impl<V> View for Mesh<V> {
    type V = MeshModel<V>;

    closed spec fn view(&self) -> MeshModel<V> {
        MeshModel { vertices: self.vertices@, indices: self.indices@ }
    }
}

impl<V> Mesh<V> {
    /// What every mesh satisfies.
    #[verifier::type_invariant]
    pub open spec fn inv(&self) -> bool {
        self@.wf()
    }

    /// A mesh without geometry.
    pub fn empty() -> (mesh: Self)
        ensures
            mesh.inv(),
            mesh@ == MeshModel::<V>::empty(),
    {
        Mesh { vertices: Vec::new(), indices: Vec::new() }
    }

    /// Takes over tessellated buffers. Buffers with an index that names no
    /// vertex are turned down.
    pub fn new(vertices: Vec<V>, indices: Vec<u16>) -> (mesh: Option<Self>)
        ensures
            mesh is Some <==> indices_below(indices@, vertices@.len()),
            mesh matches Some(m) ==> m.inv() && m@ == (MeshModel { vertices: vertices@, indices: indices@ }),
    {
        let count: usize = vertices.len();
        let mut k: usize = 0;
        while k < indices.len()
            invariant
                k <= indices.len(),
                count == vertices.len(),
                forall|j: int| 0 <= j < k ==> (#[trigger] indices@[j]) < count,
            decreases indices.len() - k,
        {
            if indices[k] as usize >= count {
                return None;
            }
            k += 1;
        }
        Some(Mesh { vertices, indices })
    }

    /// The vertices, in the order the indices count them.
    pub fn vertices(&self) -> (vertices: &[V])
        ensures
            vertices@ == self@.vertices,
    {
        self.vertices.as_slice()
    }

    /// The corners of the triangles, three to a triangle.
    pub fn indices(&self) -> (indices: &[u16])
        ensures
            indices@ == self@.indices,
            indices_below(indices@, self@.vertices.len()),
    {
        proof {
            use_type_invariant(self);
        }
        self.indices.as_slice()
    }

    /// Whether the mesh holds no index, so that nothing of it is drawn.
    pub fn is_empty(&self) -> (empty: bool)
        ensures
            empty == (self@.indices.len() == 0),
    {
        self.indices.len() == 0
    }

    /// Overwrites the mesh with the outcome of a tessellation: with the
    /// buffers it produced, or with nothing where it failed or produced an
    /// index that names no vertex.
    pub fn store(&mut self, tessellated: Option<(Vec<V>, Vec<u16>)>)
        ensures
            final(self).inv(),
            final(self)@ == stored(tessellated),
    {
        match tessellated {
            Some((vertices, indices)) => {
                match Mesh::new(vertices, indices) {
                    Some(mesh) => {
                        *self = mesh;
                    },
                    None => {
                        self.clear();
                    },
                }
            },
            None => {
                self.clear();
            },
        }
    }

    /// Drops the geometry.
    pub fn clear(&mut self)
        ensures
            final(self).inv(),
            final(self)@ == MeshModel::<V>::empty(),
    {
        self.indices = Vec::new();
        self.vertices = Vec::new();
    }
}

/// Index remapping. Appending geometry leaves the indices that were there
/// as they are, and gives each new index the value it had plus the number of
/// vertices that were there, without wrapping.
pub proof fn lemma_appended_indices<V>(frame: MeshModel<V>, vertices: Seq<V>, indices: Seq<u16>)
    requires
        frame.vertices.len() + vertices.len() <= MAX_VERTICES,
        indices_below(indices, vertices.len()),
    ensures
        frame.appended(vertices, indices).indices.len() == frame.indices.len() + indices.len(),
        forall|k: int|
            0 <= k < frame.indices.len() ==> frame.appended(vertices, indices).indices[k]
                == #[trigger] frame.indices[k],
        forall|k: int|
            0 <= k < indices.len() ==> frame.appended(vertices, indices).indices[frame.indices.len()
                + k] == (#[trigger] indices[k]) + frame.vertices.len(),
{
}

/// Appending well-formed geometry to a well-formed frame that has room for
/// it gives a well-formed frame, in which the earlier vertices come first.
pub proof fn lemma_appended_wf<V>(frame: MeshModel<V>, vertices: Seq<V>, indices: Seq<u16>)
    requires
        frame.wf(),
        frame.vertices.len() + vertices.len() <= MAX_VERTICES,
        indices_below(indices, vertices.len()),
    ensures
        frame.appended(vertices, indices).wf(),
        frame.appended(vertices, indices).fits_frame(),
        frame.appended(vertices, indices).vertices.subrange(0, frame.vertices.len() as int)
            == frame.vertices,
{
    let a = frame.appended(vertices, indices);
    lemma_appended_indices(frame, vertices, indices);
    assert forall|k: int| 0 <= k < a.indices.len() implies (#[trigger] a.indices[k])
        < a.vertices.len() by {
        if k < frame.indices.len() {
            assert(a.indices[k] == frame.indices[k]);
        } else {
            let n = k - frame.indices.len();
            assert(a.indices[frame.indices.len() + n] == indices[n] + frame.vertices.len());
        }
    }
}

/// Triangles survive assembly. In the frame after appending, every corner
/// that was there names the vertex it named before, and every new corner
/// names the vertex that its index named in the geometry appended.
pub proof fn lemma_appended_corners<V>(frame: MeshModel<V>, vertices: Seq<V>, indices: Seq<u16>)
    requires
        frame.wf(),
        frame.vertices.len() + vertices.len() <= MAX_VERTICES,
        indices_below(indices, vertices.len()),
    ensures
        forall|k: int|
            0 <= k < frame.indices.len() ==> frame.appended(vertices, indices).corner(k)
                == #[trigger] frame.corner(k),
        forall|k: int|
            0 <= k < indices.len() ==> frame.appended(vertices, indices).corner(
                frame.indices.len() + k,
            ) == vertices[(#[trigger] indices[k]) as int],
{
    lemma_appended_indices(frame, vertices, indices);
}

/// Appending nothing changes nothing.
pub proof fn lemma_appended_nothing<V>(frame: MeshModel<V>)
    ensures
        frame.appended(Seq::empty(), Seq::empty()) == frame,
{
    let a = frame.appended(Seq::<V>::empty(), Seq::<u16>::empty());
    assert(a.vertices == frame.vertices);
    assert(a.indices == frame.indices);
}

/// Draw order. Appending two pieces of geometry one after the other puts
/// the vertices of the first before those of the second, and counts the
/// indices of the second from behind the first.
pub proof fn lemma_appended_twice<V>(
    frame: MeshModel<V>,
    first: MeshModel<V>,
    second: MeshModel<V>,
)
    ensures
        frame.appended(first.vertices, first.indices).appended(
            second.vertices,
            second.indices,
        ).vertices == frame.vertices + first.vertices + second.vertices,
        frame.appended(first.vertices, first.indices).appended(
            second.vertices,
            second.indices,
        ).indices == frame.indices + remapped(first.indices, frame.vertices.len()) + remapped(
            second.indices,
            frame.vertices.len() + first.vertices.len(),
        ),
{
}

/// Padding a well-formed frame keeps it well-formed and keeps every index
/// that is drawn, provided there is a vertex 0 where anything is added.
pub proof fn lemma_padded_wf<V>(frame: MeshModel<V>, count: nat)
    requires
        frame.wf(),
        count > 0 ==> frame.vertices.len() > 0,
    ensures
        frame.padded(count).wf(),
        frame.padded(count).vertices == frame.vertices,
        frame.padded(count).indices.len() == frame.indices.len() + count,
        frame.padded(count).indices.subrange(0, frame.indices.len() as int) == frame.indices,
{
    let p = frame.padded(count);
    assert forall|k: int| 0 <= k < p.indices.len() implies (#[trigger] p.indices[k])
        < p.vertices.len() by {
        if k < frame.indices.len() {
            assert(p.indices[k] == frame.indices[k]);
        }
    }
}

/// Why the padding is what it is. With `count` indices of two bytes each,
/// adding the remainder of `count` by an alignment of 1, 2 or 4 makes the
/// byte length a multiple of that alignment.
pub proof fn lemma_padding_aligns(count: nat, alignment: nat)
    requires
        alignment == 1 || alignment == 2 || alignment == 4,
    ensures
        (2 * (count + count % alignment)) % alignment == 0,
{
}

impl<V: Clone> Clone for Mesh<V> {
    /// A mesh with the same indices and a clone of each vertex.
    fn clone(&self) -> (copy: Self)
        ensures
            copy.inv(),
            copy@.indices == self@.indices,
            copy@.vertices.len() == self@.vertices.len(),
            forall|i: int|
                0 <= i < self@.vertices.len() ==> cloned(
                    #[trigger] self@.vertices[i],
                    copy@.vertices[i],
                ),
    {
        proof {
            use_type_invariant(self);
        }
        let vertices = self.vertices.clone();
        let indices = self.indices.clone();
        assert(indices@ == self.indices@);
        Mesh { vertices, indices }
    }
}

impl<V> Default for Mesh<V> {
    fn default() -> (mesh: Self)
        ensures
            mesh.inv(),
            mesh@ == MeshModel::<V>::empty(),
    {
        Mesh::empty()
    }
}

} // verus!
