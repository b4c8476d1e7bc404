//! Aggregation of shapes into one vertex buffer and one index list.
use vstd::prelude::*;

use crate::geometry::{
    Shape, Triangle, Vertex2D, MAX_INDEXED_VERTICES, lemma_triangle_has_three_vertices, triangle_list,
};

verus! {

/// `indices` moved past `base` earlier vertices.
pub open spec fn offset_indices(indices: Seq<u16>, base: nat) -> Seq<u16> {
    Seq::new(indices.len(), |i: int| (indices[i] + base) as u16)
}

/// The vertices of several shapes laid end to end, with each shape's
/// triangles re-indexed to where its vertices landed.
#[derive(Debug)]
pub struct BufferAssembler {
    vertices: Vec<Vertex2D>,
    indices: Vec<u16>,
}

impl BufferAssembler {
    pub closed spec fn vertex_seq(&self) -> Seq<Vertex2D> {
        self.vertices@
    }

    pub closed spec fn index_seq(&self) -> Seq<u16> {
        self.indices@
    }

    /// The index list describes whole triangles over the vertices, and every
    /// vertex can be addressed by a 16-bit index.
    pub open spec fn wf(&self) -> bool {
        &&& self.vertex_seq().len() <= MAX_INDEXED_VERTICES
        &&& triangle_list(self.index_seq(), self.vertex_seq().len())
    }

    /// An assembler holding no geometry.
    pub fn new() -> (r: BufferAssembler)
        ensures
            r.vertex_seq() == Seq::<Vertex2D>::empty(),
            r.index_seq() == Seq::<u16>::empty(),
            r.wf(),
    {
        BufferAssembler { vertices: Vec::new(), indices: Vec::new() }
    }

    /// Appends `shape`: its vertices as authored, and its triangles moved past
    /// the vertices already held. Returns false, and changes nothing, when the
    /// result would hold more vertices than 16-bit indices can address.
    pub fn add<S: Shape>(&mut self, shape: &S) -> (added: bool)
        requires
            old(self).wf(),
        ensures
            final(self).wf(),
            added == (old(self).vertex_seq().len() + shape.shape_vertices().len()
                <= MAX_INDEXED_VERTICES),
            added ==> final(self).vertex_seq() == old(self).vertex_seq() + shape.shape_vertices(),
            added ==> final(self).index_seq() == old(self).index_seq() + offset_indices(
                shape.shape_indices(),
                old(self).vertex_seq().len(),
            ),
            !added ==> final(self).vertex_seq() == old(self).vertex_seq(),
            !added ==> final(self).index_seq() == old(self).index_seq(),
    {
        let new_vertices = shape.vertices();
        let local = shape.indices();
        let base: usize = self.vertices.len();
        if new_vertices.len() > MAX_INDEXED_VERTICES - base {
            return false;
        }
        let ghost old_indices = self.indices@;
        let mut i: usize = 0;
        while i < local.len()
            invariant
                i <= local.len(),
                base == self.vertices.len(),
                self.vertices@ == old(self).vertex_seq(),
                base + new_vertices@.len() <= MAX_INDEXED_VERTICES,
                new_vertices@ == shape.shape_vertices(),
                local@ == shape.shape_indices(),
                triangle_list(local@, new_vertices@.len()),
                triangle_list(old_indices, base as nat),
                self.indices@ == old_indices + offset_indices(local@.take(i as int), base as nat),
            decreases local.len() - i,
        {
            assert(local@[i as int] < new_vertices@.len());
            let idx: u16 = (local[i] as usize + base) as u16;
            self.indices.push(idx);
            i = i + 1;
            assert(local@.take(i as int) =~= local@.take(i - 1) + seq![local@[i - 1]]);
            assert(offset_indices(local@.take(i as int), base as nat) =~= offset_indices(
                local@.take(i - 1),
                base as nat,
            ) + seq![idx]);
        }
        assert(local@.take(local.len() as int) =~= local@);
        assert(new_vertices@.take(0) =~= Seq::<Vertex2D>::empty());
        assert(self.vertices@ =~= old(self).vertex_seq() + new_vertices@.take(0));
        let mut j: usize = 0;
        while j < new_vertices.len()
            invariant
                j <= new_vertices.len(),
                self.vertices@ == old(self).vertex_seq() + new_vertices@.take(j as int),
                self.indices@ == old_indices + offset_indices(local@, base as nat),
                base == old(self).vertex_seq().len(),
                base + new_vertices@.len() <= MAX_INDEXED_VERTICES,
                triangle_list(local@, new_vertices@.len()),
            decreases new_vertices.len() - j,
        {
            self.vertices.push(new_vertices[j]);
            j = j + 1;
            assert(new_vertices@.take(j as int) =~= new_vertices@.take(j - 1) + seq![
                new_vertices@[j - 1],
            ]);
        }
        assert(new_vertices@.take(new_vertices.len() as int) =~= new_vertices@);
        assert forall|k: int| 0 <= k < self.indices@.len() implies (
        #[trigger] self.indices@[k] as nat) < self.vertices@.len() by {
            if k >= old_indices.len() {
                let m = k - old_indices.len();
                assert(0 <= m < local@.len());
                assert(local@[m] < new_vertices@.len());
            }
        }
        true
    }

    /// The vertex buffer, in the order the shapes were added.
    pub fn vertex_buffer(&self) -> (r: &Vec<Vertex2D>)
        ensures
            r@ == self.vertex_seq(),
    {
        &self.vertices
    }

    /// The index list, three entries per triangle.
    pub fn index_list(&self) -> (r: &Vec<u16>)
        ensures
            r@ == self.index_seq(),
    {
        &self.indices
    }
}

/// A single triangle added to an empty assembler yields its three vertices and
/// the index list `0, 1, 2`, which refers to no vertex beyond the third.
pub proof fn lemma_single_triangle_assembly(t: Triangle)
    ensures
        (Seq::<Vertex2D>::empty() + t.shape_vertices()).len() == 3,
        Seq::<u16>::empty() + offset_indices(t.shape_indices(), 0) == seq![0u16, 1u16, 2u16],
        forall|i: int|
            0 <= i < 3 ==> (#[trigger] offset_indices(t.shape_indices(), 0)[i]) < 3,
{
    lemma_triangle_has_three_vertices(t);
    assert(Seq::<u16>::empty() + offset_indices(t.shape_indices(), 0) =~= seq![0u16, 1u16, 2u16]);
}

} // verus!
