//! One frame's drawable geometry, as the animation runtime hands it over.

use vstd::prelude::*;
use crate::blend_states::BlendMode;

verus! {

/// How many vertices the vertex buffer of one slot holds.
pub const MAX_MESH_VERTICES: usize = 10000;

/// How many indices the index buffer of one slot holds.
pub const MAX_MESH_INDICES: usize = 5000;

/// Names one atlas page that was registered with the texture loader.
#[derive(Clone, Copy, Debug, PartialEq, Eq, Hash, Structural)]
pub struct PageId {
    pub index: usize,
}

/// The geometry and material of one attachment for one frame.
///
/// Coordinates and colors are single-precision numbers. This crate moves
/// them and never computes with them, so it holds each as its 32 bits.
#[derive(Clone, Debug, PartialEq, Eq)]
pub struct Renderable {
    /// The position of each vertex.
    pub vertices: Vec<[u32; 2]>,
    /// The texture coordinate of each vertex.
    pub uvs: Vec<[u32; 2]>,
    /// The triangle list, three indices into the vertices per triangle.
    pub indices: Vec<u16>,
    /// The light color of each vertex.
    pub colors: Vec<[u32; 4]>,
    /// The dark color of each vertex, for tinting.
    pub dark_colors: Vec<[u32; 4]>,
    pub blend_mode: BlendMode,
    /// The atlas page that holds the attachment's texture. An attachment
    /// without a visual has none.
    pub attachment: Option<PageId>,
}

/// One vertex as it lies in a vertex buffer.
#[derive(Clone, Copy, Debug, PartialEq, Eq)]
pub struct Vertex {
    pub position: [u32; 2],
    pub uv: [u32; 2],
    pub color: [u32; 4],
    pub dark_color: [u32; 4],
}

impl Renderable {
    /// Every vertex has a texture coordinate and both colors.
    pub open spec fn well_formed(&self) -> bool {
        &&& self.uvs.len() == self.vertices.len()
        &&& self.colors.len() == self.vertices.len()
        &&& self.dark_colors.len() == self.vertices.len()
    }

    /// The geometry fits the buffers of one slot.
    pub open spec fn fits_slot(&self) -> bool {
        &&& self.vertices.len() <= MAX_MESH_VERTICES
        &&& self.indices.len() <= MAX_MESH_INDICES
    }

    /// The vertex at `i`, put together from the four per-vertex lists.
    pub open spec fn vertex(&self, i: int) -> Vertex {
        Vertex {
            position: self.vertices[i],
            uv: self.uvs[i],
            color: self.colors[i],
            dark_color: self.dark_colors[i],
        }
    }

    /// The content of the vertex buffer for this renderable.
    pub open spec fn packed(&self) -> Seq<Vertex> {
        Seq::new(self.vertices.len() as nat, |i: int| self.vertex(i))
    }

    pub fn is_well_formed(&self) -> (ok: bool)
        ensures
            ok == self.well_formed(),
    {
        self.uvs.len() == self.vertices.len() && self.colors.len() == self.vertices.len()
            && self.dark_colors.len() == self.vertices.len()
    }

    pub fn fits(&self) -> (ok: bool)
        ensures
            ok == self.fits_slot(),
    {
        self.vertices.len() <= MAX_MESH_VERTICES && self.indices.len() <= MAX_MESH_INDICES
    }

    /// Interleaves the per-vertex lists into the layout of the vertex buffer.
    pub fn pack_vertices(&self) -> (vertices: Vec<Vertex>)
        requires
            self.well_formed(),
        ensures
            vertices@ == self.packed(),
    {
        let mut vertices: Vec<Vertex> = Vec::new();
        let mut i: usize = 0;
        while i < self.vertices.len()
            invariant
                self.well_formed(),
                i <= self.vertices.len(),
                vertices@.len() == i,
                forall|j: int| 0 <= j < i ==> vertices@[j] == self.vertex(j),
            decreases self.vertices.len() - i,
        {
            vertices.push(
                Vertex {
                    position: self.vertices[i],
                    uv: self.uvs[i],
                    color: self.colors[i],
                    dark_color: self.dark_colors[i],
                },
            );
            i = i + 1;
        }
        assert(vertices@ =~= self.packed());
        vertices
    }
}

} // verus!
