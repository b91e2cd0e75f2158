//! The geometry descriptors: static per-shape vertex positions, optional
//! per-face normals, and a triangle index list.
//!
//! Coordinates are in fixed point, millionths of a unit. The invariant of a
//! descriptor is that every index points into the vertex sequence and that
//! the indices come in whole triangles (their count is a multiple of three).

use crate::fixed::{FIXED_NEG_ONE, FIXED_ONE};
use vstd::prelude::*;

verus! {

/// A position in three-dimensional space, in fixed-point coordinates.
/// Immutable once defined; owned by a geometry descriptor.
#[derive(Clone, Copy, Debug, PartialEq, Eq, Structural)]
pub struct Vertex {
    pub x: i64,
    pub y: i64,
    pub z: i64,
}

impl Vertex {
    /// A vertex from its three coordinates.
    pub fn new(x: i64, y: i64, z: i64) -> (r: Vertex)
        ensures
            r == (Vertex { x, y, z }),
    {
        Vertex { x, y, z }
    }
}

/// Whether every index in `s` is a valid position into a vertex sequence of
/// length `n`.
pub open spec fn index_bound_ok(s: Seq<u16>, n: int) -> bool {
    forall|i: int| 0 <= i < s.len() ==> (#[trigger] s[i]) < n
}

/// The static vertex, normal and index data of one renderable shape. The
/// vertex order is winding-significant; the normals, where present, are one
/// per face, not one per vertex.
pub struct GeometryDescriptor {
    pub vertices: Vec<Vertex>,
    pub normals: Option<Vec<Vertex>>,
    pub indices: Vec<u16>,
}

impl GeometryDescriptor {
    /// The descriptor's invariant: every index is a valid position into the
    /// vertex sequence, and the indices form whole triangles.
    pub open spec fn wf(self) -> bool {
        &&& index_bound_ok(self.indices@, self.vertices@.len() as int)
        &&& self.indices@.len() % 3 == 0
    }

    /// Checks the invariant of an arbitrary descriptor: true exactly when
    /// every index is below the vertex count and the index count is a
    /// multiple of three.
    pub fn well_formed(&self) -> (r: bool)
        ensures
            r == self.wf(),
    {
        if self.indices.len() % 3 != 0 {
            return false;
        }
        let n = self.vertices.len();
        let mut i: usize = 0;
        while i < self.indices.len()
            invariant
                0 <= i <= self.indices@.len(),
                n == self.vertices@.len(),
                forall|j: int| 0 <= j < i ==> (#[trigger] self.indices@[j]) < n,
            decreases self.indices@.len() - i,
        {
            if self.indices[i] as usize >= n {
                assert(!index_bound_ok(self.indices@, self.vertices@.len() as int));
                return false;
            }
            i = i + 1;
        }
        true
    }
}

/// Appends one triangle's three indices, all of them valid positions into a
/// vertex sequence of length `n`.
fn push_tri(v: &mut Vec<u16>, a: u16, b: u16, c: u16, n: u16)
    requires
        a < n,
        b < n,
        c < n,
        index_bound_ok(old(v)@, n as int),
    ensures
        final(v)@ == old(v)@.push(a).push(b).push(c),
        final(v)@.len() == old(v)@.len() + 3,
        index_bound_ok(final(v)@, n as int),
{
    v.push(a);
    v.push(b);
    v.push(c);
}

/// The eight corners of the cube, in its defined vertex order.
pub open spec fn spec_cube_vertices() -> Seq<Vertex> {
    Seq::empty()
        .push(Vertex { x: FIXED_NEG_ONE, y: FIXED_NEG_ONE, z: FIXED_NEG_ONE })
        .push(Vertex { x: FIXED_ONE, y: FIXED_NEG_ONE, z: FIXED_NEG_ONE })
        .push(Vertex { x: FIXED_ONE, y: FIXED_ONE, z: FIXED_NEG_ONE })
        .push(Vertex { x: FIXED_NEG_ONE, y: FIXED_ONE, z: FIXED_NEG_ONE })
        .push(Vertex { x: FIXED_NEG_ONE, y: FIXED_NEG_ONE, z: FIXED_ONE })
        .push(Vertex { x: FIXED_ONE, y: FIXED_NEG_ONE, z: FIXED_ONE })
        .push(Vertex { x: FIXED_ONE, y: FIXED_ONE, z: FIXED_ONE })
        .push(Vertex { x: FIXED_NEG_ONE, y: FIXED_ONE, z: FIXED_ONE })
}

/// The six face normals of the cube, one per face.
pub open spec fn spec_cube_normals() -> Seq<Vertex> {
    Seq::empty()
        .push(Vertex { x: 0, y: 0, z: FIXED_ONE })
        .push(Vertex { x: FIXED_ONE, y: 0, z: 0 })
        .push(Vertex { x: 0, y: 0, z: FIXED_NEG_ONE })
        .push(Vertex { x: FIXED_NEG_ONE, y: 0, z: 0 })
        .push(Vertex { x: 0, y: FIXED_ONE, z: 0 })
        .push(Vertex { x: 0, y: FIXED_NEG_ONE, z: 0 })
}

/// The cube's triangle list: twelve triangles, two per face.
pub open spec fn spec_cube_indices() -> Seq<u16> {
    Seq::empty()
        .push(0u16).push(1).push(3)
        .push(3).push(1).push(2)
        .push(1).push(5).push(2)
        .push(2).push(5).push(6)
        .push(5).push(4).push(6)
        .push(6).push(4).push(7)
        .push(4).push(0).push(7)
        .push(7).push(0).push(3)
        .push(3).push(2).push(7)
        .push(7).push(2).push(6)
        .push(4).push(5).push(0)
        .push(0).push(5).push(1)
}

/// The flat-colored cube: eight corner vertices, six per-face normals, and
/// thirty-six indices forming its twelve triangles.
pub fn cube() -> (r: GeometryDescriptor)
    ensures
        r.vertices@ == spec_cube_vertices(),
        r.normals matches Some(ns) && ns@ == spec_cube_normals(),
        r.indices@ == spec_cube_indices(),
        r.vertices@.len() == 8,
        r.indices@.len() == 36,
        r.wf(),
{
    let mut vertices: Vec<Vertex> = Vec::new();
    vertices.push(Vertex::new(FIXED_NEG_ONE, FIXED_NEG_ONE, FIXED_NEG_ONE));
    vertices.push(Vertex::new(FIXED_ONE, FIXED_NEG_ONE, FIXED_NEG_ONE));
    vertices.push(Vertex::new(FIXED_ONE, FIXED_ONE, FIXED_NEG_ONE));
    vertices.push(Vertex::new(FIXED_NEG_ONE, FIXED_ONE, FIXED_NEG_ONE));
    vertices.push(Vertex::new(FIXED_NEG_ONE, FIXED_NEG_ONE, FIXED_ONE));
    vertices.push(Vertex::new(FIXED_ONE, FIXED_NEG_ONE, FIXED_ONE));
    vertices.push(Vertex::new(FIXED_ONE, FIXED_ONE, FIXED_ONE));
    vertices.push(Vertex::new(FIXED_NEG_ONE, FIXED_ONE, FIXED_ONE));

    let mut normals: Vec<Vertex> = Vec::new();
    normals.push(Vertex::new(0, 0, FIXED_ONE));
    normals.push(Vertex::new(FIXED_ONE, 0, 0));
    normals.push(Vertex::new(0, 0, FIXED_NEG_ONE));
    normals.push(Vertex::new(FIXED_NEG_ONE, 0, 0));
    normals.push(Vertex::new(0, FIXED_ONE, 0));
    normals.push(Vertex::new(0, FIXED_NEG_ONE, 0));

    let mut indices: Vec<u16> = Vec::new();
    push_tri(&mut indices, 0, 1, 3, 8);
    push_tri(&mut indices, 3, 1, 2, 8);
    push_tri(&mut indices, 1, 5, 2, 8);
    push_tri(&mut indices, 2, 5, 6, 8);
    push_tri(&mut indices, 5, 4, 6, 8);
    push_tri(&mut indices, 6, 4, 7, 8);
    push_tri(&mut indices, 4, 0, 7, 8);
    push_tri(&mut indices, 7, 0, 3, 8);
    push_tri(&mut indices, 3, 2, 7, 8);
    push_tri(&mut indices, 7, 2, 6, 8);
    push_tri(&mut indices, 4, 5, 0, 8);
    push_tri(&mut indices, 0, 5, 1, 8);

    GeometryDescriptor { vertices, normals: Some(normals), indices }
}

/// The single flat triangle: three vertices in one plane, no normals and no
/// index buffer (an empty index list is a multiple of three, so the
/// invariant holds).
pub fn triangle() -> (r: GeometryDescriptor)
    ensures
        r.vertices@ == Seq::empty()
            .push(Vertex { x: FIXED_NEG_ONE, y: FIXED_NEG_ONE, z: 0 })
            .push(Vertex { x: FIXED_ONE, y: FIXED_NEG_ONE, z: 0 })
            .push(Vertex { x: 0, y: FIXED_ONE, z: 0 }),
        r.normals is None,
        r.indices@.len() == 0,
        r.vertices@.len() == 3,
        r.wf(),
{
    let mut vertices: Vec<Vertex> = Vec::new();
    vertices.push(Vertex::new(FIXED_NEG_ONE, FIXED_NEG_ONE, 0));
    vertices.push(Vertex::new(FIXED_ONE, FIXED_NEG_ONE, 0));
    vertices.push(Vertex::new(0, FIXED_ONE, 0));
    GeometryDescriptor { vertices, normals: None, indices: Vec::new() }
}

/// The four corners of face `f` of the gradient cube, in fan order: the
/// vertex at position `4 * f + j` is the `j`-th corner of face `f`.
pub open spec fn spec_gradient_cube_vertices() -> Seq<Vertex> {
    Seq::empty()
        // face toward positive Z
        .push(Vertex { x: FIXED_NEG_ONE, y: FIXED_NEG_ONE, z: FIXED_ONE })
        .push(Vertex { x: FIXED_ONE, y: FIXED_NEG_ONE, z: FIXED_ONE })
        .push(Vertex { x: FIXED_ONE, y: FIXED_ONE, z: FIXED_ONE })
        .push(Vertex { x: FIXED_NEG_ONE, y: FIXED_ONE, z: FIXED_ONE })
        // face toward negative Z
        .push(Vertex { x: FIXED_ONE, y: FIXED_NEG_ONE, z: FIXED_NEG_ONE })
        .push(Vertex { x: FIXED_NEG_ONE, y: FIXED_NEG_ONE, z: FIXED_NEG_ONE })
        .push(Vertex { x: FIXED_NEG_ONE, y: FIXED_ONE, z: FIXED_NEG_ONE })
        .push(Vertex { x: FIXED_ONE, y: FIXED_ONE, z: FIXED_NEG_ONE })
        // face toward positive X
        .push(Vertex { x: FIXED_ONE, y: FIXED_NEG_ONE, z: FIXED_ONE })
        .push(Vertex { x: FIXED_ONE, y: FIXED_NEG_ONE, z: FIXED_NEG_ONE })
        .push(Vertex { x: FIXED_ONE, y: FIXED_ONE, z: FIXED_NEG_ONE })
        .push(Vertex { x: FIXED_ONE, y: FIXED_ONE, z: FIXED_ONE })
        // face toward negative X
        .push(Vertex { x: FIXED_NEG_ONE, y: FIXED_NEG_ONE, z: FIXED_NEG_ONE })
        .push(Vertex { x: FIXED_NEG_ONE, y: FIXED_NEG_ONE, z: FIXED_ONE })
        .push(Vertex { x: FIXED_NEG_ONE, y: FIXED_ONE, z: FIXED_ONE })
        .push(Vertex { x: FIXED_NEG_ONE, y: FIXED_ONE, z: FIXED_NEG_ONE })
        // face toward positive Y
        .push(Vertex { x: FIXED_NEG_ONE, y: FIXED_ONE, z: FIXED_ONE })
        .push(Vertex { x: FIXED_ONE, y: FIXED_ONE, z: FIXED_ONE })
        .push(Vertex { x: FIXED_ONE, y: FIXED_ONE, z: FIXED_NEG_ONE })
        .push(Vertex { x: FIXED_NEG_ONE, y: FIXED_ONE, z: FIXED_NEG_ONE })
        // face toward negative Y
        .push(Vertex { x: FIXED_NEG_ONE, y: FIXED_NEG_ONE, z: FIXED_NEG_ONE })
        .push(Vertex { x: FIXED_ONE, y: FIXED_NEG_ONE, z: FIXED_NEG_ONE })
        .push(Vertex { x: FIXED_ONE, y: FIXED_NEG_ONE, z: FIXED_ONE })
        .push(Vertex { x: FIXED_NEG_ONE, y: FIXED_NEG_ONE, z: FIXED_ONE })
}

/// The gradient cube's triangle list: for each face `f`, the two triangles
/// `(4f, 4f+1, 4f+2)` and `(4f, 4f+2, 4f+3)`.
pub open spec fn spec_gradient_cube_indices() -> Seq<u16> {
    Seq::empty()
        .push(0u16).push(1).push(2).push(0).push(2).push(3)
        .push(4).push(5).push(6).push(4).push(6).push(7)
        .push(8).push(9).push(10).push(8).push(10).push(11)
        .push(12).push(13).push(14).push(12).push(14).push(15)
        .push(16).push(17).push(18).push(16).push(18).push(19)
        .push(20).push(21).push(22).push(20).push(22).push(23)
}

/// The gradient-shaded cube: twenty-four vertices (four per face, so the
/// position gradient is flat across each face's two triangles), thirty-six
/// indices, and no normals.
pub fn gradient_cube() -> (r: GeometryDescriptor)
    ensures
        r.vertices@ == spec_gradient_cube_vertices(),
        r.normals is None,
        r.indices@ == spec_gradient_cube_indices(),
        r.vertices@.len() == 24,
        r.indices@.len() == 36,
        r.wf(),
{
    let mut vertices: Vec<Vertex> = Vec::new();
    vertices.push(Vertex::new(FIXED_NEG_ONE, FIXED_NEG_ONE, FIXED_ONE));
    vertices.push(Vertex::new(FIXED_ONE, FIXED_NEG_ONE, FIXED_ONE));
    vertices.push(Vertex::new(FIXED_ONE, FIXED_ONE, FIXED_ONE));
    vertices.push(Vertex::new(FIXED_NEG_ONE, FIXED_ONE, FIXED_ONE));
    vertices.push(Vertex::new(FIXED_ONE, FIXED_NEG_ONE, FIXED_NEG_ONE));
    vertices.push(Vertex::new(FIXED_NEG_ONE, FIXED_NEG_ONE, FIXED_NEG_ONE));
    vertices.push(Vertex::new(FIXED_NEG_ONE, FIXED_ONE, FIXED_NEG_ONE));
    vertices.push(Vertex::new(FIXED_ONE, FIXED_ONE, FIXED_NEG_ONE));
    vertices.push(Vertex::new(FIXED_ONE, FIXED_NEG_ONE, FIXED_ONE));
    vertices.push(Vertex::new(FIXED_ONE, FIXED_NEG_ONE, FIXED_NEG_ONE));
    vertices.push(Vertex::new(FIXED_ONE, FIXED_ONE, FIXED_NEG_ONE));
    vertices.push(Vertex::new(FIXED_ONE, FIXED_ONE, FIXED_ONE));
    vertices.push(Vertex::new(FIXED_NEG_ONE, FIXED_NEG_ONE, FIXED_NEG_ONE));
    vertices.push(Vertex::new(FIXED_NEG_ONE, FIXED_NEG_ONE, FIXED_ONE));
    vertices.push(Vertex::new(FIXED_NEG_ONE, FIXED_ONE, FIXED_ONE));
    vertices.push(Vertex::new(FIXED_NEG_ONE, FIXED_ONE, FIXED_NEG_ONE));
    vertices.push(Vertex::new(FIXED_NEG_ONE, FIXED_ONE, FIXED_ONE));
    vertices.push(Vertex::new(FIXED_ONE, FIXED_ONE, FIXED_ONE));
    vertices.push(Vertex::new(FIXED_ONE, FIXED_ONE, FIXED_NEG_ONE));
    vertices.push(Vertex::new(FIXED_NEG_ONE, FIXED_ONE, FIXED_NEG_ONE));
    vertices.push(Vertex::new(FIXED_NEG_ONE, FIXED_NEG_ONE, FIXED_NEG_ONE));
    vertices.push(Vertex::new(FIXED_ONE, FIXED_NEG_ONE, FIXED_NEG_ONE));
    vertices.push(Vertex::new(FIXED_ONE, FIXED_NEG_ONE, FIXED_ONE));
    vertices.push(Vertex::new(FIXED_NEG_ONE, FIXED_NEG_ONE, FIXED_ONE));

    let mut indices: Vec<u16> = Vec::new();
    push_tri(&mut indices, 0, 1, 2, 24);
    push_tri(&mut indices, 0, 2, 3, 24);
    push_tri(&mut indices, 4, 5, 6, 24);
    push_tri(&mut indices, 4, 6, 7, 24);
    push_tri(&mut indices, 8, 9, 10, 24);
    push_tri(&mut indices, 8, 10, 11, 24);
    push_tri(&mut indices, 12, 13, 14, 24);
    push_tri(&mut indices, 12, 14, 15, 24);
    push_tri(&mut indices, 16, 17, 18, 24);
    push_tri(&mut indices, 16, 18, 19, 24);
    push_tri(&mut indices, 20, 21, 22, 24);
    push_tri(&mut indices, 20, 22, 23, 24);

    GeometryDescriptor { vertices, normals: None, indices }
}

} // verus!
