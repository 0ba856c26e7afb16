//! Built-in mesh shapes: cube, triangle and plane.
//!
//! Each primitive is given as plain vertex and index data, ready for the
//! GPU layer to upload; coordinates are fixed-point, with the shapes
//! spanning [-0.5, 0.5] on their axes.

use vstd::prelude::*;

use crate::math::{Vec2Fx, Vec3Fx};

verus! {

/// One vertex: position, texture coordinates and normal.
#[derive(Debug, Clone, Copy, PartialEq, Eq, Structural)]
pub struct Vertex {
    pub position: Vec3Fx,
    pub uvs: Vec2Fx,
    pub normal: Vec3Fx,
}

/// A mesh's plain data before upload: named vertex and index arrays.
pub struct MeshData {
    pub name: String,
    pub vertices: Vec<Vertex>,
    pub indices: Vec<u32>,
}

impl MeshData {
    /// Every index refers to a vertex of this mesh.
    pub open spec fn indices_in_range(&self) -> bool {
        forall|k: int|
            0 <= k < self.indices@.len() ==> (self.indices@[k] as int) < self.vertices@.len()
    }

    /// Checks that every index refers to a vertex.
    pub fn check_indices(&self) -> (r: bool)
        ensures
            r == self.indices_in_range(),
    {
        let mut k: usize = 0;
        while k < self.indices.len()
            invariant
                k <= self.indices@.len(),
                forall|j: int|
                    0 <= j < k ==> (self.indices@[j] as int) < self.vertices@.len(),
            decreases self.indices@.len() - k,
        {
            if !((self.indices[k] as usize) < self.vertices.len()) {
                return false;
            }
            k += 1;
        }
        true
    }
}

/// The triangle list of the cube's twelve faces, two per side.
pub open spec fn cube_indices_spec() -> Seq<u32> {
    seq![
        2u32, 6, 7, 2, 3, 7, 0, 4, 5, 0, 1, 5, 0, 2, 6, 0, 4, 6, 1, 3, 7, 1, 5, 7, 0, 2, 3, 0, 1,
        3, 4, 6, 7, 4, 5, 7,
    ]
}

/// The cube's eight corners, at every combination of -0.5 and 0.5.
pub open spec fn cube_vertices_spec() -> Seq<Vertex> {
    seq![
        corner_spec(-32768, -32768, 32768),
        corner_spec(32768, -32768, 32768),
        corner_spec(-32768, 32768, 32768),
        corner_spec(32768, 32768, 32768),
        corner_spec(-32768, -32768, -32768),
        corner_spec(32768, -32768, -32768),
        corner_spec(-32768, 32768, -32768),
        corner_spec(32768, 32768, -32768),
    ]
}

/// A vertex at the given position with zero texture coordinates and
/// normal.
pub open spec fn corner_spec(x: int, y: int, z: int) -> Vertex {
    Vertex {
        position: Vec3Fx { x: x as i64, y: y as i64, z: z as i64 },
        uvs: Vec2Fx { x: 0, y: 0 },
        normal: Vec3Fx { x: 0, y: 0, z: 0 },
    }
}

/// The triangle's single face.
pub open spec fn triangle_indices_spec() -> Seq<u32> {
    seq![0u32, 1, 2]
}

/// The triangle's three corners.
pub open spec fn triangle_vertices_spec() -> Seq<Vertex> {
    seq![corner_spec(0, 32768, 0), corner_spec(32768, -32768, 0), corner_spec(-32768, -32768, 0)]
}

/// The plane's two faces.
pub open spec fn plane_indices_spec() -> Seq<u32> {
    seq![0u32, 1, 2, 2, 3, 0]
}

/// The plane's four corners, facing +z, with texture coordinates.
pub open spec fn plane_vertices_spec() -> Seq<Vertex> {
    seq![
        plane_corner_spec(-32768, 32768, 65536, 0),
        plane_corner_spec(32768, 32768, 65536, 65536),
        plane_corner_spec(32768, -32768, 0, 65536),
        plane_corner_spec(-32768, -32768, 0, 0),
    ]
}

/// A plane vertex: in the z = 0 plane, normal facing +z.
pub open spec fn plane_corner_spec(x: int, y: int, u: int, v: int) -> Vertex {
    Vertex {
        position: Vec3Fx { x: x as i64, y: y as i64, z: 0 },
        uvs: Vec2Fx { x: u as i64, y: v as i64 },
        normal: Vec3Fx { x: 0, y: 0, z: 65536 },
    }
}

/// Built-in shapes.
pub struct MeshPrimitives {

}

impl MeshPrimitives {
    /// A unit cube centered on the origin.
    pub fn cube(name: &str) -> (r: MeshData)
        ensures
            r.name@ == name@,
            r.vertices@ == cube_vertices_spec(),
            r.indices@ == cube_indices_spec(),
    {
        let mut vertices: Vec<Vertex> = Vec::new();
        vertices.push(corner(-32768, -32768, 32768));
        vertices.push(corner(32768, -32768, 32768));
        vertices.push(corner(-32768, 32768, 32768));
        vertices.push(corner(32768, 32768, 32768));
        vertices.push(corner(-32768, -32768, -32768));
        vertices.push(corner(32768, -32768, -32768));
        vertices.push(corner(-32768, 32768, -32768));
        vertices.push(corner(32768, 32768, -32768));
        let indices: Vec<u32> = vec![
            2, 6, 7, 2, 3, 7, 0, 4, 5, 0, 1, 5, 0, 2, 6, 0, 4, 6, 1, 3, 7, 1, 5, 7, 0, 2, 3, 0, 1,
            3, 4, 6, 7, 4, 5, 7,
        ];
        proof {
            assert(vertices@ =~= cube_vertices_spec());
            assert(indices@ =~= cube_indices_spec());
        }
        MeshData { name: name.to_owned(), vertices, indices }
    }

    /// A single triangle in the z = 0 plane.
    pub fn triangle(name: &str) -> (r: MeshData)
        ensures
            r.name@ == name@,
            r.vertices@ == triangle_vertices_spec(),
            r.indices@ == triangle_indices_spec(),
    {
        let mut vertices: Vec<Vertex> = Vec::new();
        vertices.push(corner(0, 32768, 0));
        vertices.push(corner(32768, -32768, 0));
        vertices.push(corner(-32768, -32768, 0));
        let indices: Vec<u32> = vec![0, 1, 2];
        proof {
            assert(vertices@ =~= triangle_vertices_spec());
            assert(indices@ =~= triangle_indices_spec());
        }
        MeshData { name: name.to_owned(), vertices, indices }
    }

    /// A unit plane in the z = 0 plane, facing +z, with texture
    /// coordinates covering the full image.
    pub fn plane(name: &str) -> (r: MeshData)
        ensures
            r.name@ == name@,
            r.vertices@ == plane_vertices_spec(),
            r.indices@ == plane_indices_spec(),
    {
        let mut vertices: Vec<Vertex> = Vec::new();
        vertices.push(plane_corner(-32768, 32768, 65536, 0));
        vertices.push(plane_corner(32768, 32768, 65536, 65536));
        vertices.push(plane_corner(32768, -32768, 0, 65536));
        vertices.push(plane_corner(-32768, -32768, 0, 0));
        let indices: Vec<u32> = vec![0, 1, 2, 2, 3, 0];
        proof {
            assert(vertices@ =~= plane_vertices_spec());
            assert(indices@ =~= plane_indices_spec());
        }
        MeshData { name: name.to_owned(), vertices, indices }
    }
}

/// Builds a vertex at the given position with zero texture coordinates
/// and normal.
fn corner(x: i64, y: i64, z: i64) -> (r: Vertex)
    ensures
        r == corner_spec(x as int, y as int, z as int),
{
    Vertex {
        position: Vec3Fx { x, y, z },
        uvs: Vec2Fx { x: 0, y: 0 },
        normal: Vec3Fx { x: 0, y: 0, z: 0 },
    }
}

/// Builds a plane vertex: in the z = 0 plane, normal facing +z.
fn plane_corner(x: i64, y: i64, u: i64, v: i64) -> (r: Vertex)
    ensures
        r == plane_corner_spec(x as int, y as int, u as int, v as int),
{
    Vertex {
        position: Vec3Fx { x, y, z: 0 },
        uvs: Vec2Fx { x: u, y: v },
        normal: Vec3Fx { x: 0, y: 0, z: 65536 },
    }
}

} // verus!
