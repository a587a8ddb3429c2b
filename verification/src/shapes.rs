//! Procedural shape meshes: cube, plane and sphere topology.
//!
//! Positions, normals and texture coordinates are produced in model
//! units; every index list is proved to stay within its vertex list,
//! so a draw of a generated mesh never reads past its vertex buffer.

use vstd::prelude::*;

use crate::matrix::Vec3I;
use crate::mesh::Mesh;
use crate::mesh::Vertex;

verus! {

/// An axis-aligned box given by its extents.
#[derive(Clone, Copy, PartialEq, Eq, Structural, Debug)]
pub struct Cube {
    pub min_x: i64,
    pub max_x: i64,
    pub min_y: i64,
    pub max_y: i64,
    pub min_z: i64,
    pub max_z: i64,
}

/// The cube's vertices: four per face, each face with its own outward
/// normal and corner texture coordinates.
pub open spec fn spec_cube_vertices(c: Cube) -> Seq<Vertex> {
    seq![
        cube_vertex(c.min_x, c.min_y, c.max_z, 0i64, 0i64, 1i64, 0i64, 0i64),
        cube_vertex(c.max_x, c.min_y, c.max_z, 0i64, 0i64, 1i64, 1i64, 0i64),
        cube_vertex(c.max_x, c.max_y, c.max_z, 0i64, 0i64, 1i64, 1i64, 1i64),
        cube_vertex(c.min_x, c.max_y, c.max_z, 0i64, 0i64, 1i64, 0i64, 1i64),
        cube_vertex(c.min_x, c.max_y, c.min_z, 0i64, 0i64, -1i64, 1i64, 0i64),
        cube_vertex(c.max_x, c.max_y, c.min_z, 0i64, 0i64, -1i64, 0i64, 0i64),
        cube_vertex(c.max_x, c.min_y, c.min_z, 0i64, 0i64, -1i64, 0i64, 1i64),
        cube_vertex(c.min_x, c.min_y, c.min_z, 0i64, 0i64, -1i64, 1i64, 1i64),
        cube_vertex(c.max_x, c.min_y, c.min_z, 1i64, 0i64, 0i64, 0i64, 0i64),
        cube_vertex(c.max_x, c.max_y, c.min_z, 1i64, 0i64, 0i64, 1i64, 0i64),
        cube_vertex(c.max_x, c.max_y, c.max_z, 1i64, 0i64, 0i64, 1i64, 1i64),
        cube_vertex(c.max_x, c.min_y, c.max_z, 1i64, 0i64, 0i64, 0i64, 1i64),
        cube_vertex(c.min_x, c.min_y, c.max_z, -1i64, 0i64, 0i64, 1i64, 0i64),
        cube_vertex(c.min_x, c.max_y, c.max_z, -1i64, 0i64, 0i64, 0i64, 0i64),
        cube_vertex(c.min_x, c.max_y, c.min_z, -1i64, 0i64, 0i64, 0i64, 1i64),
        cube_vertex(c.min_x, c.min_y, c.min_z, -1i64, 0i64, 0i64, 1i64, 1i64),
        cube_vertex(c.max_x, c.max_y, c.min_z, 0i64, 1i64, 0i64, 1i64, 0i64),
        cube_vertex(c.min_x, c.max_y, c.min_z, 0i64, 1i64, 0i64, 0i64, 0i64),
        cube_vertex(c.min_x, c.max_y, c.max_z, 0i64, 1i64, 0i64, 0i64, 1i64),
        cube_vertex(c.max_x, c.max_y, c.max_z, 0i64, 1i64, 0i64, 1i64, 1i64),
        cube_vertex(c.max_x, c.min_y, c.max_z, 0i64, -1i64, 0i64, 0i64, 0i64),
        cube_vertex(c.min_x, c.min_y, c.max_z, 0i64, -1i64, 0i64, 1i64, 0i64),
        cube_vertex(c.min_x, c.min_y, c.min_z, 0i64, -1i64, 0i64, 1i64, 1i64),
        cube_vertex(c.max_x, c.min_y, c.min_z, 0i64, -1i64, 0i64, 0i64, 1i64),
    ]
}

/// A vertex from its raw components.
pub open spec fn cube_vertex(
    px: i64,
    py: i64,
    pz: i64,
    nx: i64,
    ny: i64,
    nz: i64,
    u: i64,
    v: i64,
) -> Vertex {
    Vertex {
        position: Vec3I { x: px, y: py, z: pz },
        normal: Vec3I { x: nx, y: ny, z: nz },
        uv_u: u,
        uv_v: v,
    }
}

/// The cube's triangles: two per face, referring to that face's four
/// vertices.
pub open spec fn spec_cube_indices() -> Seq<u32> {
    seq![
        0u32, 1, 2, 2, 3, 0,
        4, 5, 6, 6, 7, 4,
        8, 9, 10, 10, 11, 8,
        12, 13, 14, 14, 15, 12,
        16, 17, 18, 18, 19, 16,
        20, 21, 22, 22, 23, 20,
    ]
}

/// Builds one vertex from its raw components.
fn vtx(px: i64, py: i64, pz: i64, nx: i64, ny: i64, nz: i64, u: i64, v: i64) -> (res: Vertex)
    ensures
        res == cube_vertex(px, py, pz, nx, ny, nz, u, v),
{
    Vertex {
        position: Vec3I { x: px, y: py, z: pz },
        normal: Vec3I { x: nx, y: ny, z: nz },
        uv_u: u,
        uv_v: v,
    }
}

impl Cube {
    /// A box of the given edge lengths centered on the origin.
    pub fn new(x_length: i64, y_length: i64, z_length: i64) -> (res: Cube)
        requires
            0 <= x_length,
            0 <= y_length,
            0 <= z_length,
        ensures
            res.max_x == x_length / 2 && res.min_x == -(x_length / 2),
            res.max_y == y_length / 2 && res.min_y == -(y_length / 2),
            res.max_z == z_length / 2 && res.min_z == -(z_length / 2),
    {
        Cube {
            max_x: x_length / 2,
            min_x: -(x_length / 2),
            max_y: y_length / 2,
            min_y: -(y_length / 2),
            max_z: z_length / 2,
            min_z: -(z_length / 2),
        }
    }

    /// The cube's mesh: twenty-four vertices, four per face, and the
    /// twelve triangles over them.
    pub fn mesh(&self) -> (res: Mesh)
        ensures
            res.vertices@ == spec_cube_vertices(*self),
            res.indices matches Some(ix) && ix@ == spec_cube_indices(),
            res.wf(),
    {
        let c = *self;
        let vertices: Vec<Vertex> = vec![
            vtx(c.min_x, c.min_y, c.max_z, 0, 0, 1, 0, 0),
            vtx(c.max_x, c.min_y, c.max_z, 0, 0, 1, 1, 0),
            vtx(c.max_x, c.max_y, c.max_z, 0, 0, 1, 1, 1),
            vtx(c.min_x, c.max_y, c.max_z, 0, 0, 1, 0, 1),
            vtx(c.min_x, c.max_y, c.min_z, 0, 0, -1, 1, 0),
            vtx(c.max_x, c.max_y, c.min_z, 0, 0, -1, 0, 0),
            vtx(c.max_x, c.min_y, c.min_z, 0, 0, -1, 0, 1),
            vtx(c.min_x, c.min_y, c.min_z, 0, 0, -1, 1, 1),
            vtx(c.max_x, c.min_y, c.min_z, 1, 0, 0, 0, 0),
            vtx(c.max_x, c.max_y, c.min_z, 1, 0, 0, 1, 0),
            vtx(c.max_x, c.max_y, c.max_z, 1, 0, 0, 1, 1),
            vtx(c.max_x, c.min_y, c.max_z, 1, 0, 0, 0, 1),
            vtx(c.min_x, c.min_y, c.max_z, -1, 0, 0, 1, 0),
            vtx(c.min_x, c.max_y, c.max_z, -1, 0, 0, 0, 0),
            vtx(c.min_x, c.max_y, c.min_z, -1, 0, 0, 0, 1),
            vtx(c.min_x, c.min_y, c.min_z, -1, 0, 0, 1, 1),
            vtx(c.max_x, c.max_y, c.min_z, 0, 1, 0, 1, 0),
            vtx(c.min_x, c.max_y, c.min_z, 0, 1, 0, 0, 0),
            vtx(c.min_x, c.max_y, c.max_z, 0, 1, 0, 0, 1),
            vtx(c.max_x, c.max_y, c.max_z, 0, 1, 0, 1, 1),
            vtx(c.max_x, c.min_y, c.max_z, 0, -1, 0, 0, 0),
            vtx(c.min_x, c.min_y, c.max_z, 0, -1, 0, 1, 0),
            vtx(c.min_x, c.min_y, c.min_z, 0, -1, 0, 1, 1),
            vtx(c.max_x, c.min_y, c.min_z, 0, -1, 0, 0, 1),
        ];
        let indices: Vec<u32> = vec![
            0, 1, 2, 2, 3, 0,
            4, 5, 6, 6, 7, 4,
            8, 9, 10, 10, 11, 8,
            12, 13, 14, 14, 15, 12,
            16, 17, 18, 18, 19, 16,
            20, 21, 22, 22, 23, 20,
        ];
        let res = Mesh { vertices, indices: Some(indices) };
        proof {
            assert(res.vertices@ =~= spec_cube_vertices(c));
            assert(res.indices->Some_0@ =~= spec_cube_indices());
            assert forall|i: int|
                0 <= i < res.indices->Some_0@.len() implies #[trigger] res.indices->Some_0@[i]
                < res.vertices@.len() by {
                assert(spec_cube_indices()[i] < 24);
            }
        }
        res
    }
}

/// Texture-coordinate unit: the value that stands for coordinate one.
pub const UV_UNIT: i64 = 65536;

/// Shapes keep their subdivision counts within this bound; every index
/// then fits comfortably in the index type.
pub const MAX_RESOLUTION: usize = 10000;

/// Shape extents stay within this bound, so position arithmetic cannot
/// overflow.
pub const MAX_SIZE: i64 = 1000000;

/// A square plane subdivided into `resolution` cells per side.
#[derive(Clone, Copy, PartialEq, Eq, Structural, Debug)]
pub struct Plane {
    pub resolution: usize,
    pub size: i64,
}

/// Where the vertex of grid corner (x, y) lives in the vertex list.
pub open spec fn plane_vertex_index(p: Plane, x: int, y: int) -> int {
    y * (p.resolution + 1) + x
}

/// The vertex at grid corner (x, y): its position on the plane, the
/// upward normal, and texture coordinates spanning the unit square.
pub open spec fn plane_vertex_at(p: Plane, x: int, y: int) -> Vertex {
    Vertex {
        position: Vec3I {
            x: ((x * p.size) / (p.resolution as int)) as i64,
            y: 0,
            z: ((y * p.size) / (p.resolution as int)) as i64,
        },
        normal: Vec3I { x: 0, y: 1, z: 0 },
        uv_u: ((x * UV_UNIT) / (p.resolution as int)) as i64,
        uv_v: ((y * UV_UNIT) / (p.resolution as int)) as i64,
    }
}

/// Where cell (cx, cy)'s six indices start in the index list.
pub open spec fn plane_cell_base(p: Plane, cx: int, cy: int) -> int {
    6 * (cy * p.resolution + cx)
}

/// The two triangles of grid cell (cx, cy).
pub open spec fn plane_cell_indices(p: Plane, cx: int, cy: int) -> Seq<u32> {
    let v = cy * (p.resolution + 1) + cx;
    seq![
        v as u32,
        (v + p.resolution + 1) as u32,
        (v + 1) as u32,
        (v + 1) as u32,
        (v + p.resolution + 1) as u32,
        (v + p.resolution + 2) as u32,
    ]
}

/// One interpolated component: `x / resolution` of the way towards
/// `scale`.
fn plane_component(x: usize, scale: i64, resolution: usize) -> (res: i64)
    requires
        x <= resolution,
        1 <= resolution <= MAX_RESOLUTION,
        0 <= scale <= MAX_SIZE,
    ensures
        res == ((x * scale) / (resolution as int)) as i64,
{
    proof {
        assert(x * scale <= MAX_RESOLUTION * MAX_SIZE) by (nonlinear_arith)
            requires
                0 <= x <= MAX_RESOLUTION,
                0 <= scale <= MAX_SIZE,
        ;
        vstd::arithmetic::div_mod::lemma_div_is_ordered_by_denominator(
            (x * scale) as int,
            1,
            resolution as int,
        );
    }
    (((x as u64) * (scale as u64)) / (resolution as u64)) as i64
}

impl Plane {
    /// The plane's mesh: a grid of `(resolution + 1)` squared corner
    /// vertices and two triangles per cell, every index inside the
    /// vertex list.
    pub fn mesh(&self) -> (res: Mesh)
        requires
            1 <= self.resolution <= MAX_RESOLUTION,
            0 <= self.size <= MAX_SIZE,
        ensures
            res.vertices@.len() == (self.resolution + 1) * (self.resolution + 1),
            forall|x: int, y: int|
                0 <= x <= self.resolution && 0 <= y <= self.resolution
                    ==> res.vertices@[plane_vertex_index(*self, x, y)] == #[trigger] plane_vertex_at(
                    *self,
                    x,
                    y,
                ),
            res.indices matches Some(ix) && ix@.len() == 6 * (self.resolution * self.resolution)
                && forall|cx: int, cy: int|
                0 <= cx < self.resolution && 0 <= cy < self.resolution ==> ix@.subrange(
                    plane_cell_base(*self, cx, cy),
                    plane_cell_base(*self, cx, cy) + 6,
                ) == #[trigger] plane_cell_indices(*self, cx, cy),
            res.wf(),
    {
        let p = *self;
        let n1: usize = self.resolution + 1;
        proof {
            assert(n1 * n1 <= (MAX_RESOLUTION + 1) * (MAX_RESOLUTION + 1)) by (nonlinear_arith)
                requires
                    1 <= n1 <= MAX_RESOLUTION + 1,
            ;
        }
        let mut vertices: Vec<Vertex> = Vec::new();
        let mut y: usize = 0;
        while y < n1
            invariant
                p == *self,
                n1 == self.resolution + 1,
                1 <= self.resolution <= MAX_RESOLUTION,
                0 <= self.size <= MAX_SIZE,
                y <= n1,
                vertices@.len() == y * n1,
                forall|x2: int, y2: int|
                    0 <= x2 < n1 && 0 <= y2 < y ==> vertices@[plane_vertex_index(p, x2, y2)]
                        == #[trigger] plane_vertex_at(p, x2, y2),
            decreases n1 - y,
        {
            let mut x: usize = 0;
            while x < n1
                invariant
                    p == *self,
                    n1 == self.resolution + 1,
                    1 <= self.resolution <= MAX_RESOLUTION,
                    0 <= self.size <= MAX_SIZE,
                    y < n1,
                    x <= n1,
                    vertices@.len() == y * n1 + x,
                    forall|x2: int, y2: int|
                        0 <= x2 < n1 && 0 <= y2 < y ==> vertices@[plane_vertex_index(p, x2, y2)]
                            == #[trigger] plane_vertex_at(p, x2, y2),
                    forall|x2: int|
                        0 <= x2 < x ==> vertices@[plane_vertex_index(p, x2, y as int)]
                            == #[trigger] plane_vertex_at(p, x2, y as int),
                decreases n1 - x,
            {
                proof {
                    assert(y * n1 + x < n1 * n1) by (nonlinear_arith)
                        requires
                            0 <= y < n1,
                            0 <= x < n1,
                    ;
                }
                vertices.push(
                    Vertex {
                        position: Vec3I {
                            x: plane_component(x, self.size, self.resolution),
                            y: 0,
                            z: plane_component(y, self.size, self.resolution),
                        },
                        normal: Vec3I { x: 0, y: 1, z: 0 },
                        uv_u: plane_component(x, UV_UNIT, self.resolution),
                        uv_v: plane_component(y, UV_UNIT, self.resolution),
                    },
                );
                proof {
                    assert(vertices@[plane_vertex_index(p, x as int, y as int)]
                        == plane_vertex_at(p, x as int, y as int));
                    assert forall|x2: int, y2: int|
                        0 <= x2 < n1 && 0 <= y2 < y implies vertices@[plane_vertex_index(
                        p,
                        x2,
                        y2,
                    )] == #[trigger] plane_vertex_at(p, x2, y2) by {
                        assert(plane_vertex_index(p, x2, y2) < y * n1 + x) by (nonlinear_arith)
                            requires
                                plane_vertex_index(p, x2, y2) == y2 * (p.resolution + 1) + x2,
                                n1 == p.resolution + 1,
                                0 <= x2 < n1,
                                0 <= y2 < y,
                                0 <= x,
                        ;
                    }
                }
                x = x + 1;
            }
            y = y + 1;
            proof {
                assert(vertices@.len() == y * n1) by (nonlinear_arith)
                    requires
                        vertices@.len() == (y - 1) * n1 + n1,
                ;
            }
        }
        proof {
            assert(vertices@.len() == n1 * n1) by (nonlinear_arith)
                requires
                    vertices@.len() == n1 * n1,
            ;
        }

        let mut indices: Vec<u32> = Vec::new();
        let mut cy: usize = 0;
        while cy < self.resolution
            invariant
                p == *self,
                n1 == self.resolution + 1,
                1 <= self.resolution <= MAX_RESOLUTION,
                cy <= self.resolution,
                indices@.len() == 6 * (cy * self.resolution),
                forall|cx2: int, cy2: int|
                    0 <= cx2 < self.resolution && 0 <= cy2 < cy ==> indices@.subrange(
                        plane_cell_base(p, cx2, cy2),
                        plane_cell_base(p, cx2, cy2) + 6,
                    ) == #[trigger] plane_cell_indices(p, cx2, cy2),
                forall|i: int| 0 <= i < indices@.len() ==> #[trigger] indices@[i] < n1 * n1,
            decreases self.resolution - cy,
        {
            let mut cx: usize = 0;
            while cx < self.resolution
                invariant
                    p == *self,
                    n1 == self.resolution + 1,
                    1 <= self.resolution <= MAX_RESOLUTION,
                    cy < self.resolution,
                    cx <= self.resolution,
                    indices@.len() == 6 * (cy * self.resolution + cx),
                    forall|cx2: int, cy2: int|
                        0 <= cx2 < self.resolution && 0 <= cy2 < cy ==> indices@.subrange(
                            plane_cell_base(p, cx2, cy2),
                            plane_cell_base(p, cx2, cy2) + 6,
                        ) == #[trigger] plane_cell_indices(p, cx2, cy2),
                    forall|cx2: int|
                        0 <= cx2 < cx ==> indices@.subrange(
                            plane_cell_base(p, cx2, cy as int),
                            plane_cell_base(p, cx2, cy as int) + 6,
                        ) == #[trigger] plane_cell_indices(p, cx2, cy as int),
                    forall|i: int| 0 <= i < indices@.len() ==> #[trigger] indices@[i] < n1 * n1,
                decreases self.resolution - cx,
            {
                proof {
                    assert(cy * n1 + cx + n1 + 2 <= n1 * n1 && n1 * n1 <= 100020001 && 6 * (cy
                        * p.resolution + cx) + 6 <= 6 * (p.resolution * p.resolution))
                        by (nonlinear_arith)
                        requires
                            n1 == p.resolution + 1,
                            1 <= p.resolution <= MAX_RESOLUTION,
                            0 <= cy < p.resolution,
                            0 <= cx < p.resolution,
                    ;
                }
                let ghost before = indices@;
                let v: usize = cy * n1 + cx;
                indices.push(v as u32);
                indices.push((v + self.resolution + 1) as u32);
                indices.push((v + 1) as u32);
                indices.push((v + 1) as u32);
                indices.push((v + self.resolution + 1) as u32);
                indices.push((v + self.resolution + 2) as u32);
                proof {
                    assert(indices@.subrange(
                        plane_cell_base(p, cx as int, cy as int),
                        plane_cell_base(p, cx as int, cy as int) + 6,
                    ) =~= plane_cell_indices(p, cx as int, cy as int));
                    assert forall|cx2: int, cy2: int|
                        0 <= cx2 < p.resolution && 0 <= cy2 < cy implies indices@.subrange(
                        plane_cell_base(p, cx2, cy2),
                        plane_cell_base(p, cx2, cy2) + 6,
                    ) == #[trigger] plane_cell_indices(p, cx2, cy2) by {
                        assert(plane_cell_base(p, cx2, cy2) + 6 <= before.len())
                            by (nonlinear_arith)
                            requires
                                0 <= cx2 < p.resolution,
                                0 <= cy2 < cy,
                                before.len() == 6 * (cy * p.resolution + cx),
                                0 <= cx,
                        ;
                        assert(indices@.subrange(
                            plane_cell_base(p, cx2, cy2),
                            plane_cell_base(p, cx2, cy2) + 6,
                        ) =~= before.subrange(
                            plane_cell_base(p, cx2, cy2),
                            plane_cell_base(p, cx2, cy2) + 6,
                        ));
                    }
                    assert forall|cx2: int|
                        0 <= cx2 < cx implies indices@.subrange(
                        plane_cell_base(p, cx2, cy as int),
                        plane_cell_base(p, cx2, cy as int) + 6,
                    ) == #[trigger] plane_cell_indices(p, cx2, cy as int) by {
                        assert(plane_cell_base(p, cx2, cy as int) + 6 <= before.len())
                            by (nonlinear_arith)
                            requires
                                0 <= cx2 < cx,
                                before.len() == 6 * (cy * p.resolution + cx),
                                0 <= cy,
                        ;
                        assert(indices@.subrange(
                            plane_cell_base(p, cx2, cy as int),
                            plane_cell_base(p, cx2, cy as int) + 6,
                        ) =~= before.subrange(
                            plane_cell_base(p, cx2, cy as int),
                            plane_cell_base(p, cx2, cy as int) + 6,
                        ));
                    }
                }
                cx = cx + 1;
            }
            cy = cy + 1;
            proof {
                assert(indices@.len() == 6 * (cy * p.resolution)) by (nonlinear_arith)
                    requires
                        indices@.len() == 6 * ((cy - 1) * p.resolution + p.resolution),
                ;
            }
        }

        let res = Mesh { vertices, indices: Some(indices) };
        res
    }
}

/// A sphere made of longitudinal sectors and latitudinal stacks.  Its
/// vertex positions take trigonometric evaluation and come from the
/// caller; the triangle topology over the vertex grid is fixed here.
#[derive(Clone, Copy, PartialEq, Eq, Structural, Debug)]
pub struct UVSphere {
    pub radius: i64,
    pub sectors: usize,
    pub stacks: usize,
}

/// How many index entries the first `i` stacks contribute: the top and
/// bottom stacks one triangle per sector, every other stack two.
pub open spec fn sphere_prefix_len(sectors: int, stacks: int, i: int) -> int
    decreases i,
{
    if i <= 0 {
        0
    } else {
        sphere_prefix_len(sectors, stacks, i - 1) + (if i - 1 != 0 {
            3 * sectors
        } else {
            0
        }) + (if i - 1 != stacks - 1 {
            3 * sectors
        } else {
            0
        })
    }
}

/// Closed form for the prefix length of the stacks before the last.
proof fn lemma_sphere_prefix(sectors: int, stacks: int, i: int)
    requires
        sectors >= 1,
        stacks >= 2,
        1 <= i <= stacks - 1,
    ensures
        sphere_prefix_len(sectors, stacks, i) == 3 * sectors * (2 * i - 1),
    decreases i,
{
    if i == 1 {
        assert(sphere_prefix_len(sectors, stacks, 0) == 0);
        assert(3 * sectors * (2 * 1 - 1) == 3 * sectors) by (nonlinear_arith);
    } else {
        lemma_sphere_prefix(sectors, stacks, i - 1);
        assert(3 * sectors * (2 * (i - 1) - 1) + 6 * sectors == 3 * sectors * (2 * i - 1))
            by (nonlinear_arith);
    }
}

/// Closed form for the whole index count.
proof fn lemma_sphere_index_count(sectors: int, stacks: int)
    requires
        sectors >= 1,
        stacks >= 1,
    ensures
        sphere_prefix_len(sectors, stacks, stacks) == if stacks == 1 {
            0int
        } else {
            6 * sectors * (stacks - 1)
        },
{
    if stacks == 1 {
        assert(sphere_prefix_len(sectors, stacks, 0) == 0);
    } else {
        lemma_sphere_prefix(sectors, stacks, stacks - 1);
        assert(3 * sectors * (2 * (stacks - 1) - 1) + 3 * sectors == 6 * sectors * (stacks - 1))
            by (nonlinear_arith);
    }
}

/// The indices one sector cell of stack `i` contributes: the upper
/// triangle everywhere but the top stack, the lower triangle
/// everywhere but the bottom stack.
pub open spec fn sphere_cell(sectors: int, stacks: int, i: int, j: int) -> Seq<u32> {
    let k1 = i * (sectors + 1) + j;
    let k2 = k1 + sectors + 1;
    (if i != 0 {
        seq![k1 as u32, k2 as u32, (k1 + 1) as u32]
    } else {
        Seq::empty()
    }) + (if i != stacks - 1 {
        seq![(k1 + 1) as u32, k2 as u32, (k2 + 1) as u32]
    } else {
        Seq::empty()
    })
}

/// The indices of the first `j` cells of stack `i`, left to right.
pub open spec fn sphere_row(sectors: int, stacks: int, i: int, j: int) -> Seq<u32>
    decreases j,
{
    if j <= 0 {
        Seq::empty()
    } else {
        sphere_row(sectors, stacks, i, j - 1) + sphere_cell(sectors, stacks, i, j - 1)
    }
}

/// The indices of the first `i` stacks.
pub open spec fn sphere_rows(sectors: int, stacks: int, i: int) -> Seq<u32>
    decreases i,
{
    if i <= 0 {
        Seq::empty()
    } else {
        sphere_rows(sectors, stacks, i - 1) + sphere_row(sectors, stacks, i - 1, sectors)
    }
}

impl UVSphere {
    /// How many vertices the sphere's grid holds.
    pub open spec fn spec_vertex_count(self) -> int {
        (self.stacks + 1) * (self.sectors + 1)
    }

    /// The sphere's triangle indices over its vertex grid, stack by
    /// stack and sector by sector; every index addresses a grid
    /// vertex.
    pub fn indices(&self) -> (res: Vec<u32>)
        requires
            1 <= self.sectors <= MAX_RESOLUTION,
            1 <= self.stacks <= MAX_RESOLUTION,
        ensures
            res@ == sphere_rows(self.sectors as int, self.stacks as int, self.stacks as int),
            res@.len() == if self.stacks == 1 {
                0int
            } else {
                6 * self.sectors * (self.stacks - 1)
            },
            forall|i: int| 0 <= i < res@.len() ==> #[trigger] res@[i] < self.spec_vertex_count(),
    {
        let s1: usize = self.sectors + 1;
        let mut indices: Vec<u32> = Vec::new();
        let mut i: usize = 0;
        while i < self.stacks
            invariant
                1 <= self.sectors <= MAX_RESOLUTION,
                1 <= self.stacks <= MAX_RESOLUTION,
                s1 == self.sectors + 1,
                i <= self.stacks,
                indices@.len() == sphere_prefix_len(
                    self.sectors as int,
                    self.stacks as int,
                    i as int,
                ),
                indices@ == sphere_rows(self.sectors as int, self.stacks as int, i as int),
                forall|k: int|
                    0 <= k < indices@.len() ==> #[trigger] indices@[k] < self.spec_vertex_count(),
            decreases self.stacks - i,
        {
            proof {
                assert(i * s1 + s1 + s1 <= (self.stacks + 1) * (self.sectors + 1)
                    && (self.stacks + 1) * (self.sectors + 1) <= 100020001) by (nonlinear_arith)
                    requires
                        s1 == self.sectors + 1,
                        1 <= self.sectors <= MAX_RESOLUTION,
                        1 <= self.stacks <= MAX_RESOLUTION,
                        0 <= i < self.stacks,
                ;
            }
            let mut k1: usize = i * s1;
            let mut k2: usize = k1 + s1;
            let ghost row_start = indices@.len();
            let mut j: usize = 0;
            while j < self.sectors
                invariant
                    1 <= self.sectors <= MAX_RESOLUTION,
                    1 <= self.stacks <= MAX_RESOLUTION,
                    s1 == self.sectors + 1,
                    i < self.stacks,
                    j <= self.sectors,
                    k1 == i * s1 + j,
                    k2 == k1 + s1,
                    i * s1 + s1 + s1 <= (self.stacks + 1) * (self.sectors + 1),
                    (self.stacks + 1) * (self.sectors + 1) <= 100020001,
                    indices@.len() == row_start + j * ((if i != 0 {
                        3int
                    } else {
                        0int
                    }) + (if i != self.stacks - 1 {
                        3int
                    } else {
                        0int
                    })),
                    indices@ == sphere_rows(self.sectors as int, self.stacks as int, i as int)
                        + sphere_row(self.sectors as int, self.stacks as int, i as int, j as int),
                    forall|k: int|
                        0 <= k < indices@.len() ==> #[trigger] indices@[k]
                            < self.spec_vertex_count(),
                decreases self.sectors - j,
            {
                if i != 0 {
                    indices.push(k1 as u32);
                    indices.push(k2 as u32);
                    indices.push((k1 + 1) as u32);
                }
                if i != self.stacks - 1 {
                    indices.push((k1 + 1) as u32);
                    indices.push(k2 as u32);
                    indices.push((k2 + 1) as u32);
                }
                proof {
                    assert(indices@ =~= sphere_rows(self.sectors as int, self.stacks as int, i as int)
                        + sphere_row(
                        self.sectors as int,
                        self.stacks as int,
                        i as int,
                        j + 1,
                    ));
                    let ghost step: int = (if i != 0 {
                        3int
                    } else {
                        0int
                    }) + (if i as int != self.stacks as int - 1 {
                        3int
                    } else {
                        0int
                    });
                    assert((j + 1) * step == j * step + step) by (nonlinear_arith);
                }
                k1 = k1 + 1;
                k2 = k2 + 1;
                j = j + 1;
            }
            proof {
                let ghost s = self.sectors as int;
                let ghost a: int = if i != 0 {
                    3int
                } else {
                    0int
                };
                let ghost b: int = if i as int != self.stacks as int - 1 {
                    3int
                } else {
                    0int
                };
                assert(s * (a + b) == s * a + s * b) by (nonlinear_arith);
                assert(s * a == if i != 0 {
                    3 * s
                } else {
                    0int
                }) by (nonlinear_arith)
                    requires
                        a == if i != 0 {
                            3int
                        } else {
                            0int
                        },
                ;
                assert(s * b == if i as int != self.stacks as int - 1 {
                    3 * s
                } else {
                    0int
                }) by (nonlinear_arith)
                    requires
                        b == if i as int != self.stacks as int - 1 {
                            3int
                        } else {
                            0int
                        },
                ;
            }
            i = i + 1;
        }
        proof {
            lemma_sphere_index_count(self.sectors as int, self.stacks as int);
        }
        indices
    }
}

} // verus!
