//! The cube mesh: its corner table, its index table, and the memory layout
//! that tells the vertex stage how to read one corner.
//!
//! Corners live on the integer grid. Every coordinate is `-1` or `1` and every
//! texture coordinate is `0` or `1`, so each converts to a 32-bit float
//! without rounding when the mesh is uploaded.

use vstd::prelude::*;

verus! {

/// One corner of the mesh.
#[derive(Copy, Clone, Debug, PartialEq, Eq)]
pub struct Vertex {
    /// Object-space position `[x, y, z]`.
    pub position: [i8; 3],
    /// Texture coordinate `[u, v]`.
    pub tex_coords: [u8; 2],
}

/// Number of corners of the cube.
pub const VERTEX_COUNT: usize = 8;

/// Number of entries of the index table.
pub const INDEX_COUNT: usize = 36;

/// Number of triangles that the index table describes.
pub const TRIANGLE_COUNT: usize = 12;

/// Three consecutive entries form one triangle; two consecutive triangles
/// form one face of the cube.
pub const INDICES: [u16; 36] = [
    0, 1, 2,
    2, 1, 3,
    4, 0, 6,
    6, 0, 2,
    7, 5, 6,
    6, 5, 4,
    3, 1, 7,
    7, 1, 5,
    4, 5, 0,
    0, 5, 1,
    3, 7, 2,
    2, 7, 6,
];

/// The corner at `(x, y, z)` carrying texture coordinate `(u, v)`.
pub open spec fn corner(x: i8, y: i8, z: i8, u: u8, v: u8) -> Vertex {
    Vertex { position: [x, y, z], tex_coords: [u, v] }
}

/// The eight corners, in the order in which the index table refers to them.
pub open spec fn cube_vertices() -> Seq<Vertex> {
    seq![
        corner(-1i8, 1, -1i8, 0, 0),
        corner(1, 1, -1i8, 1, 0),
        corner(-1i8, -1i8, -1i8, 0, 1),
        corner(1, -1i8, -1i8, 1, 1),
        corner(-1i8, 1, 1, 1, 0),
        corner(1, 1, 1, 0, 0),
        corner(-1i8, -1i8, 1, 1, 1),
        corner(1, -1i8, 1, 0, 1),
    ]
}

/// The corner table.
pub fn vertices() -> (table: [Vertex; 8])
    ensures
        table@ == cube_vertices(),
{
    let table = [
        Vertex { position: [-1, 1, -1], tex_coords: [0, 0] },
        Vertex { position: [1, 1, -1], tex_coords: [1, 0] },
        Vertex { position: [-1, -1, -1], tex_coords: [0, 1] },
        Vertex { position: [1, -1, -1], tex_coords: [1, 1] },
        Vertex { position: [-1, 1, 1], tex_coords: [1, 0] },
        Vertex { position: [1, 1, 1], tex_coords: [0, 0] },
        Vertex { position: [-1, -1, 1], tex_coords: [1, 1] },
        Vertex { position: [1, -1, 1], tex_coords: [0, 1] },
    ];
    assert(table@ =~= cube_vertices());
    table
}

/// A vector of the integer grid.
pub struct GridVector {
    pub x: int,
    pub y: int,
    pub z: int,
}

/// The grid vector `(x, y, z)`.
#[verifier::inline]
pub open spec fn grid(x: int, y: int, z: int) -> GridVector {
    GridVector { x, y, z }
}

impl GridVector {
    #[verifier::inline]
    pub open spec fn dot(self, other: GridVector) -> int {
        self.x * other.x + self.y * other.y + self.z * other.z
    }

    /// The right-handed cross product.
    #[verifier::inline]
    pub open spec fn cross(self, other: GridVector) -> GridVector {
        GridVector {
            x: self.y * other.z - self.z * other.y,
            y: self.z * other.x - self.x * other.z,
            z: self.x * other.y - self.y * other.x,
        }
    }

    #[verifier::inline]
    pub open spec fn minus(self, other: GridVector) -> GridVector {
        GridVector { x: self.x - other.x, y: self.y - other.y, z: self.z - other.z }
    }
}

impl Vertex {
    /// The position as a vector from the cube's centre.
    pub open spec fn place(self) -> GridVector {
        GridVector {
            x: self.position[0] as int,
            y: self.position[1] as int,
            z: self.position[2] as int,
        }
    }
}

/// The corner that triangle `t` visits at step `k` of its winding.
pub open spec fn triangle_corner(t: int, k: int) -> Vertex
    recommends
        0 <= t < TRIANGLE_COUNT,
        0 <= k < 3,
{
    cube_vertices()[INDICES[3 * t + k] as int]
}

/// The normal that the right-hand rule gives triangle `t`: the cross product
/// of its first edge with its second. A viewer towards whom it points sees
/// the triangle wound counter-clockwise.
pub open spec fn triangle_normal(t: int) -> GridVector
    recommends
        0 <= t < TRIANGLE_COUNT,
{
    let a = triangle_corner(t, 0).place();
    let b = triangle_corner(t, 1).place();
    let c = triangle_corner(t, 2).place();
    b.minus(a).cross(c.minus(a))
}

/// The outward normal of face `f`, scaled to the length that
/// [`triangle_normal`] produces on this mesh.
pub open spec fn face_normal(f: int) -> GridVector
    recommends
        0 <= f < 6,
{
    if f == 0 {
        grid(0, 0, -4)
    } else if f == 1 {
        grid(-4, 0, 0)
    } else if f == 2 {
        grid(0, 0, 4)
    } else if f == 3 {
        grid(4, 0, 0)
    } else if f == 4 {
        grid(0, 4, 0)
    } else {
        grid(0, -4, 0)
    }
}

/// Every index names a corner of the table, so an indexed draw over the
/// whole table never reads past the vertex buffer.
pub proof fn lemma_indices_in_range()
    ensures
        INDICES@.len() == INDEX_COUNT,
        INDEX_COUNT == 3 * TRIANGLE_COUNT,
        cube_vertices().len() == VERTEX_COUNT,
        forall|i: int| 0 <= i < INDEX_COUNT ==> (#[trigger] INDICES[i]) < VERTEX_COUNT,
{
}

/// The table holds the eight corners of the cube `[-1, 1]^3`: every
/// coordinate is `-1` or `1`, and no position occurs twice.
pub proof fn lemma_vertices_are_cube_corners()
    ensures
        forall|i: int, k: int|
            0 <= i < VERTEX_COUNT && 0 <= k < 3 ==> {
                let c = #[trigger] cube_vertices()[i].position[k];
                c == -1 || c == 1
            },
        forall|i: int, j: int|
            0 <= i < j < VERTEX_COUNT ==> #[trigger] cube_vertices()[i].place()
                != #[trigger] cube_vertices()[j].place(),
{
}

/// No triangle is degenerate: its three corners are three different entries
/// of the table.
pub proof fn lemma_triangles_proper()
    ensures
        forall|t: int|
            0 <= t < TRIANGLE_COUNT ==> {
                &&& #[trigger] INDICES[3 * t] != INDICES[3 * t + 1]
                &&& INDICES[3 * t + 1] != INDICES[3 * t + 2]
                &&& INDICES[3 * t] != INDICES[3 * t + 2]
            },
{
    assert forall|t: int| 0 <= t < TRIANGLE_COUNT implies {
        &&& #[trigger] INDICES[3 * t] != INDICES[3 * t + 1]
        &&& INDICES[3 * t + 1] != INDICES[3 * t + 2]
        &&& INDICES[3 * t] != INDICES[3 * t + 2]
    } by {
        lemma_triangle_cases(t);
    }
}

/// Case split over the twelve triangles.
proof fn lemma_triangle_cases(t: int)
    requires
        0 <= t < TRIANGLE_COUNT,
    ensures
        t == 0 || t == 1 || t == 2 || t == 3 || t == 4 || t == 5 || t == 6 || t == 7 || t == 8
            || t == 9 || t == 10 || t == 11,
{
}

/// Triangles `2f` and `2f + 1` both lie in face `f` and both are wound
/// counter-clockwise when seen from outside the cube: the right-hand normal of
/// each is the outward normal of that face.
pub proof fn lemma_winding_is_counter_clockwise(t: int)
    requires
        0 <= t < TRIANGLE_COUNT,
    ensures
        triangle_normal(t) == face_normal(t / 2),
        forall|k: int|
            0 <= k < 3 ==> triangle_normal(t).dot(#[trigger] triangle_corner(t, k).place()) > 0,
{
    lemma_triangle_cases(t);
    lemma_places();
    if t == 0 {
        assert(grid(2, 0, 0).cross(grid(0, -2, 0)) == grid(0, 0, -4)) by (nonlinear_arith);
        lemma_wound_outward(
            t,
            grid(-1, 1, -1),
            grid(1, 1, -1),
            grid(-1, -1, -1),
            grid(2, 0, 0),
            grid(0, -2, 0),
            grid(0, 0, -4),
        );
    } else if t == 1 {
        assert(grid(2, 2, 0).cross(grid(2, 0, 0)) == grid(0, 0, -4)) by (nonlinear_arith);
        lemma_wound_outward(
            t,
            grid(-1, -1, -1),
            grid(1, 1, -1),
            grid(1, -1, -1),
            grid(2, 2, 0),
            grid(2, 0, 0),
            grid(0, 0, -4),
        );
    } else if t == 2 {
        assert(grid(0, 0, -2).cross(grid(0, -2, 0)) == grid(-4, 0, 0)) by (nonlinear_arith);
        lemma_wound_outward(
            t,
            grid(-1, 1, 1),
            grid(-1, 1, -1),
            grid(-1, -1, 1),
            grid(0, 0, -2),
            grid(0, -2, 0),
            grid(-4, 0, 0),
        );
    } else if t == 3 {
        assert(grid(0, 2, -2).cross(grid(0, 0, -2)) == grid(-4, 0, 0)) by (nonlinear_arith);
        lemma_wound_outward(
            t,
            grid(-1, -1, 1),
            grid(-1, 1, -1),
            grid(-1, -1, -1),
            grid(0, 2, -2),
            grid(0, 0, -2),
            grid(-4, 0, 0),
        );
    } else if t == 4 {
        assert(grid(0, 2, 0).cross(grid(-2, 0, 0)) == grid(0, 0, 4)) by (nonlinear_arith);
        lemma_wound_outward(
            t,
            grid(1, -1, 1),
            grid(1, 1, 1),
            grid(-1, -1, 1),
            grid(0, 2, 0),
            grid(-2, 0, 0),
            grid(0, 0, 4),
        );
    } else if t == 5 {
        assert(grid(2, 2, 0).cross(grid(0, 2, 0)) == grid(0, 0, 4)) by (nonlinear_arith);
        lemma_wound_outward(
            t,
            grid(-1, -1, 1),
            grid(1, 1, 1),
            grid(-1, 1, 1),
            grid(2, 2, 0),
            grid(0, 2, 0),
            grid(0, 0, 4),
        );
    } else if t == 6 {
        assert(grid(0, 2, 0).cross(grid(0, 0, 2)) == grid(4, 0, 0)) by (nonlinear_arith);
        lemma_wound_outward(
            t,
            grid(1, -1, -1),
            grid(1, 1, -1),
            grid(1, -1, 1),
            grid(0, 2, 0),
            grid(0, 0, 2),
            grid(4, 0, 0),
        );
    } else if t == 7 {
        assert(grid(0, 2, -2).cross(grid(0, 2, 0)) == grid(4, 0, 0)) by (nonlinear_arith);
        lemma_wound_outward(
            t,
            grid(1, -1, 1),
            grid(1, 1, -1),
            grid(1, 1, 1),
            grid(0, 2, -2),
            grid(0, 2, 0),
            grid(4, 0, 0),
        );
    } else if t == 8 {
        assert(grid(2, 0, 0).cross(grid(0, 0, -2)) == grid(0, 4, 0)) by (nonlinear_arith);
        lemma_wound_outward(
            t,
            grid(-1, 1, 1),
            grid(1, 1, 1),
            grid(-1, 1, -1),
            grid(2, 0, 0),
            grid(0, 0, -2),
            grid(0, 4, 0),
        );
    } else if t == 9 {
        assert(grid(2, 0, 2).cross(grid(2, 0, 0)) == grid(0, 4, 0)) by (nonlinear_arith);
        lemma_wound_outward(
            t,
            grid(-1, 1, -1),
            grid(1, 1, 1),
            grid(1, 1, -1),
            grid(2, 0, 2),
            grid(2, 0, 0),
            grid(0, 4, 0),
        );
    } else if t == 10 {
        assert(grid(0, 0, 2).cross(grid(-2, 0, 0)) == grid(0, -4, 0)) by (nonlinear_arith);
        lemma_wound_outward(
            t,
            grid(1, -1, -1),
            grid(1, -1, 1),
            grid(-1, -1, -1),
            grid(0, 0, 2),
            grid(-2, 0, 0),
            grid(0, -4, 0),
        );
    } else if t == 11 {
        assert(grid(2, 0, 2).cross(grid(0, 0, 2)) == grid(0, -4, 0)) by (nonlinear_arith);
        lemma_wound_outward(
            t,
            grid(-1, -1, -1),
            grid(1, -1, 1),
            grid(-1, -1, 1),
            grid(2, 0, 2),
            grid(0, 0, 2),
            grid(0, -4, 0),
        );
    }
}

/// One triangle, with the steps of its cross product written out: `a`, `b`
/// and `c` are its corners, `u` and `v` its first and second edge, `n` its
/// normal.
proof fn lemma_wound_outward(
    t: int,
    a: GridVector,
    b: GridVector,
    c: GridVector,
    u: GridVector,
    v: GridVector,
    n: GridVector,
)
    requires
        0 <= t < TRIANGLE_COUNT,
        triangle_corner(t, 0).place() == a,
        triangle_corner(t, 1).place() == b,
        triangle_corner(t, 2).place() == c,
        u == b.minus(a),
        v == c.minus(a),
        n == u.cross(v),
        n == face_normal(t / 2),
        n.dot(a) > 0 && n.dot(b) > 0 && n.dot(c) > 0,
    ensures
        triangle_normal(t) == face_normal(t / 2),
        forall|k: int|
            0 <= k < 3 ==> triangle_normal(t).dot(#[trigger] triangle_corner(t, k).place()) > 0,
{
    assert forall|k: int| 0 <= k < 3 implies triangle_normal(t).dot(
        #[trigger] triangle_corner(t, k).place(),
    ) > 0 by {
        assert(k == 0 || k == 1 || k == 2);
    }
}

/// Where each corner of the table stands.
proof fn lemma_places()
    ensures
        cube_vertices()[0].place() == grid(-1, 1, -1),
        cube_vertices()[1].place() == grid(1, 1, -1),
        cube_vertices()[2].place() == grid(-1, -1, -1),
        cube_vertices()[3].place() == grid(1, -1, -1),
        cube_vertices()[4].place() == grid(-1, 1, 1),
        cube_vertices()[5].place() == grid(1, 1, 1),
        cube_vertices()[6].place() == grid(-1, -1, 1),
        cube_vertices()[7].place() == grid(1, -1, 1),
{
}

/// The six faces look in six different directions, so the twelve triangles
/// cover every face of the cube with exactly two triangles.
pub proof fn lemma_faces_distinct(f: int, g: int)
    requires
        0 <= f < g < 6,
    ensures
        face_normal(f) != face_normal(g),
{
}

/// How the vertex stage decodes one attribute of a corner.
#[derive(Copy, Clone, Debug, PartialEq, Eq)]
pub enum VertexFormat {
    /// Two 32-bit floats.
    Float32x2,
    /// Three 32-bit floats.
    Float32x3,
}

impl VertexFormat {
    /// Number of 32-bit components.
    pub open spec fn components(self) -> nat {
        match self {
            VertexFormat::Float32x2 => 2,
            VertexFormat::Float32x3 => 3,
        }
    }

    /// Number of bytes that one attribute of this format occupies.
    pub open spec fn byte_size(self) -> nat {
        4 * self.components()
    }

    pub fn size(&self) -> (bytes: u64)
        ensures
            bytes == self.byte_size(),
    {
        match self {
            VertexFormat::Float32x2 => 8,
            VertexFormat::Float32x3 => 12,
        }
    }
}

/// Whether the buffer advances once per vertex or once per instance.
#[derive(Copy, Clone, Debug, PartialEq, Eq)]
pub enum VertexStepMode {
    Vertex,
    Instance,
}

/// One input of the vertex stage and where it lies inside a corner.
#[derive(Copy, Clone, Debug, PartialEq, Eq)]
pub struct VertexAttribute {
    pub format: VertexFormat,
    /// Byte offset from the start of the corner.
    pub offset: u64,
    /// The `@location` under which the vertex stage receives it.
    pub shader_location: u32,
}

/// How a vertex buffer is cut into corners and a corner into attributes.
#[derive(Debug, PartialEq, Eq)]
pub struct VertexBufferLayout {
    /// Bytes from the start of one corner to the start of the next.
    pub array_stride: u64,
    pub step_mode: VertexStepMode,
    pub attributes: Vec<VertexAttribute>,
}

/// Bytes taken by the first `n` of `attributes` when they lie back to back.
pub open spec fn packed_size(attributes: Seq<VertexAttribute>, n: nat) -> nat
    recommends
        n <= attributes.len(),
    decreases n,
{
    if n == 0 {
        0
    } else {
        packed_size(attributes, (n - 1) as nat) + attributes[n - 1].format.byte_size()
    }
}

impl VertexBufferLayout {
    /// The attributes lie back to back from offset zero, fill the stride
    /// exactly, and are numbered by their place in the list.
    pub open spec fn is_packed(self) -> bool {
        &&& forall|i: int|
            0 <= i < self.attributes@.len() ==> {
                &&& (#[trigger] self.attributes@[i]).offset == packed_size(
                    self.attributes@,
                    i as nat,
                )
                &&& self.attributes@[i].shader_location == i
            }
        &&& self.array_stride == packed_size(self.attributes@, self.attributes@.len())
    }
}

/// The layout of the corner buffer: the position at offset 0 under location
/// 0, the texture coordinate behind it under location 1.
pub open spec fn vertex_layout_attributes() -> Seq<VertexAttribute> {
    seq![
        VertexAttribute { format: VertexFormat::Float32x3, offset: 0, shader_location: 0 },
        VertexAttribute { format: VertexFormat::Float32x2, offset: 12, shader_location: 1 },
    ]
}

impl Vertex {
    /// Number of bytes that one corner occupies in the vertex buffer.
    pub open spec fn byte_size() -> nat {
        20
    }

    /// Describes the buffer that holds the corner table, each coordinate
    /// stored as a 32-bit float.
    pub fn desc() -> (layout: VertexBufferLayout)
        ensures
            layout.array_stride == Vertex::byte_size(),
            layout.step_mode == VertexStepMode::Vertex,
            layout.attributes@ == vertex_layout_attributes(),
            layout.is_packed(),
    {
        let position = VertexFormat::Float32x3;
        let tex_coords = VertexFormat::Float32x2;
        let tex_coords_offset = position.size();
        let array_stride = tex_coords_offset + tex_coords.size();
        let mut attributes: Vec<VertexAttribute> = Vec::new();
        attributes.push(VertexAttribute { format: position, offset: 0, shader_location: 0 });
        attributes.push(
            VertexAttribute { format: tex_coords, offset: tex_coords_offset, shader_location: 1 },
        );
        let layout = VertexBufferLayout {
            array_stride,
            step_mode: VertexStepMode::Vertex,
            attributes,
        };
        proof {
            assert(layout.attributes@ =~= vertex_layout_attributes());
            reveal_with_fuel(packed_size, 3);
        }
        layout
    }
}

/// The layout has one attribute for each field of a corner, with as many
/// components as the field has entries.
pub proof fn lemma_layout_matches_vertex(v: Vertex)
    ensures
        vertex_layout_attributes().len() == 2,
        vertex_layout_attributes()[0].format.components() == v.position@.len(),
        vertex_layout_attributes()[1].format.components() == v.tex_coords@.len(),
{
}

} // verus!
