//! The cube mesh.
//!
//! The cube spans the corner grid from minus one to one on every axis.  Its
//! surface is six faces of four corners each, listed face by face, and each
//! face is drawn as two triangles over its four corners.  Positions, texture
//! coordinates and normals all sit on that integer grid; turning them into
//! the renderer's floating-point attributes is the caller's business.

use vstd::prelude::*;

verus! {

/// One corner of a face: its position on the corner grid, its texture
/// coordinate, and the outward normal of the face it belongs to.
pub struct Vertex {
    pub a_pos: [i8; 3],
    pub a_uv: [i8; 2],
    pub a_normal: [i8; 3],
}

/// Corners in the mesh: six faces of four.
pub const CUBE_VERTEX_COUNT: usize = 24;

/// Index entries in the mesh: six faces of two triangles.
pub const CUBE_INDEX_COUNT: usize = 36;

/// The cube's corners, face by face: top, bottom, right, left, front, back.
pub open spec fn cube_vertex_table() -> Seq<Vertex> {
    seq![
        // top (normal toward positive z)
        Vertex { a_pos: [-1i8, -1i8, 1i8], a_uv: [0i8, 0i8], a_normal: [0i8, 0i8, 1i8] },
        Vertex { a_pos: [1i8, -1i8, 1i8], a_uv: [1i8, 0i8], a_normal: [0i8, 0i8, 1i8] },
        Vertex { a_pos: [1i8, 1i8, 1i8], a_uv: [1i8, 1i8], a_normal: [0i8, 0i8, 1i8] },
        Vertex { a_pos: [-1i8, 1i8, 1i8], a_uv: [0i8, 1i8], a_normal: [0i8, 0i8, 1i8] },
        // bottom (normal toward negative z)
        Vertex { a_pos: [-1i8, 1i8, -1i8], a_uv: [1i8, 0i8], a_normal: [0i8, 0i8, -1i8] },
        Vertex { a_pos: [1i8, 1i8, -1i8], a_uv: [0i8, 0i8], a_normal: [0i8, 0i8, -1i8] },
        Vertex { a_pos: [1i8, -1i8, -1i8], a_uv: [0i8, 1i8], a_normal: [0i8, 0i8, -1i8] },
        Vertex { a_pos: [-1i8, -1i8, -1i8], a_uv: [1i8, 1i8], a_normal: [0i8, 0i8, -1i8] },
        // right (normal toward positive x)
        Vertex { a_pos: [1i8, -1i8, -1i8], a_uv: [0i8, 0i8], a_normal: [1i8, 0i8, 0i8] },
        Vertex { a_pos: [1i8, 1i8, -1i8], a_uv: [1i8, 0i8], a_normal: [1i8, 0i8, 0i8] },
        Vertex { a_pos: [1i8, 1i8, 1i8], a_uv: [1i8, 1i8], a_normal: [1i8, 0i8, 0i8] },
        Vertex { a_pos: [1i8, -1i8, 1i8], a_uv: [0i8, 1i8], a_normal: [1i8, 0i8, 0i8] },
        // left (normal toward negative x)
        Vertex { a_pos: [-1i8, -1i8, 1i8], a_uv: [1i8, 0i8], a_normal: [-1i8, 0i8, 0i8] },
        Vertex { a_pos: [-1i8, 1i8, 1i8], a_uv: [0i8, 0i8], a_normal: [-1i8, 0i8, 0i8] },
        Vertex { a_pos: [-1i8, 1i8, -1i8], a_uv: [0i8, 1i8], a_normal: [-1i8, 0i8, 0i8] },
        Vertex { a_pos: [-1i8, -1i8, -1i8], a_uv: [1i8, 1i8], a_normal: [-1i8, 0i8, 0i8] },
        // front (normal toward positive y)
        Vertex { a_pos: [1i8, 1i8, -1i8], a_uv: [1i8, 0i8], a_normal: [0i8, 1i8, 0i8] },
        Vertex { a_pos: [-1i8, 1i8, -1i8], a_uv: [0i8, 0i8], a_normal: [0i8, 1i8, 0i8] },
        Vertex { a_pos: [-1i8, 1i8, 1i8], a_uv: [0i8, 1i8], a_normal: [0i8, 1i8, 0i8] },
        Vertex { a_pos: [1i8, 1i8, 1i8], a_uv: [1i8, 1i8], a_normal: [0i8, 1i8, 0i8] },
        // back (normal toward negative y)
        Vertex { a_pos: [1i8, -1i8, 1i8], a_uv: [0i8, 0i8], a_normal: [0i8, -1i8, 0i8] },
        Vertex { a_pos: [-1i8, -1i8, 1i8], a_uv: [1i8, 0i8], a_normal: [0i8, -1i8, 0i8] },
        Vertex { a_pos: [-1i8, -1i8, -1i8], a_uv: [1i8, 1i8], a_normal: [0i8, -1i8, 0i8] },
        Vertex { a_pos: [1i8, -1i8, -1i8], a_uv: [0i8, 1i8], a_normal: [0i8, -1i8, 0i8] },
    ]
}

/// Index entry `k` of the mesh: the corners of face `k / 6` in the order
/// first, second, third, third, fourth, first, so that each face is its two
/// triangles sharing a diagonal.
pub open spec fn cube_index(k: int) -> int {
    4 * (k / 6) + quad_offset(k % 6)
}

/// The corner offsets of one face's two triangles.
pub open spec fn quad_offset(j: int) -> int {
    if j == 0 {
        0
    } else if j == 1 {
        1
    } else if j == 2 {
        2
    } else if j == 3 {
        2
    } else if j == 4 {
        3
    } else {
        0
    }
}

/// The cube's corners as the vertex buffer wants them.
pub fn vertices() -> (v: Vec<Vertex>)
    ensures
        v@ =~= cube_vertex_table(),
{
    let mut v: Vec<Vertex> = Vec::new();
    v.push(Vertex { a_pos: [-1, -1, 1], a_uv: [0, 0], a_normal: [0, 0, 1] });
    v.push(Vertex { a_pos: [1, -1, 1], a_uv: [1, 0], a_normal: [0, 0, 1] });
    v.push(Vertex { a_pos: [1, 1, 1], a_uv: [1, 1], a_normal: [0, 0, 1] });
    v.push(Vertex { a_pos: [-1, 1, 1], a_uv: [0, 1], a_normal: [0, 0, 1] });
    v.push(Vertex { a_pos: [-1, 1, -1], a_uv: [1, 0], a_normal: [0, 0, -1] });
    v.push(Vertex { a_pos: [1, 1, -1], a_uv: [0, 0], a_normal: [0, 0, -1] });
    v.push(Vertex { a_pos: [1, -1, -1], a_uv: [0, 1], a_normal: [0, 0, -1] });
    v.push(Vertex { a_pos: [-1, -1, -1], a_uv: [1, 1], a_normal: [0, 0, -1] });
    v.push(Vertex { a_pos: [1, -1, -1], a_uv: [0, 0], a_normal: [1, 0, 0] });
    v.push(Vertex { a_pos: [1, 1, -1], a_uv: [1, 0], a_normal: [1, 0, 0] });
    v.push(Vertex { a_pos: [1, 1, 1], a_uv: [1, 1], a_normal: [1, 0, 0] });
    v.push(Vertex { a_pos: [1, -1, 1], a_uv: [0, 1], a_normal: [1, 0, 0] });
    v.push(Vertex { a_pos: [-1, -1, 1], a_uv: [1, 0], a_normal: [-1, 0, 0] });
    v.push(Vertex { a_pos: [-1, 1, 1], a_uv: [0, 0], a_normal: [-1, 0, 0] });
    v.push(Vertex { a_pos: [-1, 1, -1], a_uv: [0, 1], a_normal: [-1, 0, 0] });
    v.push(Vertex { a_pos: [-1, -1, -1], a_uv: [1, 1], a_normal: [-1, 0, 0] });
    v.push(Vertex { a_pos: [1, 1, -1], a_uv: [1, 0], a_normal: [0, 1, 0] });
    v.push(Vertex { a_pos: [-1, 1, -1], a_uv: [0, 0], a_normal: [0, 1, 0] });
    v.push(Vertex { a_pos: [-1, 1, 1], a_uv: [0, 1], a_normal: [0, 1, 0] });
    v.push(Vertex { a_pos: [1, 1, 1], a_uv: [1, 1], a_normal: [0, 1, 0] });
    v.push(Vertex { a_pos: [1, -1, 1], a_uv: [0, 0], a_normal: [0, -1, 0] });
    v.push(Vertex { a_pos: [-1, -1, 1], a_uv: [1, 0], a_normal: [0, -1, 0] });
    v.push(Vertex { a_pos: [-1, -1, -1], a_uv: [1, 1], a_normal: [0, -1, 0] });
    v.push(Vertex { a_pos: [1, -1, -1], a_uv: [0, 1], a_normal: [0, -1, 0] });
    v
}

/// The cube's index buffer: for each face in turn, its two triangles.
pub fn indices() -> (idx: Vec<u16>)
    ensures
        idx@.len() == CUBE_INDEX_COUNT,
        forall|k: int| 0 <= k < CUBE_INDEX_COUNT ==> idx@[k] == cube_index(k),
{
    let mut idx: Vec<u16> = Vec::new();
    let mut face: u16 = 0;
    while face < 6
        invariant
            face <= 6,
            idx@.len() == 6 * face,
            forall|k: int| 0 <= k < 6 * face ==> idx@[k] == cube_index(k),
        decreases 6 - face,
    {
        let base: u16 = 4 * face;
        idx.push(base);
        idx.push(base + 1);
        idx.push(base + 2);
        idx.push(base + 2);
        idx.push(base + 3);
        idx.push(base);
        proof {
            assert forall|k: int| 6 * face <= k < 6 * (face + 1) implies idx@[k]
                == cube_index(k) by {
                assert(k / 6 == face && k % 6 == k - 6 * face);
            }
        }
        face = face + 1;
    }
    idx
}

/// Every corner of the cube sits on the corner grid, its normal is a unit
/// axis, and it lies on its face's plane: the dot product of position and
/// outward normal is one.
pub proof fn lemma_cube_vertices_on_faces()
    ensures
        cube_vertex_table().len() == CUBE_VERTEX_COUNT,
        forall|i: int|
            0 <= i < CUBE_VERTEX_COUNT ==> {
                let v = #[trigger] cube_vertex_table()[i];
                v.a_pos[0] * v.a_normal[0] + v.a_pos[1] * v.a_normal[1] + v.a_pos[2]
                    * v.a_normal[2] == 1
            },
{
    assert forall|i: int| 0 <= i < CUBE_VERTEX_COUNT implies ({
        let v = #[trigger] cube_vertex_table()[i];
        v.a_pos[0] * v.a_normal[0] + v.a_pos[1] * v.a_normal[1] + v.a_pos[2] * v.a_normal[2] == 1
    }) by {
        let v = cube_vertex_table()[i];
        if i == 0 {
            lemma_unit_product(v.a_pos[0] as int, v.a_normal[0] as int);
            lemma_unit_product(v.a_pos[1] as int, v.a_normal[1] as int);
            lemma_unit_product(v.a_pos[2] as int, v.a_normal[2] as int);
        } else if i == 1 {
            lemma_unit_product(v.a_pos[0] as int, v.a_normal[0] as int);
            lemma_unit_product(v.a_pos[1] as int, v.a_normal[1] as int);
            lemma_unit_product(v.a_pos[2] as int, v.a_normal[2] as int);
        } else if i == 2 {
            lemma_unit_product(v.a_pos[0] as int, v.a_normal[0] as int);
            lemma_unit_product(v.a_pos[1] as int, v.a_normal[1] as int);
            lemma_unit_product(v.a_pos[2] as int, v.a_normal[2] as int);
        } else if i == 3 {
            lemma_unit_product(v.a_pos[0] as int, v.a_normal[0] as int);
            lemma_unit_product(v.a_pos[1] as int, v.a_normal[1] as int);
            lemma_unit_product(v.a_pos[2] as int, v.a_normal[2] as int);
        } else if i == 4 {
            lemma_unit_product(v.a_pos[0] as int, v.a_normal[0] as int);
            lemma_unit_product(v.a_pos[1] as int, v.a_normal[1] as int);
            lemma_unit_product(v.a_pos[2] as int, v.a_normal[2] as int);
        } else if i == 5 {
            lemma_unit_product(v.a_pos[0] as int, v.a_normal[0] as int);
            lemma_unit_product(v.a_pos[1] as int, v.a_normal[1] as int);
            lemma_unit_product(v.a_pos[2] as int, v.a_normal[2] as int);
        } else if i == 6 {
            lemma_unit_product(v.a_pos[0] as int, v.a_normal[0] as int);
            lemma_unit_product(v.a_pos[1] as int, v.a_normal[1] as int);
            lemma_unit_product(v.a_pos[2] as int, v.a_normal[2] as int);
        } else if i == 7 {
            lemma_unit_product(v.a_pos[0] as int, v.a_normal[0] as int);
            lemma_unit_product(v.a_pos[1] as int, v.a_normal[1] as int);
            lemma_unit_product(v.a_pos[2] as int, v.a_normal[2] as int);
        } else if i == 8 {
            lemma_unit_product(v.a_pos[0] as int, v.a_normal[0] as int);
            lemma_unit_product(v.a_pos[1] as int, v.a_normal[1] as int);
            lemma_unit_product(v.a_pos[2] as int, v.a_normal[2] as int);
        } else if i == 9 {
            lemma_unit_product(v.a_pos[0] as int, v.a_normal[0] as int);
            lemma_unit_product(v.a_pos[1] as int, v.a_normal[1] as int);
            lemma_unit_product(v.a_pos[2] as int, v.a_normal[2] as int);
        } else if i == 10 {
            lemma_unit_product(v.a_pos[0] as int, v.a_normal[0] as int);
            lemma_unit_product(v.a_pos[1] as int, v.a_normal[1] as int);
            lemma_unit_product(v.a_pos[2] as int, v.a_normal[2] as int);
        } else if i == 11 {
            lemma_unit_product(v.a_pos[0] as int, v.a_normal[0] as int);
            lemma_unit_product(v.a_pos[1] as int, v.a_normal[1] as int);
            lemma_unit_product(v.a_pos[2] as int, v.a_normal[2] as int);
        } else if i == 12 {
            lemma_unit_product(v.a_pos[0] as int, v.a_normal[0] as int);
            lemma_unit_product(v.a_pos[1] as int, v.a_normal[1] as int);
            lemma_unit_product(v.a_pos[2] as int, v.a_normal[2] as int);
        } else if i == 13 {
            lemma_unit_product(v.a_pos[0] as int, v.a_normal[0] as int);
            lemma_unit_product(v.a_pos[1] as int, v.a_normal[1] as int);
            lemma_unit_product(v.a_pos[2] as int, v.a_normal[2] as int);
        } else if i == 14 {
            lemma_unit_product(v.a_pos[0] as int, v.a_normal[0] as int);
            lemma_unit_product(v.a_pos[1] as int, v.a_normal[1] as int);
            lemma_unit_product(v.a_pos[2] as int, v.a_normal[2] as int);
        } else if i == 15 {
            lemma_unit_product(v.a_pos[0] as int, v.a_normal[0] as int);
            lemma_unit_product(v.a_pos[1] as int, v.a_normal[1] as int);
            lemma_unit_product(v.a_pos[2] as int, v.a_normal[2] as int);
        } else if i == 16 {
            lemma_unit_product(v.a_pos[0] as int, v.a_normal[0] as int);
            lemma_unit_product(v.a_pos[1] as int, v.a_normal[1] as int);
            lemma_unit_product(v.a_pos[2] as int, v.a_normal[2] as int);
        } else if i == 17 {
            lemma_unit_product(v.a_pos[0] as int, v.a_normal[0] as int);
            lemma_unit_product(v.a_pos[1] as int, v.a_normal[1] as int);
            lemma_unit_product(v.a_pos[2] as int, v.a_normal[2] as int);
        } else if i == 18 {
            lemma_unit_product(v.a_pos[0] as int, v.a_normal[0] as int);
            lemma_unit_product(v.a_pos[1] as int, v.a_normal[1] as int);
            lemma_unit_product(v.a_pos[2] as int, v.a_normal[2] as int);
        } else if i == 19 {
            lemma_unit_product(v.a_pos[0] as int, v.a_normal[0] as int);
            lemma_unit_product(v.a_pos[1] as int, v.a_normal[1] as int);
            lemma_unit_product(v.a_pos[2] as int, v.a_normal[2] as int);
        } else if i == 20 {
            lemma_unit_product(v.a_pos[0] as int, v.a_normal[0] as int);
            lemma_unit_product(v.a_pos[1] as int, v.a_normal[1] as int);
            lemma_unit_product(v.a_pos[2] as int, v.a_normal[2] as int);
        } else if i == 21 {
            lemma_unit_product(v.a_pos[0] as int, v.a_normal[0] as int);
            lemma_unit_product(v.a_pos[1] as int, v.a_normal[1] as int);
            lemma_unit_product(v.a_pos[2] as int, v.a_normal[2] as int);
        } else if i == 22 {
            lemma_unit_product(v.a_pos[0] as int, v.a_normal[0] as int);
            lemma_unit_product(v.a_pos[1] as int, v.a_normal[1] as int);
            lemma_unit_product(v.a_pos[2] as int, v.a_normal[2] as int);
        } else if i == 23 {
            lemma_unit_product(v.a_pos[0] as int, v.a_normal[0] as int);
            lemma_unit_product(v.a_pos[1] as int, v.a_normal[1] as int);
            lemma_unit_product(v.a_pos[2] as int, v.a_normal[2] as int);
        } else {
        }
    }
}

/// The product of two factors that are each minus one, zero or one.
proof fn lemma_unit_product(a: int, b: int)
    requires
        -1 <= a <= 1,
        -1 <= b <= 1,
    ensures
        a * b == (if a == 0 || b == 0 {
            0int
        } else if a == b {
            1int
        } else {
            -1int
        }),
{
    assert(a * b == (if a == 0 || b == 0 {
        0int
    } else if a == b {
        1int
    } else {
        -1int
    })) by (nonlinear_arith)
        requires
            -1 <= a <= 1,
            -1 <= b <= 1,
    ;
}

/// Every index entry points at a corner of the mesh, and the corners of one
/// face's two triangles all carry that face's normal.
pub proof fn lemma_cube_indices_in_mesh()
    ensures
        forall|k: int| 0 <= k < CUBE_INDEX_COUNT ==> 0 <= #[trigger] cube_index(k) < CUBE_VERTEX_COUNT,
        forall|k: int|
            0 <= k < CUBE_INDEX_COUNT ==> cube_vertex_table()[#[trigger] cube_index(k)].a_normal
                =~= cube_vertex_table()[4 * (k / 6)].a_normal,
{
    assert forall|k: int| 0 <= k < CUBE_INDEX_COUNT implies 0 <= #[trigger] cube_index(k)
        < CUBE_VERTEX_COUNT by {
        assert(0 <= k / 6 < 6);
        assert(0 <= quad_offset(k % 6) <= 3);
    }
    assert forall|k: int|
        0 <= k < CUBE_INDEX_COUNT implies cube_vertex_table()[#[trigger] cube_index(k)].a_normal
        =~= cube_vertex_table()[4 * (k / 6)].a_normal by {
        assert(0 <= k / 6 < 6);
        assert(0 <= quad_offset(k % 6) <= 3);
    }
}

} // verus!
