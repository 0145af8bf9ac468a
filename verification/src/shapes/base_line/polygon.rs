//! The axis-line mesh.
//!
//! Three line segments mark the coordinate axes: each runs from the origin to
//! the unit point of one axis, and both of its endpoints carry that axis's
//! colour.  Everything sits on the integer grid; the renderer's
//! floating-point attributes are the caller's to make.

use vstd::prelude::*;

verus! {

/// One endpoint of an axis line: its position and its line's colour, each a
/// triple on the unit grid.
pub struct Vertex {
    pub a_position: [i8; 3],
    pub a_color: [i8; 3],
}

/// Endpoints in the mesh: three lines of two.
pub const LINE_VERTEX_COUNT: usize = 6;

/// The axis lines' endpoints: for each axis its unit point, then the origin.
/// The first axis is drawn red, the second blue, the third green.
pub open spec fn line_vertex_table() -> Seq<Vertex> {
    seq![
        Vertex { a_position: [1i8, 0i8, 0i8], a_color: [1i8, 0i8, 0i8] },
        Vertex { a_position: [0i8, 0i8, 0i8], a_color: [1i8, 0i8, 0i8] },
        Vertex { a_position: [0i8, 1i8, 0i8], a_color: [0i8, 0i8, 1i8] },
        Vertex { a_position: [0i8, 0i8, 0i8], a_color: [0i8, 0i8, 1i8] },
        Vertex { a_position: [0i8, 0i8, 1i8], a_color: [0i8, 1i8, 0i8] },
        Vertex { a_position: [0i8, 0i8, 0i8], a_color: [0i8, 1i8, 0i8] },
    ]
}

/// The axis lines' endpoints as the vertex buffer wants them.
pub fn vertices() -> (v: Vec<Vertex>)
    ensures
        v@ =~= line_vertex_table(),
{
    let mut v: Vec<Vertex> = Vec::new();
    v.push(Vertex { a_position: [1, 0, 0], a_color: [1, 0, 0] });
    v.push(Vertex { a_position: [0, 0, 0], a_color: [1, 0, 0] });
    v.push(Vertex { a_position: [0, 1, 0], a_color: [0, 0, 1] });
    v.push(Vertex { a_position: [0, 0, 0], a_color: [0, 0, 1] });
    v.push(Vertex { a_position: [0, 0, 1], a_color: [0, 1, 0] });
    v.push(Vertex { a_position: [0, 0, 0], a_color: [0, 1, 0] });
    v
}

/// The axis lines' index buffer: the endpoints in the order they stand.
pub fn indices() -> (idx: Vec<u16>)
    ensures
        idx@.len() == LINE_VERTEX_COUNT,
        forall|k: int| 0 <= k < LINE_VERTEX_COUNT ==> idx@[k] == k,
{
    let mut idx: Vec<u16> = Vec::new();
    idx.push(0);
    idx.push(1);
    idx.push(2);
    idx.push(3);
    idx.push(4);
    idx.push(5);
    idx
}

/// Each line of the mesh runs from the unit point of its own axis to the
/// origin, and both endpoints carry one colour.
pub proof fn lemma_lines_mark_the_axes()
    ensures
        line_vertex_table().len() == LINE_VERTEX_COUNT,
        forall|a: int|
            0 <= a < 3 ==> #[trigger] line_vertex_table()[2 * a].a_position[a] == 1,
        forall|a: int, c: int|
            0 <= a < 3 && 0 <= c < 3 && c != a ==> #[trigger] line_vertex_table()[2
                * a].a_position[c] == 0,
        forall|a: int, c: int|
            0 <= a < 3 && 0 <= c < 3 ==> #[trigger] line_vertex_table()[2 * a + 1].a_position[c]
                == 0,
        forall|a: int|
            0 <= a < 3 ==> #[trigger] line_vertex_table()[2 * a].a_color =~= line_vertex_table()[2
                * a + 1].a_color,
{
}

} // verus!
