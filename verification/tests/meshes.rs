use modelers::shapes::base_line;
use modelers::shapes::cube;

#[test]
fn the_cube_has_six_faces_of_four_corners() {
    let vertices = cube::polygon::vertices();
    assert_eq!(vertices.len(), 24);
    // Every corner sits on the corner grid and on its face's plane.
    for v in &vertices {
        for c in v.a_pos {
            assert!(c == -1 || c == 1);
        }
        let dot: i32 = (0..3)
            .map(|j| v.a_pos[j] as i32 * v.a_normal[j] as i32)
            .sum();
        assert_eq!(dot, 1);
    }
    // The first face looks along positive z.
    assert_eq!(vertices[0].a_pos, [-1, -1, 1]);
    assert_eq!(vertices[0].a_uv, [0, 0]);
    assert_eq!(vertices[0].a_normal, [0, 0, 1]);
    // The last face looks along negative y.
    assert_eq!(vertices[23].a_pos, [1, -1, -1]);
    assert_eq!(vertices[23].a_uv, [0, 1]);
    assert_eq!(vertices[23].a_normal, [0, -1, 0]);
}

#[test]
fn the_cube_indices_draw_two_triangles_per_face() {
    let indices = cube::polygon::indices();
    let expected: Vec<u16> = vec![
        0, 1, 2, 2, 3, 0, //
        4, 5, 6, 6, 7, 4, //
        8, 9, 10, 10, 11, 8, //
        12, 13, 14, 14, 15, 12, //
        16, 17, 18, 18, 19, 16, //
        20, 21, 22, 22, 23, 20,
    ];
    assert_eq!(indices, expected);
}

#[test]
fn every_cube_index_points_at_a_corner_of_its_face() {
    let vertices = cube::polygon::vertices();
    let indices = cube::polygon::indices();
    for (k, &i) in indices.iter().enumerate() {
        assert!((i as usize) < vertices.len());
        let face_first = 4 * (k / 6);
        assert_eq!(vertices[i as usize].a_normal, vertices[face_first].a_normal);
    }
}

#[test]
fn the_axis_lines_run_from_the_units_to_the_origin() {
    let vertices = base_line::polygon::vertices();
    assert_eq!(vertices.len(), 6);
    for axis in 0..3 {
        let tip = &vertices[2 * axis];
        let root = &vertices[2 * axis + 1];
        assert_eq!(tip.a_position[axis], 1);
        for c in 0..3 {
            if c != axis {
                assert_eq!(tip.a_position[c], 0);
            }
            assert_eq!(root.a_position[c], 0);
        }
        assert_eq!(tip.a_color, root.a_color);
    }
    // The first axis is red, the second blue, the third green.
    assert_eq!(vertices[0].a_color, [1, 0, 0]);
    assert_eq!(vertices[2].a_color, [0, 0, 1]);
    assert_eq!(vertices[4].a_color, [0, 1, 0]);
}

#[test]
fn the_axis_line_indices_are_in_order() {
    assert_eq!(base_line::polygon::indices(), vec![0, 1, 2, 3, 4, 5]);
}
