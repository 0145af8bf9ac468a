use modelers::render_config::create_texels;

#[test]
fn the_smallest_grid_has_its_exact_counts() {
    // The two columns sit at -2 and 1, the two rows at -1 and 1.  The
    // left-hand points start outside the escape radius; the right-hand
    // points leave after one iteration.
    assert_eq!(create_texels(2), vec![0, 1, 0, 1]);
}

#[test]
fn a_point_inside_the_set_saturates() {
    // In a three-by-three grid the middle pixel is c = (-1/2, 0), which
    // never escapes, so its count saturates at the iteration cap.
    let texels = create_texels(3);
    assert_eq!(texels.len(), 9);
    assert_eq!(texels[4], 255);
    assert_eq!(texels[0], 0);
}

#[test]
fn the_texture_is_one_byte_per_texel() {
    let texels = create_texels(256);
    assert_eq!(texels.len(), 256 * 256);
    // The top-left corner is c = (-2, -1), already outside the radius.
    assert_eq!(texels[0], 0);
}

#[test]
fn counts_grow_toward_the_set_boundary() {
    let texels = create_texels(64);
    // The row through the real axis crosses the set itself, where counts
    // saturate.
    let mid_row = 32usize;
    let row = &texels[mid_row * 64..(mid_row + 1) * 64];
    assert!(row.iter().any(|&t| t == 255));
    assert!(row.iter().any(|&t| t == 0));
}

#[test]
fn the_cube_fallback_texture_matches() {
    assert_eq!(modelers::shapes::cube::create_texels(2), create_texels(2));
    assert_eq!(
        modelers::shapes::cube::create_texels(16),
        create_texels(16)
    );
}
