use modelers::shapes::cube::{cube_texture_from_png, TexelFormat, TextureError};

fn encode_png(width: u32, height: u32, color: png::ColorType, depth: png::BitDepth, data: &[u8]) -> Vec<u8> {
    let mut bytes: Vec<u8> = Vec::new();
    {
        let mut encoder = png::Encoder::new(&mut bytes, width, height);
        encoder.set_color(color);
        encoder.set_depth(depth);
        let mut writer = encoder.write_header().unwrap();
        writer.write_image_data(data).unwrap();
    }
    bytes
}

#[test]
fn an_eight_bit_rgba_image_comes_back_as_its_pixels() {
    let pixels: Vec<u8> = vec![
        255, 0, 0, 255, //
        0, 255, 0, 255, //
        0, 0, 255, 255, //
        10, 20, 30, 40,
    ];
    let bytes = encode_png(2, 2, png::ColorType::Rgba, png::BitDepth::Eight, &pixels);
    let texture = cube_texture_from_png(&bytes).unwrap();
    assert_eq!(texture.width, 2);
    assert_eq!(texture.height, 2);
    assert_eq!(texture.format, TexelFormat::Rgba8);
    assert_eq!(texture.texels, pixels);
}

#[test]
fn a_sixteen_bit_rgba_image_is_taken_too() {
    let pixels: Vec<u8> = vec![1, 2, 3, 4, 5, 6, 7, 8];
    let bytes = encode_png(1, 1, png::ColorType::Rgba, png::BitDepth::Sixteen, &pixels);
    let texture = cube_texture_from_png(&bytes).unwrap();
    assert_eq!(texture.width, 1);
    assert_eq!(texture.height, 1);
    assert_eq!(texture.format, TexelFormat::Rgba16);
    assert_eq!(texture.texels, pixels);
}

#[test]
fn an_image_without_alpha_is_refused() {
    let pixels: Vec<u8> = vec![255, 0, 0];
    let bytes = encode_png(1, 1, png::ColorType::Rgb, png::BitDepth::Eight, &pixels);
    assert_eq!(cube_texture_from_png(&bytes).unwrap_err(), TextureError::Format);
}

#[test]
fn a_grayscale_image_is_refused() {
    let pixels: Vec<u8> = vec![128];
    let bytes = encode_png(1, 1, png::ColorType::Grayscale, png::BitDepth::Eight, &pixels);
    assert_eq!(cube_texture_from_png(&bytes).unwrap_err(), TextureError::Format);
}

#[test]
fn bytes_that_are_no_image_are_refused() {
    let bytes: Vec<u8> = vec![1, 2, 3, 4, 5, 6, 7, 8];
    assert_eq!(cube_texture_from_png(&bytes).unwrap_err(), TextureError::Decode);
    assert_eq!(cube_texture_from_png(&[]).unwrap_err(), TextureError::Decode);
}
