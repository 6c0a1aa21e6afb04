use bevy::render::render_resource::{TextureDimension, TextureFormat};
use flycam_scene::texture::{
    uv_debug_texture, uv_debug_texture_data, PIXEL_BYTES, ROW_BYTES, TEXTURE_BYTES, TEXTURE_SIZE,
};

const FIRST_ROW: [u8; 32] = [
    255, 102, 159, 255, 255, 159, 102, 255, 236, 255, 102, 255, 121, 255, 102, 255, 102, 255, 198,
    255, 102, 198, 255, 255, 121, 102, 255, 255, 236, 102, 255, 255,
];

#[test]
fn texture_has_one_rgba_pixel_per_cell() {
    let data = uv_debug_texture_data();
    assert_eq!(data.len(), TEXTURE_BYTES);
    assert_eq!(TEXTURE_SIZE * TEXTURE_SIZE * PIXEL_BYTES, 256);
    assert_eq!(ROW_BYTES, 32);
}

#[test]
fn first_row_is_the_palette() {
    let data = uv_debug_texture_data();
    assert_eq!(&data[0..32], &FIRST_ROW[..]);
}

#[test]
fn each_row_is_the_row_above_turned_one_pixel_right() {
    let data = uv_debug_texture_data();
    for y in 1..TEXTURE_SIZE {
        let above = &data[(y - 1) * ROW_BYTES..y * ROW_BYTES];
        let row = &data[y * ROW_BYTES..(y + 1) * ROW_BYTES];
        assert_eq!(&row[4..], &above[..28]);
        assert_eq!(&row[..4], &above[28..]);
    }
}

#[test]
fn second_row_starts_with_the_last_color() {
    let data = uv_debug_texture_data();
    assert_eq!(&data[32..36], &[236, 102, 255, 255]);
    assert_eq!(&data[36..40], &[255, 102, 159, 255]);
}

#[test]
fn last_row_and_last_pixel() {
    let data = uv_debug_texture_data();
    // Row 7 is the first row turned seven pixels: it starts with the second color.
    assert_eq!(&data[224..228], &[255, 159, 102, 255]);
    assert_eq!(&data[252..256], &[255, 102, 159, 255]);
}

#[test]
fn diagonal_repeats_the_first_color() {
    let data = uv_debug_texture_data();
    for d in 0..TEXTURE_SIZE {
        let at = d * ROW_BYTES + d * PIXEL_BYTES;
        assert_eq!(&data[at..at + 4], &[255, 102, 159, 255]);
    }
}

#[test]
fn every_pixel_is_opaque() {
    let data = uv_debug_texture_data();
    for pixel in data.chunks(4) {
        assert_eq!(pixel[3], 255);
    }
}

#[test]
fn texture_image_holds_the_pattern() {
    let image = uv_debug_texture();
    assert_eq!(image.data, uv_debug_texture_data());
    assert_eq!(image.texture_descriptor.size.width, 8);
    assert_eq!(image.texture_descriptor.size.height, 8);
    assert_eq!(image.texture_descriptor.size.depth_or_array_layers, 1);
    assert_eq!(image.texture_descriptor.dimension, TextureDimension::D2);
    assert_eq!(image.texture_descriptor.format, TextureFormat::Rgba8UnormSrgb);
}
