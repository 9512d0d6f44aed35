use wgpu_cube::texture::{image_data_layout, ImageDataLayout, BYTES_PER_PIXEL};

#[test]
fn layout_of_a_small_image() {
    let pixels = vec![0u8; 2 * 3 * 4];
    assert_eq!(
        image_data_layout(2, 3, &pixels),
        Some(ImageDataLayout { offset: 0, bytes_per_row: 8, rows_per_image: 3 })
    );
    assert_eq!(BYTES_PER_PIXEL, 4);
}

#[test]
fn layout_of_a_single_pixel() {
    assert_eq!(
        image_data_layout(1, 1, &[255, 0, 0, 255]),
        Some(ImageDataLayout { offset: 0, bytes_per_row: 4, rows_per_image: 1 })
    );
}

#[test]
fn image_with_a_wrong_length_has_no_layout() {
    let pixels = vec![0u8; 23];
    assert_eq!(image_data_layout(2, 3, &pixels), None);
    let pixels = vec![0u8; 25];
    assert_eq!(image_data_layout(2, 3, &pixels), None);
    assert_eq!(image_data_layout(2, 3, &[]), None);
}

#[test]
fn image_without_area_has_no_layout() {
    assert_eq!(image_data_layout(0, 3, &[]), None);
    assert_eq!(image_data_layout(2, 0, &[]), None);
    assert_eq!(image_data_layout(0, 0, &[]), None);
}

#[test]
fn image_with_too_long_a_row_has_no_layout() {
    assert_eq!(image_data_layout(0x4000_0000, 1, &[]), None);
    assert_eq!(image_data_layout(u32::MAX, 1, &[0, 0, 0, 0]), None);
}
