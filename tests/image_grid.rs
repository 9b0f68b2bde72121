use raytracer::image_handler::Image;

#[test]
fn new_image_is_filled() {
    let img = Image::new(3, 2, 7u8, false);
    assert_eq!(img.width(), 3);
    assert_eq!(img.height(), 2);
    assert!(!img.to_srgb());
    for y in 0..2 {
        for x in 0..3 {
            assert_eq!(img.get_pixel(x, y), 7);
        }
    }
}

#[test]
fn set_pixel_changes_only_its_cell() {
    let mut img = Image::new(4, 3, (0u32, 0u32), true);
    img.set_pixel(2, 1, (9, 8));
    assert!(img.to_srgb());
    for y in 0..3 {
        for x in 0..4 {
            let expected = if x == 2 && y == 1 { (9, 8) } else { (0, 0) };
            assert_eq!(img.get_pixel(x, y), expected);
        }
    }
}

#[test]
fn validate_coordinates_checks_both_axes() {
    let img = Image::new(4, 3, 0u8, false);
    assert!(img.validate_coordinates(0, 0));
    assert!(img.validate_coordinates(3, 2));
    assert!(!img.validate_coordinates(4, 0));
    assert!(!img.validate_coordinates(0, 3));
    assert!(!img.validate_coordinates(u32::MAX, u32::MAX));
}

#[test]
fn enumerate_pixels_walks_rows_top_down() {
    let img = Image::new(3, 2, 0u8, false);
    let coords = img.enumerate_pixels();
    assert_eq!(coords, vec![(0, 0), (1, 0), (2, 0), (0, 1), (1, 1), (2, 1)]);
}

#[test]
fn two_by_one_image_has_two_pixels_in_one_row() {
    let img = Image::new(2, 1, 0u8, false);
    assert_eq!(img.enumerate_pixels(), vec![(0, 0), (1, 0)]);
}

#[test]
fn empty_image_has_no_pixels() {
    let img = Image::new(0, 5, [1u8, 2, 3], false);
    assert!(img.enumerate_pixels().is_empty());
    assert!(!img.validate_coordinates(0, 0));
    assert!(img.to_rgb8_buffer().is_empty());
}

#[test]
fn rgb8_buffer_packs_channels_row_major() {
    let mut img = Image::new(2, 2, [0u8, 0, 0], false);
    img.set_pixel(1, 0, [10, 20, 30]);
    img.set_pixel(0, 1, [255, 128, 1]);
    assert_eq!(
        img.to_rgb8_buffer(),
        vec![0, 0, 0, 10, 20, 30, 255, 128, 1, 0, 0, 0]
    );
}
