use base64::Engine;
use zmc_core::bitmap::{color_for_depth, Bitmap, Rgba};
use zmc_core::image::{image_data_url, png_data_url, ImageError};

const CLEAR: Rgba = Rgba { r: 255, g: 255, b: 255, a: 0 };
const SURFACE: Rgba = Rgba { r: 216, g: 38, b: 38, a: 255 };

fn decode(url: &str) -> (u32, u32, Vec<u8>) {
    let prefix = "data:image/png;base64,";
    assert!(url.starts_with(prefix));
    let stream = base64::engine::general_purpose::STANDARD.decode(&url[prefix.len()..]).unwrap();
    let decoder = png::Decoder::new(stream.as_slice());
    let mut reader = decoder.read_info().unwrap();
    let mut buffer = vec![0; reader.output_buffer_size()];
    let info = reader.next_frame(&mut buffer).unwrap();
    assert_eq!(info.color_type, png::ColorType::Rgba);
    assert_eq!(info.bit_depth, png::BitDepth::Eight);
    buffer.truncate(info.buffer_size());
    (info.width, info.height, buffer)
}

fn pixels(bitmap: &Bitmap) -> Vec<Option<Rgba>> {
    let mut all = Vec::new();
    for row in 0..bitmap.height() {
        for column in 0..bitmap.width() {
            all.push(bitmap.pixel(column, row));
        }
    }
    all
}

#[test]
fn new_bitmap_is_transparent() {
    let bitmap = Bitmap::new(4, 3, 4_000_000);
    assert_eq!(bitmap.width(), 4);
    assert_eq!(bitmap.height(), 3);
    assert_eq!(bitmap.scale(), 4_000_000);
    assert_eq!(bitmap.origin(), (2, 1));
    assert_eq!(bitmap.pixel(0, 0), Some(CLEAR));
    for row in 0..3 {
        for column in 0..4 {
            if (column, row) != (0, 0) {
                assert_eq!(bitmap.pixel(column, row), Some(Rgba { r: 0, g: 0, b: 0, a: 0 }));
            }
        }
    }
    assert_eq!(bitmap.pixel(4, 0), None);
    assert_eq!(bitmap.pixel(0, 3), None);
}

#[test]
fn empty_bitmap_has_no_pixels() {
    let mut bitmap = Bitmap::new(0, 7, 4_000_000);
    assert_eq!(bitmap.pixel(0, 0), None);
    bitmap.set_pixel(0, 0, 0);
    bitmap.clear();
    assert_eq!(bitmap.to_data_url(), Err(ImageError::Dimensions));
    let bitmap = Bitmap::new(7, 0, 4_000_000);
    assert_eq!(bitmap.to_data_url(), Err(ImageError::Dimensions));
}

#[test]
fn set_pixel_maps_machine_coordinates_to_pixels() {
    let mut bitmap = Bitmap::new(100, 80, 4_000_000);
    bitmap.clear();
    bitmap.set_pixel(0, 0, 0);
    assert_eq!(bitmap.pixel(50, 40), Some(SURFACE));
    bitmap.set_pixel(10_000_000, 5_000_000, 0);
    assert_eq!(bitmap.pixel(90, 20), Some(SURFACE));
    bitmap.set_pixel(-12_500_000, -9_750_000, 0);
    assert_eq!(bitmap.pixel(0, 79), Some(SURFACE));
    let drawn = pixels(&bitmap).iter().filter(|p| **p != Some(CLEAR)).count();
    assert_eq!(drawn, 3);
}

#[test]
fn set_pixel_rounds_down_to_the_pixel() {
    let mut bitmap = Bitmap::new(10, 10, 4_000_000);
    bitmap.clear();
    bitmap.set_pixel(249_999, 0, 0);
    assert_eq!(bitmap.pixel(5, 5), Some(SURFACE));
    bitmap.clear();
    bitmap.set_pixel(250_000, 0, 0);
    assert_eq!(bitmap.pixel(6, 5), Some(SURFACE));
    bitmap.clear();
    bitmap.set_pixel(-1, 0, 0);
    assert_eq!(bitmap.pixel(4, 5), Some(SURFACE));
    bitmap.clear();
    bitmap.set_pixel(0, 1, 0);
    assert_eq!(bitmap.pixel(5, 4), Some(SURFACE));
    bitmap.clear();
    bitmap.set_pixel(0, -249_999, 0);
    assert_eq!(bitmap.pixel(5, 5), Some(SURFACE));
    bitmap.clear();
    bitmap.set_pixel(0, -250_001, 0);
    assert_eq!(bitmap.pixel(5, 6), Some(SURFACE));
}

#[test]
fn set_pixel_outside_leaves_raster_unchanged() {
    let mut bitmap = Bitmap::new(20, 10, 4_000_000);
    bitmap.clear();
    bitmap.set_pixel(1_000_000, 1_000_000, -1_000_000);
    let before = pixels(&bitmap);
    bitmap.set_pixel(2_500_000, 0, 0);
    bitmap.set_pixel(-2_500_001, 0, 0);
    bitmap.set_pixel(0, 1_250_001, 0);
    bitmap.set_pixel(0, -1_250_000, 0);
    bitmap.set_pixel(i64::MAX, i64::MAX, i64::MIN);
    bitmap.set_pixel(i64::MIN, i64::MIN, i64::MAX);
    bitmap.set_pixel(i64::MAX, 0, 0);
    bitmap.set_pixel(0, i64::MIN, 0);
    assert_eq!(pixels(&bitmap), before);
}

#[test]
fn set_pixel_on_the_edges_is_inside() {
    let mut bitmap = Bitmap::new(20, 10, 4_000_000);
    bitmap.clear();
    bitmap.set_pixel(-2_500_000, 1_250_000, 0);
    assert_eq!(bitmap.pixel(0, 0), Some(SURFACE));
    bitmap.set_pixel(2_499_999, -1_249_999, 0);
    assert_eq!(bitmap.pixel(19, 9), Some(SURFACE));
}

#[test]
fn depth_colors() {
    assert_eq!(color_for_depth(0), SURFACE);
    assert_eq!(color_for_depth(5_000_000), SURFACE);
    assert_eq!(color_for_depth(i64::MAX), SURFACE);
    assert_eq!(color_for_depth(-1_000_000), Rgba { r: 127, g: 216, b: 38, a: 255 });
    assert_eq!(color_for_depth(-2_000_000), Rgba { r: 38, g: 216, b: 216, a: 255 });
    assert_eq!(color_for_depth(-3_000_000), Rgba { r: 127, g: 38, b: 216, a: 255 });
    assert_eq!(color_for_depth(-4_000_000), Rgba { r: 216, g: 38, b: 38, a: 255 });
    assert_eq!(color_for_depth(-9_000_000), Rgba { r: 216, g: 38, b: 38, a: 255 });
    assert_eq!(color_for_depth(i64::MIN), Rgba { r: 216, g: 38, b: 38, a: 255 });
    assert_eq!(color_for_depth(-3_500_000), Rgba { r: 216, g: 38, b: 172, a: 255 });
}

#[test]
fn deeper_points_have_distinct_colors() {
    let mut seen = Vec::new();
    for step in 0..8 {
        let color = color_for_depth(-(step * 500_000));
        assert_eq!(color.a, 255);
        assert!(!seen.contains(&color));
        seen.push(color);
    }
}

#[test]
fn clear_makes_every_pixel_transparent_white() {
    let mut bitmap = Bitmap::new(6, 5, 1_000_000);
    bitmap.set_pixel(0, 0, -1_000_000);
    bitmap.set_pixel(1_000_000, 1_000_000, 0);
    bitmap.update_pos(1_000_000, 0);
    bitmap.clear();
    assert!(pixels(&bitmap).iter().all(|p| *p == Some(CLEAR)));
    assert_eq!(bitmap.width(), 6);
    assert_eq!(bitmap.height(), 5);
    assert_eq!(bitmap.scale(), 1_000_000);
    assert_eq!(bitmap.origin(), (4, 2));
}

#[test]
fn cleared_bitmap_encodes_to_transparent_image_of_its_size() {
    let mut bitmap = Bitmap::new(40, 30, 4_000_000);
    bitmap.set_pixel(0, 0, 0);
    bitmap.clear();
    let url = bitmap.to_data_url().unwrap();
    let (width, height, data) = decode(&url);
    assert_eq!((width, height), (40, 30));
    assert_eq!(data.len(), 40 * 30 * 4);
    for pixel in data.chunks(4) {
        assert_eq!(pixel, &[255, 255, 255, 0]);
    }
}

#[test]
fn encoded_image_holds_the_plotted_pixels() {
    let mut bitmap = Bitmap::new(8, 8, 1_000_000);
    bitmap.clear();
    bitmap.set_pixel(1_000_000, 2_000_000, -1_000_000);
    let (width, height, data) = decode(&bitmap.to_data_url().unwrap());
    assert_eq!((width, height), (8, 8));
    for row in 0..8usize {
        for column in 0..8usize {
            let at = (row * 8 + column) * 4;
            let expected: [u8; 4] = if (column, row) == (5, 2) {
                [127, 216, 38, 255]
            } else {
                [255, 255, 255, 0]
            };
            assert_eq!(&data[at..at + 4], &expected);
        }
    }
}

#[test]
fn encoding_twice_gives_the_same_text() {
    let mut bitmap = Bitmap::new(16, 16, 4_000_000);
    bitmap.set_pixel(0, 0, -2_000_000);
    assert_eq!(bitmap.to_data_url().unwrap(), bitmap.to_data_url().unwrap());
}

#[test]
fn data_url_wraps_the_stream_in_base64() {
    let stream = vec![0u8, 1, 2, 250, 251, 252, 253];
    let url = png_data_url(&stream).unwrap();
    assert_eq!(url, "data:image/png;base64,AAEC+vv8/Q==");
    assert_eq!(png_data_url(&Vec::new()).unwrap(), "data:image/png;base64,");
}

#[test]
fn image_of_raw_pixels() {
    let data = vec![1u8, 2, 3, 4, 5, 6, 7, 8];
    let url = image_data_url(2, 1, &data).unwrap();
    let (width, height, decoded) = decode(&url);
    assert_eq!((width, height), (2, 1));
    assert_eq!(decoded, data);
    assert_eq!(image_data_url(0, 0, &Vec::new()), Err(ImageError::Dimensions));
}

#[test]
fn merge_copies_pixels_that_are_not_transparent() {
    let mut under = Bitmap::new(4, 4, 1_000_000);
    under.clear();
    under.set_pixel(0, 0, 0);
    let mut over = Bitmap::new(4, 4, 1_000_000);
    over.clear();
    over.set_pixel(1_000_000, 0, -1_000_000);
    over.set_pixel(0, 0, -2_000_000);
    under.merge(&over);
    assert_eq!(under.pixel(3, 2), Some(Rgba { r: 127, g: 216, b: 38, a: 255 }));
    assert_eq!(under.pixel(2, 2), Some(Rgba { r: 38, g: 216, b: 216, a: 255 }));
    let drawn = pixels(&under).iter().filter(|p| **p != Some(CLEAR)).count();
    assert_eq!(drawn, 2);
}

#[test]
fn merge_keeps_pixels_under_transparent_ones() {
    let mut under = Bitmap::new(4, 4, 1_000_000);
    under.clear();
    under.set_pixel(0, 0, 0);
    let mut over = Bitmap::new(4, 4, 1_000_000);
    over.clear();
    under.merge(&over);
    assert_eq!(under.pixel(2, 2), Some(SURFACE));
}

#[test]
fn merge_of_different_sizes_changes_nothing() {
    let mut under = Bitmap::new(4, 4, 1_000_000);
    under.clear();
    let before = pixels(&under);
    let mut over = Bitmap::new(4, 5, 1_000_000);
    over.set_pixel(0, 0, 0);
    under.merge(&over);
    assert_eq!(pixels(&under), before);
}

#[test]
fn update_pos_moves_the_origin() {
    let mut bitmap = Bitmap::new(100, 81, 4_000_000);
    bitmap.update_pos(0, 0);
    assert_eq!(bitmap.origin(), (50, 40));
    bitmap.update_pos(2_500_000, -1_000_000);
    assert_eq!(bitmap.origin(), (60, 36));
    bitmap.update_pos(2_625_000, 125_000);
    assert_eq!(bitmap.origin(), (60, 41));
    bitmap.update_pos(-100_000_000, -100_000_000);
    assert_eq!(bitmap.origin(), (0, 0));
    bitmap.update_pos(i64::MAX, i64::MIN);
    assert_eq!(bitmap.origin().1, 0);
    assert!(bitmap.origin().0 > 1_000_000_000);
}

#[test]
fn cleared_raster_of_four_by_three_encodes_to_its_image() {
    let mut bitmap = Bitmap::new(4, 3, 1_000_000);
    bitmap.set_pixel(0, 0, 0);
    bitmap.clear();
    let url = bitmap.to_data_url().unwrap();
    let (width, height, data) = decode(&url);
    assert_eq!((width, height), (4, 3));
    assert_eq!(data.len(), 48);
    for pixel in data.chunks(4) {
        assert_eq!(pixel, &[255, 255, 255, 0]);
    }
}

#[test]
fn points_at_different_depths_differ_in_hue_alone() {
    let mut bitmap = Bitmap::new(800, 800, 4_000_000);
    bitmap.clear();
    bitmap.set_pixel(0, 0, 0);
    bitmap.set_pixel(1_000_000, 0, -2_000_000);
    let surface = bitmap.pixel(400, 400).unwrap();
    let deep = bitmap.pixel(404, 400).unwrap();
    assert_eq!((surface.a, deep.a), (255, 255));
    assert_ne!(surface, deep);
    for color in [surface, deep] {
        let high = color.r.max(color.g).max(color.b);
        let low = color.r.min(color.g).min(color.b);
        assert_eq!((high, low), (216, 38));
    }
}
