use image_bridge::get_image_info;
use image_bridge::image_dimensions;
use image_bridge::image_from_bytes;
use image_bridge::image_to_bytes;
use image_bridge::is_image_empty;
use image_bridge::rotate90;
use image_bridge::rotate_image_90;
use image_bridge::try_image_from_bytes;
use image_bridge::ImageInfo;

#[test]
fn round_trip_gray() {
    let pixels: Vec<u8> = vec![10, 20, 30, 40, 50, 60];
    let img = image_from_bytes(pixels.clone(), 3, 2, 1);
    assert_eq!(image_to_bytes(&img), pixels);
}

#[test]
fn round_trip_rgb() {
    let pixels: Vec<u8> = vec![255, 0, 0, 0, 255, 0, 0, 0, 255, 9, 9, 9];
    let img = image_from_bytes(pixels.clone(), 2, 2, 3);
    assert_eq!(image_to_bytes(&img), pixels);
}

#[test]
fn round_trip_rgba() {
    let pixels: Vec<u8> = vec![1, 2, 3, 4, 5, 6, 7, 8];
    let img = image_from_bytes(pixels.clone(), 2, 1, 4);
    assert_eq!(image_to_bytes(&img), pixels);
}

#[test]
fn zero_width_gives_empty() {
    // The pixel bytes and channel count play no part when a dimension is zero.
    let img = image_from_bytes(vec![1, 2, 3], 0, 7, 99);
    assert!(is_image_empty(&img));
    assert!(img.is_empty());
    assert_eq!(image_to_bytes(&img), Vec::<u8>::new());
}

#[test]
fn zero_height_gives_empty() {
    let img = image_from_bytes(vec![4, 5], 7, 0, 2);
    assert!(is_image_empty(&img));
    assert_eq!(image_to_bytes(&img), Vec::<u8>::new());
}

#[test]
fn nonempty_image_is_not_empty() {
    let img = image_from_bytes(vec![1], 1, 1, 1);
    assert!(!is_image_empty(&img));
    assert!(!img.is_empty());
}

#[test]
fn rotate_twice_is_180() {
    // 3 wide, 2 tall, one channel:
    //   1 2 3
    //   4 5 6
    let pixels: Vec<u8> = vec![1, 2, 3, 4, 5, 6];
    let img = image_from_bytes(pixels, 3, 2, 1);
    let once = rotate90(&img);
    assert_eq!(image_dimensions(&once), (2, 3));
    assert_eq!(image_to_bytes(&once), vec![4, 1, 5, 2, 6, 3]);
    let twice = rotate90(&once);
    // Dimensions are back to the source's, and every pixel (x, y) now
    // holds the source pixel (w - 1 - x, h - 1 - y).
    assert_eq!(image_dimensions(&twice), (3, 2));
    assert_eq!(image_to_bytes(&twice), vec![6, 5, 4, 3, 2, 1]);
}

#[test]
fn four_rotations_are_identity() {
    let pixels: Vec<u8> = vec![1, 2, 3, 4, 5, 6, 7, 8, 9, 10, 11, 12];
    let img = image_from_bytes(pixels.clone(), 2, 2, 3);
    let mut turned = rotate90(&img);
    for _ in 0..3 {
        turned = rotate90(&turned);
    }
    assert_eq!(image_dimensions(&turned), (2, 2));
    assert_eq!(image_to_bytes(&turned), pixels);
}

#[test]
fn rotate_empty_stays_empty() {
    let img = image_from_bytes(Vec::new(), 0, 0, 4);
    let turned = rotate90(&img);
    assert!(is_image_empty(&turned));
    assert_eq!(image_dimensions(&turned), (0, 0));
    assert_eq!(image_to_bytes(&turned), Vec::<u8>::new());
}

#[test]
fn metadata_of_rgba_4x2() {
    let pixels: Vec<u8> = vec![0; 32];
    let img = image_from_bytes(pixels, 4, 2, 4);
    let info = get_image_info(&img);
    assert_eq!(info, ImageInfo { width: 4, height: 2, channels: 4 });
}

#[test]
fn metadata_of_gray_and_rgb() {
    let gray = image_from_bytes(vec![7, 7], 1, 2, 1);
    assert_eq!(get_image_info(&gray), ImageInfo { width: 1, height: 2, channels: 1 });
    let rgb = image_from_bytes(vec![7; 6], 1, 2, 3);
    assert_eq!(get_image_info(&rgb), ImageInfo { width: 1, height: 2, channels: 3 });
}

#[test]
fn metadata_of_sentinel_reports_four_channels() {
    let img = image_from_bytes(Vec::new(), 0, 0, 1);
    assert_eq!(get_image_info(&img), ImageInfo { width: 0, height: 0, channels: 4 });
}

#[test]
fn rotate_rgb_2x2_clockwise() {
    // Top row red, green; bottom row blue, yellow.
    let pixels: Vec<u8> = vec![255, 0, 0, 0, 255, 0, 0, 0, 255, 255, 255, 0];
    let img = image_from_bytes(pixels, 2, 2, 3);
    let turned = rotate90(&img);
    assert_eq!(image_dimensions(&turned), (2, 2));
    // Blue moves to the top left, red to the top right,
    // yellow to the bottom left, green to the bottom right.
    assert_eq!(
        image_to_bytes(&turned),
        vec![0, 0, 255, 255, 0, 0, 255, 255, 0, 0, 255, 0]
    );
}

#[test]
fn rotate_one_pixel() {
    let img = image_from_bytes(vec![1, 2, 3, 4], 1, 1, 4);
    let turned = rotate90(&img);
    assert_eq!(image_dimensions(&turned), (1, 1));
    assert_eq!(image_to_bytes(&turned), vec![1, 2, 3, 4]);
}

#[test]
fn rotate_image_90_leaves_source_untouched() {
    let pixels: Vec<u8> = vec![9, 8, 7, 6];
    let img = image_from_bytes(pixels.clone(), 2, 2, 1);
    let turned = rotate_image_90(&img);
    assert_eq!(image_to_bytes(&turned), vec![7, 9, 6, 8]);
    assert_eq!(image_to_bytes(&img), pixels);
    assert_eq!(image_dimensions(&img), (2, 2));
}

#[test]
fn channels_two_rejected() {
    let result = try_image_from_bytes(vec![0; 8], 2, 2, 2);
    assert!(result.is_none());
}

#[test]
fn length_mismatch_rejected() {
    let result = try_image_from_bytes(vec![0; 11], 2, 2, 3);
    assert!(result.is_none());
    let result = try_image_from_bytes(vec![0; 13], 2, 2, 3);
    assert!(result.is_none());
}

#[test]
fn well_formed_input_accepted() {
    let pixels: Vec<u8> = vec![5; 12];
    let img = try_image_from_bytes(pixels.clone(), 2, 2, 3).unwrap();
    assert_eq!(image_to_bytes(&img), pixels);
    assert_eq!(get_image_info(&img), ImageInfo { width: 2, height: 2, channels: 3 });
}

#[test]
fn zero_dimension_accepted_as_sentinel() {
    let result = try_image_from_bytes(vec![1, 2, 3], 0, 5, 2);
    let img = result.unwrap();
    assert!(is_image_empty(&img));
    assert_eq!(image_to_bytes(&img), Vec::<u8>::new());
}
