use upix::dimension::{check_dimensions, validate_img_dimension};
use upix::error::ApiError;
use upix::format::ImageFormat;
use upix::raster::{Channels, DecodedImage, Depth};

fn blank(width: u32, height: u32) -> DecodedImage {
    DecodedImage {
        width,
        height,
        channels: Channels::Rgba,
        depth: Depth::Eight,
        samples: vec![0; 4 * width as usize * height as usize],
        format: ImageFormat::Png,
    }
}

fn rejected(message: &str) -> ApiError {
    ApiError { status: 400, message: Some(message.to_string()) }
}

#[test]
fn too_many_pixels_is_rejected() {
    assert_eq!(
        validate_img_dimension(&blank(300, 300)),
        Err(rejected("Image has too many pixels (90000 > 65536)"))
    );
}

#[test]
fn long_side_too_large_is_rejected() {
    assert_eq!(
        validate_img_dimension(&blank(2000, 10)),
        Err(rejected("Long side of image is too long (2000 > 1024)"))
    );
    assert_eq!(
        validate_img_dimension(&blank(10, 2000)),
        Err(rejected("Long side of image is too long (2000 > 1024)"))
    );
}

#[test]
fn aspect_ratio_out_of_range_is_rejected() {
    assert_eq!(
        validate_img_dimension(&blank(1024, 60)),
        Err(rejected("Aspect retio of image is out of range (1024 : 60 > 16 : 1)"))
    );
    assert_eq!(
        validate_img_dimension(&blank(3, 100)),
        Err(rejected("Aspect retio of image is out of range (100 : 3 > 16 : 1)"))
    );
}

#[test]
fn a_small_square_image_is_accepted() {
    assert_eq!(validate_img_dimension(&blank(64, 64)), Ok(()));
}

#[test]
fn the_limits_themselves_are_accepted() {
    assert_eq!(check_dimensions(256, 256), Ok(()));
    assert_eq!(check_dimensions(1024, 64), Ok(()));
    assert_eq!(check_dimensions(64, 1024), Ok(()));
    assert_eq!(check_dimensions(16, 1), Ok(()));
    assert_eq!(check_dimensions(1, 1), Ok(()));
}

#[test]
fn one_past_each_limit_is_rejected() {
    assert_eq!(
        check_dimensions(257, 256),
        Err(rejected("Image has too many pixels (65792 > 65536)"))
    );
    assert_eq!(
        check_dimensions(1025, 63),
        Err(rejected("Long side of image is too long (1025 > 1024)"))
    );
    assert_eq!(
        check_dimensions(17, 1),
        Err(rejected("Aspect retio of image is out of range (17 : 1 > 16 : 1)"))
    );
}

#[test]
fn the_first_failing_limit_is_the_one_reported() {
    // too many pixels, too long and too narrow at once
    assert_eq!(
        check_dimensions(70000, 2),
        Err(rejected("Image has too many pixels (140000 > 65536)"))
    );
    // too long and too narrow
    assert_eq!(
        check_dimensions(2000, 1),
        Err(rejected("Long side of image is too long (2000 > 1024)"))
    );
}

#[test]
fn the_pixel_count_does_not_wrap() {
    assert_eq!(
        check_dimensions(65536, 65536),
        Err(rejected("Image has too many pixels (4294967296 > 65536)"))
    );
    assert_eq!(
        check_dimensions(u32::MAX, u32::MAX),
        Err(rejected("Image has too many pixels (18446744065119617025 > 65536)"))
    );
}

#[test]
fn an_image_without_pixels() {
    assert_eq!(check_dimensions(0, 0), Ok(()));
    assert_eq!(
        check_dimensions(0, 5),
        Err(rejected("Aspect retio of image is out of range (5 : 0 > 16 : 1)"))
    );
    assert_eq!(
        check_dimensions(2000, 0),
        Err(rejected("Long side of image is too long (2000 > 1024)"))
    );
}
