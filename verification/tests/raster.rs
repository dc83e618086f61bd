use upix::format::ImageFormat;
use upix::raster::{encode_image, upscale, Channels, DecodedImage, Depth, RawImage};
use upix::submission::load_image_with_hash;

fn size_of(channels: Channels, depth: Depth) -> u32 {
    let c = match channels {
        Channels::L => 1,
        Channels::La => 2,
        Channels::Rgb => 3,
        Channels::Rgba => 4,
    };
    let d = match depth {
        Depth::Eight => 1,
        Depth::Sixteen => 2,
    };
    c * d
}

fn image_of(width: u32, height: u32, channels: Channels, depth: Depth) -> DecodedImage {
    let size = size_of(channels, depth);
    let mut samples = Vec::new();
    for y in 0..height {
        for x in 0..width {
            for b in 0..size {
                samples.push((x * 7 + y * 13 + b * 29 + 1) as u8);
            }
        }
    }
    DecodedImage { width, height, channels, depth, samples, format: ImageFormat::Png }
}

fn gradient(width: u32, height: u32) -> DecodedImage {
    image_of(width, height, Channels::Rgba, Depth::Eight)
}

fn pixel(img: &DecodedImage, x: u32, y: u32) -> Vec<u8> {
    let size = size_of(img.channels, img.depth) as usize;
    let i = (y * img.width + x) as usize * size;
    img.samples[i..i + size].to_vec()
}

fn assert_replicated(src: &DecodedImage, out: &DecodedImage, scale: u32) {
    assert_eq!(out.width, src.width * scale);
    assert_eq!(out.height, src.height * scale);
    assert_eq!((out.channels, out.depth), (src.channels, src.depth));
    assert_eq!(
        out.samples.len(),
        (out.width * out.height * size_of(out.channels, out.depth)) as usize
    );
    for y in 0..out.height {
        for x in 0..out.width {
            assert_eq!(pixel(out, x, y), pixel(src, x / scale, y / scale));
        }
    }
}

const LAYOUTS: [(Channels, Depth); 8] = [
    (Channels::L, Depth::Eight),
    (Channels::La, Depth::Eight),
    (Channels::Rgb, Depth::Eight),
    (Channels::Rgba, Depth::Eight),
    (Channels::L, Depth::Sixteen),
    (Channels::La, Depth::Sixteen),
    (Channels::Rgb, Depth::Sixteen),
    (Channels::Rgba, Depth::Sixteen),
];

#[test]
fn the_number_of_bytes_in_a_pixel() {
    for (channels, depth) in LAYOUTS {
        let img = image_of(1, 1, channels, depth);
        assert_eq!(img.bytes_per_pixel() as u32, size_of(channels, depth));
    }
    assert_eq!(Channels::L.sample_count(), 1);
    assert_eq!(Channels::La.sample_count(), 2);
    assert_eq!(Channels::Rgb.sample_count(), 3);
    assert_eq!(Channels::Rgba.sample_count(), 4);
}

#[test]
fn well_formedness_is_about_the_exact_number_of_samples() {
    assert!(gradient(3, 2).is_well_formed());
    let mut short = gradient(3, 2);
    short.samples.pop();
    assert!(!short.is_well_formed());
    let mut long = gradient(3, 2);
    long.samples.push(0);
    assert!(!long.is_well_formed());
    assert!(image_of(3, 2, Channels::Rgb, Depth::Sixteen).is_well_formed());
    let mut other = image_of(3, 2, Channels::Rgb, Depth::Sixteen);
    other.depth = Depth::Eight;
    assert!(!other.is_well_formed());
    let huge = DecodedImage {
        width: u32::MAX,
        height: u32::MAX,
        channels: Channels::Rgba,
        depth: Depth::Sixteen,
        samples: vec![],
        format: ImageFormat::Png,
    };
    assert!(!huge.is_well_formed());
}

#[test]
fn an_image_is_made_of_what_the_decoder_hands_out() {
    let raw = RawImage {
        width: 2,
        height: 1,
        channel_count: 3,
        bytes_per_pixel: 6,
        samples: vec![0; 12],
    };
    assert_eq!(
        DecodedImage::assemble(raw, ImageFormat::Png),
        Some(DecodedImage {
            width: 2,
            height: 1,
            channels: Channels::Rgb,
            depth: Depth::Sixteen,
            samples: vec![0; 12],
            format: ImageFormat::Png,
        })
    );
    let raw = RawImage {
        width: 2,
        height: 2,
        channel_count: 1,
        bytes_per_pixel: 1,
        samples: vec![1, 2, 3, 4],
    };
    let img = DecodedImage::assemble(raw, ImageFormat::Gif).unwrap();
    assert_eq!((img.channels, img.depth, img.format), (Channels::L, Depth::Eight, ImageFormat::Gif));
}

#[test]
fn no_image_is_made_of_an_unknown_layout_or_a_wrong_length() {
    let raw = |channel_count, bytes_per_pixel, len| RawImage {
        width: 2,
        height: 1,
        channel_count,
        bytes_per_pixel,
        samples: vec![0; len],
    };
    assert_eq!(DecodedImage::assemble(raw(0, 0, 0), ImageFormat::Png), None);
    assert_eq!(DecodedImage::assemble(raw(5, 5, 10), ImageFormat::Png), None);
    assert_eq!(DecodedImage::assemble(raw(3, 12, 24), ImageFormat::Png), None);
    assert_eq!(DecodedImage::assemble(raw(4, 16, 32), ImageFormat::Png), None);
    assert_eq!(DecodedImage::assemble(raw(4, 4, 7), ImageFormat::Png), None);
    assert_eq!(DecodedImage::assemble(raw(4, 4, 9), ImageFormat::Png), None);
    assert!(DecodedImage::assemble(raw(4, 4, 8), ImageFormat::Png).is_some());
}

#[test]
fn scale_4_makes_blocks_of_4_by_4() {
    let src = gradient(2, 2);
    let out = upscale(&src, 4);
    assert_eq!((out.width, out.height), (8, 8));
    for by in 0..2 {
        for bx in 0..2 {
            for dy in 0..4 {
                for dx in 0..4 {
                    assert_eq!(pixel(&out, 4 * bx + dx, 4 * by + dy), pixel(&src, bx, by));
                }
            }
        }
    }
}

#[test]
fn every_factor_replicates_blocks_in_every_layout() {
    for (channels, depth) in LAYOUTS {
        let src = image_of(5, 3, channels, depth);
        for scale in [2, 4, 8, 16] {
            let out = upscale(&src, scale);
            assert_replicated(&src, &out, scale);
            assert_eq!(out.format, src.format);
            assert!(out.is_well_formed());
        }
    }
}

#[test]
fn replication_keeps_alpha_and_extreme_samples() {
    let src = DecodedImage {
        width: 2,
        height: 1,
        channels: Channels::Rgba,
        depth: Depth::Eight,
        samples: vec![0, 255, 1, 0, 254, 128, 127, 3],
        format: ImageFormat::Gif,
    };
    let out = upscale(&src, 2);
    assert_eq!(
        out.samples,
        vec![
            0, 255, 1, 0, 0, 255, 1, 0, 254, 128, 127, 3, 254, 128, 127, 3, //
            0, 255, 1, 0, 0, 255, 1, 0, 254, 128, 127, 3, 254, 128, 127, 3,
        ]
    );
    assert_eq!(out.format, ImageFormat::Gif);
}

#[test]
fn replication_keeps_every_value_of_a_wide_sample() {
    let values: [u16; 6] = [0, 1, 255, 256, 65534, 65535];
    let mut samples = Vec::new();
    for v in values {
        samples.extend_from_slice(&v.to_ne_bytes());
    }
    let src = DecodedImage {
        width: 3,
        height: 2,
        channels: Channels::L,
        depth: Depth::Sixteen,
        samples,
        format: ImageFormat::Png,
    };
    let out = upscale(&src, 2);
    assert_replicated(&src, &out, 2);
}

#[test]
fn the_largest_accepted_shapes_are_enlarged() {
    let wide = gradient(1024, 64);
    let out = upscale(&wide, 2);
    assert_replicated(&wide, &out, 2);
    let square = image_of(256, 256, Channels::L, Depth::Eight);
    let out = upscale(&square, 4);
    assert_replicated(&square, &out, 4);
}

#[test]
fn an_image_without_pixels_stays_without_pixels() {
    let src = DecodedImage {
        width: 0,
        height: 0,
        channels: Channels::Rgb,
        depth: Depth::Eight,
        samples: vec![],
        format: ImageFormat::Bmp,
    };
    let out = upscale(&src, 16);
    assert_eq!(out, src);
}

#[test]
fn encoding_writes_a_png() {
    let img = gradient(4, 3);
    let mut dest = Vec::new();
    assert_eq!(encode_image(&img, ImageFormat::Png, &mut dest), Ok(()));
    assert_eq!(&dest[..8], &[0x89, b'P', b'N', b'G', 0x0d, 0x0a, 0x1a, 0x0a]);
}

#[test]
fn encoding_replaces_what_the_buffer_held() {
    let img = gradient(4, 3);
    let mut fresh = Vec::new();
    assert_eq!(encode_image(&img, ImageFormat::Png, &mut fresh), Ok(()));
    let mut used = vec![7u8; 1000];
    assert_eq!(encode_image(&img, ImageFormat::Png, &mut used), Ok(()));
    assert_eq!(used, fresh);
}

#[test]
fn encoding_is_repeatable() {
    let img = gradient(16, 16);
    for format in [ImageFormat::Png, ImageFormat::WebP, ImageFormat::Bmp, ImageFormat::Gif] {
        let mut a = Vec::new();
        let mut b = Vec::new();
        assert_eq!(encode_image(&img, format, &mut a), Ok(()));
        assert_eq!(encode_image(&img, format, &mut b), Ok(()));
        assert_eq!(a, b);
        assert!(!a.is_empty());
    }
}

#[test]
fn a_failed_encoding_leaves_the_buffer_alone() {
    let empty = DecodedImage {
        width: 0,
        height: 0,
        channels: Channels::Rgba,
        depth: Depth::Eight,
        samples: vec![],
        format: ImageFormat::Png,
    };
    let mut dest = vec![1u8, 2, 3];
    assert_eq!(encode_image(&empty, ImageFormat::Png, &mut dest), Err(()));
    assert_eq!(dest, vec![1u8, 2, 3]);
}

#[test]
fn a_png_keeps_every_layout() {
    for (channels, depth) in LAYOUTS {
        let img = image_of(7, 5, channels, depth);
        let mut bytes = Vec::new();
        assert_eq!(encode_image(&img, ImageFormat::Png, &mut bytes), Ok(()));
        let (back, _) = load_image_with_hash(bytes, ImageFormat::Png).unwrap();
        assert_eq!(back, img);
        assert!(back.is_well_formed());
    }
}

#[test]
fn what_is_encoded_decodes_to_the_same_grid() {
    let img = gradient(7, 5);
    for format in [ImageFormat::Png, ImageFormat::WebP, ImageFormat::Bmp] {
        let mut bytes = Vec::new();
        assert_eq!(encode_image(&img, format, &mut bytes), Ok(()));
        let (back, _) = load_image_with_hash(bytes, format).unwrap();
        assert_eq!((back.width, back.height), (7, 5));
        assert_eq!((back.channels, back.depth), (Channels::Rgba, Depth::Eight));
        assert_eq!(back.samples, img.samples);
        assert_eq!(back.format, format);
        assert!(back.is_well_formed());
    }
}

#[test]
fn a_gif_decodes_to_its_size() {
    let img = gradient(6, 4);
    let mut bytes = Vec::new();
    assert_eq!(encode_image(&img, ImageFormat::Gif, &mut bytes), Ok(()));
    let (back, _) = load_image_with_hash(bytes, ImageFormat::Gif).unwrap();
    assert_eq!((back.width, back.height), (6, 4));
    assert_eq!(back.format, ImageFormat::Gif);
    assert!(back.is_well_formed());
}

#[test]
fn a_grey_image_of_another_encoder_stays_grey() {
    let gray = image::GrayImage::from_raw(2, 2, vec![0, 100, 200, 255]).unwrap();
    let mut bytes = Vec::new();
    image::DynamicImage::ImageLuma8(gray)
        .write_to(&mut std::io::Cursor::new(&mut bytes), image::ImageFormat::Png)
        .unwrap();
    let (img, _) = load_image_with_hash(bytes, ImageFormat::Png).unwrap();
    assert_eq!((img.width, img.height), (2, 2));
    assert_eq!((img.channels, img.depth), (Channels::L, Depth::Eight));
    assert_eq!(img.samples, vec![0, 100, 200, 255]);
}

#[test]
fn the_library_writes_what_the_image_crate_writes() {
    let img = image_of(4, 4, Channels::Rgb, Depth::Sixteen);
    let mut ours = Vec::new();
    assert_eq!(encode_image(&img, ImageFormat::Png, &mut ours), Ok(()));
    let words: Vec<u16> =
        img.samples.chunks_exact(2).map(|b| u16::from_ne_bytes([b[0], b[1]])).collect();
    let buffer = image::ImageBuffer::from_raw(4, 4, words).unwrap();
    let mut theirs = Vec::new();
    image::DynamicImage::ImageRgb16(buffer)
        .write_to(&mut std::io::Cursor::new(&mut theirs), image::ImageFormat::Png)
        .unwrap();
    assert_eq!(ours, theirs);
}

#[test]
fn every_layout_is_encoded_or_turned_down_in_every_format() {
    let formats = [ImageFormat::Png, ImageFormat::WebP, ImageFormat::Bmp, ImageFormat::Gif];
    for (channels, depth) in LAYOUTS {
        for (width, height) in [(3, 2), (1, 1), (0, 0), (64, 1)] {
            let img = image_of(width, height, channels, depth);
            assert!(img.is_well_formed());
            for format in formats {
                let mut dest = vec![9u8];
                match encode_image(&img, format, &mut dest) {
                    Ok(()) => assert!(dest.len() > 1),
                    Err(()) => assert_eq!(dest, vec![9u8]),
                }
            }
        }
    }
}

#[test]
fn eight_bit_colour_is_encoded_in_every_format() {
    let formats = [ImageFormat::Png, ImageFormat::WebP, ImageFormat::Bmp, ImageFormat::Gif];
    for format in formats {
        let mut dest = Vec::new();
        let img = image_of(3, 2, Channels::Rgba, Depth::Eight);
        assert_eq!(encode_image(&img, format, &mut dest), Ok(()));
    }
}
