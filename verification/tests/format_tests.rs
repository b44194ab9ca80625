use vtf::Error;
use vtf::ImageFormat;

fn uncompressed_cases() -> Vec<(ImageFormat, u32)> {
    vec![
        (ImageFormat::NoFormat, 0),
        (ImageFormat::Rgba8888, 4),
        (ImageFormat::Abgr8888, 4),
        (ImageFormat::Argb8888, 4),
        (ImageFormat::Bgra8888, 4),
        (ImageFormat::Rgb888, 3),
        (ImageFormat::Bgr888, 3),
        (ImageFormat::Rgb565, 2),
        (ImageFormat::Ia88, 2),
        (ImageFormat::I8, 1),
        (ImageFormat::A8, 1),
        (ImageFormat::Rgba16161616f, 8),
        (ImageFormat::Rgba16161616, 8),
    ]
}

#[test]
fn frame_size_uncompressed_is_width_height_bpp() {
    let dims: Vec<u32> = vec![0, 1, 4, 17, 256];
    for (format, bpp) in uncompressed_cases() {
        for &w in &dims {
            for &h in &dims {
                assert_eq!(format.frame_size(w, h), Ok(w * h * bpp));
            }
        }
    }
}

#[test]
fn frame_size_block_compressed_counts_whole_blocks() {
    let dims: Vec<u32> = vec![0, 1, 4, 17, 256];
    let blocks = |n: u32| (n + 3) / 4;
    for (format, bpb) in vec![
        (ImageFormat::Dxt1, 8),
        (ImageFormat::Dxt1Onebitalpha, 8),
        (ImageFormat::Dxt3, 16),
        (ImageFormat::Dxt5, 16),
    ] {
        for &w in &dims {
            for &h in &dims {
                assert_eq!(format.frame_size(w, h), Ok(blocks(w) * blocks(h) * bpb));
            }
        }
    }
}

#[test]
fn frame_size_single_pixel_costs_one_block() {
    assert_eq!(ImageFormat::Dxt1.frame_size(1, 1), Ok(8));
    assert_eq!(ImageFormat::Dxt1Onebitalpha.frame_size(1, 1), Ok(8));
    assert_eq!(ImageFormat::Dxt3.frame_size(1, 1), Ok(16));
    assert_eq!(ImageFormat::Dxt5.frame_size(1, 1), Ok(16));
}

#[test]
fn frame_size_exact_values() {
    assert_eq!(ImageFormat::Rgba8888.frame_size(17, 17), Ok(17 * 17 * 4));
    assert_eq!(ImageFormat::Rgb888.frame_size(256, 256), Ok(256 * 256 * 3));
    assert_eq!(ImageFormat::Dxt1.frame_size(17, 4), Ok(5 * 1 * 8));
    assert_eq!(ImageFormat::Dxt5.frame_size(256, 256), Ok(64 * 64 * 16));
}

#[test]
fn frame_size_unsupported_formats_fail() {
    for format in vec![
        ImageFormat::P8,
        ImageFormat::Rgb888Bluescreen,
        ImageFormat::Bgr888Bluescreen,
        ImageFormat::Bgrx8888,
        ImageFormat::Bgr565,
        ImageFormat::Bgrx5551,
        ImageFormat::Bgra4444,
        ImageFormat::Bgra5551,
        ImageFormat::Uv88,
        ImageFormat::Uvwq8888,
        ImageFormat::Uvlx8888,
    ] {
        assert_eq!(
            format.frame_size(4, 4),
            Err(Error::UnsupportedImageFormat(format))
        );
    }
}

#[test]
fn format_codes_round_trip() {
    for code in -1..=26 {
        let format = ImageFormat::from_code(code).unwrap();
        assert_eq!(format.code(), code);
    }
    assert_eq!(ImageFormat::from_code(-2), None);
    assert_eq!(ImageFormat::from_code(27), None);
    assert_eq!(ImageFormat::from_code(100), None);
    assert_eq!(ImageFormat::from_code(-1), Some(ImageFormat::NoFormat));
    assert_eq!(ImageFormat::from_code(0), Some(ImageFormat::Rgba8888));
    assert_eq!(ImageFormat::from_code(13), Some(ImageFormat::Dxt1));
    assert_eq!(ImageFormat::from_code(20), Some(ImageFormat::Dxt1Onebitalpha));
}
