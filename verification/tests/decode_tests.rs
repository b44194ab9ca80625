use vtf::DecodedImage;
use vtf::Error;
use vtf::ImageFormat;
use vtf::PixelLayout;
use vtf::VTFHeader;
use vtf::VTFImage;
use vtf::convert_bgra;

fn header(width: u16, height: u16, frames: u16) -> VTFHeader {
    VTFHeader {
        width,
        height,
        frames,
    }
}

#[test]
fn decode_rgba_zero_filled_is_identity() {
    let w: u16 = 3;
    let h: u16 = 2;
    let bytes: Vec<u8> = vec![0; (w as usize) * (h as usize) * 4];
    let image = VTFImage::new(header(w, h, 1), ImageFormat::Rgba8888, w, h, &bytes, 0);
    let img: DecodedImage = image.decode(0).unwrap();
    assert_eq!(img.layout, PixelLayout::Rgba8);
    assert_eq!(img.width, w as u32);
    assert_eq!(img.height, h as u32);
    assert_eq!(img.data.len(), (w as usize) * (h as usize) * 4);
    assert!(img.data.iter().all(|&b| b == 0));
}

#[test]
fn decode_rgba_copies_bytes_in_order() {
    let bytes: Vec<u8> = vec![1, 2, 3, 4, 5, 6, 7, 8];
    let image = VTFImage::new(header(2, 1, 1), ImageFormat::Rgba8888, 2, 1, &bytes, 0);
    let img = image.decode(0).unwrap();
    assert_eq!(img.layout, PixelLayout::Rgba8);
    assert_eq!(img.data, vec![1, 2, 3, 4, 5, 6, 7, 8]);
}

#[test]
fn decode_bgra_swaps_channels_and_drops_alpha() {
    let w: u16 = 2;
    let h: u16 = 2;
    let mut bytes: Vec<u8> = Vec::new();
    for _ in 0..(w as usize) * (h as usize) {
        bytes.extend_from_slice(&[10, 20, 30, 40]);
    }
    let image = VTFImage::new(header(w, h, 1), ImageFormat::Bgra8888, w, h, &bytes, 0);
    let img = image.decode(0).unwrap();
    assert_eq!(img.layout, PixelLayout::Rgb8);
    assert_eq!(img.data.len(), (w as usize) * (h as usize) * 3);
    assert_eq!(img.data, vec![30, 20, 10, 30, 20, 10, 30, 20, 10, 30, 20, 10]);
}

#[test]
fn decode_bgr_swaps_first_and_third_channel() {
    let bytes: Vec<u8> = vec![1, 2, 3, 4, 5, 6];
    let image = VTFImage::new(header(2, 1, 1), ImageFormat::Bgr888, 2, 1, &bytes, 0);
    let img = image.decode(0).unwrap();
    assert_eq!(img.layout, PixelLayout::Rgb8);
    assert_eq!(img.data, vec![3, 2, 1, 6, 5, 4]);
}

#[test]
fn decode_rgb_copies_bytes_in_order() {
    let bytes: Vec<u8> = vec![9, 8, 7, 6, 5, 4];
    let image = VTFImage::new(header(2, 1, 1), ImageFormat::Rgb888, 2, 1, &bytes, 0);
    let img = image.decode(0).unwrap();
    assert_eq!(img.layout, PixelLayout::Rgb8);
    assert_eq!(img.data, vec![9, 8, 7, 6, 5, 4]);
}

#[test]
fn decode_unsupported_format_fails() {
    let bytes: Vec<u8> = vec![0; 64];
    for format in vec![
        ImageFormat::Rgb565,
        ImageFormat::A8,
        ImageFormat::I8,
        ImageFormat::P8,
        ImageFormat::Uv88,
        ImageFormat::Abgr8888,
        ImageFormat::Rgba16161616,
    ] {
        let image = VTFImage::new(header(2, 2, 1), format, 2, 2, &bytes, 0);
        assert_eq!(image.decode(0), Err(Error::UnsupportedImageFormat(format)));
    }
}

#[test]
fn get_frame_out_of_bounds_fails() {
    let bytes: Vec<u8> = vec![0; 15];
    let image = VTFImage::new(header(2, 2, 1), ImageFormat::Rgba8888, 2, 2, &bytes, 0);
    assert_eq!(image.get_frame(0), Err(Error::OutOfBounds));

    let bytes: Vec<u8> = vec![0; 16];
    let image = VTFImage::new(header(2, 2, 1), ImageFormat::Rgba8888, 2, 2, &bytes, 1);
    assert_eq!(image.get_frame(0), Err(Error::OutOfBounds));

    let image = VTFImage::new(header(2, 2, 1), ImageFormat::Rgba8888, 2, 2, &bytes, 0);
    assert_eq!(image.get_frame(1), Err(Error::OutOfBounds));
    assert_eq!(image.get_frame(u32::MAX), Err(Error::OutOfBounds));
}

#[test]
fn get_frame_unsupported_format_fails() {
    let bytes: Vec<u8> = vec![0; 64];
    let image = VTFImage::new(header(2, 2, 1), ImageFormat::Bgra4444, 2, 2, &bytes, 0);
    assert_eq!(
        image.get_frame(0),
        Err(Error::UnsupportedImageFormat(ImageFormat::Bgra4444))
    );
}

#[test]
fn decode_out_of_bounds_fails() {
    let bytes: Vec<u8> = vec![0; 10];
    let image = VTFImage::new(header(2, 2, 1), ImageFormat::Rgba8888, 2, 2, &bytes, 0);
    assert_eq!(image.decode(0), Err(Error::OutOfBounds));
}

#[test]
fn get_frame_selects_consecutive_frames() {
    let mut bytes: Vec<u8> = vec![0xAA; 4];
    bytes.extend_from_slice(&[1, 2, 3, 4]);
    bytes.extend_from_slice(&[5, 6, 7, 8]);
    let image = VTFImage::new(header(1, 1, 2), ImageFormat::Rgba8888, 1, 1, &bytes, 4);
    assert_eq!(image.get_frame(0).unwrap().to_vec(), vec![1, 2, 3, 4]);
    assert_eq!(image.get_frame(1).unwrap().to_vec(), vec![5, 6, 7, 8]);
    assert_eq!(image.get_frame(2), Err(Error::OutOfBounds));
}

#[test]
fn round_trip_rgba_frame_at_offset() {
    let pixels: Vec<u8> = vec![11, 22, 33, 44, 55, 66, 77, 88];
    let mut container: Vec<u8> = vec![0xEE; 7];
    container.extend_from_slice(&pixels);
    let image = VTFImage::new(header(2, 1, 1), ImageFormat::Rgba8888, 2, 1, &container, 7);
    let frame = image.get_frame(0).unwrap();
    assert_eq!(frame, pixels.as_slice());
    let img = image.decode(0).unwrap();
    assert_eq!(img.layout, PixelLayout::Rgba8);
    assert_eq!(img.width, 2);
    assert_eq!(img.height, 1);
    assert_eq!(img.data, pixels);
}

#[test]
fn decode_dxt1_solid_red_block() {
    // One BC1 block: colour endpoints 0xF800 (red) and 0x001F (blue) with
    // every 2-bit index selecting the first endpoint.
    let bytes: Vec<u8> = vec![0x00, 0xF8, 0x1F, 0x00, 0x00, 0x00, 0x00, 0x00];
    let image = VTFImage::new(header(4, 4, 1), ImageFormat::Dxt1, 4, 4, &bytes, 0);
    let img = image.decode(0).unwrap();
    assert_eq!(img.layout, PixelLayout::Rgba8);
    assert_eq!(img.data.len(), 64);
    for pixel in img.data.chunks(4) {
        assert_eq!(pixel, &[255, 0, 0, 255]);
    }
}

#[test]
fn decode_dxt1_one_bit_alpha_uses_same_scheme() {
    let bytes: Vec<u8> = vec![0x00, 0xF8, 0x1F, 0x00, 0x00, 0x00, 0x00, 0x00];
    let image = VTFImage::new(
        header(4, 4, 1),
        ImageFormat::Dxt1Onebitalpha,
        4,
        4,
        &bytes,
        0,
    );
    let img = image.decode(0).unwrap();
    assert_eq!(img.data.len(), 64);
    for pixel in img.data.chunks(4) {
        assert_eq!(pixel, &[255, 0, 0, 255]);
    }
}

#[test]
fn decode_dxt5_produces_full_pixel_buffer() {
    // One BC3 block: opaque alpha gradient block plus the red colour block.
    let bytes: Vec<u8> = vec![
        0xFF, 0xFF, 0x00, 0x00, 0x00, 0x00, 0x00, 0x00, 0x00, 0xF8, 0x1F, 0x00, 0x00, 0x00, 0x00,
        0x00,
    ];
    let image = VTFImage::new(header(4, 4, 1), ImageFormat::Dxt5, 4, 4, &bytes, 0);
    let img = image.decode(0).unwrap();
    assert_eq!(img.layout, PixelLayout::Rgba8);
    assert_eq!(img.data.len(), 64);
    for pixel in img.data.chunks(4) {
        assert_eq!(pixel, &[255, 0, 0, 255]);
    }
}

#[test]
fn image_from_buffer_checks_geometry() {
    let bytes: Vec<u8> = vec![0; 16];
    let image = VTFImage::new(header(2, 2, 1), ImageFormat::Rgba8888, 2, 2, &bytes, 0);
    assert_eq!(
        image.image_from_buffer(vec![0; 15], PixelLayout::Rgba8),
        Err(Error::InvalidImageData)
    );
    assert_eq!(
        image.image_from_buffer(vec![0; 13], PixelLayout::Rgb8),
        Err(Error::InvalidImageData)
    );
    let img = image.image_from_buffer(vec![7; 16], PixelLayout::Rgba8).unwrap();
    assert_eq!(img.data, vec![7; 16]);
}

#[test]
fn convert_bgra_swaps_in_place() {
    let mut bytes: Vec<u8> = vec![1, 2, 3, 4, 5, 6, 7, 8];
    convert_bgra(&mut bytes);
    assert_eq!(bytes, vec![3, 2, 1, 4, 7, 6, 5, 8]);
}

#[test]
fn convert_bgra_leaves_trailing_fragment() {
    let mut bytes: Vec<u8> = vec![1, 2, 3, 4, 5];
    convert_bgra(&mut bytes);
    assert_eq!(bytes, vec![3, 2, 1, 4, 5]);
}

#[test]
fn decode_zero_sized_frame_is_empty() {
    let bytes: Vec<u8> = Vec::new();
    let image = VTFImage::new(header(0, 0, 1), ImageFormat::Rgba8888, 0, 0, &bytes, 0);
    let img = image.decode(0).unwrap();
    assert_eq!(img.data.len(), 0);
}
