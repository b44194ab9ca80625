use vstd::prelude::*;
use crate::error::Error;

verus! {

/// The closed set of on-disk pixel encodings a texture container may declare.
///
/// The container stores the format as an integer code in the range
/// `-1 ..= 25`; the variants below are listed in code order, starting at
/// `-1` for [`ImageFormat::NoFormat`].
#[derive(Clone, Copy, Debug, PartialEq, Eq, Structural)]
pub enum ImageFormat {
    NoFormat,
    Rgba8888,
    Abgr8888,
    Rgb888,
    Bgr888,
    Rgb565,
    I8,
    Ia88,
    P8,
    A8,
    Rgb888Bluescreen,
    Bgr888Bluescreen,
    Argb8888,
    Bgra8888,
    Dxt1,
    Dxt3,
    Dxt5,
    Bgrx8888,
    Bgr565,
    Bgrx5551,
    Bgra4444,
    Dxt1Onebitalpha,
    Bgra5551,
    Uv88,
    Uvwq8888,
    Rgba16161616f,
    Rgba16161616,
    Uvlx8888,
}

/// The formats whose frame data is stored as uncompressed pixels with a
/// fixed byte count per pixel.
pub open spec fn is_uncompressed(f: ImageFormat) -> bool {
    match f {
        ImageFormat::NoFormat
        | ImageFormat::Rgba8888
        | ImageFormat::Abgr8888
        | ImageFormat::Rgb888
        | ImageFormat::Bgr888
        | ImageFormat::Rgb565
        | ImageFormat::I8
        | ImageFormat::Ia88
        | ImageFormat::A8
        | ImageFormat::Argb8888
        | ImageFormat::Bgra8888
        | ImageFormat::Rgba16161616f
        | ImageFormat::Rgba16161616 => true,
        _ => false,
    }
}

/// Bytes each pixel occupies on disk for an uncompressed format.
/// [`ImageFormat::NoFormat`] carries no pixel data at all.
pub open spec fn bytes_per_pixel_spec(f: ImageFormat) -> int
    recommends
        is_uncompressed(f),
{
    match f {
        ImageFormat::NoFormat => 0,
        ImageFormat::Rgba8888
        | ImageFormat::Abgr8888
        | ImageFormat::Argb8888
        | ImageFormat::Bgra8888 => 4,
        ImageFormat::Rgb888 | ImageFormat::Bgr888 => 3,
        ImageFormat::Rgb565 | ImageFormat::Ia88 => 2,
        ImageFormat::I8 | ImageFormat::A8 => 1,
        ImageFormat::Rgba16161616f | ImageFormat::Rgba16161616 => 8,
        _ => 0,
    }
}

/// The formats whose frame data is stored as compressed 4x4 pixel blocks.
pub open spec fn is_block_compressed(f: ImageFormat) -> bool {
    match f {
        ImageFormat::Dxt1
        | ImageFormat::Dxt1Onebitalpha
        | ImageFormat::Dxt3
        | ImageFormat::Dxt5 => true,
        _ => false,
    }
}

/// Bytes each compressed 4x4 block occupies on disk.
pub open spec fn bytes_per_block_spec(f: ImageFormat) -> int
    recommends
        is_block_compressed(f),
{
    match f {
        ImageFormat::Dxt1 | ImageFormat::Dxt1Onebitalpha => 8,
        ImageFormat::Dxt3 | ImageFormat::Dxt5 => 16,
        _ => 0,
    }
}

/// The formats for which a frame's on-disk byte count is defined.
pub open spec fn has_size_rule(f: ImageFormat) -> bool {
    is_uncompressed(f) || is_block_compressed(f)
}

/// Number of 4-pixel-wide block columns (or rows) covering `n` pixels:
/// the ceiling of `n / 4`.
pub open spec fn blocks_spec(n: int) -> int {
    (n + 3) / 4
}

/// Bytes one `w` by `h` frame occupies on disk.
pub open spec fn frame_size_spec(f: ImageFormat, w: int, h: int) -> int
    recommends
        has_size_rule(f),
{
    if is_block_compressed(f) {
        blocks_spec(w) * blocks_spec(h) * bytes_per_block_spec(f)
    } else {
        w * h * bytes_per_pixel_spec(f)
    }
}

/// The integer code each format carries on disk, in declaration order
/// starting at `-1`.
pub open spec fn code_spec(f: ImageFormat) -> int {
    match f {
        ImageFormat::NoFormat => -1,
        ImageFormat::Rgba8888 => 0,
        ImageFormat::Abgr8888 => 1,
        ImageFormat::Rgb888 => 2,
        ImageFormat::Bgr888 => 3,
        ImageFormat::Rgb565 => 4,
        ImageFormat::I8 => 5,
        ImageFormat::Ia88 => 6,
        ImageFormat::P8 => 7,
        ImageFormat::A8 => 8,
        ImageFormat::Rgb888Bluescreen => 9,
        ImageFormat::Bgr888Bluescreen => 10,
        ImageFormat::Argb8888 => 11,
        ImageFormat::Bgra8888 => 12,
        ImageFormat::Dxt1 => 13,
        ImageFormat::Dxt3 => 14,
        ImageFormat::Dxt5 => 15,
        ImageFormat::Bgrx8888 => 16,
        ImageFormat::Bgr565 => 17,
        ImageFormat::Bgrx5551 => 18,
        ImageFormat::Bgra4444 => 19,
        ImageFormat::Dxt1Onebitalpha => 20,
        ImageFormat::Bgra5551 => 21,
        ImageFormat::Uv88 => 22,
        ImageFormat::Uvwq8888 => 23,
        ImageFormat::Rgba16161616f => 24,
        ImageFormat::Rgba16161616 => 25,
        ImageFormat::Uvlx8888 => 26,
    }
}

impl ImageFormat {
    /// Whether this format stores compressed 4x4 pixel blocks.
    pub fn is_block_format(&self) -> (b: bool)
        ensures
            b == is_block_compressed(*self),
    {
        match self {
            ImageFormat::Dxt1
            | ImageFormat::Dxt1Onebitalpha
            | ImageFormat::Dxt3
            | ImageFormat::Dxt5 => true,
            _ => false,
        }
    }

    /// Whether this format stores uncompressed fixed-width pixels.
    pub fn is_uncompressed_format(&self) -> (b: bool)
        ensures
            b == is_uncompressed(*self),
    {
        match self {
            ImageFormat::NoFormat
            | ImageFormat::Rgba8888
            | ImageFormat::Abgr8888
            | ImageFormat::Rgb888
            | ImageFormat::Bgr888
            | ImageFormat::Rgb565
            | ImageFormat::I8
            | ImageFormat::Ia88
            | ImageFormat::A8
            | ImageFormat::Argb8888
            | ImageFormat::Bgra8888
            | ImageFormat::Rgba16161616f
            | ImageFormat::Rgba16161616 => true,
            _ => false,
        }
    }

    fn pixel_bytes(&self) -> (n: u64)
        ensures
            n == bytes_per_pixel_spec(*self),
    {
        match self {
            ImageFormat::NoFormat => 0,
            ImageFormat::Rgba8888
            | ImageFormat::Abgr8888
            | ImageFormat::Argb8888
            | ImageFormat::Bgra8888 => 4,
            ImageFormat::Rgb888 | ImageFormat::Bgr888 => 3,
            ImageFormat::Rgb565 | ImageFormat::Ia88 => 2,
            ImageFormat::I8 | ImageFormat::A8 => 1,
            ImageFormat::Rgba16161616f | ImageFormat::Rgba16161616 => 8,
            _ => 0,
        }
    }

    fn block_bytes(&self) -> (n: u64)
        ensures
            n == bytes_per_block_spec(*self),
    {
        match self {
            ImageFormat::Dxt1 | ImageFormat::Dxt1Onebitalpha => 8,
            ImageFormat::Dxt3 | ImageFormat::Dxt5 => 16,
            _ => 0,
        }
    }

    /// Bytes one `width` by `height` frame of this format occupies on disk,
    /// or [`Error::UnsupportedImageFormat`] for a format with no size rule.
    pub fn frame_size(&self, width: u32, height: u32) -> (r: Result<u32, Error>)
        requires
            has_size_rule(*self) ==> frame_size_spec(
                *self,
                width as int,
                height as int,
            ) <= u32::MAX,
        ensures
            has_size_rule(*self) ==> (r matches Ok(n) && n == frame_size_spec(
                *self,
                width as int,
                height as int,
            )),
            !has_size_rule(*self) ==> r == Err::<u32, Error>(
                Error::UnsupportedImageFormat(*self),
            ),
    {
        if self.is_block_format() {
            let bw: u64 = (width as u64 + 3) / 4;
            let bh: u64 = (height as u64 + 3) / 4;
            let bb: u64 = self.block_bytes();
            proof {
                assert(bw == blocks_spec(width as int));
                assert(bh == blocks_spec(height as int));
                assert(0 <= bw * bh && bw * bh * 8 <= bw * bh * bb && bw * bh <= bw * bh
                    * 8) by (nonlinear_arith)
                    requires
                        0 <= bw,
                        0 <= bh,
                        8 <= bb,
                ;
                assert(bw * bh * bb == frame_size_spec(
                    *self,
                    width as int,
                    height as int,
                ));
            }
            let blocks: u64 = bw * bh;
            Ok((blocks * bb) as u32)
        } else if self.is_uncompressed_format() {
            let bpp: u64 = self.pixel_bytes();
            if bpp == 0 {
                Ok(0)
            } else {
                let w: u64 = width as u64;
                let h: u64 = height as u64;
                proof {
                    assert(0 <= w * h && w * h <= w * h * bpp) by (nonlinear_arith)
                        requires
                            0 <= w,
                            0 <= h,
                            1 <= bpp,
                    ;
                    assert(w * h * bpp == frame_size_spec(
                        *self,
                        width as int,
                        height as int,
                    ));
                }
                let pixels: u64 = w * h;
                Ok((pixels * bpp) as u32)
            }
        } else {
            Err(Error::UnsupportedImageFormat(*self))
        }
    }

    /// The integer code this format carries on disk.
    pub fn code(&self) -> (c: i16)
        ensures
            c == code_spec(*self),
    {
        match self {
            ImageFormat::NoFormat => -1,
            ImageFormat::Rgba8888 => 0,
            ImageFormat::Abgr8888 => 1,
            ImageFormat::Rgb888 => 2,
            ImageFormat::Bgr888 => 3,
            ImageFormat::Rgb565 => 4,
            ImageFormat::I8 => 5,
            ImageFormat::Ia88 => 6,
            ImageFormat::P8 => 7,
            ImageFormat::A8 => 8,
            ImageFormat::Rgb888Bluescreen => 9,
            ImageFormat::Bgr888Bluescreen => 10,
            ImageFormat::Argb8888 => 11,
            ImageFormat::Bgra8888 => 12,
            ImageFormat::Dxt1 => 13,
            ImageFormat::Dxt3 => 14,
            ImageFormat::Dxt5 => 15,
            ImageFormat::Bgrx8888 => 16,
            ImageFormat::Bgr565 => 17,
            ImageFormat::Bgrx5551 => 18,
            ImageFormat::Bgra4444 => 19,
            ImageFormat::Dxt1Onebitalpha => 20,
            ImageFormat::Bgra5551 => 21,
            ImageFormat::Uv88 => 22,
            ImageFormat::Uvwq8888 => 23,
            ImageFormat::Rgba16161616f => 24,
            ImageFormat::Rgba16161616 => 25,
            ImageFormat::Uvlx8888 => 26,
        }
    }

    /// The format a container declares through an integer code, if the code
    /// names one.
    pub fn from_code(code: i16) -> (r: Option<ImageFormat>)
        ensures
            (r is Some) <==> -1 <= code <= 26,
            r matches Some(f) ==> code_spec(f) == code,
    {
        match code {
            -1 => Some(ImageFormat::NoFormat),
            0 => Some(ImageFormat::Rgba8888),
            1 => Some(ImageFormat::Abgr8888),
            2 => Some(ImageFormat::Rgb888),
            3 => Some(ImageFormat::Bgr888),
            4 => Some(ImageFormat::Rgb565),
            5 => Some(ImageFormat::I8),
            6 => Some(ImageFormat::Ia88),
            7 => Some(ImageFormat::P8),
            8 => Some(ImageFormat::A8),
            9 => Some(ImageFormat::Rgb888Bluescreen),
            10 => Some(ImageFormat::Bgr888Bluescreen),
            11 => Some(ImageFormat::Argb8888),
            12 => Some(ImageFormat::Bgra8888),
            13 => Some(ImageFormat::Dxt1),
            14 => Some(ImageFormat::Dxt3),
            15 => Some(ImageFormat::Dxt5),
            16 => Some(ImageFormat::Bgrx8888),
            17 => Some(ImageFormat::Bgr565),
            18 => Some(ImageFormat::Bgrx5551),
            19 => Some(ImageFormat::Bgra4444),
            20 => Some(ImageFormat::Dxt1Onebitalpha),
            21 => Some(ImageFormat::Bgra5551),
            22 => Some(ImageFormat::Uv88),
            23 => Some(ImageFormat::Uvwq8888),
            24 => Some(ImageFormat::Rgba16161616f),
            25 => Some(ImageFormat::Rgba16161616),
            26 => Some(ImageFormat::Uvlx8888),
            _ => None,
        }
    }
}

/// For every uncompressed format, a frame's byte count is exactly
/// width times height times the format's bytes per pixel.
pub proof fn lemma_uncompressed_frame_size(f: ImageFormat, w: int, h: int)
    requires
        is_uncompressed(f),
    ensures
        frame_size_spec(f, w, h) == w * h * bytes_per_pixel_spec(f),
{
}

/// For every block-compressed format, a frame's byte count is the count of
/// 4x4 blocks covering it times the format's bytes per block, and a single
/// pixel still costs one whole block.
pub proof fn lemma_block_frame_size(f: ImageFormat, w: int, h: int)
    requires
        is_block_compressed(f),
    ensures
        frame_size_spec(f, w, h) == blocks_spec(w) * blocks_spec(h) * bytes_per_block_spec(f),
        w == 1 && h == 1 ==> frame_size_spec(f, w, h) == bytes_per_block_spec(f),
{
}

/// `blocks_spec(n)` is the ceiling of `n / 4`: the least count of
/// 4-pixel-wide blocks that covers `n` pixels.
pub proof fn lemma_blocks_spec_is_ceil(n: int)
    requires
        n >= 0,
    ensures
        4 * blocks_spec(n) >= n,
        n > 0 ==> 4 * (blocks_spec(n) - 1) < n,
        n % 4 == 0 ==> blocks_spec(n) == n / 4,
        n % 4 != 0 ==> blocks_spec(n) == n / 4 + 1,
{
}

} // verus!
