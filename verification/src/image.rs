use vstd::prelude::*;
use vstd::slice::slice_subrange;
use vstd::slice::slice_to_vec;
use crate::dxt::CompressionScheme;
use crate::dxt::bc_decoded;
use crate::dxt::decompress_blocks;
use crate::dxt::scheme_block_bytes;
use crate::dxt::scheme_id;
use crate::error::Error;
use crate::format::ImageFormat;
use crate::format::blocks_spec;
use crate::format::frame_size_spec;
use crate::format::has_size_rule;
use crate::pixels::DecodedImage;
use crate::pixels::PixelLayout;
use crate::pixels::channels_spec;
use crate::pixels::convert_bgra;
use crate::pixels::drop_alpha;
use crate::pixels::strip_alpha;
use crate::pixels::swap_first_and_third;
use crate::pixels::swap_rb;

verus! {

/// The formats the pixel decoder can turn into a canonical buffer.
pub open spec fn decodable(f: ImageFormat) -> bool {
    match f {
        ImageFormat::Dxt1
        | ImageFormat::Dxt1Onebitalpha
        | ImageFormat::Dxt3
        | ImageFormat::Dxt5
        | ImageFormat::Rgba8888
        | ImageFormat::Rgb888
        | ImageFormat::Bgr888
        | ImageFormat::Bgra8888 => true,
        _ => false,
    }
}

/// What a successful decode of format `fmt` returns for a `w` by `h`
/// frame whose raw bytes are `v`: the canonical layout and the exact
/// pixel bytes, format by format.
pub open spec fn decoded_ok(img: DecodedImage, fmt: ImageFormat, w: int, h: int, v: Seq<u8>) -> bool
    recommends
        decodable(fmt),
{
    img.width == w && img.height == h && match fmt {
        ImageFormat::Dxt1 | ImageFormat::Dxt1Onebitalpha => img.layout == PixelLayout::Rgba8
            && img.data@.len() == w * h * 4 && (w > 0 && h > 0 ==> img.data@ == bc_decoded(
            1,
            v,
            w,
            h,
        )),
        ImageFormat::Dxt3 => img.layout == PixelLayout::Rgba8 && img.data@.len() == w * h * 4 && (w
            > 0 && h > 0 ==> img.data@ == bc_decoded(2, v, w, h)),
        ImageFormat::Dxt5 => img.layout == PixelLayout::Rgba8 && img.data@.len() == w * h * 4 && (w
            > 0 && h > 0 ==> img.data@ == bc_decoded(3, v, w, h)),
        ImageFormat::Rgba8888 => img.layout == PixelLayout::Rgba8 && img.data@ == v,
        ImageFormat::Rgb888 => img.layout == PixelLayout::Rgb8 && img.data@ == v,
        ImageFormat::Bgr888 => img.layout == PixelLayout::Rgb8 && img.data@ == swap_rb(v, 3),
        ImageFormat::Bgra8888 => img.layout == PixelLayout::Rgb8 && img.data@ == drop_alpha(
            swap_rb(v, 4),
        ),
        _ => false,
    }
}

/// The direct RGBA copy is an identity: a decoded RGBA frame holds exactly
/// the raw bytes, so a frame of `w * h * 4` zero bytes decodes to a pixel
/// buffer of that same length whose bytes are all zero.
pub proof fn lemma_rgba_decode_is_identity(img: DecodedImage, w: int, h: int, v: Seq<u8>)
    requires
        decoded_ok(img, ImageFormat::Rgba8888, w, h, v),
        v.len() == w * h * 4,
        forall|i: int| 0 <= i < v.len() ==> v[i] == 0,
    ensures
        img.data@.len() == w * h * 4,
        forall|i: int| 0 <= i < img.data@.len() ==> img.data@[i] == 0,
{
}

fn is_decodable(f: &ImageFormat) -> (b: bool)
    ensures
        b == decodable(*f),
{
    match f {
        ImageFormat::Dxt1
        | ImageFormat::Dxt1Onebitalpha
        | ImageFormat::Dxt3
        | ImageFormat::Dxt5
        | ImageFormat::Rgba8888
        | ImageFormat::Rgb888
        | ImageFormat::Bgr888
        | ImageFormat::Bgra8888 => true,
        _ => false,
    }
}

/// The container header, as the container reader hands it over: a read-only
/// description of the image geometry. The addressing fields beyond the
/// dimensions are consumed by the container reader, not by the decoder.
#[derive(Clone, Copy, Debug, PartialEq, Eq, Structural)]
pub struct VTFHeader {
    /// Width of the largest mip level, in pixels.
    pub width: u16,
    /// Height of the largest mip level, in pixels.
    pub height: u16,
    /// Number of frames the container holds.
    pub frames: u16,
}

/// One mip level of a texture container: the declared pixel format, the
/// dimensions of this level, and a borrowed view of the container buffer
/// together with the byte offset where this level's frame data starts.
///
/// Frames of this level lie consecutively from `offset`, each occupying
/// exactly the format's frame size; the byte range of frame `i` is computed
/// from those two values alone. The buffer is only ever read, never copied
/// or retained beyond a call.
#[derive(Debug)]
pub struct VTFImage<'a> {
    pub header: VTFHeader,
    pub format: ImageFormat,
    pub width: u16,
    pub height: u16,
    /// The whole container buffer, borrowed from the caller.
    pub bytes: &'a [u8],
    /// Byte offset within `bytes` where this level's frame data starts.
    pub offset: usize,
}

impl<'a> VTFImage<'a> {
    /// The container buffer this image reads from.
    pub open spec fn buf(&self) -> Seq<u8> {
        self.bytes@
    }

    /// Byte offset within the container buffer where this image's frame
    /// data starts.
    pub open spec fn base(&self) -> int {
        self.offset as int
    }

    /// Bytes one frame of this image occupies on disk.
    pub open spec fn fsize(&self) -> int {
        frame_size_spec(self.format, self.width as int, self.height as int)
    }

    /// The frame size fits the 32-bit byte counter the size table reports.
    pub open spec fn size_fits(&self) -> bool {
        has_size_rule(self.format) ==> self.fsize() <= u32::MAX
    }

    /// Byte offset of frame `frame` within the container buffer.
    pub open spec fn frame_base(&self, frame: int) -> int {
        self.base() + frame * self.fsize()
    }

    /// Whether frame `frame` lies entirely inside the container buffer.
    pub open spec fn frame_in_bounds(&self, frame: int) -> bool {
        self.frame_base(frame) + self.fsize() <= self.buf().len()
    }

    /// The raw bytes of frame `frame`.
    pub open spec fn frame_bytes(&self, frame: int) -> Seq<u8> {
        self.buf().subrange(self.frame_base(frame), self.frame_base(frame) + self.fsize())
    }

    /// Borrow one mip level of a container buffer.
    pub fn new(
        header: VTFHeader,
        format: ImageFormat,
        width: u16,
        height: u16,
        bytes: &'a Vec<u8>,
        offset: usize,
    ) -> (r: VTFImage<'a>)
        ensures
            r.header == header,
            r.format == format,
            r.width == width,
            r.height == height,
            r.buf() == bytes@,
            r.base() == offset as int,
    {
        VTFImage { header, format, width, height, bytes: bytes.as_slice(), offset }
    }

    /// Locate frame `frame`: the byte range it occupies inside the container
    /// buffer, borrowed without a copy.
    ///
    /// Fails with [`Error::UnsupportedImageFormat`] when the format has no
    /// size rule, and with [`Error::OutOfBounds`] when the frame's byte
    /// range does not lie entirely inside the buffer; the buffer is never
    /// read past its end.
    pub fn get_frame(&self, frame: u32) -> (r: Result<&'a [u8], Error>)
        requires
            self.size_fits(),
        ensures
            !has_size_rule(self.format) ==> r == Err::<&[u8], Error>(
                Error::UnsupportedImageFormat(self.format),
            ),
            has_size_rule(self.format) && self.frame_in_bounds(frame as int) ==> (
            r matches Ok(b) && b@ == self.frame_bytes(frame as int)),
            has_size_rule(self.format) && !self.frame_in_bounds(frame as int) ==> r
                == Err::<&[u8], Error>(Error::OutOfBounds),
    {
        let size_u32: u32 = match self.format.frame_size(self.width as u32, self.height as u32) {
            Ok(s) => s,
            Err(e) => {
                return Err(e);
            },
        };
        let len: usize = self.bytes.len();
        proof {
            assert((frame as int) * (size_u32 as int) <= 0xffff_ffff * 0xffff_ffff)
                by (nonlinear_arith)
                requires
                    0 <= frame <= 0xffff_ffff,
                    0 <= size_u32 <= 0xffff_ffff,
            ;
        }
        let rel: u64 = (frame as u64) * (size_u32 as u64);
        let base_u64: u64 = match (self.offset as u64).checked_add(rel) {
            Some(b) => b,
            None => {
                return Err(Error::OutOfBounds);
            },
        };
        let end_u64: u64 = match base_u64.checked_add(size_u32 as u64) {
            Some(e) => e,
            None => {
                return Err(Error::OutOfBounds);
            },
        };
        if end_u64 > len as u64 {
            return Err(Error::OutOfBounds);
        }
        let base: usize = base_u64 as usize;
        let end: usize = end_u64 as usize;
        Ok(slice_subrange(self.bytes, base, end))
    }

    /// Expand one block-compressed frame into its RGBA8 pixel bytes.
    fn decode_dxt(&self, bytes: &[u8], scheme: CompressionScheme) -> (r: Result<Vec<u8>, Error>)
        requires
            bytes@.len() >= blocks_spec(self.width as int) * blocks_spec(self.height as int)
                * scheme_block_bytes(scheme),
            (self.width as int) * (self.height as int) * 4 <= usize::MAX,
        ensures
            r matches Ok(out) && out@.len() == (self.width as int) * (self.height as int) * 4,
            r matches Ok(out) && (self.width > 0 && self.height > 0 ==> out@ == bc_decoded(
                scheme_id(scheme),
                bytes@,
                self.width as int,
                self.height as int,
            )),
    {
        let w: usize = self.width as usize;
        let h: usize = self.height as usize;
        proof {
            assert(0 <= w * h && w * h <= w * h * 4) by (nonlinear_arith)
                requires
                    0 <= w,
                    0 <= h,
            ;
        }
        let n: usize = w * h * 4;
        let mut output: Vec<u8> = vec![0u8; n];
        if w == 0 || h == 0 {
            return Ok(output);
        }
        decompress_blocks(scheme, bytes, w, h, &mut output);
        Ok(output)
    }

    /// Pack an owned byte buffer into a decoded image of this image's
    /// dimensions, after checking that the byte count fills the geometry
    /// under `layout` exactly; a mismatch is [`Error::InvalidImageData`].
    pub fn image_from_buffer(&self, buffer: Vec<u8>, layout: PixelLayout) -> (r: Result<
        DecodedImage,
        Error,
    >)
        ensures
            buffer@.len() == (self.width as int) * (self.height as int) * channels_spec(layout)
                ==> (r matches Ok(img) && img.layout == layout && img.width as int
                == self.width as int && img.height as int == self.height as int && img.data@
                == buffer@),
            buffer@.len() != (self.width as int) * (self.height as int) * channels_spec(layout)
                ==> r == Err::<DecodedImage, Error>(Error::InvalidImageData),
    {
        let ch: u8 = layout.channels();
        proof {
            assert((self.width as int) * (self.height as int) * (ch as int) <= 65535 * 65535 * 4)
                by (nonlinear_arith)
                requires
                    0 <= self.width <= 65535,
                    0 <= self.height <= 65535,
                    0 <= ch <= 4,
            ;
        }
        let expected: u64 = (self.width as u64) * (self.height as u64) * (ch as u64);
        if buffer.len() as u64 == expected {
            Ok(
                DecodedImage {
                    layout,
                    width: self.width as u32,
                    height: self.height as u32,
                    data: buffer,
                },
            )
        } else {
            Err(Error::InvalidImageData)
        }
    }

    /// Decode frame `frame` into a canonical pixel buffer.
    ///
    /// A format outside the decodable set fails with
    /// [`Error::UnsupportedImageFormat`]; a frame whose byte range does not
    /// lie inside the container buffer fails with [`Error::OutOfBounds`].
    /// Otherwise the result is the frame's pixels: block-compressed frames
    /// are expanded to RGBA8, RGBA and RGB frames are copied unchanged, and
    /// BGR(A) frames have their first and third channels exchanged and, for
    /// BGRA, the alpha byte dropped, yielding RGB8.
    pub fn decode(&self, frame: u32) -> (r: Result<DecodedImage, Error>)
        requires
            self.size_fits(),
            decodable(self.format) ==> (self.width as int) * (self.height as int) * 4
                <= usize::MAX,
        ensures
            !decodable(self.format) ==> r == Err::<DecodedImage, Error>(
                Error::UnsupportedImageFormat(self.format),
            ),
            decodable(self.format) && !self.frame_in_bounds(frame as int) ==> r == Err::<
                DecodedImage,
                Error,
            >(Error::OutOfBounds),
            decodable(self.format) && self.frame_in_bounds(frame as int) ==> (r matches Ok(img)
                && decoded_ok(
                img,
                self.format,
                self.width as int,
                self.height as int,
                self.frame_bytes(frame as int),
            )),
    {
        if !is_decodable(&self.format) {
            return Err(Error::UnsupportedImageFormat(self.format));
        }
        let bytes: &[u8] = match self.get_frame(frame) {
            Ok(b) => b,
            Err(e) => {
                return Err(e);
            },
        };
        match self.format {
            ImageFormat::Dxt1 | ImageFormat::Dxt1Onebitalpha => {
                let buf = match self.decode_dxt(bytes, CompressionScheme::Bc1) {
                    Ok(v) => v,
                    Err(e) => {
                        return Err(e);
                    },
                };
                self.image_from_buffer(buf, PixelLayout::Rgba8)
            },
            ImageFormat::Dxt3 => {
                let buf = match self.decode_dxt(bytes, CompressionScheme::Bc2) {
                    Ok(v) => v,
                    Err(e) => {
                        return Err(e);
                    },
                };
                self.image_from_buffer(buf, PixelLayout::Rgba8)
            },
            ImageFormat::Dxt5 => {
                let buf = match self.decode_dxt(bytes, CompressionScheme::Bc3) {
                    Ok(v) => v,
                    Err(e) => {
                        return Err(e);
                    },
                };
                self.image_from_buffer(buf, PixelLayout::Rgba8)
            },
            ImageFormat::Rgba8888 => {
                let v = slice_to_vec(bytes);
                self.image_from_buffer(v, PixelLayout::Rgba8)
            },
            ImageFormat::Rgb888 => {
                let v = slice_to_vec(bytes);
                self.image_from_buffer(v, PixelLayout::Rgb8)
            },
            ImageFormat::Bgr888 => {
                let mut v = slice_to_vec(bytes);
                swap_first_and_third(&mut v, 3);
                self.image_from_buffer(v, PixelLayout::Rgb8)
            },
            ImageFormat::Bgra8888 => {
                let mut v = slice_to_vec(bytes);
                convert_bgra(&mut v);
                proof {
                    vstd::arithmetic::div_mod::lemma_mod_multiples_basic(
                        (self.width as int) * (self.height as int),
                        4,
                    );
                    vstd::arithmetic::div_mod::lemma_div_by_multiple(
                        (self.width as int) * (self.height as int),
                        4,
                    );
                    assert(0 <= (self.width as int) * (self.height as int)) by (nonlinear_arith)
                        requires
                            0 <= self.width,
                            0 <= self.height,
                    ;
                }
                let rgb = strip_alpha(&v);
                self.image_from_buffer(rgb, PixelLayout::Rgb8)
            },
            _ => Err(Error::UnsupportedImageFormat(self.format)),
        }
    }
}

} // verus!
