use vstd::prelude::*;
use crate::format::blocks_spec;

verus! {

/// The block-compression schemes the external decompressor understands.
/// `Bc1` carries colour with optional 1-bit alpha, `Bc2` paletted alpha,
/// `Bc3` gradient alpha.
#[derive(Clone, Copy, Debug, PartialEq, Eq, Structural)]
pub enum CompressionScheme {
    Bc1,
    Bc2,
    Bc3,
}

/// Identifying number of a compression scheme, used to index
/// [`bc_decoded`].
pub open spec fn scheme_id(s: CompressionScheme) -> int {
    match s {
        CompressionScheme::Bc1 => 1,
        CompressionScheme::Bc2 => 2,
        CompressionScheme::Bc3 => 3,
    }
}

/// Bytes each compressed 4x4 block occupies under a scheme.
pub open spec fn scheme_block_bytes(s: CompressionScheme) -> int {
    match s {
        CompressionScheme::Bc1 => 8,
        CompressionScheme::Bc2 => 16,
        CompressionScheme::Bc3 => 16,
    }
}

/// The RGBA8 pixel bytes, row-major and four bytes per pixel, that block
/// decompression under scheme `scheme` yields from the compressed bytes
/// `data` for a `width` by `height` image: a function of these arguments
/// alone, named here and otherwise left unstated.
pub uninterp spec fn bc_decoded(scheme: int, data: Seq<u8>, width: int, height: int) -> Seq<u8>;

/// Relies on texpresso's `Format::decompress`: it reads one compressed
/// block per 4x4 pixel tile from `data` and overwrites every byte of
/// `output` with the decompressed RGBA8 pixels of a `width` by `height`
/// image. The bytes it writes are computed from the compressed bytes and
/// the dimensions alone.
#[verifier::external_body]
pub(crate) fn decompress_blocks(
    scheme: CompressionScheme,
    data: &[u8],
    width: usize,
    height: usize,
    output: &mut Vec<u8>,
)
    requires
        1 <= width,
        width * 16 <= usize::MAX,
        old(output)@.len() == width * height * 4,
        data@.len() >= blocks_spec(width as int) * blocks_spec(height as int)
            * scheme_block_bytes(scheme),
    ensures
        final(output)@.len() == old(output)@.len(),
        final(output)@ == bc_decoded(scheme_id(scheme), data@, width as int, height as int),
{
    let variant = match scheme {
        CompressionScheme::Bc1 => texpresso::Format::Bc1,
        CompressionScheme::Bc2 => texpresso::Format::Bc2,
        CompressionScheme::Bc3 => texpresso::Format::Bc3,
    };
    variant.decompress(data, width, height, output.as_mut_slice());
}

} // verus!
