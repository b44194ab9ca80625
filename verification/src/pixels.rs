use vstd::prelude::*;
use vstd::arithmetic::div_mod::lemma_div_by_multiple;
use vstd::arithmetic::div_mod::lemma_div_is_ordered;
use vstd::arithmetic::div_mod::lemma_fundamental_div_mod;
use vstd::arithmetic::div_mod::lemma_fundamental_div_mod_converse_div;
use vstd::arithmetic::div_mod::lemma_fundamental_div_mod_converse_mod;

verus! {

/// Canonical channel order of a decoded pixel buffer.
#[derive(Clone, Copy, Debug, PartialEq, Eq, Structural)]
pub enum PixelLayout {
    /// Four bytes per pixel: red, green, blue, alpha.
    Rgba8,
    /// Three bytes per pixel: red, green, blue.
    Rgb8,
}

/// Bytes each pixel occupies in a canonical layout.
pub open spec fn channels_spec(l: PixelLayout) -> int {
    match l {
        PixelLayout::Rgba8 => 4,
        PixelLayout::Rgb8 => 3,
    }
}

impl PixelLayout {
    /// Bytes each pixel occupies in this layout.
    pub fn channels(&self) -> (n: u8)
        ensures
            n == channels_spec(*self),
    {
        match self {
            PixelLayout::Rgba8 => 4,
            PixelLayout::Rgb8 => 3,
        }
    }
}

/// An owned, freshly allocated pixel buffer in canonical channel order,
/// handed to the caller by a decode call; the library retains nothing.
#[derive(Debug, PartialEq, Eq)]
pub struct DecodedImage {
    /// Channel order of `data`.
    pub layout: PixelLayout,
    /// Width in pixels.
    pub width: u32,
    /// Height in pixels.
    pub height: u32,
    /// The pixel bytes, row-major, `channels_spec(layout)` bytes per pixel.
    pub data: Vec<u8>,
}

impl DecodedImage {
    /// The byte count fills the declared geometry exactly.
    pub open spec fn wf(&self) -> bool {
        self.data@.len() == self.width * self.height * channels_spec(self.layout)
    }
}

/// `s` with the first and third byte of each complete `stride`-byte pixel
/// exchanged; bytes past the last complete pixel are unchanged.
pub open spec fn swap_rb(s: Seq<u8>, stride: int) -> Seq<u8>
    recommends
        3 <= stride,
{
    Seq::new(
        s.len(),
        |i: int|
            {
                if i < (s.len() as int / stride) * stride {
                    if i % stride == 0 {
                        s[i + 2]
                    } else if i % stride == 2 {
                        s[i - 2]
                    } else {
                        s[i]
                    }
                } else {
                    s[i]
                }
            },
    )
}

/// `s` restricted to the first three bytes of each 4-byte pixel: the
/// red, green and blue bytes of an RGBA buffer, alpha dropped.
pub open spec fn drop_alpha(s: Seq<u8>) -> Seq<u8>
    recommends
        s.len() % 4 == 0,
{
    Seq::new((((s.len() as int / 4) * 3) as nat), |i: int| s[(i / 3) * 4 + (i % 3)])
}

/// Within pixel `q` of a swapped buffer, channel 0 reads the original
/// channel 2, channel 2 reads the original channel 0, and every other
/// channel is unchanged.
pub proof fn lemma_swap_rb_group(s: Seq<u8>, stride: int, q: int, c: int)
    requires
        3 <= stride,
        0 <= c < stride,
        0 <= q,
        (q + 1) * stride <= s.len(),
    ensures
        swap_rb(s, stride)[q * stride + c] == (if c == 0 {
            s[q * stride + 2]
        } else if c == 2 {
            s[q * stride]
        } else {
            s[q * stride + c]
        }),
{
    let len = s.len() as int;
    let k = len / stride;
    let i = q * stride + c;
    lemma_fundamental_div_mod_converse_mod(i, stride, q, c);
    assert((q + 1) * stride == q * stride + stride) by (nonlinear_arith);
    lemma_div_is_ordered((q + 1) * stride, len, stride);
    lemma_div_by_multiple(q + 1, stride);
    assert((q + 1) * stride <= k * stride) by (nonlinear_arith)
        requires
            q + 1 <= k,
            stride >= 0,
    ;
    lemma_fundamental_div_mod(len, stride);
    assert(stride * k == k * stride) by (nonlinear_arith);
    assert(i < k * stride);
}

/// Byte `c` of pixel `q` in an alpha-stripped buffer is byte `c` of
/// pixel `q` in the RGBA original.
pub proof fn lemma_drop_alpha_at(s: Seq<u8>, q: int, c: int)
    requires
        0 <= c < 3,
        0 <= q,
        4 * q + 4 <= s.len(),
    ensures
        drop_alpha(s)[3 * q + c] == s[4 * q + c],
{
    let len = s.len() as int;
    let i = 3 * q + c;
    lemma_fundamental_div_mod_converse_mod(i, 3, q, c);
    lemma_fundamental_div_mod_converse_div(i, 3, q, c);
    lemma_div_is_ordered(4 * (q + 1), len, 4);
    lemma_div_by_multiple(q + 1, 4);
    assert((q + 1) * 4 == 4 * (q + 1));
    assert(i < (len / 4) * 3);
}

/// Exchanging the first and third channel of each 4-byte BGRA pixel and
/// then dropping the fourth byte yields, pixel for pixel, the bytes
/// red, green, blue: alpha is discarded, green is kept in place.
pub proof fn lemma_bgra_to_rgb(s: Seq<u8>, p: int)
    requires
        s.len() % 4 == 0,
        0 <= p,
        4 * p + 4 <= s.len(),
    ensures
        drop_alpha(swap_rb(s, 4)).len() == (s.len() as int / 4) * 3,
        drop_alpha(swap_rb(s, 4))[3 * p] == s[4 * p + 2],
        drop_alpha(swap_rb(s, 4))[3 * p + 1] == s[4 * p + 1],
        drop_alpha(swap_rb(s, 4))[3 * p + 2] == s[4 * p],
{
    let t = swap_rb(s, 4);
    lemma_drop_alpha_at(t, p, 0);
    lemma_drop_alpha_at(t, p, 1);
    lemma_drop_alpha_at(t, p, 2);
    assert((p + 1) * 4 == 4 * p + 4);
    lemma_swap_rb_group(s, 4, p, 0);
    lemma_swap_rb_group(s, 4, p, 1);
    lemma_swap_rb_group(s, 4, p, 2);
    assert(t[p * 4 + 0] == s[p * 4 + 2]);
    assert(t[p * 4 + 1] == s[p * 4 + 1]);
    assert(t[p * 4 + 2] == s[p * 4 + 0]);
}

/// Exchange the first and third channel of each complete `stride`-byte
/// pixel of `buf` in place; a trailing fragment shorter than one pixel is
/// left unchanged.
pub(crate) fn swap_first_and_third(buf: &mut Vec<u8>, stride: usize)
    requires
        3 <= stride,
    ensures
        final(buf)@ == swap_rb(old(buf)@, stride as int),
{
    let len: usize = buf.len();
    let groups: usize = len / stride;
    proof {
        lemma_fundamental_div_mod(len as int, stride as int);
    }
    let mut p: usize = 0;
    while p < groups
        invariant
            3 <= stride,
            p <= groups,
            groups == len as int / stride as int,
            len == old(buf)@.len(),
            buf@.len() == old(buf)@.len(),
            stride as int * groups as int <= len as int,
            forall|i: int|
                0 <= i < p * stride ==> buf@[i] == swap_rb(old(buf)@, stride as int)[i],
            forall|i: int| p * stride <= i < buf@.len() ==> buf@[i] == old(buf)@[i],
        decreases groups - p,
    {
        proof {
            assert(stride as int * groups as int == groups as int * stride as int)
                by (nonlinear_arith);
            assert((p + 1) * stride <= groups as int * stride as int) by (nonlinear_arith)
                requires
                    p + 1 <= groups as int,
                    stride as int >= 0,
            ;
            assert((p + 1) * stride == p * stride + stride) by (nonlinear_arith);
        }
        let i0: usize = p * stride;
        let b: u8 = buf[i0];
        let r: u8 = buf[i0 + 2];
        buf[i0] = r;
        buf[i0 + 2] = b;
        proof {
            assert forall|i: int| 0 <= i < (p + 1) * stride implies buf@[i] == swap_rb(
                old(buf)@,
                stride as int,
            )[i] by {
                if i >= p * stride {
                    lemma_swap_rb_group(old(buf)@, stride as int, p as int, i - p * stride);
                }
            }
        }
        p = p + 1;
    }
    proof {
        assert(groups * stride == stride as int * groups as int) by (nonlinear_arith);
        assert(buf@ =~= swap_rb(old(buf)@, stride as int));
    }
}

/// Exchange the first and third channel of each 4-byte pixel of `bgra` in
/// place, turning BGRA byte order into RGBA byte order (green and alpha
/// stay put); a trailing fragment shorter than one pixel is left unchanged.
pub fn convert_bgra(bgra: &mut Vec<u8>)
    ensures
        final(bgra)@ == swap_rb(old(bgra)@, 4),
{
    swap_first_and_third(bgra, 4);
}

/// The first three bytes of each 4-byte pixel of `rgba`, in order: the RGB
/// bytes of an RGBA buffer, alpha dropped.
pub(crate) fn strip_alpha(rgba: &Vec<u8>) -> (out: Vec<u8>)
    requires
        rgba@.len() % 4 == 0,
    ensures
        out@ == drop_alpha(rgba@),
{
    let len: usize = rgba.len();
    let pixels: usize = len / 4;
    proof {
        lemma_fundamental_div_mod(len as int, 4);
    }
    let mut out: Vec<u8> = Vec::new();
    let mut p: usize = 0;
    while p < pixels
        invariant
            p <= pixels,
            pixels == len as int / 4,
            len == rgba@.len(),
            4 * pixels <= len,
            out@.len() == 3 * p,
            forall|i: int| 0 <= i < 3 * p ==> out@[i] == drop_alpha(rgba@)[i],
        decreases pixels - p,
    {
        let i0: usize = p * 4;
        out.push(rgba[i0]);
        out.push(rgba[i0 + 1]);
        out.push(rgba[i0 + 2]);
        proof {
            lemma_drop_alpha_at(rgba@, p as int, 0);
            lemma_drop_alpha_at(rgba@, p as int, 1);
            lemma_drop_alpha_at(rgba@, p as int, 2);
        }
        p = p + 1;
    }
    proof {
        assert(out@ =~= drop_alpha(rgba@));
    }
    out
}

} // verus!
