use vstd::prelude::*;
use crate::format::ImageFormat;

verus! {

/// The closed set of failures a frame lookup or decode call can report.
///
/// Every failure is terminal for the call that produced it: the library
/// performs no local recovery and never returns partial output.
#[derive(Clone, Copy, Debug, PartialEq, Eq, Structural)]
pub enum Error {
    /// The declared pixel format has no size rule or no decode rule.
    UnsupportedImageFormat(ImageFormat),
    /// The raw bytes cannot fill the requested pixel geometry.
    InvalidImageData,
    /// The computed frame byte range exceeds the container buffer.
    OutOfBounds,
}

} // verus!
