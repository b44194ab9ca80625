pub mod dxt;
pub mod error;
pub mod format;
pub mod image;
pub mod pixels;

pub use error::Error;
pub use format::ImageFormat;
pub use image::VTFHeader;
pub use image::VTFImage;
pub use pixels::DecodedImage;
pub use pixels::PixelLayout;
pub use pixels::convert_bgra;
