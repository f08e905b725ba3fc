//! Pixel formats and render-loop logic for driving a software-rendered UI on
//! a handheld console's display.
//!
//! The crate has two layers. The pixel-format layer defines the display's
//! native encodings and, for each, how to build an opaque pixel from an RGB
//! triplet and how to composite a premultiplied colour onto a stored pixel.
//! The backend layer owns the frame buffer and decides, one step at a time,
//! what the render loop has to do next.

pub mod color;
pub mod pixel_format;
pub mod pixel;
pub mod frame_buffer;
pub mod backend;
pub mod platform;

pub use crate::backend::SlintBackend3DS;
pub use crate::color::PremultipliedColor;
pub use crate::frame_buffer::FrameBuffer;
pub use crate::frame_buffer::Surface;
pub use crate::pixel::Pixel;
pub use crate::pixel::PixelEncoding;
pub use crate::pixel_format::Bgr8Pixel;
pub use crate::pixel_format::Rgb565Pixel;
pub use crate::pixel_format::Rgb5A1Pixel;
pub use crate::pixel_format::Rgba4Pixel;
pub use crate::pixel_format::Rgba8Pixel;
pub use crate::platform::init;
