//! A software framebuffer surface: a resizable array of packed pixels that is
//! handed, frame by frame, to a native window's compositing layer.

mod error;
mod pixels;
mod surface;
mod window;

pub use error::SoftBufferError;
pub use pixels::{be_bytes, le_bytes, Buffer};
pub use surface::{
    addressable, area, fit, lemma_fresh_buffer_after_present, lemma_present_without_write_is_noop,
    lemma_resize_then_buffer_len, lemma_stable_size, CGImpl, Frame, SurfaceView, BITS_PER_COMPONENT, BITS_PER_PIXEL, BYTES_PER_PIXEL,
};
pub use window::WindowHandle;
