use vstd::prelude::*;

use crate::error::SoftBufferError;
use crate::pixels::Buffer;
use crate::window::WindowHandle;

verus! {

/// Bits of each colour channel in a presented image.
pub const BITS_PER_COMPONENT: usize = 8;

/// Bits of each pixel in a presented image: one packed `u32`, top byte unused.
pub const BITS_PER_PIXEL: usize = 32;

/// Bytes of each pixel in a presented image.
pub const BYTES_PER_PIXEL: usize = 4;

/// The number of pixels of a `width` by `height` frame.
pub open spec fn area(width: u32, height: u32) -> nat {
    width as nat * height as nat
}

/// `buf` cut down, or extended with zero pixels, to exactly `len` pixels.
pub open spec fn fit(buf: Seq<u32>, len: nat) -> Seq<u32> {
    if len <= buf.len() {
        buf.take(len as int)
    } else {
        buf + Seq::new((len - buf.len()) as nat, |i: int| 0u32)
    }
}

/// The state of a surface: its window, the size that was last asked for, and
/// the pixels written since the last presentation, if any.
pub struct SurfaceView {
    pub window: WindowHandle,
    pub width: u32,
    pub height: u32,
    pub buffer: Option<Seq<u32>>,
}

impl SurfaceView {
    /// A surface just set up on `window`: no size and no pixels.
    pub open spec fn initial(window: WindowHandle) -> SurfaceView {
        SurfaceView { window, width: 0, height: 0, buffer: None }
    }

    /// The state after a request for a `width` by `height` frame.
    pub open spec fn resized(self, width: u32, height: u32) -> SurfaceView {
        SurfaceView { width, height, ..self }
    }

    /// The pixels held, or none.
    pub open spec fn stored(self) -> Seq<u32> {
        match self.buffer {
            Some(px) => px,
            None => Seq::empty(),
        }
    }

    /// The pixels that a writer is handed: what is held, fitted to the size.
    pub open spec fn writable(self) -> Seq<u32> {
        fit(self.stored(), area(self.width, self.height))
    }

    /// The state once the writer has left `px` in the buffer.
    pub open spec fn with_buffer(self, px: Seq<u32>) -> SurfaceView {
        SurfaceView { buffer: Some(px), ..self }
    }

    /// The state after a presentation: the pixels have been handed over.
    pub open spec fn presented(self) -> SurfaceView {
        SurfaceView { buffer: None, ..self }
    }

    /// The pixels that a presentation hands over, if any were written.
    pub open spec fn pending_frame(self) -> Option<Seq<u32>> {
        match self.buffer {
            Some(px) => Some(fit(px, area(self.width, self.height))),
            None => None,
        }
    }
}

/// Whatever the state and whatever size is asked for, the pixels handed out
/// after a resize number exactly `width * height`.
pub proof fn lemma_resize_then_buffer_len(s: SurfaceView, width: u32, height: u32)
    ensures
        s.resized(width, height).writable().len() == area(width, height),
{
}

/// Asking twice for the pixels without a resize between hands out a view of the
/// same size both times, holding what was written through the first.
pub proof fn lemma_stable_size(s: SurfaceView, written: Seq<u32>)
    requires
        written.len() == s.writable().len(),
    ensures
        s.with_buffer(written).writable().len() == s.writable().len(),
        s.with_buffer(written).writable() == written,
{
    assert(s.with_buffer(written).writable() =~= written);
}

/// A presentation with nothing written since the surface was set up, or since
/// the previous presentation, hands nothing over and leaves the state as it is.
pub proof fn lemma_present_without_write_is_noop(window: WindowHandle, s: SurfaceView)
    ensures
        SurfaceView::initial(window).pending_frame() is None,
        SurfaceView::initial(window).presented() == SurfaceView::initial(window),
        s.presented().pending_frame() is None,
        s.presented().presented() == s.presented(),
{
}

/// After a presentation, whatever sizes are asked for before the next write,
/// the pixels handed out are fresh: all zero, nothing kept from the frame shown.
pub proof fn lemma_fresh_buffer_after_present(s: SurfaceView, width: u32, height: u32)
    ensures
        s.presented().writable() == Seq::new(area(s.width, s.height), |i: int| 0u32),
        s.presented().resized(width, height).writable() == Seq::new(
            area(width, height),
            |i: int| 0u32,
        ),
{
    assert(s.presented().writable() =~= Seq::new(area(s.width, s.height), |i: int| 0u32));
    assert(s.presented().resized(width, height).writable() =~= Seq::new(
        area(width, height),
        |i: int| 0u32,
    ));
}

/// Everything an image is built from when a frame is presented: the pixels,
/// which it takes over, and the layout in which they are read.
pub struct Frame {
    pub buffer: Buffer,
    pub width: usize,
    pub height: usize,
    pub bits_per_component: usize,
    pub bits_per_pixel: usize,
    pub bytes_per_row: usize,
}

impl Frame {
    /// This frame is a `width` by `height` image of the pixels `px`, rows of
    /// `width` packed 32-bit pixels one after another.
    pub open spec fn describes(self, width: u32, height: u32, px: Seq<u32>) -> bool {
        &&& self.width == width
        &&& self.height == height
        &&& self.bits_per_component == BITS_PER_COMPONENT
        &&& self.bits_per_pixel == BITS_PER_PIXEL
        &&& self.bytes_per_row == BYTES_PER_PIXEL * width
        &&& self.buffer@ == px
    }
}

/// A software framebuffer surface on one native window.
pub struct CGImpl {
    window: WindowHandle,
    buffer: Option<Vec<u32>>,
    width: u32,
    height: u32,
}

impl View for CGImpl {
    type V = SurfaceView;

    closed spec fn view(&self) -> SurfaceView {
        SurfaceView {
            window: self.window,
            width: self.width,
            height: self.height,
            buffer: match self.buffer {
                Some(v) => Some(v@),
                None => None,
            },
        }
    }
}

/// A `width` by `height` frame, and a row of it in bytes, can be addressed.
pub open spec fn addressable(width: u32, height: u32) -> bool {
    area(width, height) <= usize::MAX && BYTES_PER_PIXEL * width <= usize::MAX
}

fn pixel_count(width: u32, height: u32) -> (r: usize)
    requires
        area(width, height) <= usize::MAX,
    ensures
        r == area(width, height),
{
    width as usize * height as usize
}

impl CGImpl {
    /// Sets up a surface on the window that `handle` refers to.
    pub fn new(handle: WindowHandle) -> (r: Result<CGImpl, SoftBufferError>)
        ensures
            r is Ok <==> handle.is_valid(),
            r is Ok ==> r->Ok_0@ == SurfaceView::initial(handle),
            r is Err ==> r->Err_0 == SoftBufferError::InitializationError,
    {
        if !handle.is_valid_handle() {
            return Err(SoftBufferError::InitializationError);
        }
        Ok(CGImpl { window: handle, buffer: None, width: 0, height: 0 })
    }

    /// The window this surface draws into.
    pub fn window(&self) -> (r: WindowHandle)
        ensures
            r == self@.window,
    {
        self.window
    }

    /// The width of the frames to come, in pixels.
    pub fn width(&self) -> (r: u32)
        ensures
            r == self@.width,
    {
        self.width
    }

    /// The height of the frames to come, in pixels.
    pub fn height(&self) -> (r: u32)
        ensures
            r == self@.height,
    {
        self.height
    }

    /// Records the size of the frames to come; allocates nothing.
    pub fn resize(&mut self, width: u32, height: u32) -> (r: Result<(), SoftBufferError>)
        ensures
            r is Ok,
            final(self)@ == old(self)@.resized(width, height),
    {
        self.width = width;
        self.height = height;
        Ok(())
    }

    /// The pixels of the next frame, exactly `width * height` of them: those
    /// already written, cut down or extended with zeros to the current size.
    pub fn buffer_mut(&mut self) -> (r: Result<&mut [u32], SoftBufferError>)
        requires
            area(old(self)@.width, old(self)@.height) <= usize::MAX,
        ensures
            r is Ok,
            r->Ok_0@ == old(self)@.writable(),
            r->Ok_0@.len() == area(old(self)@.width, old(self)@.height),
            final(self)@ == old(self)@.with_buffer(final(r->Ok_0)@),
    {
        if self.buffer.is_none() {
            self.buffer = Some(Vec::new());
        }
        let n = pixel_count(self.width, self.height);
        let buffer = self.buffer.as_mut().unwrap();
        buffer.resize(n, 0);
        Ok(buffer.as_mut_slice())
    }

    /// Hands the written pixels over for display, leaving none behind. With
    /// nothing written since the last presentation there is nothing to show.
    pub fn present(&mut self) -> (r: Result<Option<Frame>, SoftBufferError>)
        requires
            old(self)@.buffer is Some ==> addressable(old(self)@.width, old(self)@.height),
        ensures
            r is Ok,
            final(self)@ == old(self)@.presented(),
            old(self)@.pending_frame() is None ==> r->Ok_0 is None,
            old(self)@.pending_frame() is Some ==> {
                &&& r->Ok_0 is Some
                &&& r->Ok_0->0.describes(
                    old(self)@.width,
                    old(self)@.height,
                    old(self)@.pending_frame()->0,
                )
            },
    {
        match self.buffer.take() {
            Some(mut pixels) => {
                let n = pixel_count(self.width, self.height);
                pixels.resize(n, 0);
                assert(pixels@ == fit(old(self)@.stored(), n as nat));
                let width = self.width as usize;
                Ok(
                    Some(
                        Frame {
                            buffer: Buffer::new(pixels),
                            width,
                            height: self.height as usize,
                            bits_per_component: BITS_PER_COMPONENT,
                            bits_per_pixel: BITS_PER_PIXEL,
                            bytes_per_row: BYTES_PER_PIXEL * width,
                        },
                    ),
                )
            },
            None => Ok(None),
        }
    }
}

} // verus!
