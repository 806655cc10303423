use vstd::prelude::*;

verus! {

/// The bytes of `px` in memory on a little-endian machine: four per pixel,
/// least significant first.
pub open spec fn le_bytes(px: Seq<u32>) -> Seq<u8> {
    Seq::new(4 * px.len(), |i: int| ((px[i / 4] >> (8 * (i % 4)) as u32) & 0xff) as u8)
}

/// The bytes of `px` in memory on a big-endian machine: four per pixel, most
/// significant first.
pub open spec fn be_bytes(px: Seq<u32>) -> Seq<u8> {
    Seq::new(4 * px.len(), |i: int| ((px[i / 4] >> (8 * (3 - i % 4)) as u32) & 0xff) as u8)
}

/// Relies on bytemuck::cast_slice: a `u32` slice reinterpreted in place as the
/// bytes it occupies, four per value in the machine's byte order. Casting to
/// `u8` never meets the alignment or size failures on which it panics.
#[verifier::external_body]
fn cast_to_bytes(pixels: &[u32]) -> (r: &[u8])
    ensures
        r@ == le_bytes(pixels@) || r@ == be_bytes(pixels@),
{
    bytemuck::cast_slice(pixels)
}

/// An owned frame of packed 32-bit pixels, row-major, one value per pixel.
pub struct Buffer {
    pixels: Vec<u32>,
}

impl View for Buffer {
    type V = Seq<u32>;

    closed spec fn view(&self) -> Seq<u32> {
        self.pixels@
    }
}

impl Buffer {
    pub fn new(pixels: Vec<u32>) -> (r: Buffer)
        ensures
            r@ == pixels@,
    {
        Buffer { pixels }
    }

    pub fn len(&self) -> (r: usize)
        ensures
            r == self@.len(),
    {
        self.pixels.len()
    }

    pub fn pixels(&self) -> (r: &[u32])
        ensures
            r@ == self@,
    {
        self.pixels.as_slice()
    }

    pub fn into_pixels(self) -> (r: Vec<u32>)
        ensures
            r@ == self@,
    {
        self.pixels
    }

    /// The pixel memory as bytes, without copying, as an image's data source
    /// reads it.
    pub fn as_bytes(&self) -> (r: &[u8])
        ensures
            r@ == le_bytes(self@) || r@ == be_bytes(self@),
            r@.len() == 4 * self@.len(),
    {
        cast_to_bytes(self.pixels.as_slice())
    }
}

} // verus!
