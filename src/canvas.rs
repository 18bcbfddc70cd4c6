//! One raster image, held as an `image::RgbImage` and described through its
//! size and a map from pixel coordinates to colour.

use vstd::prelude::*;

verus! {

/// An RGB colour as its red, green and blue channels.
pub type Colour = (u8, u8, u8);

/// An RGB image of fixed size.
#[verifier::external_body]
pub struct Canvas {
    img: image::RgbImage,
}

/// Width and height that a canvas was created with.
pub uninterp spec fn canvas_size(c: Canvas) -> (u32, u32);

/// Colour of every pixel of a canvas, keyed by `(x, y)`.
pub uninterp spec fn canvas_pixels(c: Canvas) -> Map<(u32, u32), Colour>;

/// The coordinates that lie inside a `width` by `height` image.
pub open spec fn in_image(width: u32, height: u32, p: (u32, u32)) -> bool {
    p.0 < width && p.1 < height
}

/// A `width` by `height` image whose pixels are all black.
pub open spec fn black_pixels(width: u32, height: u32) -> Map<(u32, u32), Colour> {
    Map::new(|p: (u32, u32)| in_image(width, height, p), |p: (u32, u32)| (0u8, 0u8, 0u8))
}

/// Position of the first sample of pixel `(x, y)` in the row-major raw data
/// of a `width` wide RGB image.
pub open spec fn raw_index(width: u32, x: u32, y: u32) -> int {
    3 * ((y as int) * (width as int) + (x as int))
}

/// `raw` is the row-major RGB data of a `width` by `height` image with the
/// given pixels.
pub open spec fn raw_holds(raw: Seq<u8>, width: u32, height: u32, pixels: Map<(u32, u32), Colour>) -> bool {
    &&& raw.len() == 3 * (width as int) * (height as int)
    &&& forall|x: u32, y: u32|
        #![trigger pixels[(x, y)]]
        in_image(width, height, (x, y)) ==> {
            &&& raw[raw_index(width, x, y)] == pixels[(x, y)].0
            &&& raw[raw_index(width, x, y) + 1] == pixels[(x, y)].1
            &&& raw[raw_index(width, x, y) + 2] == pixels[(x, y)].2
        }
}

impl Canvas {
    /// Relies on `ImageBuffer::new`: a `width` by `height` image whose samples
    /// are all zero; it panics when `3 * width * height` overflows `usize`.
    #[verifier::external_body]
    pub(crate) fn new(width: u32, height: u32) -> (c: Canvas)
        requires
            3 * (width as int) * (height as int) <= usize::MAX,
        ensures
            canvas_size(c) == (width, height),
            canvas_pixels(c) == black_pixels(width, height),
    {
        Canvas { img: image::RgbImage::new(width, height) }
    }

    /// Relies on `ImageBuffer::put_pixel`: it overwrites the one pixel at
    /// `(x, y)` and panics when that lies outside the image.
    #[verifier::external_body]
    pub(crate) fn put_pixel(&mut self, x: u32, y: u32, c: Colour)
        requires
            in_image(canvas_size(*old(self)).0, canvas_size(*old(self)).1, (x, y)),
        ensures
            canvas_size(*final(self)) == canvas_size(*old(self)),
            canvas_pixels(*final(self)) == canvas_pixels(*old(self)).insert((x, y), c),
    {
        self.img.put_pixel(x, y, image::Rgb([c.0, c.1, c.2]))
    }

    /// Relies on `ImageBuffer::get_pixel`: the colour stored at `(x, y)`; it
    /// panics when that lies outside the image.
    #[verifier::external_body]
    pub(crate) fn get_pixel(&self, x: u32, y: u32) -> (c: Colour)
        requires
            in_image(canvas_size(*self).0, canvas_size(*self).1, (x, y)),
        ensures
            c == canvas_pixels(*self)[(x, y)],
    {
        let p = self.img.get_pixel(x, y);
        (p.0[0], p.0[1], p.0[2])
    }

    /// Relies on `ImageBuffer::into_raw`: the samples of the image, row by
    /// row, three per pixel.
    #[verifier::external_body]
    pub(crate) fn into_raw(self) -> (raw: Vec<u8>)
        ensures
            raw_holds(raw@, canvas_size(self).0, canvas_size(self).1, canvas_pixels(self)),
    {
        self.img.into_raw()
    }
}

} // verus!
