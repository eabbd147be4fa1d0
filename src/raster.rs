//! An RGB raster held in the image crate's `RgbImage`, with the pixel
//! operations the generator needs stated over a row-major model of its
//! contents.

use vstd::prelude::*;
use crate::shading::{Color, color_spec};

verus! {

/// A width by height grid of RGB pixels, held in the image crate's
/// `RgbImage`.
#[verifier::external_body]
pub struct Raster {
    image: image::RgbImage,
}

/// The pixels of a raster in row-major order (x runs fastest), each as its
/// red, green and blue channel values.
pub uninterp spec fn raster_pixels(r: Raster) -> Seq<(int, int, int)>;

/// The width and height a raster was made with.
pub uninterp spec fn raster_dims(r: Raster) -> (u32, u32);

/// Relies on `ImageBuffer::new`: a `width` by `height` buffer of black
/// pixels. It panics when three bytes per pixel overflow `usize`.
#[verifier::external_body]
fn new_image(width: u32, height: u32) -> (r: Raster)
    requires
        3 * (width as int) * (height as int) <= usize::MAX,
    ensures
        raster_dims(r) == (width, height),
        raster_pixels(r) == Seq::new((width as nat) * (height as nat), |i: int| (0int, 0int, 0int)),
{
    Raster { image: image::RgbImage::new(width, height) }
}

/// Relies on `ImageBuffer::put_pixel`: it overwrites the pixel at `(x, y)`,
/// stored at row-major index `y * width + x`, and panics out of bounds.
#[verifier::external_body]
fn put_color(r: &mut Raster, x: u32, y: u32, c: Color)
    requires
        x < raster_dims(*old(r)).0,
        y < raster_dims(*old(r)).1,
    ensures
        raster_dims(*final(r)) == raster_dims(*old(r)),
        raster_pixels(*final(r)) == raster_pixels(*old(r)).update(
            (y as int) * (raster_dims(*old(r)).0 as int) + (x as int),
            color_spec(c),
        ),
{
    r.image.put_pixel(x, y, image::Rgb([c.red, c.green, c.blue]));
}

/// Relies on `ImageBuffer::get_pixel`: the pixel at `(x, y)`, stored at
/// row-major index `y * width + x`; it panics out of bounds.
#[verifier::external_body]
fn get_color(r: &Raster, x: u32, y: u32) -> (c: Color)
    requires
        x < raster_dims(*r).0,
        y < raster_dims(*r).1,
    ensures
        color_spec(c) == raster_pixels(*r)[(y as int) * (raster_dims(*r).0 as int) + (x as int)],
{
    let p = r.image.get_pixel(x, y);
    Color { red: p.0[0], green: p.0[1], blue: p.0[2] }
}

/// Relies on `ImageBuffer::width`: the width the buffer was made with.
#[verifier::external_body]
fn image_width(r: &Raster) -> (w: u32)
    ensures
        w == raster_dims(*r).0,
{
    r.image.width()
}

/// Relies on `ImageBuffer::height`: the height the buffer was made with.
#[verifier::external_body]
fn image_height(r: &Raster) -> (h: u32)
    ensures
        h == raster_dims(*r).1,
{
    r.image.height()
}

/// Relies on `ImageBuffer::into_raw`: the sample buffer, three bytes per
/// pixel (red, green, blue) in row-major order, exactly one pixel per cell
/// for a buffer made by `ImageBuffer::new`.
#[verifier::external_body]
fn image_bytes(r: Raster) -> (bytes: Vec<u8>)
    requires
        raster_pixels(r).len() == (raster_dims(r).0 as int) * (raster_dims(r).1 as int),
    ensures
        bytes@.len() == 3 * raster_pixels(r).len(),
        forall|i: int| 0 <= i < raster_pixels(r).len() ==> (
            #[trigger] raster_pixels(r)[i] == (bytes@[3 * i] as int, bytes@[3 * i + 1] as int, bytes@[3 * i + 2] as int)),
{
    r.image.into_raw()
}

impl Raster {
    /// Number of columns.
    pub closed spec fn width_spec(&self) -> nat {
        raster_dims(*self).0 as nat
    }

    /// Number of rows.
    pub closed spec fn height_spec(&self) -> nat {
        raster_dims(*self).1 as nat
    }

    /// The pixels in row-major order.
    pub closed spec fn pixels_spec(&self) -> Seq<(int, int, int)> {
        raster_pixels(*self)
    }

    /// The colour at column `x`, row `y`.
    pub open spec fn pixel_spec(&self, x: int, y: int) -> (int, int, int) {
        self.pixels_spec()[y * self.width_spec() + x]
    }

    /// One pixel per cell of the grid.
    pub open spec fn wf(&self) -> bool {
        self.pixels_spec().len() == self.width_spec() * self.height_spec()
    }

    /// An all-black raster of the given size.
    pub fn new(width: u32, height: u32) -> (r: Raster)
        requires
            3 * (width as int) * (height as int) <= usize::MAX,
        ensures
            r.wf(),
            r.width_spec() == width,
            r.height_spec() == height,
            forall|x: int, y: int|
                0 <= x < width && 0 <= y < height ==> #[trigger] r.pixel_spec(x, y) == (0int, 0int, 0int),
    {
        let r = new_image(width, height);
        assert forall|x: int, y: int| 0 <= x < width && 0 <= y < height implies
            #[trigger] r.pixel_spec(x, y) == (0int, 0int, 0int) by {
            assert(0 <= y * width + x < width * height) by (nonlinear_arith)
                requires 0 <= x < width, 0 <= y < height;
        }
        r
    }

    /// Number of columns.
    pub fn width(&self) -> (w: u32)
        ensures
            w == self.width_spec(),
    {
        image_width(self)
    }

    /// Number of rows.
    pub fn height(&self) -> (h: u32)
        ensures
            h == self.height_spec(),
    {
        image_height(self)
    }

    /// The colour at column `x`, row `y`.
    pub fn pixel(&self, x: u32, y: u32) -> (c: Color)
        requires
            x < self.width_spec(),
            y < self.height_spec(),
        ensures
            color_spec(c) == self.pixel_spec(x as int, y as int),
    {
        get_color(self, x, y)
    }

    /// Sets the colour at column `x`, row `y`, leaving every other pixel as
    /// it was.
    pub fn set_pixel(&mut self, x: u32, y: u32, c: Color)
        requires
            old(self).wf(),
            x < old(self).width_spec(),
            y < old(self).height_spec(),
        ensures
            final(self).wf(),
            final(self).width_spec() == old(self).width_spec(),
            final(self).height_spec() == old(self).height_spec(),
            final(self).pixel_spec(x as int, y as int) == color_spec(c),
            forall|i: int, j: int|
                0 <= i < old(self).width_spec() && 0 <= j < old(self).height_spec() && (i != x || j != y)
                    ==> #[trigger] final(self).pixel_spec(i, j) == old(self).pixel_spec(i, j),
    {
        let ghost w = self.width_spec() as int;
        let ghost h = self.height_spec() as int;
        proof {
            assert(0 <= y * w + x < w * h) by (nonlinear_arith)
                requires 0 <= x < w, 0 <= y < h;
        }
        put_color(self, x, y, c);
        assert forall|i: int, j: int|
            0 <= i < w && 0 <= j < h && (i != x || j != y) implies
                #[trigger] self.pixel_spec(i, j) == old(self).pixel_spec(i, j) by {
            assert(j * w + i != y * w + x) by (nonlinear_arith)
                requires 0 <= i < w, 0 <= j < h, 0 <= x < w, 0 <= y < h, i != x || j != y;
            assert(0 <= j * w + i < w * h) by (nonlinear_arith)
                requires 0 <= i < w, 0 <= j < h;
        }
    }

    /// The raster as bytes, three per pixel (red, green, blue), row by row.
    pub fn into_bytes(self) -> (bytes: Vec<u8>)
        requires
            self.wf(),
        ensures
            bytes@.len() == 3 * self.width_spec() * self.height_spec(),
            forall|x: int, y: int| 0 <= x < self.width_spec() && 0 <= y < self.height_spec() ==> {
                let i = y * self.width_spec() + x;
                #[trigger] self.pixel_spec(x, y) == (bytes@[3 * i] as int, bytes@[3 * i + 1] as int, bytes@[3 * i + 2] as int)
            },
    {
        let ghost w = self.width_spec() as int;
        let ghost h = self.height_spec() as int;
        let ghost px = self.pixels_spec();
        let bytes = image_bytes(self);
        assert(bytes@.len() == 3 * w * h) by (nonlinear_arith)
            requires bytes@.len() == 3 * px.len(), px.len() == w * h;
        assert forall|x: int, y: int| 0 <= x < w && 0 <= y < h implies
            #[trigger] px[y * w + x] == (bytes@[3 * (y * w + x)] as int, bytes@[3 * (y * w + x) + 1] as int, bytes@[3 * (y * w + x) + 2] as int) by {
            assert(0 <= y * w + x < w * h) by (nonlinear_arith)
                requires 0 <= x < w, 0 <= y < h;
        }
        bytes
    }
}

} // verus!
