//! The RGBA8 pixel buffer that shapes are drawn into.
//!
//! The buffer is an `image::RgbaImage`. Verus cannot look inside one, so its
//! size, its pixels and the number of its bytes are modelled by uninterpreted
//! functions, and so is what the resampler makes of an image. Every operation
//! on the buffer goes through one of the small functions below whose
//! contracts are taken on trust.

use vstd::prelude::*;
use fast_image_resize::{FilterType, ResizeAlg, ResizeOptions, Resizer};
use image::{ColorType, DynamicImage};

verus! {

/// An RGBA8 colour: red, green, blue, alpha.
pub type Color = (u8, u8, u8, u8);

/// The colour of a pixel that nothing was drawn on.
pub open spec fn transparent() -> Color {
    (0u8, 0u8, 0u8, 0u8)
}

/// Why no image came back.
#[derive(Clone, Copy, Debug, PartialEq, Eq, Structural)]
pub enum RasterError {
    /// The shape cannot be drawn with this kind of fill.
    NotImplemented,
    /// The target has no pixels, or the resampler reported an error.
    Resample,
    /// The working buffer would not fit in memory.
    TooLarge,
}

/// An owned RGBA8 image with its width and height.
///
/// Trusted: the field is an `image::RgbaImage`, a generic type bounded by a
/// trait of that crate, which cannot be declared to the verifier. The value
/// is therefore opaque, and `image_size`, `image_pixels` and `image_len` say
/// what it holds.
#[verifier::external_body]
#[derive(Debug)]
pub struct RasterizedImage {
    inner: image::RgbaImage,
}

#[verifier::external_type_specification]
#[verifier::external_body]
pub struct ExResizeError(fast_image_resize::ResizeError);

/// The kernel that weighs the source pixels of one resampled pixel.
#[derive(Clone, Copy, Debug, PartialEq, Eq, Structural)]
pub enum Filter {
    Box,
    Bilinear,
    Hamming,
    CatmullRom,
    Mitchell,
    Gaussian,
    Lanczos3,
}

/// The kernel that shapes are resampled with: a windowed sinc of three lobes.
pub const FILTER: Filter = Filter::Lanczos3;

/// The multiplicity that shapes are resampled with. A source that is larger
/// than the target by clearly more than this factor is first reduced to about
/// this many times the target's size by nearest-neighbour sampling, and the
/// kernel is applied to what is left.
pub const MULTIPLICITY: u8 = 12;

/// Width and height of an image, in pixels.
pub uninterp spec fn image_size(img: RasterizedImage) -> (nat, nat);

/// The pixels of an image, keyed by column and row, both counted from zero at
/// the top left corner.
pub uninterp spec fn image_pixels(img: RasterizedImage) -> Map<(int, int), Color>;

/// How many bytes back an image: four for each pixel, and whatever an image
/// made from more bytes than that was given on top.
pub uninterp spec fn image_len(img: RasterizedImage) -> nat;

/// The pixels that the resampler makes of a source image for a target of the
/// given size, with the given kernel and multiplicity. The resampler reads
/// nothing but these: the same source, size, kernel and multiplicity give the
/// same pixels.
pub uninterp spec fn resampled_pixels(
    src: Raster,
    width: nat,
    height: nat,
    filter: Filter,
    multiplicity: u8,
) -> Map<(int, int), Color>;

/// What an image is, as a mathematical value.
pub struct Raster {
    pub width: nat,
    pub height: nat,
    pub bytes: nat,
    pub pixels: Map<(int, int), Color>,
}

impl Raster {
    /// Whether column `x`, row `y` lies inside the image.
    pub open spec fn holds(self, x: int, y: int) -> bool {
        0 <= x < self.width && 0 <= y < self.height
    }

    /// The pixels cover exactly the positions inside the image.
    pub open spec fn wf(self) -> bool {
        forall|x: int, y: int| #[trigger] self.pixels.contains_key((x, y)) <==> self.holds(x, y)
    }

    /// The colour at column `x`, row `y`.
    pub open spec fn at(self, x: int, y: int) -> Color {
        self.pixels[(x, y)]
    }

    /// An image of the given size with every pixel transparent.
    pub open spec fn blank(width: nat, height: nat) -> Raster {
        Raster {
            width,
            height,
            bytes: 4 * width * height,
            pixels: Map::new(
                |p: (int, int)| 0 <= p.0 < width && 0 <= p.1 < height,
                |p: (int, int)| transparent(),
            ),
        }
    }

    /// The image that the resampler makes of this one: of exactly the given
    /// size, with four bytes for each pixel and none to spare.
    pub open spec fn resampled(self, width: nat, height: nat, filter: Filter, multiplicity: u8) -> Raster {
        Raster {
            width,
            height,
            bytes: 4 * width * height,
            pixels: resampled_pixels(self, width, height, filter, multiplicity),
        }
    }

    /// The same image with one pixel replaced.
    pub open spec fn put(self, x: int, y: int, color: Color) -> Raster {
        Raster {
            width: self.width,
            height: self.height,
            bytes: self.bytes,
            pixels: self.pixels.insert((x, y), color),
        }
    }

    /// The same image with the pixels of row `y` in columns `from..to`
    /// replaced by `color`.
    pub open spec fn fill_row(self, y: int, from: int, to: int, color: Color) -> Raster {
        Raster {
            width: self.width,
            height: self.height,
            bytes: self.bytes,
            pixels: Map::new(
                |p: (int, int)| self.pixels.contains_key(p),
                |p: (int, int)|
                    if p.1 == y && from <= p.0 < to {
                        color
                    } else {
                        self.pixels[p]
                    },
            ),
        }
    }

    /// The same image with the pixels of column `x` in rows `from..to`
    /// replaced by `color`.
    pub open spec fn fill_column(self, x: int, from: int, to: int, color: Color) -> Raster {
        Raster {
            width: self.width,
            height: self.height,
            bytes: self.bytes,
            pixels: Map::new(
                |p: (int, int)| self.pixels.contains_key(p),
                |p: (int, int)|
                    if p.0 == x && from <= p.1 < to {
                        color
                    } else {
                        self.pixels[p]
                    },
            ),
        }
    }

    /// The same image with `color` in the four corner blocks: the outermost
    /// `columns` columns on either side, within the outermost `side` rows at
    /// the top and at the bottom.
    pub open spec fn corners(self, side: int, columns: int, color: Color) -> Raster {
        Raster {
            width: self.width,
            height: self.height,
            bytes: self.bytes,
            pixels: Map::new(
                |p: (int, int)| self.pixels.contains_key(p),
                |p: (int, int)|
                    if (p.0 < columns || p.0 >= self.width - columns) && (p.1 < side || p.1
                        >= self.height - side) {
                        color
                    } else {
                        self.pixels[p]
                    },
            ),
        }
    }
}

impl View for RasterizedImage {
    type V = Raster;

    open spec fn view(&self) -> Raster {
        Raster {
            width: image_size(*self).0,
            height: image_size(*self).1,
            bytes: image_len(*self),
            pixels: image_pixels(*self),
        }
    }
}

/// Whether an RGBA8 image of this size fits in memory: the bytes of one row
/// must be countable, and the four bytes per pixel of all rows must not
/// exceed the largest allocation.
pub open spec fn fits(width: int, height: int) -> bool {
    4 * width <= usize::MAX && 4 * width * height <= isize::MAX
}

/// `image::RgbaImage::new`: an image of the given size whose pixels are all
/// zero. The call panics when the byte length overflows, which the
/// precondition rules out.
#[verifier::external_body]
fn raw_blank(width: u32, height: u32) -> (img: RasterizedImage)
    requires
        fits(width as int, height as int),
    ensures
        image_size(img) == (width as nat, height as nat),
        image_len(img) == 4 * width * height,
        image_pixels(img) == Raster::blank(width as nat, height as nat).pixels,
{
    RasterizedImage { inner: image::RgbaImage::new(width, height) }
}

/// `image::RgbaImage::dimensions`: the width and the height.
#[verifier::external_body]
fn raw_dimensions(img: &RasterizedImage) -> (size: (u32, u32))
    ensures
        (size.0 as nat, size.1 as nat) == image_size(*img),
{
    img.inner.dimensions()
}

/// `image::RgbaImage::put_pixel`: replaces the pixel at `(x, y)` and leaves
/// the size, the number of bytes and every other pixel alone. The call panics outside the image,
/// which the precondition rules out.
#[verifier::external_body]
fn raw_put(img: &mut RasterizedImage, x: u32, y: u32, color: Color)
    requires
        old(img)@.holds(x as int, y as int),
    ensures
        image_size(*final(img)) == image_size(*old(img)),
        image_len(*final(img)) == image_len(*old(img)),
        image_pixels(*final(img)) == image_pixels(*old(img)).insert((x as int, y as int), color),
{
    img.inner.put_pixel(x, y, image::Rgba([color.0, color.1, color.2, color.3]));
}

/// `image::RgbaImage::get_pixel`: the pixel at `(x, y)`. The call panics
/// outside the image, which the precondition rules out.
#[verifier::external_body]
fn raw_get(img: &RasterizedImage, x: u32, y: u32) -> (color: Color)
    requires
        img@.holds(x as int, y as int),
    ensures
        color == image_pixels(*img)[(x as int, y as int)],
{
    let p = img.inner.get_pixel(x, y).0;
    (p[0], p[1], p[2], p[3])
}

/// The colour that the four bytes from `4 * (y * width + x)` on spell.
pub open spec fn color_in(bytes: Seq<u8>, width: int, x: int, y: int) -> Color {
    let at = 4 * (y * width + x);
    (bytes[at], bytes[at + 1], bytes[at + 2], bytes[at + 3])
}

/// Whether the bytes are enough for an image of this size: the bytes of one
/// row must be countable, and there must be four bytes for each pixel.
pub open spec fn enough(width: int, height: int, bytes: int) -> bool {
    4 * width <= usize::MAX && 4 * width * height <= bytes
}

/// `image::RgbaImage::from_raw`: an image over the given bytes, four for each
/// pixel, row by row from the top. It is `None` exactly where the bytes are
/// fewer than the size takes; bytes past the last pixel are kept but show no
/// pixel.
#[verifier::external_body]
fn raw_from_bytes(width: u32, height: u32, bytes: Vec<u8>) -> (out: Option<RasterizedImage>)
    ensures
        out is Some <==> enough(width as int, height as int, bytes@.len() as int),
        out matches Some(img) ==> image_size(img) == (width as nat, height as nat) && image_len(
            img,
        ) == bytes@.len() && image_pixels(img) == Map::new(
            |p: (int, int)| 0 <= p.0 < width && 0 <= p.1 < height,
            |p: (int, int)| color_in(bytes@, width as int, p.0, p.1),
        ),
{
    match image::RgbaImage::from_raw(width, height, bytes) {
        Some(inner) => Some(RasterizedImage { inner }),
        None => None,
    }
}

/// `image::RgbaImage::into_raw`: the bytes that back the image, four for
/// each pixel, row by row from the top. An image made from more bytes than
/// its size takes gives all of them back.
#[verifier::external_body]
fn raw_into_bytes(img: RasterizedImage) -> (bytes: Vec<u8>)
    ensures
        bytes@.len() == image_len(img),
        forall|x: int, y: int|
            0 <= x < image_size(img).0 && 0 <= y < image_size(img).1 ==> #[trigger] image_pixels(
                img,
            )[(x, y)] == color_in(bytes@, image_size(img).0 as int, x, y),
{
    img.inner.into_raw()
}

/// `fast_image_resize::Resizer::resize` by supersampling with the given
/// kernel and multiplicity, from a copy of `src` into a fresh RGBA8 image of
/// the wanted size.
///
/// The call reports an error only for a pixel type that it does not support
/// or that differs between the two images, and for a crop box outside the
/// source. Both images are RGBA8 here and no crop box is set, so it succeeds.
/// The result has exactly the wanted size and no spare bytes. Its pixels are
/// `resampled_pixels` of what went in. Making the fresh image panics when its
/// byte length overflows, which the precondition rules out.
#[verifier::external_body]
fn raw_resample(
    src: &RasterizedImage,
    width: u32,
    height: u32,
    filter: Filter,
    multiplicity: u8,
) -> (out: Result<RasterizedImage, fast_image_resize::ResizeError>)
    requires
        fits(width as int, height as int),
    ensures
        out is Ok,
        out matches Ok(img) ==> image_size(img) == (width as nat, height as nat),
        out matches Ok(img) ==> image_len(img) == 4 * width * height,
        out matches Ok(img) ==> image_pixels(img) == resampled_pixels(
            src@,
            width as nat,
            height as nat,
            filter,
            multiplicity,
        ),
        out matches Ok(img) ==> image_pixels(img).dom() == Raster::blank(
            width as nat,
            height as nat,
        ).pixels.dom(),
{
    let kernel = match filter {
        Filter::Box => FilterType::Box,
        Filter::Bilinear => FilterType::Bilinear,
        Filter::Hamming => FilterType::Hamming,
        Filter::CatmullRom => FilterType::CatmullRom,
        Filter::Mitchell => FilterType::Mitchell,
        Filter::Gaussian => FilterType::Gaussian,
        Filter::Lanczos3 => FilterType::Lanczos3,
    };
    let options = ResizeOptions::new().resize_alg(ResizeAlg::SuperSampling(kernel, multiplicity));
    let from = DynamicImage::ImageRgba8(src.inner.clone());
    let mut to = DynamicImage::new(width, height, ColorType::Rgba8);
    Resizer::new().resize(&from, &mut to, &options)?;
    Ok(RasterizedImage { inner: to.into_rgba8() })
}

/// What resampling a source to the given size returns. A target without
/// pixels is a resampling error, one that does not fit in memory is too
/// large, and for any other the image that the resampler makes of the source
/// comes back.
pub open spec fn resampled(
    r: Result<RasterizedImage, RasterError>,
    src: Raster,
    width: u32,
    height: u32,
    filter: Filter,
    multiplicity: u8,
) -> bool {
    if width == 0 || height == 0 {
        r == Err::<RasterizedImage, RasterError>(RasterError::Resample)
    } else if !fits(width as int, height as int) {
        r == Err::<RasterizedImage, RasterError>(RasterError::TooLarge)
    } else {
        r matches Ok(img) && img@ == src.resampled(
            width as nat,
            height as nat,
            filter,
            multiplicity,
        ) && img@.wf()
    }
}

/// What a resampling attempt amounts to: the image it produced, or the
/// resampling error in place of whatever the resampler reported.
pub fn settle(outcome: Result<RasterizedImage, fast_image_resize::ResizeError>) -> (r: Result<
    RasterizedImage,
    RasterError,
>)
    ensures
        match outcome {
            Ok(img) => r == Ok::<RasterizedImage, RasterError>(img),
            Err(_) => r == Err::<RasterizedImage, RasterError>(RasterError::Resample),
        },
{
    match outcome {
        Ok(img) => Ok(img),
        Err(_) => Err(RasterError::Resample),
    }
}

/// Whether an RGBA8 image of this size fits in memory.
pub fn can_hold(width: u32, height: u32) -> (ok: bool)
    ensures
        ok == fits(width as int, height as int),
{
    assert(width * height <= 0xffff_ffff * 0xffff_ffff) by (nonlinear_arith)
        requires
            0 <= width <= 0xffff_ffff,
            0 <= height <= 0xffff_ffff,
    ;
    let area: u128 = (width as u128) * (height as u128);
    assert(4 * width * height == 4 * (width * height)) by (nonlinear_arith);
    4 * (width as u128) <= usize::MAX as u128 && 4 * area <= isize::MAX as u128
}

impl RasterizedImage {
    /// A fully transparent image of the given size.
    pub fn new(width: u32, height: u32) -> (img: RasterizedImage)
        requires
            fits(width as int, height as int),
        ensures
            img@ == Raster::blank(width as nat, height as nat),
            img@.wf(),
    {
        raw_blank(width, height)
    }

    /// An image over the given bytes, four for each pixel, row by row from
    /// the top; `None` where the bytes are fewer than the size takes.
    pub fn from_raw(width: u32, height: u32, bytes: Vec<u8>) -> (out: Option<RasterizedImage>)
        ensures
            out is Some <==> enough(width as int, height as int, bytes@.len() as int),
            out matches Some(img) ==> img@.width == width && img@.height == height && img@.bytes
                == bytes@.len() && img@.wf() && forall|x: int, y: int|
                img@.holds(x, y) ==> #[trigger] img@.at(x, y) == color_in(
                    bytes@,
                    width as int,
                    x,
                    y,
                ),
    {
        raw_from_bytes(width, height, bytes)
    }

    /// The bytes that back the image, four for each pixel, row by row from
    /// the top. An image that this library made has no other bytes; one made
    /// from more bytes than its size takes gives all of them back.
    pub fn into_raw(self) -> (bytes: Vec<u8>)
        ensures
            bytes@.len() == self@.bytes,
            forall|x: int, y: int|
                self@.holds(x, y) ==> #[trigger] self@.at(x, y) == color_in(
                    bytes@,
                    self@.width as int,
                    x,
                    y,
                ),
    {
        raw_into_bytes(self)
    }

    /// The width in pixels.
    pub fn width(&self) -> (w: u32)
        ensures
            w == self@.width,
    {
        raw_dimensions(self).0
    }

    /// The height in pixels.
    pub fn height(&self) -> (h: u32)
        ensures
            h == self@.height,
    {
        raw_dimensions(self).1
    }

    /// The colour at column `x`, row `y`, or `None` outside the image.
    pub fn pixel(&self, x: u32, y: u32) -> (color: Option<Color>)
        ensures
            color == if self@.holds(x as int, y as int) {
                Some(self@.at(x as int, y as int))
            } else {
                None
            },
    {
        let size = raw_dimensions(self);
        if x < size.0 && y < size.1 {
            Some(raw_get(self, x, y))
        } else {
            None
        }
    }

    /// Replaces the colour at column `x`, row `y`.
    pub fn put_pixel(&mut self, x: u32, y: u32, color: Color)
        requires
            old(self)@.holds(x as int, y as int),
        ensures
            final(self)@ == old(self)@.put(x as int, y as int, color),
    {
        raw_put(self, x, y, color)
    }

    /// This image resampled to the given size with the standard kernel and
    /// multiplicity.
    pub fn resample(&self, width: u32, height: u32) -> (r: Result<RasterizedImage, RasterError>)
        ensures
            resampled(r, self@, width, height, FILTER, MULTIPLICITY),
    {
        self.resample_with(width, height, FILTER, MULTIPLICITY)
    }

    /// This image resampled to the given size by supersampling with the
    /// given kernel and multiplicity. A target without pixels is an error,
    /// and so is one that does not fit in memory. For any other the image
    /// that the resampler makes of this one comes back.
    pub fn resample_with(
        &self,
        width: u32,
        height: u32,
        filter: Filter,
        multiplicity: u8,
    ) -> (r: Result<RasterizedImage, RasterError>)
        ensures
            resampled(r, self@, width, height, filter, multiplicity),
    {
        if width == 0 || height == 0 {
            return Err(RasterError::Resample);
        }
        if !can_hold(width, height) {
            return Err(RasterError::TooLarge);
        }
        settle(raw_resample(self, width, height, filter, multiplicity))
    }

    /// Paints the four corner squares of the given side.
    pub fn fill_corners(&mut self, side: u32, color: Color)
        requires
            old(self)@.wf(),
            side <= old(self)@.width,
            side <= old(self)@.height,
        ensures
            final(self)@ == old(self)@.corners(side as int, side as int, color),
            final(self)@.wf(),
    {
        let ghost before = self@;
        let width = self.width();
        let height = self.height();
        assert(self@.pixels =~= before.corners(side as int, 0, color).pixels);
        let mut x: u32 = 0;
        while x < side
            invariant
                before.wf(),
                width == before.width,
                height == before.height,
                side <= width,
                side <= height,
                x <= side,
                self@.wf(),
                self@ == before.corners(side as int, x as int, color),
            decreases side - x,
        {
            self.fill_column(x, 0, side, color);
            self.fill_column(x, height - side, height, color);
            self.fill_column(width - 1 - x, 0, side, color);
            self.fill_column(width - 1 - x, height - side, height, color);
            x = x + 1;
            assert(self@.pixels =~= before.corners(side as int, x as int, color).pixels);
        }
    }

    /// Paints the pixels of row `y` in columns `from..to`; an empty or
    /// reversed range paints nothing.
    pub fn fill_row(&mut self, y: u32, from: u32, to: u32, color: Color)
        requires
            old(self)@.wf(),
            y < old(self)@.height,
            to <= old(self)@.width,
        ensures
            final(self)@ == old(self)@.fill_row(y as int, from as int, to as int, color),
            final(self)@.wf(),
    {
        let ghost before = self@;
        assert(self@.pixels =~= before.fill_row(y as int, from as int, from as int, color).pixels);
        let mut x: u32 = from;
        while x < to
            invariant
                before.wf(),
                y < before.height,
                to <= before.width,
                from <= x,
                x <= to || x == from,
                self@ == before.fill_row(y as int, from as int, x as int, color),
            decreases to - x,
        {
            assert(before.pixels.contains_key((x as int, y as int)));
            raw_put(self, x, y, color);
            x = x + 1;
            assert(self@.pixels =~= before.fill_row(y as int, from as int, x as int, color).pixels);
        }
        assert(self@.pixels =~= before.fill_row(y as int, from as int, to as int, color).pixels);
    }

    /// Paints the pixels of column `x` in rows `from..to`; an empty or
    /// reversed range paints nothing.
    pub fn fill_column(&mut self, x: u32, from: u32, to: u32, color: Color)
        requires
            old(self)@.wf(),
            x < old(self)@.width,
            to <= old(self)@.height,
        ensures
            final(self)@ == old(self)@.fill_column(x as int, from as int, to as int, color),
            final(self)@.wf(),
    {
        let ghost before = self@;
        assert(self@.pixels =~= before.fill_column(x as int, from as int, from as int, color).pixels);
        let mut y: u32 = from;
        while y < to
            invariant
                before.wf(),
                x < before.width,
                to <= before.height,
                from <= y,
                y <= to || y == from,
                self@ == before.fill_column(x as int, from as int, y as int, color),
            decreases to - y,
        {
            assert(before.pixels.contains_key((x as int, y as int)));
            raw_put(self, x, y, color);
            y = y + 1;
            assert(self@.pixels =~= before.fill_column(x as int, from as int, y as int, color).pixels);
        }
        assert(self@.pixels =~= before.fill_column(x as int, from as int, to as int, color).pixels);
    }
}

} // verus!
