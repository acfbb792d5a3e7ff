//! The shapes and how each is rasterised.
//!
//! A shape is drawn at several times its size, one solid run of pixels at a
//! time, and the enlarged drawing is then resampled down to the size asked
//! for. The resampling is the only source of soft edges.

use vstd::prelude::*;
use crate::pixels::{
    can_hold, fits, resampled, transparent, Color, Raster, RasterError, RasterizedImage, FILTER,
    MULTIPLICITY,
};
use crate::trace::{Parametric, Reach};

verus! {

/// How many times larger than the target a shape is drawn before it is
/// resampled down.
pub const SUPERSAMPLING: u32 = 4;

/// The smaller of two numbers.
pub open spec fn least(a: int, b: int) -> int {
    if a <= b {
        a
    } else {
        b
    }
}

/// The stroke width in pixels of the enlarged drawing: the stroke, held to
/// half the smaller side, times the enlargement.
pub open spec fn stroke_width(stroke: u32, size: (u32, u32), factor: u32) -> int {
    least(stroke as int, least(size.0 as int, size.1 as int) / 2) * factor
}

/// Whether the enlarged drawing of a shape of this size can be held: both
/// sides fit a `u32` and the pixels fit in memory.
pub open spec fn drawable(size: (u32, u32), factor: u32) -> bool {
    &&& size.0 * factor <= u32::MAX
    &&& size.1 * factor <= u32::MAX
    &&& fits(size.0 * factor, size.1 * factor)
}

/// The geometry of the enlarged drawing, or `None` where it cannot be held.
pub fn enlarged(size: (u32, u32), factor: u32) -> (geometry: Option<Parametric>)
    ensures
        match geometry {
            Some(g) => drawable(size, factor) && g.0 == size.0 * factor && g.1 == size.1 * factor,
            None => !drawable(size, factor),
        },
{
    assert(size.0 * factor <= 0xffff_ffff * 0xffff_ffff && size.1 * factor <= 0xffff_ffff
        * 0xffff_ffff) by (nonlinear_arith)
        requires
            0 <= size.0 <= 0xffff_ffff,
            0 <= size.1 <= 0xffff_ffff,
            0 <= factor <= 0xffff_ffff,
    ;
    let width: u64 = size.0 as u64 * factor as u64;
    let height: u64 = size.1 as u64 * factor as u64;
    if width > u32::MAX as u64 || height > u32::MAX as u64 {
        return None;
    }
    if can_hold(width as u32, height as u32) {
        Some(Parametric(width as u32, height as u32))
    } else {
        None
    }
}

/// The stroke width in pixels of the enlarged drawing.
pub fn scaled_stroke(stroke: u32, size: (u32, u32), factor: u32) -> (width: u32)
    requires
        size.0 * factor <= u32::MAX,
        size.1 * factor <= u32::MAX,
    ensures
        width == stroke_width(stroke, size, factor),
        width <= size.0 * factor,
        width <= size.1 * factor,
{
    let side = if size.0 <= size.1 {
        size.0
    } else {
        size.1
    };
    let held = if stroke <= side / 2 {
        stroke
    } else {
        side / 2
    };
    assert(held * factor <= size.0 * factor && held * factor <= size.1 * factor) by (nonlinear_arith)
        requires
            0 <= held <= size.0,
            held <= size.1,
            0 <= factor,
    ;
    held * factor
}

/// What drawing a shape of the given size returns, where `canvas` is its
/// drawing enlarged by `factor`. A size without pixels is a resampling error,
/// a drawing too large to hold is reported as such, and for any other the
/// image that the resampler makes of the canvas at the shape's size comes
/// back.
pub open spec fn rasterized(
    r: Result<RasterizedImage, RasterError>,
    size: (u32, u32),
    factor: u32,
    canvas: Raster,
) -> bool {
    if size.0 == 0 || size.1 == 0 {
        r == Err::<RasterizedImage, RasterError>(RasterError::Resample)
    } else if !drawable(size, factor) {
        r == Err::<RasterizedImage, RasterError>(RasterError::TooLarge)
    } else {
        r matches Ok(img) && img@ == canvas.resampled(
            size.0 as nat,
            size.1 as nat,
            FILTER,
            MULTIPLICITY,
        ) && img@.wf()
    }
}

/// No image: the shape cannot be drawn with this kind of fill.
pub open spec fn unavailable(r: Result<RasterizedImage, RasterError>) -> bool {
    r == Err::<RasterizedImage, RasterError>(RasterError::NotImplemented)
}

/// An ellipse that fills its bounding box, outlined with the given stroke, or
/// filled where the stroke is zero.
#[derive(Clone, Copy, Debug, Hash)]
pub struct Ellipse {
    pub stroke: u32,
    pub size: (u32, u32),
}

/// A rectangle of the given size.
#[derive(Clone, Copy, Debug, Hash)]
pub struct Rectangle {
    pub stroke: u32,
    pub size: (u32, u32),
}

/// A rectangle of the given size whose corners are rounded.
#[derive(Clone, Copy, Debug, Hash)]
pub struct RoundedRectangle {
    pub stroke: u32,
    pub size: (u32, u32),
    pub corner_radius: u32,
}

impl Ellipse {
    /// The enlarged drawing of the ellipse.
    ///
    /// `inset` samples the curve that lies a stroke's width inside the
    /// ellipse, `rim` the ellipse itself. With a stroke, the corner squares
    /// and everything from the inset curve out to the edges take the colour,
    /// and then everything from the rim out to the side edges is cleared:
    /// what stays is the ring between the two curves. Without a stroke the
    /// rim alone is used, and each of its samples paints its row as far as
    /// the centre column.
    pub open spec fn canvas(
        self,
        color: Color,
        factor: u32,
        inset: Seq<(i64, i64)>,
        rim: Seq<(i64, i64)>,
    ) -> Raster {
        let geometry = Parametric((self.size.0 * factor) as u32, (self.size.1 * factor) as u32);
        let blank = Raster::blank(geometry.0 as nat, geometry.1 as nat);
        let stroke = stroke_width(self.stroke, self.size, factor);
        if stroke > 0 {
            geometry.traced(
                geometry.traced(blank.corners(stroke, stroke, color), Reach::Edges, inset, color),
                Reach::Side,
                rim,
                transparent(),
            )
        } else {
            geometry.traced(blank, Reach::Centre, rim, color)
        }
    }

    /// Draws the ellipse enlarged by `factor`.
    pub fn supersample(
        self,
        color: Color,
        factor: u32,
        inset: &Vec<(i64, i64)>,
        rim: &Vec<(i64, i64)>,
    ) -> (img: RasterizedImage)
        requires
            self.size.0 >= 1,
            self.size.1 >= 1,
            factor >= 1,
            drawable(self.size, factor),
        ensures
            img@ == self.canvas(color, factor, inset@, rim@),
            img@.width == self.size.0 * factor,
            img@.height == self.size.1 * factor,
            img@.wf(),
    {
        assert(self.size.0 * factor >= 1 && self.size.1 * factor >= 1) by (nonlinear_arith)
            requires
                self.size.0 >= 1,
                self.size.1 >= 1,
                factor >= 1,
        ;
        let geometry = Parametric(self.size.0 * factor, self.size.1 * factor);
        let stroke = scaled_stroke(self.stroke, self.size, factor);
        let mut img = RasterizedImage::new(geometry.0, geometry.1);
        if stroke > 0 {
            img.fill_corners(stroke, color);
            geometry.trace(&mut img, Reach::Edges, inset, color);
            geometry.trace(&mut img, Reach::Side, rim, (0, 0, 0, 0));
        } else {
            geometry.trace(&mut img, Reach::Centre, rim, color);
        }
        img
    }

    /// The ellipse in one colour, drawn enlarged by `factor` and resampled to
    /// its size.
    ///
    /// A size without pixels is a resampling error. A drawing too large to
    /// hold is reported as such. Otherwise the enlarged drawing is exactly
    /// `canvas`, and what comes back is the image that the resampler makes of
    /// it at the ellipse's size.
    pub fn rasterize(
        self,
        color: Color,
        factor: u32,
        inset: &Vec<(i64, i64)>,
        rim: &Vec<(i64, i64)>,
    ) -> (r: Result<RasterizedImage, RasterError>)
        requires
            factor >= 1,
        ensures
            rasterized(r, self.size, factor, self.canvas(color, factor, inset@, rim@)),
    {
        if self.size.0 == 0 || self.size.1 == 0 {
            return Err(RasterError::Resample);
        }
        if enlarged(self.size, factor).is_none() {
            return Err(RasterError::TooLarge);
        }
        proof {
            lemma_target_fits(self.size, factor);
        }
        let canvas = self.supersample(color, factor, inset, rim);
        canvas.resample(self.size.0, self.size.1)
    }

    /// The ellipse in one colour, at the standard enlargement.
    pub fn color(self, pixel: Color, inset: &Vec<(i64, i64)>, rim: &Vec<(i64, i64)>) -> (r: Result<
        RasterizedImage,
        RasterError,
    >)
        ensures
            rasterized(
                r,
                self.size,
                SUPERSAMPLING,
                self.canvas(pixel, SUPERSAMPLING, inset@, rim@),
            ),
    {
        self.rasterize(pixel, SUPERSAMPLING, inset, rim)
    }

    /// The ellipse filled from a source image: not available.
    pub fn image(self, image: &RasterizedImage) -> (r: Result<RasterizedImage, RasterError>)
        ensures
            unavailable(r),
    {
        Err(RasterError::NotImplemented)
    }
}

impl Rectangle {
    /// The rectangle in one colour: not available.
    pub fn color(self, color: Color) -> (r: Result<RasterizedImage, RasterError>)
        ensures
            unavailable(r),
    {
        Err(RasterError::NotImplemented)
    }

    /// The rectangle filled from a source image: the source resampled to the
    /// rectangle's size. A rectangle is its own bounding box, so nothing is
    /// masked and the stroke plays no part.
    pub fn image(self, image: &RasterizedImage) -> (r: Result<RasterizedImage, RasterError>)
        ensures
            resampled(r, image@, self.size.0, self.size.1, FILTER, MULTIPLICITY),
    {
        image.resample(self.size.0, self.size.1)
    }
}

impl RoundedRectangle {
    /// The rounded rectangle in one colour: not available.
    pub fn color(self, color: Color) -> (r: Result<RasterizedImage, RasterError>)
        ensures
            unavailable(r),
    {
        Err(RasterError::NotImplemented)
    }

    /// The rounded rectangle filled from a source image: not available.
    pub fn image(self, image: &RasterizedImage) -> (r: Result<RasterizedImage, RasterError>)
        ensures
            unavailable(r),
    {
        Err(RasterError::NotImplemented)
    }
}

/// A shape by kind: its stroke, its size, and for a rounded rectangle the
/// radius of its corners.
#[derive(Clone, Copy, Debug, Hash)]
pub enum Shape {
    Ellipse(u32, (u32, u32)),
    Rectangle(u32, (u32, u32)),
    RoundedRectangle(u32, (u32, u32), u32),
}

impl Shape {
    /// The shape in one colour. Only an ellipse can be drawn so, and the
    /// shape must be one; `inset` and `rim` are its boundary samples. What
    /// comes back is what the ellipse of the same stroke and size gives.
    pub fn color(self, color: Color, inset: &Vec<(i64, i64)>, rim: &Vec<(i64, i64)>) -> (r: Result<
        RasterizedImage,
        RasterError,
    >)
        requires
            self is Ellipse,
        ensures
            self matches Shape::Ellipse(stroke, size) ==> rasterized(
                r,
                size,
                SUPERSAMPLING,
                (Ellipse { stroke, size }).canvas(color, SUPERSAMPLING, inset@, rim@),
            ),
    {
        match self {
            Shape::Ellipse(stroke, size) => Ellipse { stroke, size }.color(color, inset, rim),
            Shape::Rectangle(stroke, size) => Rectangle { stroke, size }.color(color),
            Shape::RoundedRectangle(stroke, size, corner_radius) => RoundedRectangle {
                stroke,
                size,
                corner_radius,
            }.color(color),
        }
    }

    /// The shape filled from a source image. Only a rectangle can be drawn
    /// so, and the shape must be one. What comes back is what the rectangle
    /// of the same stroke and size gives.
    pub fn image(self, image: &RasterizedImage) -> (r: Result<RasterizedImage, RasterError>)
        requires
            self is Rectangle,
        ensures
            self matches Shape::Rectangle(_, size) ==> resampled(
                r,
                image@,
                size.0,
                size.1,
                FILTER,
                MULTIPLICITY,
            ),
    {
        match self {
            Shape::Ellipse(stroke, size) => Ellipse { stroke, size }.image(image),
            Shape::Rectangle(stroke, size) => Rectangle { stroke, size }.image(image),
            Shape::RoundedRectangle(stroke, size, corner_radius) => RoundedRectangle {
                stroke,
                size,
                corner_radius,
            }.image(image),
        }
    }
}

/// A stroke above half the smaller side draws what that half draws.
pub proof fn law_stroke_is_held(
    ellipse: Ellipse,
    color: Color,
    factor: u32,
    inset: Seq<(i64, i64)>,
    rim: Seq<(i64, i64)>,
)
    requires
        ellipse.stroke >= least(ellipse.size.0 as int, ellipse.size.1 as int) / 2,
    ensures
        ({
            let half = (least(ellipse.size.0 as int, ellipse.size.1 as int) / 2) as u32;
            let held = Ellipse { stroke: half, size: ellipse.size };
            &&& stroke_width(ellipse.stroke, ellipse.size, factor) == half * factor
            &&& ellipse.canvas(color, factor, inset, rim) == held.canvas(color, factor, inset, rim)
        }),
{
}

/// Whether the pixel lies in one of the four corner squares of the given
/// side.
pub open spec fn in_corner(geometry: Parametric, side: int, x: int, y: int) -> bool {
    (x < side || x >= geometry.0 - side) && (y < side || y >= geometry.1 - side)
}

/// The enlarged drawing, pixel by pixel. With a stroke, a pixel has the
/// colour where no sample of the rim clears it and it lies in a corner square
/// or is reached from the inset curve. Without a stroke, it has the colour
/// where a sample of the rim reaches it toward the centre. Every other pixel
/// is transparent.
pub proof fn law_canvas_pixel(
    ellipse: Ellipse,
    color: Color,
    factor: u32,
    inset: Seq<(i64, i64)>,
    rim: Seq<(i64, i64)>,
    x: int,
    y: int,
)
    requires
        drawable(ellipse.size, factor),
        0 <= x < ellipse.size.0 * factor,
        0 <= y < ellipse.size.1 * factor,
    ensures
        ({
            let geometry = Parametric(
                (ellipse.size.0 * factor) as u32,
                (ellipse.size.1 * factor) as u32,
            );
            let stroke = stroke_width(ellipse.stroke, ellipse.size, factor);
            let canvas = ellipse.canvas(color, factor, inset, rim);
            &&& canvas.wf()
            &&& canvas.width == ellipse.size.0 * factor
            &&& canvas.height == ellipse.size.1 * factor
            &&& canvas.bytes == 4 * canvas.width * canvas.height
            &&& stroke > 0 ==> canvas.at(x, y) == if geometry.touched(Reach::Side, rim, x, y) {
                transparent()
            } else if in_corner(geometry, stroke, x, y) || geometry.touched(
                Reach::Edges,
                inset,
                x,
                y,
            ) {
                color
            } else {
                transparent()
            }
            &&& stroke <= 0 ==> canvas.at(x, y) == if geometry.touched(Reach::Centre, rim, x, y) {
                color
            } else {
                transparent()
            }
        }),
{
}

/// A drawing that can be held enlarged can be held at its own size.
pub proof fn lemma_target_fits(size: (u32, u32), factor: u32)
    requires
        factor >= 1,
        drawable(size, factor),
    ensures
        fits(size.0 as int, size.1 as int),
{
    assert(4 * size.0 * size.1 <= 4 * (size.0 * factor) * (size.1 * factor) && 4 * size.0 <= 4 * (
        size.0 * factor)) by (nonlinear_arith)
        requires
            factor >= 1,
            size.0 >= 0,
            size.1 >= 0,
    ;
}

} // verus!
