//! Turning the samples of a closed curve into filled regions.
//!
//! A curve is sampled at many angles. Each sample names one pixel on the
//! boundary, and from that pixel a run of pixels is painted along its row, and
//! for some curves along its column too. Painting whole runs rather than
//! single pixels makes the result insensitive to gaps between neighbouring
//! samples.
//!
//! The samples arrive already rounded to whole pixels; where they come from is
//! not this module's concern.

use vstd::prelude::*;
use crate::pixels::{Color, Raster, RasterizedImage};

verus! {

/// Which pixels a boundary sample paints.
#[derive(Clone, Copy, Debug, PartialEq, Eq, Structural)]
pub enum Reach {
    /// Along the row to the nearer side edge, and along the column to the
    /// nearer of the top and bottom edges, the sample's pixel included.
    Edges,
    /// Along the row to the nearer side edge, the sample's pixel included.
    Side,
    /// Along the row between the sample and the centre column: from the
    /// sample's pixel up to the centre column on the left half, from the
    /// centre column up to the sample's pixel on the right half, the upper
    /// end excluded both times.
    Centre,
}

/// The geometry of a sweep over a buffer of the given width and height.
#[derive(Clone, Copy, Debug, PartialEq, Eq, Structural)]
pub struct Parametric(pub u32, pub u32);

/// A rounded coordinate brought into `0..extent`.
pub open spec fn clamp(extent: int, v: int) -> int {
    if v < 0 {
        0
    } else if v >= extent {
        extent - 1
    } else {
        v
    }
}

impl Parametric {
    /// The number of angles at which a curve is sampled: sixteen per unit of
    /// width plus height.
    pub open spec fn spec_steps(self) -> int {
        (self.0 + self.1) * 16
    }

    /// The pixel that a rounded sample names.
    pub open spec fn coord(self, sample: (i64, i64)) -> (int, int) {
        (clamp(self.0 as int, sample.0 as int), clamp(self.1 as int, sample.1 as int))
    }

    /// Whether column `x` lies left of the horizontal centre, which sits at
    /// half the width less half a pixel.
    pub open spec fn left(self, x: int) -> bool {
        2 * x + 1 < self.0
    }

    /// Whether row `y` lies above the vertical centre.
    pub open spec fn upper(self, y: int) -> bool {
        2 * y + 1 < self.1
    }

    /// The columns `lo..hi` that a sample in column `x` paints along its row.
    pub open spec fn row_span(self, reach: Reach, x: int) -> (int, int) {
        match reach {
            Reach::Edges | Reach::Side => if self.left(x) {
                (0, x + 1)
            } else {
                (x, self.0 as int)
            },
            Reach::Centre => if self.left(x) {
                (x, self.0 as int / 2)
            } else {
                (self.0 as int / 2, x)
            },
        }
    }

    /// The rows `lo..hi` that a sample in row `y` paints along its column.
    pub open spec fn column_span(self, reach: Reach, y: int) -> (int, int) {
        match reach {
            Reach::Edges => if self.upper(y) {
                (0, y + 1)
            } else {
                (y, self.1 as int)
            },
            Reach::Side | Reach::Centre => (0, 0),
        }
    }

    /// Whether the sample paints the pixel at column `x`, row `y`.
    pub open spec fn reaches(self, reach: Reach, sample: (i64, i64), x: int, y: int) -> bool {
        let at = self.coord(sample);
        let row = self.row_span(reach, at.0);
        let column = self.column_span(reach, at.1);
        (y == at.1 && row.0 <= x < row.1) || (x == at.0 && column.0 <= y < column.1)
    }

    /// Whether any of the samples paints the pixel at column `x`, row `y`.
    pub open spec fn touched(self, reach: Reach, samples: Seq<(i64, i64)>, x: int, y: int) -> bool {
        exists|k: int| 0 <= k < samples.len() && #[trigger] self.reaches(reach, samples[k], x, y)
    }

    /// The image after every pixel that some sample paints took `color`.
    pub open spec fn traced(
        self,
        before: Raster,
        reach: Reach,
        samples: Seq<(i64, i64)>,
        color: Color,
    ) -> Raster {
        Raster {
            width: before.width,
            height: before.height,
            bytes: before.bytes,
            pixels: Map::new(
                |p: (int, int)| before.pixels.contains_key(p),
                |p: (int, int)|
                    if self.touched(reach, samples, p.0, p.1) {
                        color
                    } else {
                        before.pixels[p]
                    },
            ),
        }
    }

    /// One more sample paints what the earlier ones painted and what it
    /// reaches itself.
    pub proof fn lemma_touched_push(
        self,
        reach: Reach,
        samples: Seq<(i64, i64)>,
        sample: (i64, i64),
        x: int,
        y: int,
    )
        ensures
            self.touched(reach, samples.push(sample), x, y) <==> self.touched(reach, samples, x, y)
                || self.reaches(reach, sample, x, y),
    {
        let more = samples.push(sample);
        if self.touched(reach, samples, x, y) {
            let k = choose|k: int|
                0 <= k < samples.len() && #[trigger] self.reaches(reach, samples[k], x, y);
            assert(more[k] == samples[k]);
            assert(self.reaches(reach, more[k], x, y));
        }
        if self.reaches(reach, sample, x, y) {
            assert(more[samples.len() as int] == sample);
            assert(self.reaches(reach, more[samples.len() as int], x, y));
        }
        if self.touched(reach, more, x, y) {
            let k = choose|k: int|
                0 <= k < more.len() && #[trigger] self.reaches(reach, more[k], x, y);
            if k < samples.len() {
                assert(more[k] == samples[k]);
                assert(self.reaches(reach, samples[k], x, y));
            } else {
                assert(more[k] == sample);
            }
        }
    }

    /// The number of angles at which a curve over this buffer is sampled.
    pub fn steps(&self) -> (n: u64)
        ensures
            n == self.spec_steps(),
    {
        (self.0 as u64 + self.1 as u64) * 16
    }

    /// Brings a rounded sample into the buffer: each coordinate below zero
    /// becomes zero, each one past the last pixel becomes the last pixel.
    pub fn to_coord(&self, x: i64, y: i64) -> (at: (u32, u32))
        requires
            self.0 >= 1,
            self.1 >= 1,
        ensures
            (at.0 as int, at.1 as int) == self.coord((x, y)),
            at.0 < self.0,
            at.1 < self.1,
    {
        (clamp_to(self.0, x), clamp_to(self.1, y))
    }

    /// The columns `lo..hi` that a sample in column `x` paints along its row.
    pub fn row_run(&self, reach: Reach, x: u32) -> (run: (u32, u32))
        requires
            x < self.0,
        ensures
            (run.0 as int, run.1 as int) == self.row_span(reach, x as int),
            run.1 <= self.0,
    {
        let left = 2 * (x as u64) + 1 < self.0 as u64;
        match reach {
            Reach::Edges | Reach::Side => if left {
                (0, x + 1)
            } else {
                (x, self.0)
            },
            Reach::Centre => if left {
                (x, self.0 / 2)
            } else {
                (self.0 / 2, x)
            },
        }
    }

    /// The rows `lo..hi` that a sample in row `y` paints along its column.
    pub fn column_run(&self, reach: Reach, y: u32) -> (run: (u32, u32))
        requires
            y < self.1,
        ensures
            (run.0 as int, run.1 as int) == self.column_span(reach, y as int),
            run.1 <= self.1,
    {
        let upper = 2 * (y as u64) + 1 < self.1 as u64;
        match reach {
            Reach::Edges => if upper {
                (0, y + 1)
            } else {
                (y, self.1)
            },
            Reach::Side | Reach::Centre => (0, 0),
        }
    }

    /// Paints, for each sample in turn, the run along its row and the run
    /// along its column.
    pub fn trace(
        &self,
        img: &mut RasterizedImage,
        reach: Reach,
        samples: &Vec<(i64, i64)>,
        color: Color,
    )
        requires
            old(img)@.wf(),
            old(img)@.width == self.0 >= 1,
            old(img)@.height == self.1 >= 1,
        ensures
            final(img)@ == self.traced(old(img)@, reach, samples@, color),
            final(img)@.wf(),
    {
        let ghost before = img@;
        assert(img@.pixels =~= self.traced(before, reach, samples@.take(0), color).pixels);
        let mut i: usize = 0;
        while i < samples.len()
            invariant
                i <= samples.len(),
                before.wf(),
                before.width == self.0 >= 1,
                before.height == self.1 >= 1,
                img@.wf(),
                img@ == self.traced(before, reach, samples@.take(i as int), color),
            decreases samples.len() - i,
        {
            let sample = samples[i];
            let at = self.to_coord(sample.0, sample.1);
            let row = self.row_run(reach, at.0);
            let column = self.column_run(reach, at.1);
            let ghost seen = samples@.take(i as int);
            let ghost painted = img@;
            img.fill_row(at.1, row.0, row.1, color);
            img.fill_column(at.0, column.0, column.1, color);
            i = i + 1;
            proof {
                assert(samples@.take(i as int) =~= seen.push(sample));
                let after = self.traced(before, reach, seen.push(sample), color);
                assert forall|p: (int, int)| after.pixels.contains_key(p) implies img@.pixels[p]
                    == #[trigger] after.pixels[p] by {
                    self.lemma_touched_push(reach, seen, sample, p.0, p.1);
                }
                assert(img@.pixels =~= after.pixels);
            }
        }
        assert(samples@.take(samples.len() as int) =~= samples@);
    }
}

/// A rounded coordinate brought into `0..extent`.
fn clamp_to(extent: u32, v: i64) -> (c: u32)
    requires
        extent >= 1,
    ensures
        c == clamp(extent as int, v as int),
        c < extent,
{
    if v < 0 {
        0
    } else if v >= extent as i64 {
        extent - 1
    } else {
        v as u32
    }
}

} // verus!
