//! Where on the viewport the samples of a pixel fall.

use vstd::prelude::*;
use crate::fraction::Fraction;
use crate::sampling::{RegularSampler, SampleGenerator, SampleOffset};
use crate::tracer::Resolution;

verus! {

/// A point of the viewport: `h` runs from the left edge (0) to the right
/// edge (1), `v` from the bottom edge (0) to the top edge (1).
#[derive(Clone, Copy, Debug, PartialEq, Eq, Structural)]
pub struct ViewportPoint {
    pub h: Fraction,
    pub v: Fraction,
}

/// The viewport point of a sample of the pixel in `column` and `row`:
/// `h = (column + x) / (width - 1)` and `v = 1 - (row + y) / (height - 1)`,
/// so that row 0 is the top of the image.
pub open spec fn viewport_point(
    resolution: Resolution,
    column: int,
    row: int,
    offset: SampleOffset,
) -> ViewportPoint {
    ViewportPoint {
        h: Fraction {
            numer: (column * offset.x.denom + offset.x.numer) as i128,
            denom: (offset.x.denom * (resolution.width - 1)) as i128,
        },
        v: Fraction {
            numer: (offset.y.denom * (resolution.height - 1) - (row * offset.y.denom
                + offset.y.numer)) as i128,
            denom: (offset.y.denom * (resolution.height - 1)) as i128,
        },
    }
}

/// The samples that are averaged into one pixel.
#[derive(Clone, Copy, Debug, PartialEq, Eq, Structural)]
pub struct PixelSamples {
    pub resolution: Resolution,
    pub column: u32,
    pub row: u32,
    pub sampler: RegularSampler,
    pub number_of_samples: u32,
}

impl PixelSamples {
    /// The pixel lies on the image and the sampler is valid.
    pub open spec fn well_formed(self) -> bool {
        &&& self.column < self.resolution.width
        &&& self.row < self.resolution.height
        &&& self.sampler.is_valid()
    }

    /// The viewport point of one sample of the pixel.
    pub open spec fn point_at(self, sample_number: int) -> ViewportPoint {
        viewport_point(
            self.resolution,
            self.column as int,
            self.row as int,
            self.sampler.offset(sample_number),
        )
    }

    /// The viewport points of all samples of the pixel, in sample order.
    pub open spec fn all_points(self) -> Seq<ViewportPoint> {
        Seq::new(self.number_of_samples as nat, |s: int| self.point_at(s))
    }

    /// The number of samples of the pixel.
    pub fn len(&self) -> (n: u32)
        ensures
            n == self.number_of_samples,
    {
        self.number_of_samples
    }

    /// The viewport point of one sample of the pixel.
    pub fn point(&self, sample_number: u32) -> (p: ViewportPoint)
        requires
            self.well_formed(),
        ensures
            p == self.point_at(sample_number as int),
    {
        let offset = self.sampler.get_sample(sample_number);
        let column: i128 = self.column as i128;
        let row: i128 = self.row as i128;
        let across: i128 = self.resolution.width as i128 - 1;
        let down: i128 = self.resolution.height as i128 - 1;
        let dx: i128 = offset.x.denom;
        let dy: i128 = offset.y.denom;
        proof {
            self.lemma_point_at(sample_number as int);
        }
        ViewportPoint {
            h: Fraction { numer: column * dx + offset.x.numer, denom: dx * across },
            v: Fraction { numer: dy * down - (row * dy + offset.y.numer), denom: dy * down },
        }
    }

    /// The viewport points of all samples of the pixel, in sample order.
    pub fn points(&self) -> (all: Vec<ViewportPoint>)
        requires
            self.well_formed(),
        ensures
            all@ == self.all_points(),
    {
        let mut all: Vec<ViewportPoint> = Vec::new();
        let mut s: u32 = 0;
        while s < self.number_of_samples
            invariant
                self.well_formed(),
                s <= self.number_of_samples,
                all@.len() == s,
                forall|k: int| 0 <= k < s ==> all@[k] == self.point_at(k),
            decreases self.number_of_samples - s,
        {
            let p = self.point(s);
            all.push(p);
            s = s + 1;
        }
        assert(all@ =~= self.all_points());
        all
    }
}

/// The common denominator of a regular sampler's offsets: twice the number
/// of strides across a pixel.
pub open spec fn offset_denominator(sampler: RegularSampler) -> int {
    2 * (sampler.per_side() + 1)
}

impl PixelSamples {
    /// The fractions of a viewport point are exactly those of the formulas
    /// `(column + x) / (width - 1)` and `1 - (row + y) / (height - 1)`, over
    /// the denominators `d * (width - 1)` and `d * (height - 1)`, where `d`
    /// is the denominator of the offsets; no product leaves the range of
    /// the fields.
    pub proof fn lemma_point_at(self, sample_number: int)
        requires
            self.well_formed(),
            sample_number >= 0,
        ensures
            ({
                let p = self.point_at(sample_number);
                let o = self.sampler.offset(sample_number);
                let d = offset_denominator(self.sampler);
                &&& o.x.denom == d
                &&& o.y.denom == d
                &&& 0 <= self.column * d <= 0x2_0000_0000_0000_0000
                &&& 0 <= self.row * d <= 0x2_0000_0000_0000_0000
                &&& p.h.numer == self.column * d + o.x.numer
                &&& p.h.denom == d * (self.resolution.width - 1)
                &&& p.v.numer == d * (self.resolution.height - 1) - (self.row * d + o.y.numer)
                &&& p.v.denom == d * (self.resolution.height - 1)
                &&& 0 <= p.h.denom <= 0x2_0000_0000_0000_0000
                &&& 0 <= p.v.denom <= 0x2_0000_0000_0000_0000
            }),
    {
        self.sampler.lemma_cell_on_grid(sample_number);
        let d = offset_denominator(self.sampler);
        let bound = 0x1_0000_0000int;
        let column = self.column as int;
        let row = self.row as int;
        let across = self.resolution.width - 1;
        let down = self.resolution.height - 1;
        assert(0 <= column * d <= bound * (2 * bound)) by (nonlinear_arith)
            requires
                0 <= column < bound,
                0 < d <= 2 * bound,
        ;
        assert(0 <= row * d <= bound * (2 * bound)) by (nonlinear_arith)
            requires
                0 <= row < bound,
                0 < d <= 2 * bound,
        ;
        assert(0 <= d * across <= bound * (2 * bound)) by (nonlinear_arith)
            requires
                0 <= across < bound,
                0 < d <= 2 * bound,
        ;
        assert(0 <= d * down <= bound * (2 * bound)) by (nonlinear_arith)
            requires
                0 <= down < bound,
                0 < d <= 2 * bound,
        ;
    }

    /// With one sample at the centre of each pixel, the sample lies at
    /// `h = column / (width - 1)` and `v = 1 - row / (height - 1)`.
    pub proof fn lemma_center_sample(self, sample_number: int)
        requires
            self.well_formed(),
            self.sampler.per_side() == 1,
            sample_number >= 0,
        ensures
            self.point_at(sample_number).h.numer * (self.resolution.width - 1) == self.column
                * self.point_at(sample_number).h.denom,
            self.point_at(sample_number).v.numer * (self.resolution.height - 1) == (
            self.resolution.height - 1 - self.row) * self.point_at(sample_number).v.denom,
    {
        self.lemma_point_at(sample_number);
        self.sampler.lemma_single_sample_is_center(sample_number);
        let p = self.point_at(sample_number);
        let column = self.column as int;
        let row = self.row as int;
        let across = self.resolution.width - 1;
        let down = self.resolution.height - 1;
        assert(offset_denominator(self.sampler) == 4);
        assert(p.h.numer * across == column * p.h.denom) by (nonlinear_arith)
            requires
                p.h.numer == column * 4,
                p.h.denom == 4 * across,
        ;
        assert(p.v.numer * down == (down - row) * p.v.denom) by (nonlinear_arith)
            requires
                p.v.numer == 4 * down - row * 4,
                p.v.denom == 4 * down,
        ;
    }

    /// With one sample at the centre of each pixel, the corners of the
    /// image are the corners of the viewport: the first column is `h = 0`,
    /// the last `h = 1`, the first row is the top, `v = 1`, and the last row
    /// the bottom, `v = 0`.
    pub proof fn lemma_center_sample_spans_viewport(self, sample_number: int)
        requires
            self.well_formed(),
            self.sampler.per_side() == 1,
            sample_number >= 0,
        ensures
            self.column == 0 ==> self.point_at(sample_number).h.numer == 0,
            self.column == self.resolution.width - 1 ==> self.point_at(sample_number).h.numer
                == self.point_at(sample_number).h.denom,
            self.row == 0 ==> self.point_at(sample_number).v.numer == self.point_at(
                sample_number,
            ).v.denom,
            self.row == self.resolution.height - 1 ==> self.point_at(sample_number).v.numer == 0,
    {
        self.lemma_point_at(sample_number);
        self.sampler.lemma_single_sample_is_center(sample_number);
        let p = self.point_at(sample_number);
        let d = offset_denominator(self.sampler);
        assert(d == 4);
        assert(self.column * d == 4 * self.column && self.row * d == 4 * self.row) by (nonlinear_arith)
            requires
                d == 4,
        ;
        assert(d * (self.resolution.width - 1) == 4 * (self.resolution.width - 1) && d * (
        self.resolution.height - 1) == 4 * (self.resolution.height - 1)) by (nonlinear_arith)
            requires
                d == 4,
        ;
        assert(p.h.numer == 4 * self.column);
        assert(p.h.denom == 4 * (self.resolution.width - 1));
        assert(p.v.numer == 4 * (self.resolution.height - 1) - 4 * self.row);
        assert(p.v.denom == 4 * (self.resolution.height - 1));
    }

    /// Every sample of a pixel lies within half a pixel of the pixel's
    /// centre, in both directions: `|h - column / (width - 1)|` and
    /// `|v - (1 - row / (height - 1))|` are at most half of one pixel's
    /// share of the viewport.
    pub proof fn lemma_sample_near_pixel_center(self, sample_number: int)
        requires
            self.well_formed(),
            sample_number >= 0,
        ensures
            ({
                let p = self.point_at(sample_number);
                let d = offset_denominator(self.sampler);
                &&& -d < 2 * (p.h.numer - self.column * d) < d
                &&& -d < 2 * (p.v.denom - self.row * d - p.v.numer) < d
            }),
    {
        self.lemma_point_at(sample_number);
        self.sampler.lemma_within_pixel(sample_number);
    }
}

} // verus!
