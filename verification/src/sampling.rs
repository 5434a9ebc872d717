//! Sub-pixel sample offsets for antialiasing.

use vstd::prelude::*;
use vstd::arithmetic::div_mod::lemma_fundamental_div_mod;
use vstd::arithmetic::div_mod::lemma_fundamental_div_mod_converse;
use vstd::arithmetic::div_mod::lemma_small_mod;
use vstd::arithmetic::div_mod::lemma_mod_add_multiples_vanish;
use crate::fraction::Fraction;

verus! {

/// An offset from the centre of a pixel, in units of one pixel.
#[derive(Clone, Copy, Debug, PartialEq, Eq, Structural)]
pub struct SampleOffset {
    pub x: Fraction,
    pub y: Fraction,
}

impl SampleOffset {
    /// Both components lie in `[-1/2, 1/2]`.
    pub open spec fn within_pixel(self) -> bool {
        self.x.within_half() && self.y.within_half()
    }

    /// Both components lie strictly inside `(-1/2, 1/2)`: the sample is
    /// never on an edge of the pixel.
    pub open spec fn strictly_within_pixel(self) -> bool {
        self.x.strictly_within_half() && self.y.strictly_within_half()
    }

    /// The centre of the pixel.
    pub open spec fn is_center(self) -> bool {
        self.x.is_zero() && self.y.is_zero()
    }
}

/// A source of sample offsets that can be asked for any sample number, any
/// number of times.
pub trait SampleGenerator {
    /// What the generator needs to hold of itself.
    spec fn well_formed(&self) -> bool;

    /// The offset that belongs to a sample number.
    spec fn sample_at(&self, sample_number: int) -> SampleOffset;

    /// The offset of the requested sample, within the pixel.
    fn get_sample(&self, sample_number: u32) -> (sample: SampleOffset)
        requires
            self.well_formed(),
        ensures
            sample == self.sample_at(sample_number as int),
            sample.within_pixel(),
    ;
}

/// Samples on a centred, evenly spaced grid of `samples_per_side` by
/// `samples_per_side` points.
#[derive(Clone, Copy, Debug, PartialEq, Eq, Structural)]
pub struct RegularSampler {
    samples_per_side: u32,
}

/// The fraction `position / (per_side + 1) - 1/2`, over the denominator
/// `2 * (per_side + 1)`.
pub open spec fn grid_coordinate(position: int, per_side: int) -> Fraction {
    Fraction {
        numer: (2 * position - (per_side + 1)) as i128,
        denom: (2 * (per_side + 1)) as i128,
    }
}

impl RegularSampler {
    /// A sampler with `samples_per_side` samples along each side of a pixel.
    pub fn new(samples_per_side: u32) -> (sampler: Self)
        requires
            samples_per_side > 0,
        ensures
            sampler == Self::grid(samples_per_side),
            sampler.per_side() == samples_per_side,
            sampler.is_valid(),
    {
        Self { samples_per_side }
    }

    /// A sampler with `samples_per_side` samples along each side of a pixel,
    /// or `None` for a grid without samples.
    pub fn try_new(samples_per_side: u32) -> (sampler: Option<Self>)
        ensures
            samples_per_side == 0 <==> sampler is None,
            sampler is Some ==> sampler->0 == Self::grid(samples_per_side) && sampler->0.is_valid()
                && sampler->0.per_side() == samples_per_side,
    {
        if samples_per_side == 0 {
            None
        } else {
            Some(Self::new(samples_per_side))
        }
    }

    /// The sampler with `samples_per_side` samples along each side.
    pub closed spec fn grid(samples_per_side: u32) -> Self {
        Self { samples_per_side }
    }

    /// A grid has as many samples per side as it was made with.
    pub proof fn lemma_grid_per_side(samples_per_side: u32)
        ensures
            Self::grid(samples_per_side).per_side() == samples_per_side,
    {
    }

    /// The number of samples along one side of the grid.
    pub closed spec fn per_side(self) -> int {
        self.samples_per_side as int
    }

    /// The grid has at least one sample per side.
    pub open spec fn is_valid(self) -> bool {
        0 < self.per_side() <= u32::MAX
    }

    /// The number of samples in the whole grid.
    pub open spec fn period(self) -> int {
        self.per_side() * self.per_side()
    }

    /// The cell of the grid, counted row by row from zero, that a sample
    /// number falls on.
    pub open spec fn cell(self, sample_number: int) -> int {
        sample_number % self.period()
    }

    /// The column of a sample, counted from one.
    pub open spec fn column(self, sample_number: int) -> int {
        self.cell(sample_number) % self.per_side() + 1
    }

    /// The row of a sample, counted from one.
    pub open spec fn row(self, sample_number: int) -> int {
        self.cell(sample_number) / self.per_side() + 1
    }

    /// The offset of a sample: column and row times the stride
    /// `1 / (per_side + 1)`, less one half.
    pub open spec fn offset(self, sample_number: int) -> SampleOffset {
        SampleOffset {
            x: grid_coordinate(self.column(sample_number), self.per_side()),
            y: grid_coordinate(self.row(sample_number), self.per_side()),
        }
    }

    /// The number of samples along one side of the grid.
    pub fn samples_per_side(&self) -> (n: u32)
        ensures
            n == self.per_side(),
    {
        self.samples_per_side
    }

    /// Column and row of a valid sampler's sample lie on the grid.
    pub proof fn lemma_cell_on_grid(self, sample_number: int)
        requires
            self.is_valid(),
            sample_number >= 0,
        ensures
            0 <= self.cell(sample_number) < self.period(),
            1 <= self.column(sample_number) <= self.per_side(),
            1 <= self.row(sample_number) <= self.per_side(),
    {
        let n = self.per_side();
        let k = self.cell(sample_number);
        assert(n * n >= n) by (nonlinear_arith)
            requires
                n >= 1,
        ;
        lemma_fundamental_div_mod(k, n);
        assert(0 <= k / n < n) by (nonlinear_arith)
            requires
                0 <= k < n * n,
                n > 0,
        ;
    }
}

impl SampleGenerator for RegularSampler {
    open spec fn well_formed(&self) -> bool {
        self.is_valid()
    }

    open spec fn sample_at(&self, sample_number: int) -> SampleOffset {
        self.offset(sample_number)
    }

    fn get_sample(&self, sample_number: u32) -> (sample: SampleOffset) {
        let per_side: u64 = self.samples_per_side as u64;
        assert(0 < per_side * per_side <= 0xffff_ffff * 0xffff_ffff) by (nonlinear_arith)
            requires
                0 < per_side <= 0xffff_ffff,
        ;
        let period: u64 = per_side * per_side;
        let cell: u64 = sample_number as u64 % period;
        let row: u64 = cell / per_side + 1;
        let column: u64 = cell % per_side + 1;
        proof {
            self.lemma_cell_on_grid(sample_number as int);
            self.lemma_within_pixel(sample_number as int);
        }
        let denom: i128 = 2 * (per_side as i128 + 1);
        SampleOffset {
            x: Fraction { numer: 2 * (column as i128) - (per_side as i128 + 1), denom },
            y: Fraction { numer: 2 * (row as i128) - (per_side as i128 + 1), denom },
        }
    }
}

impl RegularSampler {
    /// Every sample lies strictly inside the pixel, never on its edges.
    pub proof fn lemma_within_pixel(self, sample_number: int)
        requires
            self.is_valid(),
            sample_number >= 0,
        ensures
            self.offset(sample_number).strictly_within_pixel(),
            self.offset(sample_number).within_pixel(),
    {
        self.lemma_cell_on_grid(sample_number);
    }

    /// With one sample per side every sample number gives the centre of the
    /// pixel.
    pub proof fn lemma_single_sample_is_center(self, sample_number: int)
        requires
            self.per_side() == 1,
            sample_number >= 0,
        ensures
            self.offset(sample_number).is_center(),
            self.offset(sample_number).x == (Fraction { numer: 0, denom: 4 }),
            self.offset(sample_number).y == (Fraction { numer: 0, denom: 4 }),
    {
        self.lemma_cell_on_grid(sample_number);
    }

    /// The offsets repeat with the number of samples in the grid.
    pub proof fn lemma_periodic(self, sample_number: int)
        requires
            self.is_valid(),
            sample_number >= 0,
        ensures
            self.offset(sample_number + self.period()) == self.offset(sample_number),
    {
        let n = self.per_side();
        assert(n * n > 0) by (nonlinear_arith)
            requires
                n >= 1,
        ;
        lemma_mod_add_multiples_vanish(sample_number, self.period());
    }

    /// Every point of the grid is the sample of exactly one cell: the point
    /// in `column` and `row`, both counted from one, belongs to sample
    /// number `(row - 1) * per_side + (column - 1)`.
    pub proof fn lemma_every_point_sampled(self, column: int, row: int)
        requires
            self.is_valid(),
            1 <= column <= self.per_side(),
            1 <= row <= self.per_side(),
        ensures
            0 <= (row - 1) * self.per_side() + (column - 1) < self.period(),
            self.column((row - 1) * self.per_side() + (column - 1)) == column,
            self.row((row - 1) * self.per_side() + (column - 1)) == row,
    {
        let n = self.per_side();
        let s = (row - 1) * n + (column - 1);
        assert(0 <= (row - 1) * n && (row - 1) * n + n <= n * n) by (nonlinear_arith)
            requires
                1 <= row <= n,
        ;
        lemma_small_mod(s as nat, (n * n) as nat);
        lemma_fundamental_div_mod_converse(s, n, row - 1, column - 1);
    }

    /// Within one period, different sample numbers give different offsets.
    pub proof fn lemma_samples_distinct(self, first: int, second: int)
        requires
            self.is_valid(),
            0 <= first < self.period(),
            0 <= second < self.period(),
            self.offset(first) == self.offset(second),
        ensures
            first == second,
    {
        let n = self.per_side();
        self.lemma_cell_on_grid(first);
        self.lemma_cell_on_grid(second);
        lemma_small_mod(first as nat, (n * n) as nat);
        lemma_small_mod(second as nat, (n * n) as nat);
        assert(self.column(first) == self.column(second));
        assert(self.row(first) == self.row(second));
        lemma_fundamental_div_mod(first, n);
        lemma_fundamental_div_mod(second, n);
    }

    /// Two sample numbers on the same cell of the grid give the same offset.
    pub proof fn lemma_same_cell_same_offset(self, first: int, second: int)
        requires
            self.cell(first) == self.cell(second),
        ensures
            self.offset(first) == self.offset(second),
    {
    }
}

} // verus!
