use a_tracing_lib::fraction::Fraction;
use a_tracing_lib::sampling::RegularSampler;
use a_tracing_lib::tracer::Resolution;
use a_tracing_lib::viewport::{PixelSamples, ViewportPoint};

fn pixel(width: u32, height: u32, column: u32, row: u32, per_side: u32, n: u32) -> PixelSamples {
    PixelSamples {
        resolution: Resolution { width, height },
        column,
        row,
        sampler: RegularSampler::new(per_side),
        number_of_samples: n,
    }
}

#[test]
fn point_follows_the_formula() {
    // Grid of three: sample 0 is x = y = -2/8. Pixel (2, 1) of a 5 by 3 image:
    // h = (2 - 1/4) / 4 = 14/32, v = 1 - (1 - 1/4) / 2 = 10/16.
    let samples = pixel(5, 3, 2, 1, 3, 9);
    assert_eq!(
        samples.point(0),
        ViewportPoint {
            h: Fraction { numer: 14, denom: 32 },
            v: Fraction { numer: 10, denom: 16 },
        }
    );
    // Sample 8 is x = y = 2/8: h = (2 + 1/4) / 4 = 18/32, v = 1 - (1 + 1/4) / 2 = 6/16.
    assert_eq!(
        samples.point(8),
        ViewportPoint {
            h: Fraction { numer: 18, denom: 32 },
            v: Fraction { numer: 6, denom: 16 },
        }
    );
}

#[test]
fn centre_samples_span_the_viewport() {
    let top_left = pixel(4, 3, 0, 0, 1, 1).point(0);
    assert_eq!(top_left.h, Fraction { numer: 0, denom: 12 });
    assert_eq!(top_left.v, Fraction { numer: 8, denom: 8 });
    let bottom_right = pixel(4, 3, 3, 2, 1, 1).point(0);
    assert_eq!(bottom_right.h, Fraction { numer: 12, denom: 12 });
    assert_eq!(bottom_right.v, Fraction { numer: 0, denom: 8 });
}

#[test]
fn rows_run_from_the_top_down() {
    let upper = pixel(3, 4, 1, 1, 3, 9).point(4);
    let lower = pixel(3, 4, 1, 2, 3, 9).point(4);
    assert_eq!(upper.v.denom, lower.v.denom);
    assert!(upper.v.numer > lower.v.numer);
    assert_eq!(upper.h, lower.h);
}

#[test]
fn points_lists_every_sample_in_order() {
    let samples = pixel(5, 3, 2, 1, 3, 9);
    let all = samples.points();
    assert_eq!(all.len(), 9);
    assert_eq!(samples.len(), 9);
    for s in 0..9u32 {
        assert_eq!(all[s as usize], samples.point(s));
    }
    assert_eq!(pixel(5, 3, 2, 1, 3, 0).points(), Vec::new());
}

#[test]
fn more_samples_than_cells_wrap_around() {
    let samples = pixel(5, 3, 2, 1, 2, 6);
    let all = samples.points();
    assert_eq!(all.len(), 6);
    assert_eq!(all[4], all[0]);
    assert_eq!(all[5], all[1]);
}

#[test]
fn one_pixel_wide_image_has_a_zero_denominator() {
    let point = pixel(1, 1, 0, 0, 1, 1).point(0);
    assert_eq!(point.h, Fraction { numer: 0, denom: 0 });
    assert_eq!(point.v, Fraction { numer: 0, denom: 0 });
}

#[test]
fn largest_image_does_not_overflow() {
    let point = pixel(u32::MAX, u32::MAX, u32::MAX - 1, u32::MAX - 1, u32::MAX, 1).point(0);
    let side = u32::MAX as i128;
    let d = 2 * (side + 1);
    assert_eq!(point.h.denom, d * (side - 1));
    assert_eq!(point.h.numer, (side - 1) * d + (2 - (side + 1)));
    assert_eq!(point.v.numer, d * (side - 1) - ((side - 1) * d + (2 - (side + 1))));
}
