use shape_render::pixels::{
    can_hold, settle, Color, Filter, RasterError, RasterizedImage, FILTER, MULTIPLICITY,
};
use shape_render::shape::{
    enlarged, scaled_stroke, Ellipse, Rectangle, RoundedRectangle, Shape, SUPERSAMPLING,
};
use shape_render::trace::{Parametric, Reach};

const RED: Color = (255, 0, 0, 255);
const CLEAR: Color = (0, 0, 0, 0);

/// Samples the curve that lies `stroke` pixels inside the ellipse inscribed
/// in a `width` by `height` buffer, rounded to whole pixels.
fn curve(width: u32, height: u32, stroke: u32) -> Vec<(i64, i64)> {
    let steps = Parametric(width, height).steps();
    let increment = std::f64::consts::PI / (steps as f64 / 2.0);
    let a = width as f64 / 2.0 - 0.5;
    let b = height as f64 / 2.0 - 0.5;
    let k = -(stroke as f64);
    let mut samples = Vec::new();
    for i in 0..steps {
        let t = -std::f64::consts::PI + increment * i as f64;
        let (x, y) = if stroke == 0 {
            (a * t.cos(), b * t.sin())
        } else {
            let d = ((a * a) * (t.sin() * t.sin()) + (b * b) * (t.cos() * t.cos())).sqrt();
            ((a + b * k / d) * t.cos(), (b + a * k / d) * t.sin())
        };
        samples.push(((a + x).round() as i64, (b + y).round() as i64));
    }
    samples
}

fn draw(ellipse: Ellipse, color: Color) -> Result<RasterizedImage, RasterError> {
    let geometry = enlarged(ellipse.size, SUPERSAMPLING).unwrap();
    let stroke = scaled_stroke(ellipse.stroke, ellipse.size, SUPERSAMPLING);
    let inset = curve(geometry.0, geometry.1, stroke);
    let rim = curve(geometry.0, geometry.1, 0);
    ellipse.color(color, &inset, &rim)
}

#[test]
fn filled_ellipse_is_opaque_at_the_centre_and_clear_at_the_corner() {
    let img = draw(Ellipse { stroke: 0, size: (64, 64) }, RED).unwrap();
    assert_eq!(img.pixel(32, 32), Some(RED));
    assert_eq!(img.pixel(0, 0), Some(CLEAR));
}

#[test]
fn stroked_ellipse_is_a_ring() {
    let img = draw(Ellipse { stroke: 4, size: (64, 64) }, RED).unwrap();
    assert_eq!(img.pixel(32, 32), Some(CLEAR));
    assert_eq!(img.pixel(0, 0), Some(CLEAR));
    let band = img.pixel(32, 2).unwrap();
    assert_eq!((band.0, band.1, band.2), (255, 0, 0));
    assert!(band.3 > 200);
}

#[test]
fn result_has_exactly_the_requested_size() {
    for (w, h) in [(1u32, 1u32), (3, 7), (64, 64), (10, 2)] {
        let img = draw(Ellipse { stroke: 1, size: (w, h) }, RED).unwrap();
        assert_eq!((img.width(), img.height()), (w, h));
        assert_eq!(img.pixel(w, 0), None);
        assert_eq!(img.pixel(0, h), None);
    }
}

#[test]
fn result_size_does_not_depend_on_the_enlargement() {
    let ellipse = Ellipse { stroke: 2, size: (9, 5) };
    for factor in [1u32, 2, 3, 4, 8] {
        let geometry = enlarged(ellipse.size, factor).unwrap();
        assert_eq!((geometry.0, geometry.1), (9 * factor, 5 * factor));
        let stroke = scaled_stroke(ellipse.stroke, ellipse.size, factor);
        assert_eq!(stroke, 2 * factor);
        let inset = curve(geometry.0, geometry.1, stroke);
        let rim = curve(geometry.0, geometry.1, 0);
        let img = ellipse.rasterize(RED, factor, &inset, &rim).unwrap();
        assert_eq!((img.width(), img.height()), (9, 5));
    }
}

#[test]
fn rounded_rectangle_is_not_implemented() {
    let source = RasterizedImage::new(4, 4);
    let rounded = RoundedRectangle { stroke: 2, size: (16, 16), corner_radius: 4 };
    assert_eq!(rounded.color(RED).unwrap_err(), RasterError::NotImplemented);
    assert_eq!(rounded.image(&source).unwrap_err(), RasterError::NotImplemented);
}

#[test]
fn unsupported_fills_are_not_implemented() {
    let source = RasterizedImage::new(4, 4);
    let ellipse = Ellipse { stroke: 0, size: (8, 8) };
    assert_eq!(ellipse.image(&source).unwrap_err(), RasterError::NotImplemented);
    let rectangle = Rectangle { stroke: 0, size: (8, 8) };
    assert_eq!(rectangle.color(RED).unwrap_err(), RasterError::NotImplemented);
}

#[test]
fn empty_target_is_a_resampling_error() {
    for size in [(0u32, 0u32), (0, 5), (5, 0)] {
        let ellipse = Ellipse { stroke: 1, size };
        assert_eq!(ellipse.color(RED, &vec![], &vec![]).unwrap_err(), RasterError::Resample);
        let source = RasterizedImage::new(4, 4);
        let rectangle = Rectangle { stroke: 0, size };
        assert_eq!(rectangle.image(&source).unwrap_err(), RasterError::Resample);
    }
}

#[test]
fn oversized_target_is_too_large() {
    let ellipse = Ellipse { stroke: 1, size: (u32::MAX, u32::MAX) };
    assert_eq!(ellipse.color(RED, &vec![], &vec![]).unwrap_err(), RasterError::TooLarge);
    assert!(enlarged((u32::MAX, 1), 2).is_none());
    assert!(!can_hold(u32::MAX, u32::MAX));
    assert!(can_hold(256, 256));
    let source = RasterizedImage::new(1, 1);
    let rectangle = Rectangle { stroke: 0, size: (u32::MAX, u32::MAX) };
    assert_eq!(rectangle.image(&source).unwrap_err(), RasterError::TooLarge);
}

#[test]
fn resampler_failure_becomes_a_resampling_error() {
    let failed = settle(Err(fast_image_resize::ResizeError::PixelTypesAreDifferent));
    assert_eq!(failed.unwrap_err(), RasterError::Resample);
    let mut img = RasterizedImage::new(2, 1);
    img.put_pixel(1, 0, RED);
    let passed = settle(Ok(img)).unwrap();
    assert_eq!(passed.pixel(1, 0), Some(RED));
    assert_eq!(passed.pixel(0, 0), Some(CLEAR));
}

#[test]
fn rectangle_image_resamples_the_source() {
    let mut source = RasterizedImage::new(8, 8);
    for y in 0..8 {
        source.fill_row(y, 0, 8, RED);
    }
    let rectangle = Rectangle { stroke: 0, size: (4, 2) };
    let img = rectangle.image(&source).unwrap();
    assert_eq!((img.width(), img.height()), (4, 2));
    for y in 0..2 {
        for x in 0..4 {
            assert_eq!(img.pixel(x, y), Some(RED));
        }
    }
    let same = Shape::Rectangle(3, (4, 2)).image(&source).unwrap();
    assert_eq!(same.pixel(3, 1), Some(RED));
}

#[test]
fn new_image_is_transparent() {
    let img = RasterizedImage::new(3, 2);
    assert_eq!((img.width(), img.height()), (3, 2));
    for y in 0..2 {
        for x in 0..3 {
            assert_eq!(img.pixel(x, y), Some(CLEAR));
        }
    }
    assert_eq!(img.pixel(3, 0), None);
    assert_eq!(img.pixel(0, 2), None);
}

#[test]
fn put_pixel_changes_one_pixel() {
    let mut img = RasterizedImage::new(3, 2);
    img.put_pixel(2, 1, (1, 2, 3, 4));
    for y in 0..2 {
        for x in 0..3 {
            let expected = if (x, y) == (2, 1) { (1, 2, 3, 4) } else { CLEAR };
            assert_eq!(img.pixel(x, y), Some(expected));
        }
    }
}

#[test]
fn fill_row_and_column_paint_half_open_runs() {
    let mut img = RasterizedImage::new(5, 4);
    img.fill_row(1, 1, 4, RED);
    img.fill_column(0, 2, 4, (0, 0, 255, 255));
    img.fill_row(3, 4, 2, RED);
    for y in 0..4 {
        for x in 0..5 {
            let expected = if y == 1 && (1..4).contains(&x) {
                RED
            } else if x == 0 && y >= 2 {
                (0, 0, 255, 255)
            } else {
                CLEAR
            };
            assert_eq!(img.pixel(x, y), Some(expected));
        }
    }
}

#[test]
fn fill_corners_paints_four_squares() {
    let mut img = RasterizedImage::new(6, 5);
    img.fill_corners(2, RED);
    for y in 0..5 {
        for x in 0..6 {
            let corner = (x < 2 || x >= 4) && (y < 2 || y >= 3);
            assert_eq!(img.pixel(x, y), Some(if corner { RED } else { CLEAR }));
        }
    }
}

#[test]
fn stroke_is_held_to_half_the_smaller_side() {
    assert_eq!(scaled_stroke(4, (64, 64), 4), 16);
    assert_eq!(scaled_stroke(100, (64, 10), 4), 20);
    assert_eq!(scaled_stroke(100, (9, 64), 4), 16);
    assert_eq!(scaled_stroke(7, (1, 1), 4), 0);
    assert_eq!(scaled_stroke(0, (64, 64), 4), 0);
}

#[test]
fn sweep_takes_sixteen_steps_per_unit_of_width_plus_height() {
    assert_eq!(Parametric(256, 256).steps(), 8192);
    assert_eq!(Parametric(0, 0).steps(), 0);
    assert_eq!(Parametric(u32::MAX, u32::MAX).steps(), (u32::MAX as u64) * 32);
}

#[test]
fn samples_are_clamped_into_the_buffer() {
    let geometry = Parametric(10, 6);
    assert_eq!(geometry.to_coord(3, 4), (3, 4));
    assert_eq!(geometry.to_coord(-1, -9), (0, 0));
    assert_eq!(geometry.to_coord(10, 6), (9, 5));
    assert_eq!(geometry.to_coord(i64::MAX, i64::MIN), (9, 0));
}

#[test]
fn runs_depend_on_the_side_of_the_centre() {
    let geometry = Parametric(10, 6);
    assert_eq!(geometry.row_run(Reach::Edges, 4), (0, 5));
    assert_eq!(geometry.row_run(Reach::Side, 5), (5, 10));
    assert_eq!(geometry.row_run(Reach::Centre, 2), (2, 5));
    assert_eq!(geometry.row_run(Reach::Centre, 8), (5, 8));
    assert_eq!(geometry.column_run(Reach::Edges, 2), (0, 3));
    assert_eq!(geometry.column_run(Reach::Edges, 3), (3, 6));
    assert_eq!(geometry.column_run(Reach::Side, 3), (0, 0));
    assert_eq!(geometry.column_run(Reach::Centre, 3), (0, 0));
    let odd = Parametric(5, 5);
    assert_eq!(odd.row_run(Reach::Edges, 1), (0, 2));
    assert_eq!(odd.row_run(Reach::Edges, 2), (2, 5));
    assert_eq!(odd.row_run(Reach::Centre, 1), (1, 2));
    assert_eq!(odd.row_run(Reach::Centre, 2), (2, 2));
}

#[test]
fn trace_paints_rows_and_columns_of_each_sample() {
    let geometry = Parametric(6, 4);
    let mut img = RasterizedImage::new(6, 4);
    geometry.trace(&mut img, Reach::Edges, &vec![(1, 1), (40, 2)], RED);
    for y in 0..4u32 {
        for x in 0..6u32 {
            let first = (y == 1 && x <= 1) || (x == 1 && y <= 1);
            let second = (y == 2 && x >= 5) || (x == 5 && y >= 2);
            assert_eq!(img.pixel(x, y), Some(if first || second { RED } else { CLEAR }));
        }
    }
    geometry.trace(&mut img, Reach::Side, &vec![(0, 1)], CLEAR);
    assert_eq!(img.pixel(0, 1), Some(CLEAR));
    assert_eq!(img.pixel(1, 1), Some(RED));
    assert_eq!(img.pixel(1, 0), Some(RED));
}

#[test]
fn supersample_draws_ring_from_given_samples() {
    let ellipse = Ellipse { stroke: 1, size: (6, 6) };
    let inset = vec![(1, 2), (4, 3)];
    let rim = vec![(0, 2), (5, 3)];
    let img = ellipse.supersample(RED, 1, &inset, &rim);
    assert_eq!((img.width(), img.height()), (6, 6));
    for y in 0..6u32 {
        for x in 0..6u32 {
            let corner = (x < 1 || x >= 5) && (y < 1 || y >= 5);
            let a = (y == 2 && x <= 1) || (x == 1 && y <= 2);
            let b = (y == 3 && x >= 4) || (x == 4 && y >= 3);
            let cleared = (y == 2 && x == 0) || (y == 3 && x >= 5);
            let expected = if cleared {
                CLEAR
            } else if corner || a || b {
                RED
            } else {
                CLEAR
            };
            assert_eq!(img.pixel(x, y), Some(expected), "at ({x}, {y})");
        }
    }
}

#[test]
fn supersample_fills_toward_the_centre_without_a_stroke() {
    let ellipse = Ellipse { stroke: 0, size: (6, 2) };
    let rim = vec![(1, 0), (5, 1)];
    let img = ellipse.supersample(RED, 1, &vec![(0, 0)], &rim);
    for y in 0..2u32 {
        for x in 0..6u32 {
            let painted = (y == 0 && (1..3).contains(&x)) || (y == 1 && (3..5).contains(&x));
            assert_eq!(img.pixel(x, y), Some(if painted { RED } else { CLEAR }));
        }
    }
}

#[test]
fn from_raw_reads_pixels_row_by_row() {
    let bytes: Vec<u8> = (0..24).collect();
    let img = RasterizedImage::from_raw(3, 2, bytes).unwrap();
    assert_eq!((img.width(), img.height()), (3, 2));
    assert_eq!(img.pixel(0, 0), Some((0, 1, 2, 3)));
    assert_eq!(img.pixel(2, 0), Some((8, 9, 10, 11)));
    assert_eq!(img.pixel(0, 1), Some((12, 13, 14, 15)));
    assert_eq!(img.pixel(2, 1), Some((20, 21, 22, 23)));
    assert_eq!(img.pixel(3, 1), None);
}

#[test]
fn from_raw_needs_four_bytes_for_each_pixel() {
    assert!(RasterizedImage::from_raw(3, 2, vec![0; 23]).is_none());
    assert!(RasterizedImage::from_raw(3, 2, vec![0; 24]).is_some());
    assert!(RasterizedImage::from_raw(3, 2, vec![0; 30]).is_some());
    assert!(RasterizedImage::from_raw(0, 0, vec![]).is_some());
    assert!(RasterizedImage::from_raw(u32::MAX, u32::MAX, vec![0; 8]).is_none());
}

#[test]
fn into_raw_gives_the_pixels_row_by_row() {
    let mut img = RasterizedImage::new(2, 2);
    img.put_pixel(1, 0, (1, 2, 3, 4));
    img.put_pixel(0, 1, (5, 6, 7, 8));
    assert_eq!(img.into_raw(), vec![0, 0, 0, 0, 1, 2, 3, 4, 5, 6, 7, 8, 0, 0, 0, 0]);
    let spare = RasterizedImage::from_raw(1, 1, vec![9, 8, 7, 6, 5]).unwrap();
    assert_eq!(spare.into_raw(), vec![9, 8, 7, 6, 5]);
}

#[test]
fn images_made_here_hold_four_bytes_for_each_pixel_and_no_more() {
    assert_eq!(RasterizedImage::new(3, 5).into_raw().len(), 4 * 3 * 5);
    assert_eq!(RasterizedImage::new(0, 7).into_raw().len(), 0);
    let img = draw(Ellipse { stroke: 1, size: (10, 7) }, RED).unwrap();
    assert_eq!(img.into_raw().len(), 4 * 10 * 7);
    let spare = RasterizedImage::from_raw(2, 2, vec![255; 40]).unwrap();
    let small = spare.resample(1, 1).unwrap();
    assert_eq!(small.into_raw(), vec![255, 255, 255, 255]);
    let mut painted = RasterizedImage::from_raw(1, 2, vec![0; 11]).unwrap();
    painted.put_pixel(0, 1, RED);
    assert_eq!(painted.into_raw(), vec![0, 0, 0, 0, 255, 0, 0, 255, 0, 0, 0]);
}

fn pixels(img: RasterizedImage) -> (u32, u32, Vec<u8>) {
    (img.width(), img.height(), img.into_raw())
}

#[test]
fn drawable_ellipse_always_gives_an_image() {
    let img = Shape::Ellipse(3, (10, 7)).color((1, 2, 3, 4), &vec![(5, 5)], &vec![(7, 7)]).unwrap();
    assert_eq!((img.width(), img.height()), (10, 7));
    let img = draw(Ellipse { stroke: 20, size: (64, 16) }, RED).unwrap();
    assert_eq!((img.width(), img.height()), (64, 16));
    let img = Ellipse { stroke: 0, size: (1, 1) }.color(RED, &vec![], &vec![]).unwrap();
    assert_eq!(pixels(img), (1, 1, vec![0, 0, 0, 0]));
}

#[test]
fn equal_ellipses_give_equal_images() {
    let ellipse = Ellipse { stroke: 3, size: (24, 18) };
    let first = pixels(draw(ellipse, RED).unwrap());
    let second = pixels(draw(ellipse, RED).unwrap());
    assert_eq!(first, second);
    assert!(first.2.iter().any(|byte| *byte != 0));
}

#[test]
fn stroke_above_half_the_smaller_side_draws_as_that_half() {
    let held = pixels(draw(Ellipse { stroke: 8, size: (64, 16) }, RED).unwrap());
    for stroke in [9u32, 20, u32::MAX] {
        let wide = pixels(draw(Ellipse { stroke, size: (64, 16) }, RED).unwrap());
        assert_eq!(wide, held);
    }
    let thinner = pixels(draw(Ellipse { stroke: 7, size: (64, 16) }, RED).unwrap());
    assert_ne!(thinner, held);
}

#[test]
fn shape_draws_what_its_ellipse_draws() {
    let ellipse = Ellipse { stroke: 2, size: (20, 12) };
    let geometry = enlarged(ellipse.size, SUPERSAMPLING).unwrap();
    let stroke = scaled_stroke(ellipse.stroke, ellipse.size, SUPERSAMPLING);
    let inset = curve(geometry.0, geometry.1, stroke);
    let rim = curve(geometry.0, geometry.1, 0);
    let color = (10, 20, 30, 255);
    let by_shape = Shape::Ellipse(2, (20, 12)).color(color, &inset, &rim).unwrap();
    let by_ellipse = ellipse.color(color, &inset, &rim).unwrap();
    let by_factor = ellipse.rasterize(color, SUPERSAMPLING, &inset, &rim).unwrap();
    let expected = pixels(by_ellipse);
    assert_eq!(pixels(by_shape), expected);
    assert_eq!(pixels(by_factor), expected);
    assert!(expected.2.iter().any(|byte| *byte != 0));
}

#[test]
fn rectangle_image_does_not_depend_on_the_stroke() {
    let mut source = RasterizedImage::new(9, 6);
    source.fill_row(2, 1, 7, RED);
    source.fill_column(4, 0, 6, (0, 255, 0, 255));
    let plain = pixels(Rectangle { stroke: 0, size: (5, 4) }.image(&source).unwrap());
    let stroked = pixels(Rectangle { stroke: 9, size: (5, 4) }.image(&source).unwrap());
    let by_shape = pixels(Shape::Rectangle(3, (5, 4)).image(&source).unwrap());
    let direct = pixels(source.resample(5, 4).unwrap());
    assert_eq!(plain.0, 5);
    assert_eq!(plain.1, 4);
    assert_eq!(stroked, plain);
    assert_eq!(by_shape, plain);
    assert_eq!(direct, plain);
    assert!(plain.2.iter().any(|byte| *byte != 0));
}

#[test]
fn image_is_made_from_the_enlarged_drawing() {
    let ellipse = Ellipse { stroke: 0, size: (6, 4) };
    let rim = vec![(2, 5), (20, 9), (3, 9)];
    let canvas = ellipse.supersample(RED, SUPERSAMPLING, &vec![], &rim);
    let expected = pixels(canvas.resample(6, 4).unwrap());
    let img = pixels(ellipse.color(RED, &vec![], &rim).unwrap());
    assert_eq!(img, expected);
    assert!(img.2.iter().any(|byte| *byte != 0));
}

#[test]
fn every_kernel_keeps_a_uniform_image_uniform() {
    let mut source = RasterizedImage::new(12, 12);
    for y in 0..12 {
        source.fill_row(y, 0, 12, RED);
    }
    let kernels = [
        Filter::Box,
        Filter::Bilinear,
        Filter::Hamming,
        Filter::CatmullRom,
        Filter::Mitchell,
        Filter::Gaussian,
        Filter::Lanczos3,
    ];
    for kernel in kernels {
        for multiplicity in [2u8, 12] {
            let img = source.resample_with(3, 4, kernel, multiplicity).unwrap();
            assert_eq!((img.width(), img.height()), (3, 4));
            for y in 0..4 {
                for x in 0..3 {
                    assert_eq!(img.pixel(x, y), Some(RED));
                }
            }
        }
    }
}

#[test]
fn box_kernel_averages_the_pixels_it_covers() {
    let mut source = RasterizedImage::new(4, 2);
    source.fill_row(0, 0, 4, (0, 0, 200, 255));
    source.fill_row(1, 0, 4, (0, 0, 100, 255));
    let img = source.resample_with(2, 1, Filter::Box, 12).unwrap();
    assert_eq!(img.pixel(0, 0), Some((0, 0, 150, 255)));
    assert_eq!(img.pixel(1, 0), Some((0, 0, 150, 255)));
}

#[test]
fn shapes_are_resampled_with_three_lobes() {
    assert_eq!(FILTER, Filter::Lanczos3);
    assert_eq!(MULTIPLICITY, 12);
    assert_eq!(SUPERSAMPLING, 4);
    let mut source = RasterizedImage::new(8, 8);
    source.fill_row(3, 0, 8, RED);
    let standard = source.resample(2, 2).unwrap();
    let explicit = source.resample_with(2, 2, Filter::Lanczos3, 12).unwrap();
    for y in 0..2 {
        for x in 0..2 {
            assert_eq!(standard.pixel(x, y), explicit.pixel(x, y));
        }
    }
    let boxed = source.resample_with(2, 2, Filter::Box, 12).unwrap();
    assert_ne!(standard.pixel(0, 0), boxed.pixel(0, 0));
}
