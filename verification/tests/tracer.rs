use a_tracing_lib::color::DisplayColor;
use a_tracing_lib::fraction::Fraction;
use a_tracing_lib::input::{MovementKeys, MovementSteps};
use a_tracing_lib::sampling::RegularSampler;
use a_tracing_lib::tracer::{ATracer, RenderSettings, RenderStatus, Resolution};
use a_tracing_lib::viewport::PixelSamples;

fn by_position(_scene: &u8, samples: PixelSamples) -> DisplayColor {
    DisplayColor {
        r: samples.column as u8,
        g: samples.row as u8,
        b: samples.number_of_samples as u8,
    }
}

fn flat(scene: &u8, _samples: PixelSamples) -> DisplayColor {
    DisplayColor { r: *scene, g: *scene, b: *scene }
}

#[test]
fn new_tracer_is_black_and_needs_a_preview() {
    let tracer = ATracer::new(4, 3, 0u8);
    assert_eq!(tracer.render_status(), RenderStatus::NeedsQuickrender);
    assert_eq!(tracer.color_buffer().len(), 12);
    assert!(tracer.color_buffer().iter().all(|c| *c == DisplayColor { r: 0, g: 0, b: 0 }));
    assert_eq!(
        tracer.render_settings(),
        RenderSettings {
            resolution: Resolution { width: 4, height: 3 },
            number_of_samples: 9,
            sampler: RegularSampler::new(3),
        }
    );
    assert_eq!(*tracer.get_scene(), 0);
}

#[test]
fn empty_image_has_an_empty_buffer() {
    let mut tracer = ATracer::new(0, 5, 0u8);
    assert_eq!(tracer.color_buffer().len(), 0);
    tracer.refresh(by_position);
    assert_eq!(tracer.render_status(), RenderStatus::Ready);
    tracer.start_render(by_position);
    assert_eq!(tracer.render_status(), RenderStatus::Finished);
    let mut frame: Vec<u8> = Vec::new();
    tracer.draw(&mut frame);
    assert!(frame.is_empty());
}

#[test]
fn full_pass_waits_for_the_preview() {
    let mut tracer = ATracer::new(2, 2, 9u8);
    tracer.start_render(flat);
    assert_eq!(tracer.render_status(), RenderStatus::NeedsQuickrender);
    assert!(tracer.color_buffer().iter().all(|c| *c == DisplayColor::default()));
}

#[test]
fn states_follow_preview_then_full_pass() {
    let mut tracer = ATracer::new(2, 2, 9u8);
    tracer.refresh(flat);
    assert_eq!(tracer.render_status(), RenderStatus::Ready);
    tracer.refresh(by_position);
    assert_eq!(tracer.render_status(), RenderStatus::Ready);
    assert!(tracer.color_buffer().iter().all(|c| *c == DisplayColor { r: 9, g: 9, b: 9 }));
    tracer.start_render(by_position);
    assert_eq!(tracer.render_status(), RenderStatus::Finished);
    let after = tracer.color_buffer().clone();
    tracer.start_render(flat);
    assert_eq!(tracer.render_status(), RenderStatus::Finished);
    assert_eq!(*tracer.color_buffer(), after);
    tracer.refresh(flat);
    assert_eq!(tracer.render_status(), RenderStatus::Finished);
    assert_eq!(*tracer.color_buffer(), after);
}

#[test]
fn full_pass_stores_pixels_row_by_row() {
    let mut tracer = ATracer::new(3, 2, 0u8);
    tracer.quick_render(by_position);
    tracer.start_render(by_position);
    let expected: Vec<DisplayColor> = vec![
        DisplayColor { r: 0, g: 0, b: 9 },
        DisplayColor { r: 1, g: 0, b: 9 },
        DisplayColor { r: 2, g: 0, b: 9 },
        DisplayColor { r: 0, g: 1, b: 9 },
        DisplayColor { r: 1, g: 1, b: 9 },
        DisplayColor { r: 2, g: 1, b: 9 },
    ];
    assert_eq!(*tracer.color_buffer(), expected);
}

#[test]
fn preview_uses_one_centre_sample() {
    let mut tracer = ATracer::new(3, 2, 0u8);
    let mut seen: Vec<PixelSamples> = Vec::new();
    let seen_cell = std::cell::RefCell::new(&mut seen);
    tracer.quick_render(|_scene: &u8, samples: PixelSamples| {
        seen_cell.borrow_mut().push(samples);
        DisplayColor { r: samples.column as u8, g: samples.row as u8, b: 1 }
    });
    assert_eq!(tracer.render_status(), RenderStatus::Ready);
    assert_eq!(seen.len(), 6);
    for samples in seen.iter() {
        assert_eq!(samples.number_of_samples, 1);
        assert_eq!(samples.sampler, RegularSampler::new(1));
        assert_eq!(samples.resolution, Resolution { width: 3, height: 2 });
        let point = samples.point(0);
        assert_eq!(point.h.numer * 2, samples.column as i128 * point.h.denom);
        assert_eq!(point.v.numer * 1, (1 - samples.row as i128) * point.v.denom);
    }
    assert_eq!(tracer.color_buffer()[4], DisplayColor { r: 1, g: 1, b: 1 });
}

#[test]
fn quick_render_runs_in_every_state() {
    let mut tracer = ATracer::new(2, 1, 3u8);
    tracer.quick_render(flat);
    tracer.start_render(by_position);
    assert_eq!(tracer.render_status(), RenderStatus::Finished);
    tracer.quick_render(flat);
    assert_eq!(tracer.render_status(), RenderStatus::Ready);
    assert!(tracer.color_buffer().iter().all(|c| *c == DisplayColor { r: 3, g: 3, b: 3 }));
}

#[test]
fn touching_the_scene_asks_for_a_preview() {
    let mut tracer = ATracer::new(2, 2, 1u8);
    tracer.refresh(flat);
    tracer.start_render(flat);
    assert_eq!(tracer.render_status(), RenderStatus::Finished);
    let before = tracer.color_buffer().clone();
    *tracer.get_scene_mut() = 200;
    assert_eq!(tracer.render_status(), RenderStatus::NeedsQuickrender);
    assert_eq!(*tracer.get_scene(), 200);
    assert_eq!(*tracer.color_buffer(), before);
    tracer.refresh(flat);
    assert!(tracer.color_buffer().iter().all(|c| *c == DisplayColor { r: 200, g: 200, b: 200 }));
}

#[test]
fn resize_clears_the_buffer() {
    let mut tracer = ATracer::new(2, 2, 5u8);
    tracer.refresh(flat);
    tracer.start_render(flat);
    let aspect_ratio = tracer.resize(3, 5);
    assert_eq!(aspect_ratio, Fraction { numer: 3, denom: 5 });
    assert_eq!(tracer.render_status(), RenderStatus::NeedsQuickrender);
    assert_eq!(tracer.color_buffer().len(), 15);
    assert!(tracer.color_buffer().iter().all(|c| *c == DisplayColor::default()));
    assert_eq!(tracer.render_settings().resolution, Resolution { width: 3, height: 5 });
    assert_eq!(tracer.render_settings().number_of_samples, 9);
    assert_eq!(tracer.render_settings().sampler, RegularSampler::new(3));
    assert_eq!(*tracer.get_scene(), 5);
}

fn keys(forward: bool, backward: bool, turn_left: bool) -> MovementKeys {
    MovementKeys {
        forward,
        backward,
        left: false,
        right: false,
        up: false,
        down: false,
        turn_left,
        turn_right: false,
        turn_up: false,
        turn_down: false,
    }
}

#[test]
fn update_without_movement_changes_nothing() {
    let mut tracer = ATracer::new(2, 2, 4u8);
    tracer.refresh(flat);
    tracer.start_render(flat);
    let before = tracer.color_buffer().clone();
    assert_eq!(tracer.update(keys(false, false, false)), None);
    assert_eq!(tracer.update(keys(true, true, false)), None);
    assert_eq!(tracer.render_status(), RenderStatus::Finished);
    assert_eq!(*tracer.color_buffer(), before);
}

#[test]
fn update_with_movement_asks_for_a_preview() {
    let mut tracer = ATracer::new(2, 2, 4u8);
    tracer.refresh(flat);
    tracer.start_render(flat);
    let before = tracer.color_buffer().clone();
    assert_eq!(
        tracer.update(keys(true, false, true)),
        Some(MovementSteps { forward: 1, sideways: 0, vertical: 0, pitch: 0, yaw: 1 })
    );
    assert_eq!(tracer.render_status(), RenderStatus::NeedsQuickrender);
    assert_eq!(*tracer.color_buffer(), before);
    assert_eq!(*tracer.get_scene(), 4);
    assert_eq!(tracer.render_settings().resolution, Resolution { width: 2, height: 2 });
}

#[test]
fn draw_packs_rgba_with_opaque_alpha() {
    let mut tracer = ATracer::new(2, 2, 0u8);
    tracer.quick_render(|_scene: &u8, samples: PixelSamples| DisplayColor {
        r: 10 + samples.column as u8,
        g: 20 + samples.row as u8,
        b: 30,
    });
    let mut frame = vec![7u8; 16];
    tracer.draw(&mut frame);
    assert_eq!(
        frame,
        vec![10, 20, 30, 255, 11, 20, 30, 255, 10, 21, 30, 255, 11, 21, 30, 255]
    );
}

#[test]
fn draw_of_a_new_tracer_is_opaque_black() {
    let mut tracer = ATracer::new(1, 2, 0u8);
    let mut frame = vec![9u8; 8];
    tracer.draw(&mut frame);
    assert_eq!(frame, vec![0, 0, 0, 255, 0, 0, 0, 255]);
}

#[test]
fn draw_twice_gives_the_same_bytes() {
    let mut tracer = ATracer::new(3, 3, 0u8);
    tracer.refresh(by_position);
    tracer.start_render(by_position);
    let mut first = vec![0u8; 36];
    let mut second = vec![255u8; 36];
    tracer.draw(&mut first);
    let status = tracer.render_status();
    let buffer = tracer.color_buffer().clone();
    tracer.draw(&mut second);
    assert_eq!(first, second);
    assert_eq!(tracer.render_status(), status);
    assert_eq!(*tracer.color_buffer(), buffer);
}

#[test]
fn display_color_packs_red_first() {
    assert_eq!(DisplayColor::new(1, 2, 3).to_rgba(), [1, 2, 3, 255]);
    assert_eq!(DisplayColor::default().to_rgba(), [0, 0, 0, 255]);
}

#[derive(Clone, Copy)]
struct Ball {
    radius: f32,
    distance: f32,
}

fn ball_or_sky(scene: &Ball, samples: PixelSamples) -> DisplayColor {
    // A ball on the axis of a camera that looks down -z through a viewport
    // two units wide and high, one unit away.
    let mut hits = 0;
    for point in samples.points() {
        let h = point.h.numer as f32 / point.h.denom as f32;
        let v = point.v.numer as f32 / point.v.denom as f32;
        let (dx, dy, dz) = (2.0 * h - 1.0, 2.0 * v - 1.0, -1.0f32);
        let a = dx * dx + dy * dy + dz * dz;
        let half_b = scene.distance * dz;
        let c = scene.distance * scene.distance - scene.radius * scene.radius;
        if half_b * half_b - a * c >= 0.0 {
            hits += 1;
        }
    }
    if 2 * hits > samples.len() {
        DisplayColor { r: 255, g: 0, b: 0 }
    } else {
        let v = samples.point(0).v;
        let t = v.numer as f32 / v.denom as f32;
        DisplayColor { r: (255.0 * (1.0 - 0.5 * t)) as u8, g: 200, b: 255 }
    }
}

#[test]
fn ball_fills_the_centre_and_sky_the_corners() {
    let mut tracer = ATracer::new(9, 9, Ball { radius: 1.0, distance: 5.0 });
    tracer.refresh(ball_or_sky);
    tracer.start_render(ball_or_sky);
    let buffer = tracer.color_buffer();
    assert_eq!(buffer[4 * 9 + 4], DisplayColor { r: 255, g: 0, b: 0 });
    for corner in [0usize, 8, 72, 80] {
        assert_eq!(buffer[corner].g, 200);
        assert_eq!(buffer[corner].b, 255);
    }
    // The top row is the top of the viewport, where the sky gradient is darkest in red.
    assert!(buffer[0].r < buffer[72].r);
}
