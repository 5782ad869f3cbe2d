use pathtracer::tracer::Tracer;
use pathtracer::viewer::{plan_frame, resize_tracer, FrameInput, FramePlan, RenderOptions};

const QUIET: FrameInput = FrameInput { close: false, toggle_fullscreen: false, trace: false, save: false };

const PLAIN: RenderOptions =
    RenderOptions { render_on_resize: false, render_continuously: false, fit_to_viewport: false };

#[test]
fn quiet_frame_only_shows_the_window() {
    let plan = plan_frame(false, &PLAIN, &QUIET);
    assert_eq!(
        plan,
        FramePlan {
            close: false,
            trace_on_request: false,
            save: false,
            trace_continuously: false,
            fullscreen: false,
            side_panel: true,
        }
    );
}

#[test]
fn fullscreen_hides_the_side_panel() {
    let plan = plan_frame(true, &PLAIN, &QUIET);
    assert!(plan.fullscreen);
    assert!(!plan.side_panel);
}

#[test]
fn fullscreen_key_flips_fullscreen() {
    let toggle = FrameInput { toggle_fullscreen: true, ..QUIET };
    let entering = plan_frame(false, &PLAIN, &toggle);
    assert!(entering.fullscreen);
    assert!(!entering.side_panel);
    let leaving = plan_frame(true, &PLAIN, &toggle);
    assert!(!leaving.fullscreen);
    assert!(leaving.side_panel);
}

#[test]
fn requests_of_the_user_are_carried_out() {
    let all = FrameInput { close: true, toggle_fullscreen: false, trace: true, save: true };
    let plan = plan_frame(false, &PLAIN, &all);
    assert!(plan.close);
    assert!(plan.trace_on_request);
    assert!(plan.save);
    assert!(!plan.trace_continuously);
}

#[test]
fn continuous_rendering_draws_in_every_frame() {
    let options = RenderOptions { render_continuously: true, ..PLAIN };
    let plan = plan_frame(false, &options, &QUIET);
    assert!(plan.trace_continuously);
    assert!(!plan.trace_on_request);
    assert!(!plan.save);
    assert!(!plan.close);
}

#[test]
fn other_options_do_not_change_the_plan() {
    let options = RenderOptions { render_on_resize: true, render_continuously: false, fit_to_viewport: true };
    assert_eq!(plan_frame(false, &options, &QUIET), plan_frame(false, &PLAIN, &QUIET));
    assert_eq!(plan_frame(true, &options, &QUIET), plan_frame(true, &PLAIN, &QUIET));
}

#[test]
fn viewport_without_area_is_passed_over() {
    let on = RenderOptions { render_on_resize: true, ..PLAIN };
    for (w, h) in [(0, 0), (0, 10), (10, 0)] {
        let mut tracer = Tracer::new(4, 4);
        assert!(!resize_tracer(&mut tracer, w, h, &on));
        assert_eq!((tracer.width(), tracer.height()), (4, 4));
        assert_eq!(tracer.image_buffer(), &[255u8; 48][..]);
    }
}

#[test]
fn viewport_change_resizes_without_drawing_when_the_option_is_off() {
    let mut tracer = Tracer::new(2, 2);
    tracer.draw_gradient();
    assert!(!resize_tracer(&mut tracer, 3, 3, &PLAIN));
    assert_eq!((tracer.width(), tracer.height()), (3, 3));
    assert_eq!(&tracer.image_buffer()[..12], &[0u8; 12][..]);
    assert_eq!(&tracer.image_buffer()[12..], &[255u8; 15][..]);
}

#[test]
fn viewport_change_draws_when_the_option_is_on() {
    let on = RenderOptions { render_on_resize: true, ..PLAIN };
    let mut tracer = Tracer::new(2, 2);
    assert!(resize_tracer(&mut tracer, 3, 5, &on));
    assert_eq!((tracer.width(), tracer.height()), (3, 5));
    assert_eq!(tracer.image_buffer(), &[0u8; 45][..]);
}

#[test]
fn viewport_of_the_same_size_draws_nothing() {
    let on = RenderOptions { render_on_resize: true, ..PLAIN };
    let mut tracer = Tracer::new(3, 5);
    assert!(!resize_tracer(&mut tracer, 3, 5, &on));
    assert_eq!((tracer.width(), tracer.height()), (3, 5));
    assert_eq!(tracer.image_buffer(), &[255u8; 45][..]);
}

#[test]
fn viewport_of_another_shape_counts_as_a_change() {
    let on = RenderOptions { render_on_resize: true, ..PLAIN };
    let mut tracer = Tracer::new(3, 5);
    assert!(resize_tracer(&mut tracer, 5, 3, &on));
    assert_eq!((tracer.width(), tracer.height()), (5, 3));
    assert_eq!(tracer.image_buffer(), &[0u8; 45][..]);
}
