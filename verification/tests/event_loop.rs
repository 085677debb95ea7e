//! Tests of the per-frame state machine and the event loop driver:
//! acquisition-error classification, the input mapping, and the stop flag.

use reflect_water::animation::UNIT_SCALE;
use reflect_water::driver::RunLoop;
use reflect_water::frame::{
    AcquireOutcome, EventResponse, FrameAction, PressedKey, WindowEvent,
};
use reflect_water::state::{Extent, State, INITIAL_HEIGHT, INITIAL_WIDTH};
use reflect_water::surface::SurfaceFormat;

fn new_state() -> State {
    let formats = vec![
        SurfaceFormat { tag: 10, srgb: false },
        SurfaceFormat { tag: 11, srgb: true },
    ];
    let present_modes = vec![3u32, 1];
    let alpha_modes = vec![8u32, 9];
    State::new(&formats, &present_modes, &alpha_modes, INITIAL_WIDTH, INITIAL_HEIGHT)
}

fn new_loop() -> RunLoop {
    RunLoop::new(new_state())
}

fn sine_units(phase_units: i64) -> i64 {
    ((phase_units as f64 / UNIT_SCALE as f64).sin() * UNIT_SCALE as f64).round() as i64
}

#[test]
fn input_hook_consumes_nothing() {
    let mut s = new_state();
    let before = s;
    assert!(!s.input(&WindowEvent::CloseRequested));
    assert!(!s.input(&WindowEvent::KeyPressed(PressedKey::Escape)));
    assert!(!s.input(&WindowEvent::Other));
    assert_eq!(s, before);
}

#[test]
fn acquired_frame_renders() {
    let mut l = new_loop();
    let phases = l.begin_frame().unwrap();
    l.set_offset(sine_units(phases.0), sine_units(phases.1));
    assert_eq!(l.complete_frame(AcquireOutcome::Acquired), FrameAction::Render);
    assert!(!l.exiting);
}

#[test]
fn timeout_skips_frame_and_continues() {
    let mut l = new_loop();
    l.begin_frame().unwrap();
    assert_eq!(l.complete_frame(AcquireOutcome::Timeout), FrameAction::Skip);
    assert!(!l.exiting);
    assert!(l.begin_frame().is_some());
}

#[test]
fn outdated_surface_reconfigures_with_last_size_and_skips_draw() {
    let mut l = new_loop();
    let phases = l.begin_frame().unwrap();
    l.set_offset(sine_units(phases.0), sine_units(phases.1));
    let action = l.complete_frame(AcquireOutcome::Outdated);
    // reconfigure with the last known size; no draw this tick
    assert_eq!(
        action,
        FrameAction::Reconfigure { width: INITIAL_WIDTH, height: INITIAL_HEIGHT }
    );
    assert_ne!(action, FrameAction::Render);
    assert!(!l.exiting);
    assert!(l.begin_frame().is_some());
}

#[test]
fn lost_surface_reconfigures_after_resize() {
    let mut l = new_loop();
    assert_eq!(
        l.window_event(&WindowEvent::Resized { width: 800, height: 600 }),
        EventResponse::Configure
    );
    l.begin_frame().unwrap();
    assert_eq!(
        l.complete_frame(AcquireOutcome::Lost),
        FrameAction::Reconfigure { width: 800, height: 600 }
    );
}

#[test]
fn out_of_memory_stops_exactly_once() {
    let mut l = new_loop();
    l.begin_frame().unwrap();
    assert_eq!(l.complete_frame(AcquireOutcome::OutOfMemory), FrameAction::Exit);
    assert!(l.exiting);
    let stopped = l;
    // no further frame is processed, and the stop signal never repeats
    assert!(l.begin_frame().is_none());
    for outcome in [
        AcquireOutcome::Acquired,
        AcquireOutcome::OutOfMemory,
        AcquireOutcome::Lost,
        AcquireOutcome::Timeout,
    ] {
        assert_eq!(l.complete_frame(outcome), FrameAction::Skip);
    }
    assert_eq!(
        l.window_event(&WindowEvent::Resized { width: 64, height: 64 }),
        EventResponse::Ignore
    );
    assert_eq!(l, stopped);
}

#[test]
fn close_request_and_escape_stop_the_loop() {
    let mut l = new_loop();
    assert_eq!(l.window_event(&WindowEvent::CloseRequested), EventResponse::Exit);
    assert!(l.exiting);

    let mut l = new_loop();
    assert_eq!(
        l.window_event(&WindowEvent::KeyPressed(PressedKey::Escape)),
        EventResponse::Exit
    );
    assert!(l.exiting);

    let mut l = new_loop();
    assert_eq!(
        l.window_event(&WindowEvent::KeyPressed(PressedKey::Other)),
        EventResponse::Ignore
    );
    assert_eq!(l.window_event(&WindowEvent::Other), EventResponse::Ignore);
    assert!(!l.exiting);
}

#[test]
fn resize_events_update_the_configuration() {
    let mut l = new_loop();
    assert_eq!(
        l.window_event(&WindowEvent::Resized { width: 1280, height: 720 }),
        EventResponse::Configure
    );
    assert_eq!(l.state.size, Extent { width: 1280, height: 720 });
    assert_eq!((l.state.config.width, l.state.config.height), (1280, 720));
    assert_eq!(
        l.window_event(&WindowEvent::ScaleFactorChanged { width: 640, height: 360 }),
        EventResponse::Configure
    );
    assert_eq!(l.state.size, Extent { width: 640, height: 360 });
    assert_eq!(
        l.window_event(&WindowEvent::Resized { width: 0, height: 720 }),
        EventResponse::Ignore
    );
    assert_eq!(l.state.size, Extent { width: 640, height: 360 });
}

#[test]
fn animation_advances_even_when_frames_are_abandoned() {
    let mut l = new_loop();
    let first = l.begin_frame().unwrap();
    assert_eq!(l.complete_frame(AcquireOutcome::Timeout), FrameAction::Skip);
    let second = l.begin_frame().unwrap();
    assert_ne!(first, second);
    assert_ne!(l.complete_frame(AcquireOutcome::Outdated), FrameAction::Render);
    let third = l.begin_frame().unwrap();
    assert_ne!(second, third);
}
