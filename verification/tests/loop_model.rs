use gl_demo::color::{clear_color, Color, CHANNEL_FULL};
use gl_demo::event::{run_events, Action, LoopEvent, LoopState, RenderCommand, RenderLoop};
use gl_demo::frame::FrameBuffer;

fn odd_color() -> Color {
    Color { red_milli: 999, green_milli: 1, blue_milli: 500, alpha_milli: 0 }
}

#[test]
fn clear_color_is_the_fixed_one() {
    let c = clear_color();
    assert_eq!(c.red_milli, 200);
    assert_eq!(c.green_milli, 300);
    assert_eq!(c.blue_milli, 300);
    assert_eq!(c.alpha_milli, CHANNEL_FULL);
}

#[test]
fn close_terminates_from_waiting() {
    let mut lp = RenderLoop::new(11);
    assert_eq!(lp.state, LoopState::Waiting);
    let a = lp.step(LoopEvent::CloseRequested);
    assert_eq!(a, Action::Exit);
    assert_eq!(lp.state, LoopState::Closing);
}

#[test]
fn close_terminates_from_rendering() {
    let mut lp = RenderLoop::new(11);
    let _ = lp.step(LoopEvent::RedrawRequested);
    assert_eq!(lp.state, LoopState::Rendering);
    let a = lp.step(LoopEvent::CloseRequested);
    assert_eq!(a, Action::Exit);
    assert_eq!(lp.state, LoopState::Closing);
}

#[test]
fn close_terminates_from_closing() {
    let mut lp = RenderLoop::new(11);
    let _ = lp.step(LoopEvent::CloseRequested);
    let a = lp.step(LoopEvent::CloseRequested);
    assert_eq!(a, Action::Exit);
    assert_eq!(lp.state, LoopState::Closing);
}

#[test]
fn other_events_are_ignored() {
    let mut lp = RenderLoop::new(11);
    let a = lp.step(LoopEvent::Other);
    assert_eq!(a, Action::Wait);
    assert_eq!(lp.state, LoopState::Waiting);
    assert_eq!(lp.program, 11);
}

#[test]
fn redraw_issues_the_render_command() {
    let mut lp = RenderLoop::new(42);
    let a = lp.step(LoopEvent::RedrawRequested);
    assert_eq!(a, Action::Render(RenderCommand { clear: clear_color(), program: 42 }));
    assert_eq!(lp.state, LoopState::Rendering);
    lp.frame_presented();
    assert_eq!(lp.state, LoopState::Waiting);
}

#[test]
fn render_fills_buffer_before_any_draw() {
    // Activating the program and clearing yields a buffer uniformly
    // filled with the fixed clear color, whatever was there before.
    let mut fb = FrameBuffer::new(16, odd_color());
    let cmd = RenderCommand { clear: clear_color(), program: 42 };
    let bound = fb.render(cmd);
    assert_eq!(bound, 42);
    assert_eq!(fb.pixels.len(), 16);
    assert!(fb.pixels.iter().all(|&p| p == clear_color()));
}

#[test]
fn consecutive_redraws_render_identical_independent_frames() {
    let mut lp = RenderLoop::new(42);
    let mut fb = FrameBuffer::new(8, odd_color());

    let a1 = lp.step(LoopEvent::RedrawRequested);
    let first = match a1 {
        Action::Render(cmd) => {
            let _ = fb.render(cmd);
            lp.frame_presented();
            fb.pixels.clone()
        },
        _ => panic!("a redraw while waiting must render"),
    };

    let a2 = lp.step(LoopEvent::RedrawRequested);
    assert_eq!(a2, a1);
    let second = match a2 {
        Action::Render(cmd) => {
            let _ = fb.render(cmd);
            lp.frame_presented();
            fb.pixels.clone()
        },
        _ => panic!("a redraw while waiting must render"),
    };

    assert_eq!(first, second);
    assert_eq!(lp.state, LoopState::Waiting);
    assert!(first.iter().all(|&p| p == clear_color()));
}

#[test]
fn run_stops_at_the_first_close() {
    let mut lp = RenderLoop::new(5);
    let mut fb = FrameBuffer::new(4, odd_color());
    let events = vec![
        LoopEvent::Other,
        LoopEvent::RedrawRequested,
        LoopEvent::CloseRequested,
        LoopEvent::RedrawRequested,
        LoopEvent::CloseRequested,
    ];
    let exit_at = run_events(&mut lp, &mut fb, &events);
    assert_eq!(exit_at, Some(2));
    assert_eq!(lp.state, LoopState::Closing);
    // The one redraw before the close did render.
    assert!(fb.pixels.iter().all(|&p| p == clear_color()));
}

#[test]
fn run_without_a_close_processes_everything_and_waits() {
    let mut lp = RenderLoop::new(5);
    let mut fb = FrameBuffer::new(4, odd_color());
    let events = vec![LoopEvent::RedrawRequested, LoopEvent::Other, LoopEvent::RedrawRequested];
    let exit_at = run_events(&mut lp, &mut fb, &events);
    assert_eq!(exit_at, None);
    assert_eq!(lp.state, LoopState::Waiting);
    assert_eq!(lp.program, 5);
    // The redraws rendered: the buffer holds the fixed clear color.
    assert!(fb.pixels.iter().all(|&p| p == clear_color()));
}

#[test]
fn run_without_redraws_leaves_buffer_untouched() {
    let mut lp = RenderLoop::new(5);
    let mut fb = FrameBuffer::new(4, odd_color());
    let events = vec![LoopEvent::Other, LoopEvent::Other, LoopEvent::CloseRequested];
    let exit_at = run_events(&mut lp, &mut fb, &events);
    assert_eq!(exit_at, Some(2));
    assert!(fb.pixels.iter().all(|&p| p == odd_color()));
}

#[test]
fn redraw_after_the_close_does_not_render() {
    let mut lp = RenderLoop::new(5);
    let mut fb = FrameBuffer::new(4, odd_color());
    let events = vec![LoopEvent::CloseRequested, LoopEvent::RedrawRequested];
    let exit_at = run_events(&mut lp, &mut fb, &events);
    assert_eq!(exit_at, Some(0));
    assert!(fb.pixels.iter().all(|&p| p == odd_color()));
}

#[test]
fn run_with_no_events_keeps_waiting() {
    let mut lp = RenderLoop::new(5);
    let mut fb = FrameBuffer::new(0, odd_color());
    let exit_at = run_events(&mut lp, &mut fb, &Vec::new());
    assert_eq!(exit_at, None);
    assert_eq!(lp.state, LoopState::Waiting);
    assert_eq!(fb.pixels.len(), 0);
}

#[test]
fn clearing_an_empty_buffer_is_harmless() {
    let mut fb = FrameBuffer::new(0, odd_color());
    fb.clear(clear_color());
    assert_eq!(fb.pixels.len(), 0);
}
