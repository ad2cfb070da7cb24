use vstd::prelude::*;
use crate::color::clear_color;
use crate::color::spec_clear_color;
use crate::color::Color;
use crate::frame::FrameBuffer;

verus! {

/// One platform event, as far as the loop distinguishes them.
#[derive(Clone, Copy, PartialEq, Eq, Structural, Debug)]
pub enum LoopEvent {
    /// The window was asked to close.
    CloseRequested,
    /// The window needs to be drawn again.
    RedrawRequested,
    /// Any other platform event; the loop ignores these.
    Other,
}

/// Where the loop stands between events.
#[derive(Clone, Copy, PartialEq, Eq, Structural, Debug)]
pub enum LoopState {
    /// Blocked until the next platform event arrives.
    Waiting,
    /// A frame is being cleared and presented.
    Rendering,
    /// The loop terminates.
    Closing,
}

/// One frame's worth of work: clear the whole buffer to the given
/// color, then bind the given program before presenting.
#[derive(Clone, Copy, PartialEq, Eq, Structural, Debug)]
pub struct RenderCommand {
    pub clear: Color,
    pub program: u32,
}

/// What the platform layer must do after one event is processed.
#[derive(Clone, Copy, PartialEq, Eq, Structural, Debug)]
pub enum Action {
    /// Keep blocking for the next event.
    Wait,
    /// Clear, bind and present one frame.
    Render(RenderCommand),
    /// Terminate the loop.
    Exit,
}

/// The command a redraw issues: clear to the fixed color and bind the
/// loop's one program.
pub open spec fn spec_render_command(program: u32) -> RenderCommand {
    RenderCommand { clear: spec_clear_color(), program }
}

/// The transition rules of the loop, from state and event to next
/// state and action:
/// - a close request terminates, whatever the prior state;
/// - a redraw request, unless the loop is closing, renders a frame;
/// - every other event is ignored;
/// - once closing, the loop only terminates.
pub open spec fn spec_step(s: LoopState, program: u32, ev: LoopEvent) -> (LoopState, Action) {
    match ev {
        LoopEvent::CloseRequested => (LoopState::Closing, Action::Exit),
        LoopEvent::RedrawRequested => if s is Closing {
            (LoopState::Closing, Action::Exit)
        } else {
            (LoopState::Rendering, Action::Render(spec_render_command(program)))
        },
        LoopEvent::Other => if s is Closing {
            (LoopState::Closing, Action::Exit)
        } else {
            (s, Action::Wait)
        },
    }
}

/// The loop's state once a pending frame has been presented: a
/// rendering loop returns to waiting, any other state is unchanged.
pub open spec fn spec_present(s: LoopState) -> LoopState {
    if s is Rendering {
        LoopState::Waiting
    } else {
        s
    }
}

/// The loop's context: the one linked program the render step binds,
/// and where the loop stands. The program handle is a plain field so
/// that every render step can read it.
pub struct RenderLoop {
    pub program: u32,
    pub state: LoopState,
}

impl RenderLoop {
    /// A fresh loop around the given program, blocked waiting for its
    /// first event.
    pub fn new(program: u32) -> (lp: RenderLoop)
        ensures
            lp.program == program,
            lp.state is Waiting,
    {
        RenderLoop { program, state: LoopState::Waiting }
    }

    /// Process one platform event, following the transition rules
    /// exactly; the program handle never changes.
    pub fn step(&mut self, ev: LoopEvent) -> (a: Action)
        ensures
            (final (self).state, a) == spec_step(old(self).state, old(self).program, ev),
            final (self).program == old(self).program,
    {
        match ev {
            LoopEvent::CloseRequested => {
                self.state = LoopState::Closing;
                Action::Exit
            },
            LoopEvent::RedrawRequested => {
                match self.state {
                    LoopState::Closing => Action::Exit,
                    _ => {
                        self.state = LoopState::Rendering;
                        Action::Render(RenderCommand { clear: clear_color(), program: self.program })
                    },
                }
            },
            LoopEvent::Other => {
                match self.state {
                    LoopState::Closing => Action::Exit,
                    _ => Action::Wait,
                }
            },
        }
    }

    /// The platform layer presented the frame: the loop waits again.
    pub fn frame_presented(&mut self)
        requires
            old(self).state is Rendering,
        ensures
            final (self).state is Waiting,
            final (self).program == old(self).program,
    {
        self.state = LoopState::Waiting;
    }
}

/// Some event among the first `n` is a redraw request.
pub open spec fn has_redraw_before(events: Seq<LoopEvent>, n: int) -> bool {
    exists|j: int| 0 <= j < n && events[j] is RedrawRequested
}

/// Run a waiting loop over a queue of events, rendering each
/// requested frame into the buffer, until a close request terminates
/// it or the queue runs out. Returns the position of the event that
/// terminated the loop: exactly the first close request, if there is
/// one — every event before it is processed and none after it. If any
/// processed event was a redraw request, the buffer comes out filled
/// with the fixed clear color; otherwise it is untouched.
pub fn run_events(lp: &mut RenderLoop, fb: &mut FrameBuffer, events: &Vec<LoopEvent>) -> (exit_at:
    Option<usize>)
    requires
        old(lp).state is Waiting,
    ensures
        final (lp).program == old(lp).program,
        final (fb).pixels@.len() == old(fb).pixels@.len(),
        match exit_at {
            Some(i) => {
                &&& i < events@.len()
                &&& events@[i as int] is CloseRequested
                &&& forall|j: int| 0 <= j < i ==> !(events@[j] is CloseRequested)
                &&& final (lp).state is Closing
            },
            None => {
                &&& forall|j: int| 0 <= j < events@.len() ==> !(events@[j] is CloseRequested)
                &&& final (lp).state is Waiting
            },
        },
        ({
            let processed = match exit_at {
                Some(i) => i as int,
                None => events@.len() as int,
            };
            &&& has_redraw_before(events@, processed) ==> final (fb).pixels@ == crate::frame::spec_filled(
                old(fb).pixels@.len(),
                spec_clear_color(),
            )
            &&& !has_redraw_before(events@, processed) ==> final (fb).pixels@ == old(fb).pixels@
        }),
{
    let mut i: usize = 0;
    while i < events.len()
        invariant
            i <= events@.len(),
            lp.state is Waiting,
            lp.program == old(lp).program,
            fb.pixels@.len() == old(fb).pixels@.len(),
            forall|j: int| 0 <= j < i ==> !(events@[j] is CloseRequested),
            has_redraw_before(events@, i as int) ==> fb.pixels@ == crate::frame::spec_filled(
                old(fb).pixels@.len(),
                spec_clear_color(),
            ),
            !has_redraw_before(events@, i as int) ==> fb.pixels@ == old(fb).pixels@,
        decreases events@.len() - i,
    {
        let ev = events[i];
        let a = lp.step(ev);
        match a {
            Action::Exit => {
                return Some(i);
            },
            Action::Render(cmd) => {
                let _bound = fb.render(cmd);
                lp.frame_presented();
                proof {
                    assert(events@[i as int] is RedrawRequested);
                    assert(has_redraw_before(events@, i + 1));
                }
            },
            Action::Wait => {
                proof {
                    assert(!(events@[i as int] is RedrawRequested));
                    assert(has_redraw_before(events@, i + 1) ==> has_redraw_before(
                        events@,
                        i as int,
                    ));
                }
            },
        }
        i = i + 1;
    }
    None
}

/// A close request ends the loop within one event-processing step,
/// whatever the prior state.
pub proof fn lemma_close_terminates(s: LoopState, program: u32)
    ensures
        spec_step(s, program, LoopEvent::CloseRequested) == (LoopState::Closing, Action::Exit),
{
}

/// Two consecutive redraw requests each independently clear and
/// present a frame: both issue the identical render command, and the
/// loop stands in the same waiting state after each, so no state
/// accumulates across frames.
pub proof fn lemma_redraw_frames_independent(s: LoopState, program: u32)
    requires
        !(s is Closing),
    ensures
        ({
            let (s1, a1) = spec_step(s, program, LoopEvent::RedrawRequested);
            let (s2, a2) = spec_step(spec_present(s1), program, LoopEvent::RedrawRequested);
            &&& a1 == Action::Render(spec_render_command(program))
            &&& a2 == a1
            &&& spec_present(s1) == LoopState::Waiting
            &&& spec_present(s2) == spec_present(s1)
        }),
{
}

} // verus!
