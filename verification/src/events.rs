use vstd::prelude::*;

verus! {

/// A window event, reduced to what the loop decides on: some window —
/// identified by a plain number — was asked to close, or something else
/// happened.
#[derive(Clone, Copy, PartialEq, Eq, Structural, Debug)]
pub enum LoopEvent {
    CloseRequested { window_id: u64 },
    Other,
}

/// What the event loop does next: stop, or block until the next event.
#[derive(Clone, Copy, PartialEq, Eq, Structural, Debug)]
pub enum LoopControl {
    Exit,
    Wait,
}

/// The loop exits exactly when the application's own window was asked to
/// close; every other event leaves it waiting.
pub fn control_after(event: LoopEvent, our_window: u64) -> (r: LoopControl)
    ensures
        r == LoopControl::Exit <==> event == (LoopEvent::CloseRequested { window_id: our_window }),
        r == LoopControl::Exit || r == LoopControl::Wait,
{
    match event {
        LoopEvent::CloseRequested { window_id } => {
            if window_id == our_window {
                LoopControl::Exit
            } else {
                LoopControl::Wait
            }
        }
        LoopEvent::Other => LoopControl::Wait,
    }
}

} // verus!
