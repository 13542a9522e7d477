//! The frame loop's decision logic: a two-state machine that runs until a
//! quit event arrives.
//!
//! Each iteration the caller drains the platform's pending events,
//! translates them to [`InputEvent`], and asks [`frame_step`] what to do
//! next: render one more frame, or stop. The caller performs the chosen
//! action (clear, draw, present) and comes back with the next batch.

use vstd::prelude::*;

verus! {

/// One input event, reduced to what the loop cares about.
#[derive(Clone, Copy, PartialEq, Eq, Structural, Debug)]
pub enum InputEvent {
    /// The user asked to close the window or quit the application.
    Quit,
    /// Any other event; the loop ignores it.
    Other,
}

/// The loop's state: it renders while running and never leaves `Stopped`.
#[derive(Clone, Copy, PartialEq, Eq, Structural, Debug)]
pub enum LoopState {
    Running,
    Stopped,
}

/// What the caller should do after one step of the loop.
#[derive(Clone, Copy, PartialEq, Eq, Structural, Debug)]
pub enum FrameAction {
    /// Clear to the time-based color, draw the mesh, present the frame.
    Render,
    /// Leave the loop; the process then exits with success.
    Stop,
}

/// Whether some event in the batch signals quit.
pub open spec fn has_quit(events: Seq<InputEvent>) -> bool {
    exists|i: int| 0 <= i < events.len() && events[i] is Quit
}

/// Scans a drained event batch for a quit signal. Events after the first
/// quit are discarded unread, as the loop does.
pub fn scan_for_quit(events: &Vec<InputEvent>) -> (quit: bool)
    ensures
        quit == has_quit(events@),
{
    let mut k: usize = 0;
    while k < events.len()
        invariant
            k <= events@.len(),
            forall|i: int| 0 <= i < k ==> !(events@[i] is Quit),
        decreases events@.len() - k,
    {
        if matches!(events[k], InputEvent::Quit) {
            return true;
        }
        k = k + 1;
    }
    false
}

/// One step of the loop's state machine. While running, a batch with a
/// quit event stops the loop at once; any other batch asks for one more
/// rendered frame. A stopped loop stays stopped and renders nothing.
pub fn frame_step(state: LoopState, events: &Vec<InputEvent>) -> (r: (LoopState, FrameAction))
    ensures
        state is Stopped ==> r == (LoopState::Stopped, FrameAction::Stop),
        state is Running && has_quit(events@) ==> r == (
            LoopState::Stopped,
            FrameAction::Stop,
        ),
        state is Running && !has_quit(events@) ==> r == (
            LoopState::Running,
            FrameAction::Render,
        ),
{
    match state {
        LoopState::Stopped => (LoopState::Stopped, FrameAction::Stop),
        LoopState::Running => {
            if scan_for_quit(events) {
                (LoopState::Stopped, FrameAction::Stop)
            } else {
                (LoopState::Running, FrameAction::Render)
            }
        },
    }
}

} // verus!
