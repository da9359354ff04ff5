//! How the main loop answers the events that the window system sends.

use vstd::prelude::*;
use crate::surface::PixelSize;

verus! {

/// What the loop reads of a window event.
#[derive(Clone, Copy, PartialEq, Eq, Debug, Structural)]
pub enum WindowInput {
    /// The user asked to close the window.
    CloseRequested,
    /// A key changed state; `is_f11` tells whether it is the F11 key and
    /// `pressed` whether it went down.
    Key { is_f11: bool, pressed: bool },
    /// The window got a new size.
    Resized(PixelSize),
    /// The window system asks for a new picture.
    RedrawRequested,
    /// Any other window event.
    Other,
}

/// What the loop reads of an event.
#[derive(Clone, Copy, PartialEq, Eq, Debug, Structural)]
pub enum LoopInput {
    /// An event for the window.
    Window(WindowInput),
    /// All pending events have been handled and the loop is about to wait.
    AboutToWait,
    /// Any other event.
    Other,
}

/// What the loop does in answer.
#[derive(Clone, Copy, PartialEq, Eq, Debug, Structural)]
pub enum LoopAction {
    /// Leave the loop.
    Exit,
    /// Switch between fullscreen and windowed display: become fullscreen
    /// (borderless) or windowed, and show or hide the mouse cursor.
    SetDisplay { fullscreen: bool, cursor_visible: bool },
    /// Resize the renderer to the new size.
    Resize(PixelSize),
    /// Draw a frame.
    Render,
    /// Advance the animation by the time since the last frame and ask for
    /// a redraw.
    UpdateAndRedraw,
    /// Do nothing.
    Nothing,
}

/// The answer to an event, given whether the window is fullscreen now: F11
/// going down switches between fullscreen with a hidden cursor and windowed
/// with a visible one.
pub open spec fn loop_action_spec(input: LoopInput, fullscreen: bool) -> LoopAction {
    match input {
        LoopInput::Window(w) => match w {
            WindowInput::CloseRequested => LoopAction::Exit,
            WindowInput::Key { is_f11, pressed } => if is_f11 && pressed {
                LoopAction::SetDisplay { fullscreen: !fullscreen, cursor_visible: fullscreen }
            } else {
                LoopAction::Nothing
            },
            WindowInput::Resized(size) => LoopAction::Resize(size),
            WindowInput::RedrawRequested => LoopAction::Render,
            WindowInput::Other => LoopAction::Nothing,
        },
        LoopInput::AboutToWait => LoopAction::UpdateAndRedraw,
        LoopInput::Other => LoopAction::Nothing,
    }
}

/// The answer to an event, given whether the window is fullscreen now.
pub fn loop_action(input: LoopInput, fullscreen: bool) -> (action: LoopAction)
    ensures
        action == loop_action_spec(input, fullscreen),
{
    match input {
        LoopInput::Window(w) => match w {
            WindowInput::CloseRequested => LoopAction::Exit,
            WindowInput::Key { is_f11, pressed } => if is_f11 && pressed {
                LoopAction::SetDisplay { fullscreen: !fullscreen, cursor_visible: fullscreen }
            } else {
                LoopAction::Nothing
            },
            WindowInput::Resized(size) => LoopAction::Resize(size),
            WindowInput::RedrawRequested => LoopAction::Render,
            WindowInput::Other => LoopAction::Nothing,
        },
        LoopInput::AboutToWait => LoopAction::UpdateAndRedraw,
        LoopInput::Other => LoopAction::Nothing,
    }
}

/// The loop's answers, one by one, whatever the display mode: a close
/// request exits, a resize resizes to the reported size, a redraw request
/// draws, the idle moment advances the animation and asks for a redraw, F11
/// going down switches to the other display mode (cursor hidden exactly in
/// fullscreen), and every other key event and every other event is ignored.
pub proof fn lemma_loop_answers(fullscreen: bool, size: PixelSize, is_f11: bool, pressed: bool)
    ensures
        loop_action_spec(LoopInput::Window(WindowInput::CloseRequested), fullscreen)
            == LoopAction::Exit,
        loop_action_spec(LoopInput::Window(WindowInput::RedrawRequested), fullscreen)
            == LoopAction::Render,
        loop_action_spec(LoopInput::Window(WindowInput::Resized(size)), fullscreen)
            == LoopAction::Resize(size),
        loop_action_spec(LoopInput::AboutToWait, fullscreen) == LoopAction::UpdateAndRedraw,
        loop_action_spec(LoopInput::Other, fullscreen) == LoopAction::Nothing,
        loop_action_spec(LoopInput::Window(WindowInput::Other), fullscreen) == LoopAction::Nothing,
        is_f11 && pressed ==> loop_action_spec(
            LoopInput::Window((WindowInput::Key { is_f11, pressed })),
            fullscreen,
        ) == (LoopAction::SetDisplay { fullscreen: !fullscreen, cursor_visible: fullscreen }),
        !(is_f11 && pressed) ==> loop_action_spec(
            LoopInput::Window((WindowInput::Key { is_f11, pressed })),
            fullscreen,
        ) == LoopAction::Nothing,
{
}

/// Pressing F11 twice brings the display back to where it was, and the
/// cursor is shown exactly when the window is not fullscreen.
pub proof fn lemma_f11_toggles(fullscreen: bool)
    ensures
        ({
            let press = LoopInput::Window(WindowInput::Key { is_f11: true, pressed: true });
            let first = loop_action_spec(press, fullscreen);
            &&& first matches LoopAction::SetDisplay { fullscreen: f1, cursor_visible: c1 }
            &&& c1 == !f1
            &&& f1 != fullscreen
            &&& loop_action_spec(press, f1) matches LoopAction::SetDisplay { fullscreen: f2, cursor_visible: c2 }
            &&& f2 == fullscreen
            &&& c2 == !f2
        }),
{
}

} // verus!
