use conmind::surface::PixelSize;
use conmind::window_events::{loop_action, LoopAction, LoopInput, WindowInput};

fn f11_press() -> LoopInput {
    LoopInput::Window(WindowInput::Key { is_f11: true, pressed: true })
}

#[test]
fn close_exits() {
    assert_eq!(loop_action(LoopInput::Window(WindowInput::CloseRequested), false), LoopAction::Exit);
}

#[test]
fn f11_goes_fullscreen_and_hides_cursor() {
    assert_eq!(
        loop_action(f11_press(), false),
        LoopAction::SetDisplay { fullscreen: true, cursor_visible: false }
    );
}

#[test]
fn f11_leaves_fullscreen_and_shows_cursor() {
    assert_eq!(
        loop_action(f11_press(), true),
        LoopAction::SetDisplay { fullscreen: false, cursor_visible: true }
    );
}

#[test]
fn f11_twice_returns_to_windowed() {
    let first = loop_action(f11_press(), false);
    let now_fullscreen = match first {
        LoopAction::SetDisplay { fullscreen, .. } => fullscreen,
        _ => panic!("F11 should switch the display"),
    };
    assert_eq!(
        loop_action(f11_press(), now_fullscreen),
        LoopAction::SetDisplay { fullscreen: false, cursor_visible: true }
    );
}

#[test]
fn other_keys_and_releases_do_nothing() {
    let release = LoopInput::Window(WindowInput::Key { is_f11: true, pressed: false });
    assert_eq!(loop_action(release, false), LoopAction::Nothing);
    let other = LoopInput::Window(WindowInput::Key { is_f11: false, pressed: true });
    assert_eq!(loop_action(other, true), LoopAction::Nothing);
}

#[test]
fn resize_redraw_and_idle() {
    let size = PixelSize { width: 640, height: 480 };
    assert_eq!(loop_action(LoopInput::Window(WindowInput::Resized(size)), false), LoopAction::Resize(size));
    assert_eq!(loop_action(LoopInput::Window(WindowInput::RedrawRequested), false), LoopAction::Render);
    assert_eq!(loop_action(LoopInput::AboutToWait, true), LoopAction::UpdateAndRedraw);
    assert_eq!(loop_action(LoopInput::Other, true), LoopAction::Nothing);
    assert_eq!(loop_action(LoopInput::Window(WindowInput::Other), true), LoopAction::Nothing);
}
