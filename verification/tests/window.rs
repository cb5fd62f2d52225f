use scene_bootstrap::input::PlayerInputs;
use scene_bootstrap::window::{
    toggle_cursor, toggle_vsync, Cursor, CursorGrabMode, CursorReport, PresentMode, Window,
};

fn window(present_mode: PresentMode) -> Window {
    Window {
        present_mode,
        cursor: Cursor { grab_mode: CursorGrabMode::Free, visible: true },
        title: "Bevy GameDev Template".to_string(),
    }
}

#[test]
fn vsync_toggle() {
    let mut windows = vec![window(PresentMode::AutoVsync)];
    assert_eq!(toggle_vsync(true, &mut windows), Some(PresentMode::AutoNoVsync));
    assert_eq!(windows, vec![window(PresentMode::AutoNoVsync)]);
    assert_eq!(toggle_vsync(true, &mut windows), Some(PresentMode::AutoVsync));
    assert_eq!(windows, vec![window(PresentMode::AutoVsync)]);
}

#[test]
fn vsync_toggle_needs_a_press() {
    let mut windows = vec![window(PresentMode::AutoVsync)];
    assert_eq!(toggle_vsync(false, &mut windows), None);
    assert_eq!(windows, vec![window(PresentMode::AutoVsync)]);
}

#[test]
fn vsync_toggle_switches_every_other_mode_to_vsync() {
    for mode in [PresentMode::Immediate, PresentMode::Mailbox, PresentMode::Fifo] {
        let mut windows = vec![window(mode)];
        assert_eq!(toggle_vsync(true, &mut windows), Some(PresentMode::AutoVsync));
        assert_eq!(windows, vec![window(PresentMode::AutoVsync)]);
    }
}

#[test]
fn vsync_toggle_without_primary_window_does_nothing() {
    let mut none: Vec<Window> = Vec::new();
    assert_eq!(toggle_vsync(true, &mut none), None);
    assert!(none.is_empty());

    let mut two = vec![window(PresentMode::AutoVsync), window(PresentMode::Fifo)];
    assert_eq!(toggle_vsync(true, &mut two), None);
    assert_eq!(two, vec![window(PresentMode::AutoVsync), window(PresentMode::Fifo)]);
}

#[test]
fn vsync_toggle_keeps_cursor_and_title() {
    let mut locked = window(PresentMode::AutoVsync);
    locked.cursor = Cursor { grab_mode: CursorGrabMode::Confined, visible: false };
    locked.title = "other".to_string();
    let mut windows = vec![locked.clone()];
    toggle_vsync(true, &mut windows);
    assert_eq!(windows[0].cursor, locked.cursor);
    assert_eq!(windows[0].title, "other");
}

#[test]
fn cursor_is_locked_and_hidden_when_the_flag_is_set() {
    let mut windows = vec![window(PresentMode::AutoVsync)];
    let report = toggle_cursor(&mut windows, &PlayerInputs { mouse_locked: true });
    assert_eq!(report, CursorReport::Applied { title: "Bevy GameDev Template".to_string() });
    assert_eq!(windows.len(), 1);
    assert_eq!(windows[0].cursor, Cursor { grab_mode: CursorGrabMode::Locked, visible: false });
    assert_eq!(windows[0].present_mode, PresentMode::AutoVsync);
    assert_eq!(windows[0].title, "Bevy GameDev Template");
}

#[test]
fn cursor_is_free_and_visible_when_the_flag_is_clear() {
    let mut start = window(PresentMode::Mailbox);
    start.cursor = Cursor { grab_mode: CursorGrabMode::Confined, visible: false };
    let mut windows = vec![start];
    let report = toggle_cursor(&mut windows, &PlayerInputs { mouse_locked: false });
    assert_eq!(report, CursorReport::Applied { title: "Bevy GameDev Template".to_string() });
    assert_eq!(windows, vec![window(PresentMode::Mailbox)]);
}

#[test]
fn cursor_assertion_is_idempotent() {
    for locked in [false, true] {
        let inputs = PlayerInputs { mouse_locked: locked };
        let mut once = vec![window(PresentMode::AutoNoVsync)];
        toggle_cursor(&mut once, &inputs);
        let mut often = vec![window(PresentMode::AutoNoVsync)];
        for _ in 0..25 {
            toggle_cursor(&mut often, &inputs);
        }
        assert_eq!(once, often);
    }
}

#[test]
fn cursor_without_primary_window_is_a_reported_no_op() {
    let mut none: Vec<Window> = Vec::new();
    let report = toggle_cursor(&mut none, &PlayerInputs { mouse_locked: true });
    assert_eq!(report, CursorReport::NoPrimaryWindow);
    assert!(none.is_empty());

    let mut two = vec![window(PresentMode::AutoVsync), window(PresentMode::AutoVsync)];
    let report = toggle_cursor(&mut two, &PlayerInputs { mouse_locked: true });
    assert_eq!(report, CursorReport::NoPrimaryWindow);
    assert_eq!(two, vec![window(PresentMode::AutoVsync), window(PresentMode::AutoVsync)]);
}
