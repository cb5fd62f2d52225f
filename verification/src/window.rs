//! The state of the primary window that the toggles control: how frames are
//! presented and what becomes of the cursor.
//!
//! Both operations take the windows that are marked as primary. They act
//! only if there is exactly one, and leave everything as it is otherwise.

use crate::input::PlayerInputs;
use vstd::prelude::*;

verus! {

/// How the window's frames are synchronised with the display.
#[derive(Clone, Copy, Debug, PartialEq, Eq, Structural)]
pub enum PresentMode {
    /// Wait for the display, by the best means available.
    AutoVsync,
    /// Do not wait for the display, by the best means available.
    AutoNoVsync,
    Immediate,
    Mailbox,
    Fifo,
}

/// What holds the cursor to the window.
#[derive(Clone, Copy, Debug, PartialEq, Eq, Structural)]
pub enum CursorGrabMode {
    /// The cursor moves freely.
    Free,
    /// The cursor cannot leave the window.
    Confined,
    /// The cursor is held in place.
    Locked,
}

/// The cursor of a window.
#[derive(Clone, Copy, Debug, PartialEq, Eq, Structural)]
pub struct Cursor {
    pub grab_mode: CursorGrabMode,
    pub visible: bool,
}

/// What the toggles read and change of a window.
#[derive(Clone, Debug, PartialEq, Eq)]
pub struct Window {
    pub present_mode: PresentMode,
    pub cursor: Cursor,
    pub title: String,
}

/// What the cursor re-assertion has to report.
#[derive(Clone, Debug, PartialEq, Eq)]
pub enum CursorReport {
    /// The cursor mode was set on the window with this title.
    Applied { title: String },
    /// There is no single primary window; nothing was changed.
    NoPrimaryWindow,
}

/// The present mode after a toggle: waiting for the display is switched
/// off, and every other mode is switched to waiting for it.
pub open spec fn toggled(mode: PresentMode) -> PresentMode {
    if mode == PresentMode::AutoVsync {
        PresentMode::AutoNoVsync
    } else {
        PresentMode::AutoVsync
    }
}

/// The cursor that belongs to the lock flag: held and hidden when the flag
/// is set, free and visible when it is not.
pub open spec fn cursor_for(locked: bool) -> Cursor {
    if locked {
        Cursor { grab_mode: CursorGrabMode::Locked, visible: false }
    } else {
        Cursor { grab_mode: CursorGrabMode::Free, visible: true }
    }
}

/// Whether the windows marked as primary are exactly one.
pub open spec fn has_primary(windows: Seq<Window>) -> bool {
    windows.len() == 1
}

/// The primary windows after a toggle of the present mode.
pub open spec fn vsync_toggled(windows: Seq<Window>) -> Seq<Window> {
    if has_primary(windows) {
        seq![Window { present_mode: toggled(windows[0].present_mode), ..windows[0] }]
    } else {
        windows
    }
}

/// The primary windows after the cursor mode for `locked` was asserted.
pub open spec fn cursor_asserted(windows: Seq<Window>, locked: bool) -> Seq<Window> {
    if has_primary(windows) {
        seq![Window { cursor: cursor_for(locked), ..windows[0] }]
    } else {
        windows
    }
}

/// What a toggle of the present mode hands to the log: the new mode, if
/// the key went down and there is a single primary window.
pub open spec fn present_mode_logged(just_pressed: bool, windows: Seq<Window>) -> Option<
    PresentMode,
> {
    if just_pressed && has_primary(windows) {
        Some(toggled(windows[0].present_mode))
    } else {
        None
    }
}

/// What the cursor re-assertion reports on the given primary windows.
pub open spec fn cursor_report(windows: Seq<Window>) -> CursorReport {
    if has_primary(windows) {
        CursorReport::Applied { title: windows[0].title }
    } else {
        CursorReport::NoPrimaryWindow
    }
}

/// The primary windows after the cursor mode for `locked` was asserted
/// `times` times in a row.
pub open spec fn cursor_asserted_times(windows: Seq<Window>, locked: bool, times: nat) -> Seq<
    Window,
>
    decreases times,
{
    if times == 0 {
        windows
    } else {
        cursor_asserted(cursor_asserted_times(windows, locked, (times - 1) as nat), locked)
    }
}

/// The primary windows after `times` toggles of the present mode.
pub open spec fn vsync_toggled_times(windows: Seq<Window>, times: nat) -> Seq<Window>
    decreases times,
{
    if times == 0 {
        windows
    } else {
        vsync_toggled(vsync_toggled_times(windows, (times - 1) as nat))
    }
}

/// Switches the present mode of the primary window when the trigger key
/// went down during this frame, and hands back the new mode for the log.
/// Without a press, or without a single primary window, nothing changes
/// and nothing is handed back.
pub fn toggle_vsync(just_pressed: bool, windows: &mut Vec<Window>) -> (logged: Option<PresentMode>)
    ensures
        final(windows)@ == if just_pressed {
            vsync_toggled(old(windows)@)
        } else {
            old(windows)@
        },
        logged == present_mode_logged(just_pressed, old(windows)@),
{
    if !just_pressed || windows.len() != 1 {
        return None;
    }
    match windows.pop() {
        Some(window) => {
            let mode = match window.present_mode {
                PresentMode::AutoVsync => PresentMode::AutoNoVsync,
                _ => PresentMode::AutoVsync,
            };
            windows.push(Window { present_mode: mode, cursor: window.cursor, title: window.title });
            assert(windows@ == vsync_toggled(old(windows)@));
            Some(mode)
        },
        None => None,
    }
}

/// Sets the cursor of the primary window to what the lock flag asks for:
/// held and hidden, or free and visible. Safe to call in every frame.
/// Without a single primary window nothing changes, and the report says so.
pub fn toggle_cursor(windows: &mut Vec<Window>, inputs: &PlayerInputs) -> (report: CursorReport)
    ensures
        final(windows)@ == cursor_asserted(old(windows)@, inputs.mouse_locked),
        report == cursor_report(old(windows)@),
{
    if windows.len() != 1 {
        return CursorReport::NoPrimaryWindow;
    }
    match windows.pop() {
        Some(window) => {
            let cursor = if inputs.mouse_locked {
                Cursor { grab_mode: CursorGrabMode::Locked, visible: false }
            } else {
                Cursor { grab_mode: CursorGrabMode::Free, visible: true }
            };
            let title = window.title.clone();
            windows.push(Window { present_mode: window.present_mode, cursor, title: window.title });
            assert(windows@ == cursor_asserted(old(windows)@, inputs.mouse_locked));
            CursorReport::Applied { title }
        },
        None => CursorReport::NoPrimaryWindow,
    }
}

/// Asserting the cursor mode again, with the flag unchanged, changes nothing.
pub proof fn lemma_cursor_assertion_is_idempotent(windows: Seq<Window>, locked: bool)
    ensures
        cursor_asserted(cursor_asserted(windows, locked), locked) == cursor_asserted(
            windows,
            locked,
        ),
{
}

/// Asserting the cursor mode any number of times in a row, with the flag
/// unchanged, leaves the windows as one assertion does.
pub proof fn lemma_repeated_cursor_assertion(windows: Seq<Window>, locked: bool, times: nat)
    requires
        times >= 1,
    ensures
        cursor_asserted_times(windows, locked, times) == cursor_asserted(windows, locked),
    decreases times,
{
    if times > 1 {
        lemma_repeated_cursor_assertion(windows, locked, (times - 1) as nat);
        lemma_cursor_assertion_is_idempotent(windows, locked);
    } else {
        assert(cursor_asserted_times(windows, locked, 0) == windows);
    }
}

/// The cursor assertion touches nothing but the cursor, and the vsync toggle
/// nothing but the present mode, so the two can run in either order.
pub proof fn lemma_toggles_commute(windows: Seq<Window>, locked: bool)
    ensures
        cursor_asserted(vsync_toggled(windows), locked) == vsync_toggled(
            cursor_asserted(windows, locked),
        ),
{
}

/// After one toggle the present mode is one of the two automatic modes, and
/// from then on two toggles bring back the mode that was there.
pub proof fn lemma_toggle_alternates(mode: PresentMode)
    ensures
        toggled(mode) == PresentMode::AutoVsync || toggled(mode) == PresentMode::AutoNoVsync,
        toggled(toggled(toggled(mode))) == toggled(mode),
        mode == PresentMode::AutoVsync || mode == PresentMode::AutoNoVsync ==> toggled(
            toggled(mode),
        ) == mode,
{
}

/// On a primary window that waits for the display or has that switched off,
/// an even number of toggles leaves the windows as they were, and an odd
/// number leaves them as one toggle does.
pub proof fn lemma_repeated_vsync_toggle(windows: Seq<Window>, times: nat)
    requires
        has_primary(windows) ==> windows[0].present_mode == PresentMode::AutoVsync
            || windows[0].present_mode == PresentMode::AutoNoVsync,
    ensures
        vsync_toggled_times(windows, times) == if times % 2 == 0 {
            windows
        } else {
            vsync_toggled(windows)
        },
    decreases times,
{
    if times > 0 {
        lemma_repeated_vsync_toggle(windows, (times - 1) as nat);
        if has_primary(windows) {
            assert(vsync_toggled(vsync_toggled(windows)) == windows);
        }
    }
}

} // verus!
