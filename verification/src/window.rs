use vstd::prelude::*;

verus! {

/// The three host-owned window attributes the shell's commands mutate. The
/// live values belong to the host windowing system; this struct is the model
/// the contracts speak about.
#[derive(Clone, Copy, PartialEq, Eq, Structural, Debug)]
pub struct WindowState {
    /// Whether the window ignores pointer input (click-through mode).
    pub ignore_cursor_events: bool,
    /// Whether the window shows native chrome (title bar, borders).
    pub decorations: bool,
    /// Whether the window stays above all other windows.
    pub always_on_top: bool,
}

/// One mutation request sent to the host windowing system.
#[derive(Clone, Copy, PartialEq, Eq, Structural, Debug)]
pub enum HostAction {
    SetIgnoreCursorEvents(bool),
    SetDecorations(bool),
    SetAlwaysOnTop(bool),
}

/// The host's answer to one mutation request: done, or its error text.
pub enum HostResponse {
    Succeeded,
    Failed(String),
}

/// What a successful mutation request does to the window's attributes: the
/// named flag takes the requested value, the other flags keep theirs.
pub open spec fn apply_action_spec(s: WindowState, a: HostAction) -> WindowState {
    match a {
        HostAction::SetIgnoreCursorEvents(b) => WindowState { ignore_cursor_events: b, ..s },
        HostAction::SetDecorations(b) => WindowState { decorations: b, ..s },
        HostAction::SetAlwaysOnTop(b) => WindowState { always_on_top: b, ..s },
    }
}

/// Applies one successful mutation request to a modelled window state.
pub fn apply_action(s: WindowState, a: HostAction) -> (r: WindowState)
    ensures
        r == apply_action_spec(s, a),
{
    match a {
        HostAction::SetIgnoreCursorEvents(b) => WindowState { ignore_cursor_events: b, ..s },
        HostAction::SetDecorations(b) => WindowState { decorations: b, ..s },
        HostAction::SetAlwaysOnTop(b) => WindowState { always_on_top: b, ..s },
    }
}

} // verus!
