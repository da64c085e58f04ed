//! The window on the layer shell.
use vstd::prelude::*;

verus! {

pub const WINDOW_WIDTH: i32 = 480;

pub const WINDOW_HEIGHT: i32 = 360;

/// The distance of the window from the left edge of the screen.
pub const LEFT_MARGIN: i32 = 1300;

/// How often the window looks for a request to toggle it, in milliseconds.
pub const TOGGLE_MILLIS: u64 = 16;

/// An edge of the screen.
#[derive(Debug, Clone, Copy, PartialEq, Eq, Structural)]
pub enum ScreenEdge {
    Left,
    Right,
    Top,
    Bottom,
}

/// The window is tied to the top left corner of the screen.
pub open spec fn spec_anchored(edge: ScreenEdge) -> bool {
    edge == ScreenEdge::Left || edge == ScreenEdge::Top
}

/// Whether the window is tied to `edge`.
pub fn anchored(edge: ScreenEdge) -> (tied: bool)
    ensures
        tied == spec_anchored(edge),
{
    match edge {
        ScreenEdge::Left => true,
        ScreenEdge::Right => false,
        ScreenEdge::Top => true,
        ScreenEdge::Bottom => false,
    }
}

/// What becomes of the window.
#[derive(Debug, Clone, Copy, PartialEq, Eq, Structural)]
pub enum WindowAction {
    Keep,
    Hide,
    Present,
}

/// What becomes of a window that is `visible` or not, if a toggle was `requested` or not.
pub open spec fn toggle_of(requested: bool, visible: bool) -> WindowAction {
    if !requested {
        WindowAction::Keep
    } else if visible {
        WindowAction::Hide
    } else {
        WindowAction::Present
    }
}

/// Computes [`toggle_of`].
pub fn toggle(requested: bool, visible: bool) -> (action: WindowAction)
    ensures
        action == toggle_of(requested, visible),
{
    if requested {
        if visible {
            WindowAction::Hide
        } else {
            WindowAction::Present
        }
    } else {
        WindowAction::Keep
    }
}

/// Whether the window is visible after `action`.
pub open spec fn visible_after(action: WindowAction, visible: bool) -> bool {
    match action {
        WindowAction::Keep => visible,
        WindowAction::Hide => false,
        WindowAction::Present => true,
    }
}

/// A request flips the visibility, so that two requests restore it; without one nothing happens.
pub proof fn law_toggle_flips_visibility(visible: bool)
    ensures
        visible_after(toggle_of(true, visible), visible) == !visible,
        visible_after(toggle_of(false, visible), visible) == visible,
        ({
            let once = visible_after(toggle_of(true, visible), visible);
            visible_after(toggle_of(true, once), once) == visible
        }),
{
}

} // verus!
