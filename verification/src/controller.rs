//! The popup window's visibility state machine.
//!
//! One popup window exists per process; only the UI thread touches it.  An
//! activation toggles it: visible becomes hidden, hidden becomes visible with
//! one placement request at the activation coordinates.  No coordinate
//! validation happens here; out-of-range values pass through.

use vstd::prelude::*;

verus! {

/// Whether the popup window is currently shown.
#[derive(Clone, Copy, Debug, PartialEq, Eq, Structural)]
pub enum WindowVisibility {
    Hidden,
    Visible,
}

/// What an activation asks the surrounding process to do with the window.
#[derive(Clone, Copy, Debug, PartialEq, Eq, Structural)]
pub enum PopupAction {
    /// Hide the window; the activation coordinates are ignored.
    Hide,
    /// Place the window at `(x, y)` via the placement engine, then present
    /// and raise it.
    Place { x: i32, y: i32 },
}

/// The visibility after one activation.
pub open spec fn spec_toggled(v: WindowVisibility) -> WindowVisibility {
    match v {
        WindowVisibility::Hidden => WindowVisibility::Visible,
        WindowVisibility::Visible => WindowVisibility::Hidden,
    }
}

/// The action one activation at `(x, y)` yields in visibility state `v`.
pub open spec fn spec_toggle_action(v: WindowVisibility, x: i32, y: i32) -> PopupAction {
    match v {
        WindowVisibility::Hidden => PopupAction::Place { x, y },
        WindowVisibility::Visible => PopupAction::Hide,
    }
}

/// Owns the popup's visibility; mutated only by the UI thread.
pub struct PopupController {
    visibility: WindowVisibility,
}

impl PopupController {
    /// The current visibility.
    pub closed spec fn visibility(self) -> WindowVisibility {
        self.visibility
    }

    /// A fresh controller: the popup starts hidden.
    pub fn new() -> (r: PopupController)
        ensures
            r.visibility() == WindowVisibility::Hidden,
    {
        PopupController { visibility: WindowVisibility::Hidden }
    }

    /// Executable access to the current visibility.
    pub fn get_visibility(&self) -> (r: WindowVisibility)
        ensures
            r == self.visibility(),
    {
        self.visibility
    }

    /// One activation: a visible popup is hidden (coordinates ignored), a
    /// hidden popup is placed at `(x, y)` and shown.
    pub fn toggle_or_move(&mut self, x: i32, y: i32) -> (r: PopupAction)
        ensures
            final(self).visibility() == spec_toggled(old(self).visibility()),
            r == spec_toggle_action(old(self).visibility(), x, y),
    {
        match self.visibility {
            WindowVisibility::Visible => {
                self.visibility = WindowVisibility::Hidden;
                PopupAction::Hide
            },
            WindowVisibility::Hidden => {
                self.visibility = WindowVisibility::Visible;
                PopupAction::Place { x, y }
            },
        }
    }
}

/// Activations alternate the two visibility states whatever the coordinates:
/// each toggle changes the state, two toggles return to the start, and
/// starting hidden the first activation yields exactly the one placement
/// while the second yields the hide.
pub proof fn lemma_toggle_alternates(v: WindowVisibility, x1: i32, y1: i32, x2: i32, y2: i32)
    ensures
        spec_toggled(v) != v,
        spec_toggled(spec_toggled(v)) == v,
        v is Hidden ==> spec_toggle_action(v, x1, y1) == (PopupAction::Place { x: x1, y: y1 }),
        v is Hidden ==> spec_toggle_action(spec_toggled(v), x2, y2) == PopupAction::Hide,
{
}

} // verus!
