//! Display-backend classification.
//!
//! The display server is classified once per process and never changes
//! mid-session.  The probe itself (asking the toolkit whether the default
//! display is a Wayland one) lives outside; this module holds the decision.

use vstd::prelude::*;

verus! {

/// The active display server's protocol family.
#[derive(Clone, Copy, Debug, PartialEq, Eq, Structural)]
pub enum DisplayType {
    Wayland,
    X11,
}

/// The backend a probe result classifies as.  `None` means the probe could
/// not determine the display at all; the documented behaviour is then to
/// default to X11 rather than fail, an assumption worth questioning but kept
/// deliberately.
pub open spec fn spec_display_type(wayland_detected: Option<bool>) -> DisplayType {
    match wayland_detected {
        Some(true) => DisplayType::Wayland,
        Some(false) => DisplayType::X11,
        None => DisplayType::X11,
    }
}

/// Classifies the display server from the probe's answer: a Wayland display
/// is Wayland, anything else — including an undetectable display — is X11.
pub fn get_display_type(wayland_detected: Option<bool>) -> (r: DisplayType)
    ensures
        r == spec_display_type(wayland_detected),
{
    match wayland_detected {
        Option::Some(true) => DisplayType::Wayland,
        Option::Some(false) => DisplayType::X11,
        Option::None => DisplayType::X11,
    }
}

} // verus!
