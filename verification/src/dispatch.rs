//! The UI loop's dispatch: from a tray message to an outward action.
//!
//! The loop is single-threaded and cooperatively scheduled; it never performs
//! blocking protocol I/O itself.  Each message maps to exactly one action,
//! which the surrounding process carries out: placement goes through the
//! placement engine, volume and mute changes go outward to the audio
//! backend, and `Quit` tears the process down.

use vstd::prelude::*;

use crate::controller::PopupAction;
use crate::controller::PopupController;
use crate::controller::spec_toggle_action;
use crate::controller::spec_toggled;
use crate::tray::TrayMessage;
use crate::volume::MAX_NATURAL_VOL;
use crate::volume::VolumeRequest;
use crate::volume::scroll_volume_change;
use crate::volume::spec_scroll_change;
use crate::volume::spec_volume_request;
use crate::volume::volume_request;

verus! {

/// The action one message asks the surrounding process to perform.
#[derive(Clone, Copy, Debug, PartialEq, Eq, Structural)]
pub enum UiAction {
    /// Show the about dialog.
    ShowAbout,
    /// Show the preferences dialog.
    ShowPreferences,
    /// Open the external mixer program.
    OpenExternalMixer,
    /// Ask the audio backend to set the active sink's mute flag.
    SetMuted { muted: bool },
    /// Forward a volume request to the audio backend.
    ChangeVolume(VolumeRequest),
    /// Drive the popup window: hide it, or place and present it.
    Popup(PopupAction),
    /// Tear down resources and end the process.
    Quit,
}

/// The settings snapshot the dispatch reads: the mouse-wheel step in percent
/// and whether volume may exceed the natural maximum.
#[derive(Clone, Copy, Debug, PartialEq, Eq, Structural)]
pub struct DispatchSettings {
    pub mouse_wheel_step: i32,
    pub allow_extra_volume: bool,
}

/// Dispatches one tray message.
///
/// `controller` is the popup's visibility state machine, touched only by
/// `Activate`; `current_muted` is the active sink's mute flag as the backend
/// last reported it, read only by `Mute`.  The scroll bound keeps the
/// computed change within the machine's integer range.
pub fn dispatch(
    message: TrayMessage,
    controller: &mut PopupController,
    settings: DispatchSettings,
    current_muted: bool,
) -> (r: UiAction)
    requires
        message matches TrayMessage::Scroll(delta) ==> -(i32::MAX as int) * 100 <= delta
            * settings.mouse_wheel_step * MAX_NATURAL_VOL <= i32::MAX * 100,
    ensures
        message matches TrayMessage::Activate(x, y) ==> {
            &&& r == UiAction::Popup(spec_toggle_action(old(controller).visibility(), x, y))
            &&& final(controller).visibility() == spec_toggled(old(controller).visibility())
        },
        !(message matches TrayMessage::Activate(_, _)) ==> *final(controller) == *old(
            controller,
        ),
        message matches TrayMessage::Scroll(delta) ==> r == UiAction::ChangeVolume(
            spec_volume_request(
                spec_scroll_change(
                    delta as int,
                    settings.mouse_wheel_step as int,
                    MAX_NATURAL_VOL as int,
                ),
                settings.allow_extra_volume,
            ),
        ),
        message == TrayMessage::Mute ==> r == (UiAction::SetMuted { muted: !current_muted }),
        message == TrayMessage::About ==> r == UiAction::ShowAbout,
        message == TrayMessage::Preferences ==> r == UiAction::ShowPreferences,
        message == TrayMessage::ExternalMixer ==> r == UiAction::OpenExternalMixer,
        message == TrayMessage::Quit ==> r == UiAction::Quit,
{
    match message {
        TrayMessage::About => UiAction::ShowAbout,
        TrayMessage::Activate(x, y) => UiAction::Popup(controller.toggle_or_move(x, y)),
        TrayMessage::ExternalMixer => UiAction::OpenExternalMixer,
        TrayMessage::Mute => UiAction::SetMuted { muted: !current_muted },
        TrayMessage::Preferences => UiAction::ShowPreferences,
        TrayMessage::Scroll(delta) => {
            let change = scroll_volume_change(delta, settings.mouse_wheel_step, MAX_NATURAL_VOL);
            UiAction::ChangeVolume(volume_request(change, settings.allow_extra_volume))
        },
        TrayMessage::Quit => UiAction::Quit,
    }
}

} // verus!
