//! The tray-icon surface: messages, icon naming and tooltip text.
//!
//! The tray service runs on its own thread and owns nothing of the window; it
//! only sends messages into the event channel and renders the snapshot
//! (volume, muted) that the audio backend last reported.

use vstd::prelude::*;

use crate::strutil::spec_decimal;
use crate::strutil::decimal_string;
use crate::strutil::str_eq;
use crate::volume::MAX_NATURAL_VOL;
use crate::volume::round_div_nearest_even;

verus! {

/// A message from the tray thread to the UI loop.  Produced once per user
/// action, consumed exactly once, never persisted.
#[derive(Clone, Copy, Debug, PartialEq, Eq, Structural)]
pub enum TrayMessage {
    /// Left-click activation at pointer coordinates `(x, y)`.
    Activate(i32, i32),
    /// Vertical wheel scroll by `delta`; horizontal scrolls send nothing.
    Scroll(i32),
    /// Toggle mute on the active sink.
    Mute,
    /// Open the preferences dialog.
    Preferences,
    /// Open the external mixer program.
    ExternalMixer,
    /// Show the about dialog.
    About,
    /// Quit the application.
    Quit,
}

/// The reduced message set of the minimal tray service, which only knows
/// activation and quitting.
#[derive(Clone, Copy, Debug, PartialEq, Eq, Structural)]
pub enum Message {
    Activate(i32, i32),
    Quit,
}

/// The audio snapshot the tray icon renders: the active sink's volume in
/// natural units and its mute flag.
#[derive(Clone, Copy, Debug, PartialEq, Eq, Structural)]
pub struct TrayState {
    pub volume: u32,
    pub muted: bool,
}

/// The icon name for a snapshot: `muted` wins over everything, otherwise the
/// volume falls in one of three equal buckets of the natural range — `low`
/// on `[0, max/3)`, `medium` on `[max/3, 2*max/3)`, `high` from `2*max/3` up.
pub open spec fn spec_icon_name(volume: int, muted: bool) -> Seq<char> {
    if muted {
        "audio-volume-muted"@
    } else if 3 * volume < MAX_NATURAL_VOL {
        "audio-volume-low"@
    } else if 3 * volume < 2 * MAX_NATURAL_VOL {
        "audio-volume-medium"@
    } else {
        "audio-volume-high"@
    }
}

/// The volume as a percentage of the natural maximum, rounded to the nearest
/// whole percent, an exact half going to the even percent: the rule the
/// tooltip's numeric formatting renders with.
pub open spec fn spec_volume_percent(volume: int) -> int {
    round_div_nearest_even(100 * volume, MAX_NATURAL_VOL as int)
}

/// The tooltip markup for a snapshot: the percentage with a `%` sign, and a
/// bold `(muted)` marker appended while muted.
pub open spec fn spec_tooltip_markup(volume: int, muted: bool) -> Seq<char> {
    let text = spec_decimal(spec_volume_percent(volume)) + "%"@;
    if muted {
        text + " <span weight=\"bold\">(muted)</span>"@
    } else {
        text
    }
}

impl TrayState {
    /// The name of the themed icon to show for this snapshot.
    pub fn icon_name(&self) -> (r: String)
        ensures
            r@ == spec_icon_name(self.volume as int, self.muted),
    {
        let r: &'static str = if self.muted {
            "audio-volume-muted"
        } else if 3 * (self.volume as u64) < MAX_NATURAL_VOL as u64 {
            "audio-volume-low"
        } else if 3 * (self.volume as u64) < 2 * (MAX_NATURAL_VOL as u64) {
            "audio-volume-medium"
        } else {
            "audio-volume-high"
        };
        String::from_str(r)
    }

    /// The volume as a whole percentage of the natural maximum, an exact
    /// half rounding to the even percent.
    pub fn volume_percent(&self) -> (r: u64)
        ensures
            r == spec_volume_percent(self.volume as int),
    {
        let n: u64 = 100 * (self.volume as u64);
        let d: u64 = MAX_NATURAL_VOL as u64;
        let q: u64 = n / d;
        let rem: u64 = n % d;
        let half: u64 = d / 2;
        if rem > half || (rem == half && q % 2 == 1) {
            q + 1
        } else {
            q
        }
    }

    /// The tooltip markup for this snapshot.
    pub fn tooltip_markup(&self) -> (r: String)
        ensures
            r@ == spec_tooltip_markup(self.volume as int, self.muted),
    {
        let mut text = decimal_string(self.volume_percent());
        text.append("%");
        if self.muted {
            text.append(" <span weight=\"bold\">(muted)</span>");
        }
        text
    }

    /// Whether a newly reported snapshot differs from this one, so that the
    /// tray icon has to be told at all.
    pub fn differs_from(&self, new_volume: u32, new_muted: bool) -> (r: bool)
        ensures
            r == (new_volume != self.volume || new_muted != self.muted),
    {
        new_volume != self.volume || new_muted != self.muted
    }

    /// Records the snapshot the backend just reported and says whether it
    /// changed anything: only a changed snapshot is pushed to the tray icon.
    pub fn note_snapshot(&mut self, new_volume: u32, new_muted: bool) -> (changed: bool)
        ensures
            changed == (new_volume != old(self).volume || new_muted != old(self).muted),
            final(self).volume == new_volume,
            final(self).muted == new_muted,
    {
        let changed = self.differs_from(new_volume, new_muted);
        self.volume = new_volume;
        self.muted = new_muted;
        changed
    }
}

/// The tray's title, also used as its identifier.
pub fn tray_title() -> (r: String)
    ensures
        r@ == "volctl"@,
{
    String::from_str("volctl")
}

/// The message a scroll callback sends: vertical scrolls become a `Scroll`
/// message, any other direction is discarded entirely.
pub fn scroll_message(delta: i32, direction: &str) -> (r: Option<TrayMessage>)
    ensures
        direction@ == "vertical"@ ==> r == Some(TrayMessage::Scroll(delta)),
        direction@ != "vertical"@ ==> r is None,
{
    if str_eq(direction, "vertical") {
        Some(TrayMessage::Scroll(delta))
    } else {
        None
    }
}

} // verus!
