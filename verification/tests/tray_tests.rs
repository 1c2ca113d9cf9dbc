use volctl::strutil::decimal_string;
use volctl::tray::{scroll_message, tray_title, TrayMessage, TrayState};

#[test]
fn icon_is_low_just_below_one_third_of_the_natural_maximum() {
    let s = TrayState { volume: 21845, muted: false };
    assert_eq!(s.icon_name(), "audio-volume-low");
}

#[test]
fn icon_is_medium_from_one_third_of_the_natural_maximum() {
    let s = TrayState { volume: 21846, muted: false };
    assert_eq!(s.icon_name(), "audio-volume-medium");
}

#[test]
fn icon_is_high_from_two_thirds_of_the_natural_maximum() {
    let s = TrayState { volume: 43691, muted: false };
    assert_eq!(s.icon_name(), "audio-volume-high");
}

#[test]
fn icon_is_muted_whatever_the_volume() {
    for volume in [0, 21845, 21846, 43691, 65536, u32::MAX] {
        let s = TrayState { volume, muted: true };
        assert_eq!(s.icon_name(), "audio-volume-muted");
    }
}

#[test]
fn icon_covers_the_ends_of_the_range() {
    assert_eq!(TrayState { volume: 0, muted: false }.icon_name(), "audio-volume-low");
    assert_eq!(TrayState { volume: 65536, muted: false }.icon_name(), "audio-volume-high");
}

#[test]
fn tooltip_shows_the_rounded_percentage() {
    assert_eq!(TrayState { volume: 0, muted: false }.tooltip_markup(), "0%");
    assert_eq!(TrayState { volume: 32768, muted: false }.tooltip_markup(), "50%");
    assert_eq!(TrayState { volume: 65536, muted: false }.tooltip_markup(), "100%");
    // 21845 of 65536 is 33.33...%, rounded to 33.
    assert_eq!(TrayState { volume: 21845, muted: false }.tooltip_markup(), "33%");
}

#[test]
fn tooltip_rounds_an_exact_half_to_the_even_percent() {
    // 8192 is exactly 12.5%, 24576 exactly 37.5%, 40960 exactly 62.5%: the
    // formatting rule takes the even neighbour, as float rendering does.
    assert_eq!(TrayState { volume: 8192, muted: false }.tooltip_markup(), "12%");
    assert_eq!(TrayState { volume: 24576, muted: false }.tooltip_markup(), "38%");
    assert_eq!(TrayState { volume: 40960, muted: false }.tooltip_markup(), "62%");
    assert_eq!(format!("{:.0}", 12.5f32), "12");
    assert_eq!(format!("{:.0}", 37.5f32), "38");
    assert_eq!(format!("{:.0}", 62.5f32), "62");
}

#[test]
fn tooltip_appends_the_muted_marker_while_muted() {
    let s = TrayState { volume: 32768, muted: true };
    assert_eq!(s.tooltip_markup(), "50% <span weight=\"bold\">(muted)</span>");
}

#[test]
fn tray_is_titled_volctl() {
    assert_eq!(tray_title(), "volctl");
}

#[test]
fn a_changed_snapshot_is_reported_an_unchanged_one_not() {
    let s = TrayState { volume: 100, muted: false };
    assert!(!s.differs_from(100, false));
    assert!(s.differs_from(101, false));
    assert!(s.differs_from(100, true));
    assert!(s.differs_from(0, true));
}

#[test]
fn vertical_scrolls_become_messages() {
    assert_eq!(scroll_message(3, "vertical"), Some(TrayMessage::Scroll(3)));
    assert_eq!(scroll_message(-1, "vertical"), Some(TrayMessage::Scroll(-1)));
}

#[test]
fn horizontal_scrolls_are_discarded() {
    assert_eq!(scroll_message(3, "horizontal"), None);
    assert_eq!(scroll_message(3, ""), None);
}

#[test]
fn decimal_rendering_matches_standard_formatting() {
    for n in [0u64, 1, 9, 10, 99, 100, 6554, 65536, u64::MAX] {
        assert_eq!(decimal_string(n), format!("{}", n));
    }
}

#[test]
fn noting_a_snapshot_records_it_and_reports_the_change() {
    let mut s = TrayState { volume: 100, muted: false };
    assert!(!s.note_snapshot(100, false));
    assert!(s.note_snapshot(200, false));
    assert_eq!(s.volume, 200);
    assert!(s.note_snapshot(200, true));
    assert!(s.muted);
    assert!(!s.note_snapshot(200, true));
}
