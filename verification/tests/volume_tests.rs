use volctl::volume::{scroll_volume_change, volume_request, VolumeRequest};
use volctl::{MAX_NATURAL_VOL, MAX_SCALE_VOL};

#[test]
fn scroll_wheel_up_requests_a_decrease_by_one_step() {
    // delta = +1 with a 10% step of 65536 is -6553.6, rounded away to -6554.
    assert_eq!(scroll_volume_change(1, 10, 65536), -6554);
}

#[test]
fn scroll_wheel_down_requests_an_increase_by_one_step() {
    assert_eq!(scroll_volume_change(-1, 10, 65536), 6554);
}

#[test]
fn scroll_scales_with_the_delta() {
    assert_eq!(scroll_volume_change(2, 10, 65536), -13107);
    assert_eq!(scroll_volume_change(-3, 10, 65536), 19661);
}

#[test]
fn scroll_with_zero_delta_or_step_changes_nothing() {
    assert_eq!(scroll_volume_change(0, 10, 65536), 0);
    assert_eq!(scroll_volume_change(1, 0, 65536), 0);
}

#[test]
fn scroll_rounds_to_the_nearest_integer() {
    // 1 * 1 * 149 / 100 = 1.49 rounds to 1; 151 / 100 = 1.51 rounds to 2.
    assert_eq!(scroll_volume_change(-1, 1, 149), 1);
    assert_eq!(scroll_volume_change(-1, 1, 151), 2);
    // Ties round away from zero: 150 / 100 = 1.5 rounds to 2, both signs.
    assert_eq!(scroll_volume_change(-1, 1, 150), 2);
    assert_eq!(scroll_volume_change(1, 1, 150), -2);
}

#[test]
fn positive_amounts_become_a_clamped_increase() {
    assert_eq!(
        volume_request(6554, false),
        VolumeRequest::Increase { amount: 6554, limit: MAX_NATURAL_VOL }
    );
}

#[test]
fn the_extra_volume_setting_raises_the_increase_limit() {
    assert_eq!(
        volume_request(6554, true),
        VolumeRequest::Increase { amount: 6554, limit: MAX_SCALE_VOL }
    );
    assert_eq!(MAX_SCALE_VOL, 98304);
}

#[test]
fn negative_amounts_become_a_decrease_by_their_magnitude() {
    assert_eq!(volume_request(-6554, false), VolumeRequest::Decrease { amount: 6554 });
    assert_eq!(
        volume_request(i32::MIN, false),
        VolumeRequest::Decrease { amount: 2147483648 }
    );
}

#[test]
fn a_zero_amount_asks_for_nothing() {
    assert_eq!(volume_request(0, false), VolumeRequest::NoChange);
    assert_eq!(volume_request(0, true), VolumeRequest::NoChange);
}
