//! Volume arithmetic: scroll-wheel deltas and outward volume-change requests.
//!
//! The UI loop never mutates volume state itself; it computes a signed change
//! from a wheel delta and forwards it outward to the audio backend.

use vstd::prelude::*;

verus! {

/// The maximum natural volume, i.e. 100%.
pub const MAX_NATURAL_VOL: u32 = 65536;

/// The maximum scale volume, i.e. 150% of the natural maximum.
pub const MAX_SCALE_VOL: u32 = 98304;

/// Quotient of `n / d` rounded to the nearest integer, ties away from zero.
/// Meaningful for `d > 0`.
pub open spec fn round_div_nearest_away(n: int, d: int) -> int {
    if n >= 0 {
        (n + d / 2) / d
    } else {
        -((-n + d / 2) / d)
    }
}

/// Quotient of `n / d` rounded to the nearest integer, an exact tie going to
/// the even neighbour — the rule of default floating-point formatting.
/// Meaningful for `n >= 0` and `d > 0`.
pub open spec fn round_div_nearest_even(n: int, d: int) -> int {
    let q = n / d;
    let rem = n % d;
    if 2 * rem > d {
        q + 1
    } else if 2 * rem < d {
        q
    } else if q % 2 == 0 {
        q
    } else {
        q + 1
    }
}

/// The signed volume change requested by a wheel event: the wheel delta is
/// scaled by the configured step (a percentage) of the natural maximum, and
/// the sign is inverted by design, so that wheel-up increases the volume.
pub open spec fn spec_scroll_change(delta: int, step_percent: int, max_volume: int) -> int {
    round_div_nearest_away(-delta * step_percent * max_volume, 100)
}

proof fn lemma_div_pos_bound(n: int, k: int)
    requires
        0 <= n <= 100 * k + 49,
        0 <= k,
    ensures
        0 <= (n + 50) / 100 <= k,
{
    assert((n + 50) / 100 <= k) by (nonlinear_arith)
        requires 0 <= n <= 100 * k + 49 && 0 <= k;
    assert((n + 50) / 100 >= 0) by (nonlinear_arith)
        requires n >= 0;
}

/// Computes the volume change for a vertical wheel event.
///
/// `delta` is the raw wheel delta, `step_percent` the configured mouse-wheel
/// step in percent, `max_volume` the volume that counts as 100%.  The result
/// is `-delta * (step_percent / 100) * max_volume`, rounded to the nearest
/// integer with ties away from zero; it is forwarded outward to the audio
/// backend, never applied internally.
pub fn scroll_volume_change(delta: i32, step_percent: i32, max_volume: u32) -> (r: i32)
    requires
        -(i32::MAX as int) * 100 <= delta * step_percent * max_volume <= i32::MAX * 100,
    ensures
        r == spec_scroll_change(delta as int, step_percent as int, max_volume as int),
{
    proof {
        assert(-0x4000_0000_0000_0000 <= (delta as int) * (step_percent as int)
            <= 0x4000_0000_0000_0000) by (nonlinear_arith)
            requires
                -0x8000_0000 <= delta <= 0x7fff_ffff,
                -0x8000_0000 <= step_percent <= 0x7fff_ffff;
    }
    let p: i64 = (delta as i64) * (step_percent as i64);
    proof {
        assert(-(delta as int) * (step_percent as int) * (max_volume as int)
            == -((delta as int) * (step_percent as int) * (max_volume as int)))
            by (nonlinear_arith);
    }
    let n: i64 = -(p * (max_volume as i64));
    if n >= 0 {
        proof {
            lemma_div_pos_bound(n as int, i32::MAX as int);
        }
        ((n + 50) / 100) as i32
    } else {
        let m: i64 = -n;
        proof {
            lemma_div_pos_bound(m as int, -(i32::MIN as int));
        }
        (-((m + 50) / 100)) as i32
    }
}

/// An outward request to the audio backend.  This core never changes volume
/// state itself; it only asks the backend to.
#[derive(Clone, Copy, Debug, PartialEq, Eq, Structural)]
pub enum VolumeRequest {
    /// Raise the volume by `amount`, clamping the result at `limit`.
    Increase { amount: u32, limit: u32 },
    /// Lower the volume by `amount` (saturating at zero on the backend side).
    Decrease { amount: u32 },
    /// A zero change: nothing is sent outward.
    NoChange,
}

/// The outward request that a signed volume change of `amount` becomes.
pub open spec fn spec_volume_request(amount: int, allow_extra_volume: bool) -> VolumeRequest {
    if amount > 0 {
        VolumeRequest::Increase {
            amount: amount as u32,
            limit: if allow_extra_volume {
                MAX_SCALE_VOL
            } else {
                MAX_NATURAL_VOL
            },
        }
    } else if amount < 0 {
        VolumeRequest::Decrease { amount: (-amount) as u32 }
    } else {
        VolumeRequest::NoChange
    }
}

/// Turns a signed volume change into the outward request: a positive change
/// becomes an increase clamped at the natural maximum (or at the extra-volume
/// maximum when that setting is on), a negative change becomes a decrease by
/// its magnitude, and zero asks for nothing.
pub fn volume_request(amount: i32, allow_extra_volume: bool) -> (r: VolumeRequest)
    ensures
        r == spec_volume_request(amount as int, allow_extra_volume),
{
    if amount > 0 {
        let limit: u32 = if allow_extra_volume {
            MAX_SCALE_VOL
        } else {
            MAX_NATURAL_VOL
        };
        VolumeRequest::Increase { amount: amount as u32, limit }
    } else if amount < 0 {
        VolumeRequest::Decrease { amount: (-(amount as i64)) as u32 }
    } else {
        VolumeRequest::NoChange
    }
}

} // verus!
