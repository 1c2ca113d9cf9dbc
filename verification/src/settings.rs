//! Settings values that need validation when read from storage.

use vstd::prelude::*;

use crate::errors::VolctlError;

verus! {

/// Where the on-screen volume display may sit.
#[derive(Clone, Copy, Debug, PartialEq, Eq, Structural)]
pub enum OsdPosition {
    Center,
    BottomRight,
    MiddleRight,
    TopRight,
    TopCenter,
    TopLeft,
    MiddleLeft,
    BottomLeft,
    BottomCenter,
}

/// The position a stored settings integer denotes, if any: the nine
/// positions are numbered 0 through 8 in declaration order.
pub open spec fn spec_osd_position(v: int) -> Option<OsdPosition> {
    if v == 0 {
        Some(OsdPosition::Center)
    } else if v == 1 {
        Some(OsdPosition::BottomRight)
    } else if v == 2 {
        Some(OsdPosition::MiddleRight)
    } else if v == 3 {
        Some(OsdPosition::TopRight)
    } else if v == 4 {
        Some(OsdPosition::TopCenter)
    } else if v == 5 {
        Some(OsdPosition::TopLeft)
    } else if v == 6 {
        Some(OsdPosition::MiddleLeft)
    } else if v == 7 {
        Some(OsdPosition::BottomLeft)
    } else if v == 8 {
        Some(OsdPosition::BottomCenter)
    } else {
        None
    }
}

impl OsdPosition {
    /// Validates a stored settings integer: values 0 through 8 name the nine
    /// positions in declaration order, anything else is an invalid settings
    /// value.
    pub fn try_from(v: i32) -> (r: Result<OsdPosition, VolctlError>)
        ensures
            spec_osd_position(v as int) matches Some(p) ==> r == Ok::<OsdPosition, VolctlError>(p),
            spec_osd_position(v as int) is None ==> {
                &&& r matches Err(e)
                &&& e matches VolctlError::InvalidSettingsValue { field, value }
                &&& field@ == "OsdPosition"@
                &&& value@ == "value"@
            },
    {
        match v {
            0 => Ok(OsdPosition::Center),
            1 => Ok(OsdPosition::BottomRight),
            2 => Ok(OsdPosition::MiddleRight),
            3 => Ok(OsdPosition::TopRight),
            4 => Ok(OsdPosition::TopCenter),
            5 => Ok(OsdPosition::TopLeft),
            6 => Ok(OsdPosition::MiddleLeft),
            7 => Ok(OsdPosition::BottomLeft),
            8 => Ok(OsdPosition::BottomCenter),
            _ => Err(
                VolctlError::InvalidSettingsValue {
                    field: String::from_str("OsdPosition"),
                    value: String::from_str("value"),
                },
            ),
        }
    }
}

} // verus!
