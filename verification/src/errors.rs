//! The library's error type.

use vstd::prelude::*;

verus! {

/// An error of this library.
#[derive(Debug)]
pub enum VolctlError {
    /// A settings value did not parse as the field it was read for.
    InvalidSettingsValue { field: String, value: String },
}

/// The diagnostic text of an error.
pub open spec fn spec_error_message(e: VolctlError) -> Seq<char> {
    match e {
        VolctlError::InvalidSettingsValue { field, value } => "invalid settings value `"@ + value@
            + "` for field `"@ + field@ + "`"@,
    }
}

impl VolctlError {
    /// Renders the error for a log line or a diagnostic.
    pub fn message(&self) -> (r: String)
        ensures
            r@ == spec_error_message(*self),
    {
        match self {
            VolctlError::InvalidSettingsValue { field, value } => {
                let mut s = String::from_str("invalid settings value `");
                s.append(value.as_str());
                s.append("` for field `");
                s.append(field.as_str());
                s.append("`");
                s
            },
        }
    }
}

} // verus!
