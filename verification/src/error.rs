use vstd::prelude::*;

verus! {

/// Why an operation on the view was not applied.
#[derive(Clone, Copy, Debug, PartialEq, Eq, Structural)]
pub enum ViewError {
    /// A seek or scroll would place the window before the start of the file
    /// or beyond its end.
    OutOfRange,
    /// A byte was entered with something other than two hex digits.
    InvalidHexDigit,
    /// A scroll was asked for sideways.
    InvalidDirection,
}

impl ViewError {
    /// A short description for the status line.
    pub fn message(&self) -> (text: &'static str)
        ensures
            text@ == match *self {
                ViewError::OutOfRange => "offset out of range"@,
                ViewError::InvalidHexDigit => "invalid hex digit"@,
                ViewError::InvalidDirection => "cannot scroll sideways"@,
            },
    {
        match self {
            ViewError::OutOfRange => "offset out of range",
            ViewError::InvalidHexDigit => "invalid hex digit",
            ViewError::InvalidDirection => "cannot scroll sideways",
        }
    }
}

} // verus!
