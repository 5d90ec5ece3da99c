//! The errors that the framework reports.

use vstd::prelude::*;

verus! {

/// An error raised by the framework.
#[derive(Debug)]
pub enum TetraError {
    /// The underlying platform or graphics API failed (allocation, monitor or cursor query).
    PlatformError(String),
    /// The window's display mode (size, fullscreen) could not be changed.
    FailedToChangeDisplayMode(String),
}

impl TetraError {
    /// The error is a platform error with the given message.
    pub open spec fn is_platform_error(&self, message: Seq<char>) -> bool {
        self matches TetraError::PlatformError(m) && m@ == message
    }

    /// The error is a display-mode error with the given message.
    pub open spec fn is_display_mode_error(&self, message: Seq<char>) -> bool {
        self matches TetraError::FailedToChangeDisplayMode(m) && m@ == message
    }

    /// Returns the message carried by the error.
    pub fn message(&self) -> (r: &String)
        ensures
            match self {
                TetraError::PlatformError(m) => r == m,
                TetraError::FailedToChangeDisplayMode(m) => r == m,
            },
    {
        match self {
            TetraError::PlatformError(m) => m,
            TetraError::FailedToChangeDisplayMode(m) => m,
        }
    }
}

} // verus!
