use vstd::prelude::*;
use vstd::string::*;

verus! {

/// Failures of the recording control operations.
pub enum ApiError {
    /// A start was refused because a session is still requested or draining.
    CaptureAlreadyInProgress,
    /// A stop was refused because no session is active.
    NoCaptureIsRunning,
    /// A capture worker could not be launched, or the merge did not succeed.
    InternalServerError(String),
}

/// HTTP "Too Early": the request conflicts with the current session state.
pub const STATUS_TOO_EARLY: u16 = 425;

/// HTTP "Internal Server Error".
pub const STATUS_INTERNAL_SERVER_ERROR: u16 = 500;

impl ApiError {
    pub open spec fn spec_status_code(&self) -> u16 {
        match self {
            ApiError::CaptureAlreadyInProgress => STATUS_TOO_EARLY,
            ApiError::NoCaptureIsRunning => STATUS_TOO_EARLY,
            ApiError::InternalServerError(_) => STATUS_INTERNAL_SERVER_ERROR,
        }
    }

    pub open spec fn spec_message(&self) -> Seq<char> {
        match self {
            ApiError::CaptureAlreadyInProgress => "Capture is already in progress"@,
            ApiError::NoCaptureIsRunning => "No capture is running"@,
            ApiError::InternalServerError(reason) => "Internal server error, "@ + reason@,
        }
    }

    /// The HTTP status that reports this error.
    pub fn status_code(&self) -> (r: u16)
        ensures
            r == self.spec_status_code(),
    {
        match self {
            ApiError::CaptureAlreadyInProgress => STATUS_TOO_EARLY,
            ApiError::NoCaptureIsRunning => STATUS_TOO_EARLY,
            ApiError::InternalServerError(_) => STATUS_INTERNAL_SERVER_ERROR,
        }
    }

    /// The body text that reports this error.
    pub fn message(&self) -> (r: String)
        ensures
            r@ == self.spec_message(),
    {
        match self {
            ApiError::CaptureAlreadyInProgress => String::from_str("Capture is already in progress"),
            ApiError::NoCaptureIsRunning => String::from_str("No capture is running"),
            ApiError::InternalServerError(reason) => {
                let mut text = String::from_str("Internal server error, ");
                text.append(reason.as_str());
                text
            },
        }
    }
}

} // verus!
