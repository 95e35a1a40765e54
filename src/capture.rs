use vstd::prelude::*;

use crate::config::CaptureConfig;

verus! {

/// The two ways of capturing the screen.
#[derive(Clone, Copy, Debug, PartialEq, Eq, Structural)]
pub enum CaptureBackend {
    /// An ffmpeg subprocess that grabs the desktop.
    Ffmpeg,
    /// The platform's own capture API.
    Native,
}

/// The screen capture backend that `capture_config` selects.
pub fn capture_screen(capture_config: &CaptureConfig) -> (r: CaptureBackend)
    ensures
        capture_config.ffmpeg ==> r == CaptureBackend::Ffmpeg,
        !capture_config.ffmpeg ==> r == CaptureBackend::Native,
{
    if capture_config.ffmpeg {
        CaptureBackend::Ffmpeg
    } else {
        CaptureBackend::Native
    }
}

} // verus!
