use vstd::prelude::*;

verus! {

/// Settings handed through to the screen capture backends.
#[derive(Clone, Copy)]
pub struct CaptureConfig {
    /// Capture through an ffmpeg subprocess instead of the native capture API.
    pub ffmpeg: bool,
    pub bitrate: u32,
    pub fps: u32,
}

/// The recorder's configuration.
pub struct Config {
    /// Directory that receives every session's output files.
    pub recordings_folder: String,
    pub capture: CaptureConfig,
    /// Seconds without a keep-alive after which a requested session is stopped.
    pub keep_alive_timeout_in_secs: u64,
}

} // verus!
