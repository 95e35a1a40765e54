use rust_recorder::errors::ApiError;
use rust_recorder::naming::{
    make_audio_path, make_combined_path, make_merge_command, make_screen_capture_command,
    make_session_basename, make_video_path, push_decimal,
};

#[test]
fn decimal_rendering() {
    let mut text = "n=".to_string();
    push_decimal(&mut text, 0);
    assert_eq!(text, "n=0");
    let mut text = String::new();
    push_decimal(&mut text, 1920);
    assert_eq!(text, "1920");
    let mut text = String::new();
    push_decimal(&mut text, u64::MAX);
    assert_eq!(text, "18446744073709551615");
}

#[test]
fn session_paths() {
    let basename = make_session_basename("out", "18.10.2026-09_05_01");
    assert_eq!(basename, "out/18.10.2026-09_05_01");
    assert_eq!(make_video_path(&basename), "out/18.10.2026-09_05_01.mp4");
    assert_eq!(make_audio_path(&basename), "out/18.10.2026-09_05_01.wav");
    assert_eq!(make_combined_path(&basename), "out/18.10.2026-09_05_01-combined.mp4");
}

#[test]
fn merge_command_line() {
    assert_eq!(
        make_merge_command("a.mp4", "a.wav", "a-combined.mp4"),
        "ffmpeg.exe -i a.mp4 -i a.wav -c copy a-combined.mp4"
    );
}

#[test]
fn screen_capture_command_line() {
    assert_eq!(
        make_screen_capture_command(1920, 1080, 30, "out/a.mp4"),
        "ffmpeg.exe -video_size 1920x1080 -probesize 10M -f gdigrab -framerate 30 -i desktop out/a.mp4"
    );
}

#[test]
fn error_status_and_messages() {
    let busy = ApiError::CaptureAlreadyInProgress;
    let idle = ApiError::NoCaptureIsRunning;
    let internal = ApiError::InternalServerError("disk full".to_string());
    assert_eq!(busy.status_code(), 425);
    assert_eq!(idle.status_code(), 425);
    assert_eq!(internal.status_code(), 500);
    assert_eq!(busy.message(), "Capture is already in progress");
    assert_eq!(idle.message(), "No capture is running");
    assert_eq!(internal.message(), "Internal server error, disk full");
}
