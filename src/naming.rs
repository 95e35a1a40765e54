use vstd::prelude::*;
use vstd::string::*;

verus! {

/// The characters of one decimal digit.
pub open spec fn digit(d: nat) -> Seq<char> {
    if d == 0 {
        "0"@
    } else if d == 1 {
        "1"@
    } else if d == 2 {
        "2"@
    } else if d == 3 {
        "3"@
    } else if d == 4 {
        "4"@
    } else if d == 5 {
        "5"@
    } else if d == 6 {
        "6"@
    } else if d == 7 {
        "7"@
    } else if d == 8 {
        "8"@
    } else {
        "9"@
    }
}

/// `n` written in decimal, without leading zeros.
pub open spec fn decimal(n: nat) -> Seq<char>
    decreases n,
{
    if n < 10 {
        digit(n)
    } else {
        decimal(n / 10) + digit(n % 10)
    }
}

/// The prefix shared by all files of a session: the folder, a slash, the timestamp.
pub open spec fn session_basename(folder: Seq<char>, stamp: Seq<char>) -> Seq<char> {
    folder + "/"@ + stamp
}

pub open spec fn video_path(basename: Seq<char>) -> Seq<char> {
    basename + ".mp4"@
}

pub open spec fn audio_path(basename: Seq<char>) -> Seq<char> {
    basename + ".wav"@
}

pub open spec fn combined_path(basename: Seq<char>) -> Seq<char> {
    basename + "-combined.mp4"@
}

/// The ffmpeg command line that copies a video and an audio stream into one file.
pub open spec fn merge_command(video: Seq<char>, audio: Seq<char>, output: Seq<char>) -> Seq<char> {
    "ffmpeg.exe -i "@ + video + " -i "@ + audio + " -c copy "@ + output
}

/// The ffmpeg command line that records the desktop into `filename`.
pub open spec fn screen_capture_command(width: nat, height: nat, fps: nat, filename: Seq<char>) -> Seq<char> {
    "ffmpeg.exe -video_size "@ + decimal(width) + "x"@ + decimal(height)
        + " -probesize 10M -f gdigrab -framerate "@ + decimal(fps) + " -i desktop "@ + filename
}

fn digit_str(d: u64) -> (r: &'static str)
    requires
        d < 10,
    ensures
        r@ == digit(d as nat),
{
    match d {
        0 => "0",
        1 => "1",
        2 => "2",
        3 => "3",
        4 => "4",
        5 => "5",
        6 => "6",
        7 => "7",
        8 => "8",
        _ => "9",
    }
}

/// Appends `n` in decimal to `text`.
pub fn push_decimal(text: &mut String, n: u64)
    ensures
        final(text)@ == old(text)@ + decimal(n as nat),
    decreases n,
{
    if n >= 10 {
        push_decimal(text, n / 10);
    }
    text.append(digit_str(n % 10));
    proof {
        if n >= 10 {
            assert(final(text)@ =~= old(text)@ + decimal(n as nat));
        }
    }
}

/// Builds the basename of a session from the recordings folder and a timestamp.
pub fn make_session_basename(folder: &str, stamp: &str) -> (r: String)
    ensures
        r@ == session_basename(folder@, stamp@),
{
    let mut text = String::from_str(folder);
    text.append("/");
    text.append(stamp);
    text
}

/// The path of a session's video file.
pub fn make_video_path(basename: &str) -> (r: String)
    ensures
        r@ == video_path(basename@),
{
    let mut text = String::from_str(basename);
    text.append(".mp4");
    text
}

/// The path of a session's audio file.
pub fn make_audio_path(basename: &str) -> (r: String)
    ensures
        r@ == audio_path(basename@),
{
    let mut text = String::from_str(basename);
    text.append(".wav");
    text
}

/// The path of a session's merged file.
pub fn make_combined_path(basename: &str) -> (r: String)
    ensures
        r@ == combined_path(basename@),
{
    let mut text = String::from_str(basename);
    text.append("-combined.mp4");
    text
}

/// Builds the command line that merges `video` and `audio` into `output`.
pub fn make_merge_command(video: &str, audio: &str, output: &str) -> (r: String)
    ensures
        r@ == merge_command(video@, audio@, output@),
{
    let mut text = String::from_str("ffmpeg.exe -i ");
    text.append(video);
    text.append(" -i ");
    text.append(audio);
    text.append(" -c copy ");
    text.append(output);
    text
}

/// Builds the command line that records a `width` by `height` desktop at `fps`
/// frames per second into `filename`.
pub fn make_screen_capture_command(width: u32, height: u32, fps: u32, filename: &str) -> (r: String)
    ensures
        r@ == screen_capture_command(width as nat, height as nat, fps as nat, filename@),
{
    let mut text = String::from_str("ffmpeg.exe -video_size ");
    push_decimal(&mut text, width as u64);
    text.append("x");
    push_decimal(&mut text, height as u64);
    text.append(" -probesize 10M -f gdigrab -framerate ");
    push_decimal(&mut text, fps as u64);
    text.append(" -i desktop ");
    text.append(filename);
    text
}

} // verus!
