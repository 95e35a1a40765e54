use vstd::prelude::*;
use vstd::string::*;

use crate::errors::ApiError;
use crate::naming::{make_merge_command, merge_command};

verus! {

/// The files of one merge: the two sources and the file they are combined into.
pub struct MergeInputs {
    pub video: String,
    pub audio: String,
    pub output: String,
}

/// What the merger does once it knows whether the audio file exists.
pub enum MergeAction {
    /// No audio was recorded: the video stays as it is and the merge succeeds.
    Skip,
    /// Run the merge tool with this command line.
    RunTool { command: String },
}

/// How a run of the merge tool ended.
#[derive(Clone, Copy, PartialEq, Eq, Structural)]
pub enum ToolOutcome {
    /// The tool could not be started.
    NotStarted,
    /// The tool ran and exited, with success or not.
    Exited { success: bool },
}

pub open spec fn spec_merge_failure(outcome: ToolOutcome) -> Seq<char> {
    match outcome {
        ToolOutcome::NotStarted => "Could not combine files"@,
        ToolOutcome::Exited { .. } => "Could not combine outputs via ffmpeg.exe"@,
    }
}

/// Decides the merge of `inputs`: it is skipped when there is no audio file,
/// and is otherwise a run of the merge tool on the session's files.
pub fn plan_merge(inputs: &MergeInputs, audio_exists: bool) -> (r: MergeAction)
    ensures
        !audio_exists ==> r is Skip,
        audio_exists ==> (r matches MergeAction::RunTool { command }
            && command@ == merge_command(inputs.video@, inputs.audio@, inputs.output@)),
{
    if !audio_exists {
        MergeAction::Skip
    } else {
        let command = make_merge_command(inputs.video.as_str(), inputs.audio.as_str(), inputs.output.as_str());
        MergeAction::RunTool { command }
    }
}

/// Decides what follows a run of the merge tool: on success the two sources are
/// deleted (the returned files, video first); on failure nothing is deleted and
/// the error is reported.
pub fn finish_merge(inputs: &MergeInputs, outcome: ToolOutcome) -> (r: Result<Vec<String>, ApiError>)
    ensures
        outcome == (ToolOutcome::Exited { success: true }) ==> (r matches Ok(files)
            && files@.len() == 2 && files@[0]@ == inputs.video@ && files@[1]@ == inputs.audio@),
        outcome != (ToolOutcome::Exited { success: true }) ==> (r matches Err(ApiError::InternalServerError(reason))
            && reason@ == spec_merge_failure(outcome)),
{
    match outcome {
        ToolOutcome::Exited { success: true } => {
            let mut files: Vec<String> = Vec::new();
            files.push(inputs.video.clone());
            files.push(inputs.audio.clone());
            Ok(files)
        },
        ToolOutcome::Exited { success: false } => {
            Err(ApiError::InternalServerError(String::from_str("Could not combine outputs via ffmpeg.exe")))
        },
        ToolOutcome::NotStarted => {
            Err(ApiError::InternalServerError(String::from_str("Could not combine files")))
        },
    }
}

} // verus!
