//! How a conversion ends, and what the user is told about it.

use vstd::prelude::*;
use crate::command::Stage;

verus! {

/// What can go wrong in a conversion.
#[derive(Clone, Copy, Debug, PartialEq, Eq, Structural)]
pub enum ConversionError {
    /// The input path names no existing file.
    InputNotFound,
    /// The video tool ran for the stage and reported failure.
    StageFailure { stage: Stage },
    /// The video tool could not be started for the stage.
    SpawnFailure { stage: Stage },
    /// The palette image could not be removed.
    CleanupFailure,
}

/// What became of the palette image.
#[derive(Clone, Copy, Debug, PartialEq, Eq, Structural)]
pub enum Cleanup {
    /// No palette image was generated, so none was removed.
    NotAttempted,
    /// The palette image was removed.
    Removed,
    /// Removing the palette image failed.
    Failed,
}

/// How a conversion ended.
#[derive(Clone, Copy, Debug, PartialEq, Eq, Structural)]
pub struct Outcome {
    /// Why no animated image was made, if none was.
    pub failure: Option<ConversionError>,
    /// What became of the palette image.
    pub cleanup: Cleanup,
}

/// The line that reports `error`.
pub open spec fn error_message(error: ConversionError) -> Seq<char> {
    match error {
        ConversionError::InputNotFound => "Error: Input file not found."@,
        ConversionError::StageFailure { stage: Stage::Scale } => "Failed to scale video."@,
        ConversionError::StageFailure { stage: Stage::Palette } => "Failed to generate palette."@,
        ConversionError::StageFailure { stage: Stage::PaletteApply } => "Failed to create GIF."@,
        ConversionError::SpawnFailure { stage: Stage::Scale } => "Failed to execute ffmpeg scaling"@,
        ConversionError::SpawnFailure { stage: Stage::Palette } =>
            "Failed to execute ffmpeg palette generation"@,
        ConversionError::SpawnFailure { stage: Stage::PaletteApply } => "Failed to execute ffmpeg GIF creation"@,
        ConversionError::CleanupFailure => "Failed to delete palette file"@,
    }
}

/// The line that reports that the palette image was removed.
pub open spec fn cleanup_message() -> Seq<char> {
    "Palette file deleted successfully."@
}

/// The line that reports success and names the animated image.
pub open spec fn success_message(output: Seq<char>) -> Seq<char> {
    "GIF created successfully: "@ + output
}

impl Outcome {
    /// The outcome of a conversion that ended with `error` before any
    /// palette image was generated.
    pub open spec fn failed_early(error: ConversionError) -> Outcome {
        Outcome { failure: Some(error), cleanup: Cleanup::NotAttempted }
    }

    /// What is reported besides the result: a failed removal of the palette
    /// image, which leaves the result as it is.
    pub open spec fn spec_warning(self) -> Option<ConversionError> {
        if self.cleanup == Cleanup::Failed {
            Some(ConversionError::CleanupFailure)
        } else {
            None
        }
    }

    /// The lines that report the outcome of a conversion whose animated
    /// image is `output`: the failure, if there was one; then what became
    /// of the palette image, if its removal was attempted; then, on
    /// success, the path of the animated image.
    pub open spec fn spec_report(self, output: Seq<char>) -> Seq<Seq<char>> {
        let failure = match self.failure {
            Some(error) => seq![error_message(error)],
            None => Seq::empty(),
        };
        let cleanup = match self.cleanup {
            Cleanup::NotAttempted => Seq::empty(),
            Cleanup::Removed => seq![cleanup_message()],
            Cleanup::Failed => seq![error_message(ConversionError::CleanupFailure)],
        };
        let success = match self.failure {
            Some(_) => Seq::empty(),
            None => seq![success_message(output)],
        };
        failure + cleanup + success
    }

    /// What is reported besides the result.
    pub fn warning(self) -> (warning: Option<ConversionError>)
        ensures
            warning == self.spec_warning(),
    {
        match self.cleanup {
            Cleanup::Failed => Some(ConversionError::CleanupFailure),
            _ => None,
        }
    }

    /// The lines that report the outcome, in the order in which they are
    /// shown.
    pub fn report(self, output: &str) -> (lines: Vec<String>)
        ensures
            lines.deep_view() == self.spec_report(output@),
    {
        let mut lines: Vec<String> = Vec::new();
        match self.failure {
            Some(error) => {
                lines.push(String::from_str(error.message()));
            },
            None => {},
        }
        match self.cleanup {
            Cleanup::NotAttempted => {},
            Cleanup::Removed => {
                lines.push(String::from_str("Palette file deleted successfully."));
            },
            Cleanup::Failed => {
                lines.push(String::from_str(ConversionError::CleanupFailure.message()));
            },
        }
        match self.failure {
            Some(_) => {},
            None => {
                lines.push(String::from_str("GIF created successfully: ").concat(output));
            },
        }
        assert(lines.deep_view() =~= self.spec_report(output@));
        lines
    }
}

impl ConversionError {
    /// The line that reports the error.
    pub fn message(self) -> (text: &'static str)
        ensures
            text@ == error_message(self),
    {
        match self {
            ConversionError::InputNotFound => "Error: Input file not found.",
            ConversionError::StageFailure { stage: Stage::Scale } => "Failed to scale video.",
            ConversionError::StageFailure { stage: Stage::Palette } => "Failed to generate palette.",
            ConversionError::StageFailure { stage: Stage::PaletteApply } => "Failed to create GIF.",
            ConversionError::SpawnFailure { stage: Stage::Scale } => "Failed to execute ffmpeg scaling",
            ConversionError::SpawnFailure { stage: Stage::Palette } =>
                "Failed to execute ffmpeg palette generation",
            ConversionError::SpawnFailure { stage: Stage::PaletteApply } =>
                "Failed to execute ffmpeg GIF creation",
            ConversionError::CleanupFailure => "Failed to delete palette file",
        }
    }
}

/// The number of characters in the line that reports each error.
proof fn lemma_message_lengths()
    ensures
        error_message(ConversionError::InputNotFound).len() == 28,
        error_message(ConversionError::StageFailure { stage: Stage::Scale }).len() == 22,
        error_message(ConversionError::StageFailure { stage: Stage::Palette }).len() == 27,
        error_message(ConversionError::StageFailure { stage: Stage::PaletteApply }).len() == 21,
        error_message(ConversionError::SpawnFailure { stage: Stage::Scale }).len() == 32,
        error_message(ConversionError::SpawnFailure { stage: Stage::Palette }).len() == 43,
        error_message(ConversionError::SpawnFailure { stage: Stage::PaletteApply }).len() == 37,
        error_message(ConversionError::CleanupFailure).len() == 29,
{
    reveal_strlit("Error: Input file not found.");
    reveal_strlit("Failed to scale video.");
    reveal_strlit("Failed to generate palette.");
    reveal_strlit("Failed to create GIF.");
    reveal_strlit("Failed to execute ffmpeg scaling");
    reveal_strlit("Failed to execute ffmpeg palette generation");
    reveal_strlit("Failed to execute ffmpeg GIF creation");
    reveal_strlit("Failed to delete palette file");
}

/// The line that reports an error tells which error it was, and so which
/// stage failed: no two errors share a line.
pub proof fn lemma_messages_tell_errors_apart(a: ConversionError, b: ConversionError)
    requires
        error_message(a) == error_message(b),
    ensures
        a == b,
{
    lemma_message_lengths();
    assert(error_message(a).len() == error_message(b).len());
}

} // verus!
