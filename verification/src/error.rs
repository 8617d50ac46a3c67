//! What can go wrong, and for whom it is fatal.
use vstd::prelude::*;

verus! {

/// Whether one file is converted or every image of a directory.
#[derive(Clone, Copy, Debug, PartialEq, Eq, Structural)]
pub enum Mode {
    SingleFile,
    Batch,
}

/// The ways in which the pipeline fails.
#[derive(Clone, Copy, Debug, PartialEq, Eq, Structural)]
pub enum PipelineError {
    /// The directory of a batch cannot be listed.
    DirectoryUnreadable,
    /// An input file cannot be opened or measured.
    InputUnreadable,
    /// The bytes of an input are not an image in a supported format.
    DecodeFailed,
    /// The encoder does not take the decoded image.
    EncodeFailed,
    /// The output cannot be written.
    WriteFailed,
}

impl PipelineError {
    /// Whether this error ends the run. A directory that cannot be listed
    /// always does. Any other error ends the conversion of a single file, and
    /// in a batch only has its file left out.
    pub open spec fn is_fatal(self, mode: Mode) -> bool {
        self is DirectoryUnreadable || mode is SingleFile
    }

    /// What is said of this error.
    pub open spec fn message_text(self) -> Seq<char> {
        match self {
            PipelineError::DirectoryUnreadable => "Failed to open directory"@,
            PipelineError::InputUnreadable => "Failed to read input file"@,
            PipelineError::DecodeFailed => "Failed to decode image"@,
            PipelineError::EncodeFailed => "Failed to create encoder"@,
            PipelineError::WriteFailed => "Failed to write output file"@,
        }
    }

    /// Whether this error ends a run in the given mode.
    pub fn ends_run(&self, mode: Mode) -> (fatal: bool)
        ensures
            fatal == self.is_fatal(mode),
    {
        match self {
            PipelineError::DirectoryUnreadable => true,
            _ => match mode {
                Mode::SingleFile => true,
                Mode::Batch => false,
            },
        }
    }

    /// A short description of this error.
    pub fn message(&self) -> (text: &'static str)
        ensures
            text@ == self.message_text(),
    {
        match self {
            PipelineError::DirectoryUnreadable => "Failed to open directory",
            PipelineError::InputUnreadable => "Failed to read input file",
            PipelineError::DecodeFailed => "Failed to decode image",
            PipelineError::EncodeFailed => "Failed to create encoder",
            PipelineError::WriteFailed => "Failed to write output file",
        }
    }
}

/// In a batch, no failure of a single file ends the run: only a directory
/// that cannot be listed does.
pub proof fn lemma_batch_survives_file_errors(error: PipelineError)
    ensures
        error.is_fatal(Mode::Batch) <==> error is DirectoryUnreadable,
        error.is_fatal(Mode::SingleFile),
{
}

} // verus!
