use vstd::prelude::*;

verus! {

/// The failures that face detection reports.
#[derive(Debug, Clone, Copy, PartialEq, Eq, Structural)]
pub enum YuNetError {
    /// The image handed to detection is not well formed.
    InvalidFile,
    /// The detector did not complete its work.
    FaceDetectionFailed,
}

impl YuNetError {
    /// The text that describes this failure to a reader.
    pub open spec fn spec_message(&self) -> Seq<char> {
        match self {
            YuNetError::InvalidFile => "Invalid input file"@,
            YuNetError::FaceDetectionFailed => "Face detection failed"@,
        }
    }

    /// Returns the text that describes this failure.
    pub fn message(&self) -> (text: String)
        ensures
            text@ == self.spec_message(),
    {
        match self {
            YuNetError::InvalidFile => "Invalid input file".to_owned(),
            YuNetError::FaceDetectionFailed => "Face detection failed".to_owned(),
        }
    }
}

} // verus!
