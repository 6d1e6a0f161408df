//! The ways in which a run can fail.

use vstd::prelude::*;
use vstd::string::*;

verus! {

/// Why a run stopped. Every error is final: nothing is retried and nothing
/// that was already written is cleaned up.
#[derive(Clone, Copy, Debug, PartialEq, Eq, Structural)]
pub enum CompositorError {
    /// A picture could not be found, read or decoded.
    Decode,
    /// The output directory could not be created.
    OutputDirectory,
    /// The picture's pixel layout is not one the grayscale step knows.
    UnsupportedFormat,
    /// A finished picture could not be encoded or written.
    Write,
    /// Scaling or recoding a picture would take a buffer of more pixels than
    /// [`crate::geometry::MAX_PIXELS`].
    ImageTooLarge,
    /// A path has no file stem from which an output name could be derived.
    MissingFileStem,
}

impl CompositorError {
    /// The text of [`CompositorError::message`].
    pub open spec fn spec_message(self) -> Seq<char> {
        match self {
            CompositorError::Decode => "picture could not be read or decoded"@,
            CompositorError::OutputDirectory => "output directory could not be created"@,
            CompositorError::UnsupportedFormat => "pixel format is not supported"@,
            CompositorError::Write => "picture could not be written"@,
            CompositorError::ImageTooLarge => "picture is too large"@,
            CompositorError::MissingFileStem => "path has no file stem"@,
        }
    }

    /// A short description for the user.
    pub fn message(&self) -> (text: String)
        ensures
            text@ == self.spec_message(),
    {
        match self {
            CompositorError::Decode => String::from_str("picture could not be read or decoded"),
            CompositorError::OutputDirectory => String::from_str(
                "output directory could not be created",
            ),
            CompositorError::UnsupportedFormat => String::from_str("pixel format is not supported"),
            CompositorError::Write => String::from_str("picture could not be written"),
            CompositorError::ImageTooLarge => String::from_str("picture is too large"),
            CompositorError::MissingFileStem => String::from_str("path has no file stem"),
        }
    }
}

} // verus!
