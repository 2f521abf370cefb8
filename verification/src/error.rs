use vstd::prelude::*;

verus! {

/// Why an operation of this crate did not go through.
///
/// The engine reports failures as a bare negative status or a missing handle,
/// so the two engine variants carry no further detail.
#[derive(Clone, Copy, Debug, PartialEq, Eq, Structural)]
pub enum Error {
    /// The planes handed to an image constructor do not fit the format.
    ConstructionViolation,
    /// The engine rejected the parameters and returned no handle.
    EncoderOpenFailed,
    /// The engine signalled a failure while encoding or writing headers.
    EncodeFailed,
}

impl Error {
    /// A short description of the failure.
    pub fn message(&self) -> (text: &'static str)
        ensures
            text@ == error_text(*self),
    {
        match self {
            Error::ConstructionViolation => "image planes do not fit the pixel format",
            Error::EncoderOpenFailed => "the encoder could not be opened",
            Error::EncodeFailed => "the encoder failed to produce output",
        }
    }
}

/// The text that [`Error::message`] returns.
pub open spec fn error_text(e: Error) -> Seq<char> {
    match e {
        Error::ConstructionViolation => "image planes do not fit the pixel format"@,
        Error::EncoderOpenFailed => "the encoder could not be opened"@,
        Error::EncodeFailed => "the encoder failed to produce output"@,
    }
}

} // verus!
