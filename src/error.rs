use vstd::prelude::*;

verus! {

/// What went wrong in a call into the recognition engine. Where the engine gave a status
/// code, the error keeps it as it was.
#[derive(Clone, Copy, Debug, PartialEq, Eq, Structural)]
pub enum ZBarErrorType {
    /// A configuration call was refused.
    ConfigurationFailed(i32),
    /// A pixel buffer does not have the length that its size and format call for.
    InvalidBufferSize,
    /// The video device could not be opened.
    VideoInitFailed(i32),
    /// Scanning a frame or an image failed.
    ScanFailed(i32),
    /// Waiting for the user or for a frame failed.
    WaitFailed(i32),
    /// Showing, hiding, starting or stopping the processor failed.
    DisplayFailed(i32),
    /// A symbol's payload is not valid text.
    DecodeTextFailed,
}

pub type ZBarResult<T> = Result<T, ZBarErrorType>;

impl ZBarErrorType {
    /// The engine's status code that this error carries, if any.
    pub fn code(&self) -> (r: Option<i32>)
        ensures
            r == match *self {
                ZBarErrorType::ConfigurationFailed(c) => Some(c),
                ZBarErrorType::VideoInitFailed(c) => Some(c),
                ZBarErrorType::ScanFailed(c) => Some(c),
                ZBarErrorType::WaitFailed(c) => Some(c),
                ZBarErrorType::DisplayFailed(c) => Some(c),
                ZBarErrorType::InvalidBufferSize | ZBarErrorType::DecodeTextFailed => None,
            },
    {
        match *self {
            ZBarErrorType::ConfigurationFailed(c) => Some(c),
            ZBarErrorType::VideoInitFailed(c) => Some(c),
            ZBarErrorType::ScanFailed(c) => Some(c),
            ZBarErrorType::WaitFailed(c) => Some(c),
            ZBarErrorType::DisplayFailed(c) => Some(c),
            ZBarErrorType::InvalidBufferSize | ZBarErrorType::DecodeTextFailed => None,
        }
    }
}

} // verus!
