use vstd::prelude::*;

verus! {

/// The closed set of failure kinds an operation can report. Every failure is a
/// local value handed back to the caller; none aborts the process.
#[derive(Clone, Copy, Debug, PartialEq, Eq, Structural)]
pub enum ErrorKind {
    /// Malformed base64 input — a caller error, never retried.
    InvalidEncoding,
    /// A temp-file write failed — an environment error.
    IoError,
    /// Built for a platform with no implementation — permanent, decided per build.
    UnsupportedPlatform,
    /// The native tool or its interpreter could not be spawned.
    LaunchError,
    /// The native tool ran but exited with a failure status.
    ExecutionError,
    /// The native tool's output was not valid text.
    OutputEncodingError,
    /// The system clock was unusable for this call.
    TimeError,
}

impl ErrorKind {
    /// The fixed human-readable message for this failure kind.
    pub open spec fn message_view(self) -> Seq<char> {
        match self {
            ErrorKind::InvalidEncoding => "invalid base64 image"@,
            ErrorKind::IoError => "failed to write temp file"@,
            ErrorKind::UnsupportedPlatform => "not supported on this platform"@,
            ErrorKind::LaunchError => "failed to launch native tool"@,
            ErrorKind::ExecutionError => "native tool exited with a failure"@,
            ErrorKind::OutputEncodingError => "OCR output error"@,
            ErrorKind::TimeError => "time error"@,
        }
    }

    /// A human-readable message describing this failure kind.
    pub fn message(&self) -> (r: String)
        ensures
            r@ == self.message_view(),
    {
        match self {
            ErrorKind::InvalidEncoding => "invalid base64 image".to_owned(),
            ErrorKind::IoError => "failed to write temp file".to_owned(),
            ErrorKind::UnsupportedPlatform => "not supported on this platform".to_owned(),
            ErrorKind::LaunchError => "failed to launch native tool".to_owned(),
            ErrorKind::ExecutionError => "native tool exited with a failure".to_owned(),
            ErrorKind::OutputEncodingError => "OCR output error".to_owned(),
            ErrorKind::TimeError => "time error".to_owned(),
        }
    }
}

} // verus!
