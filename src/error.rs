//! One error taxonomy for every failure of a compression operation.
use vstd::prelude::*;

verus! {

#[verifier::external_type_specification]
#[verifier::external_body]
pub struct ExIoError(std::io::Error);

/// The step of the codec's protocol at which a codec failure happened.
#[derive(Clone, Copy, Debug, PartialEq, Eq, Structural)]
pub enum CodecStep {
    /// Building the encoder and writing the frame header.
    Build,
    /// Writing the end mark and the content checksum.
    Finish,
    /// The whole frame does not fit in the fixed destination.
    Capacity,
    /// A write or finish was attempted after an earlier write had failed.
    Poisoned,
}

/// The error of every fallible operation of this library.
#[derive(Clone, Copy, Debug, PartialEq, Eq, Structural)]
pub enum Error {
    /// Opening, creating, reading or writing a stream failed.
    Io { os_code: Option<i32> },
    /// The codec could not start or end a frame, or was used after a failure.
    Codec { step: CodecStep, os_code: Option<i32> },
}

/// Relies on `std::io::Error::raw_os_error`: the operating system's error
/// code, where the error came from the operating system.
#[verifier::external_body]
fn raw_os_code(e: &std::io::Error) -> (r: Option<i32>) {
    e.raw_os_error()
}

/// Classifies a failure of a read or a write as an I/O error.
pub fn io_error(e: &std::io::Error) -> (r: Error)
    ensures
        r is Io,
{
    Error::Io { os_code: raw_os_code(e) }
}

/// Classifies a failure of the codec at `step`.
pub fn codec_error(step: CodecStep, e: &std::io::Error) -> (r: Error)
    ensures
        r matches Error::Codec { step: s, .. } && s == step,
{
    Error::Codec { step, os_code: raw_os_code(e) }
}

impl Error {
    /// Whether this is an I/O error.
    pub fn is_io(&self) -> (r: bool)
        ensures
            r == (*self is Io),
    {
        matches!(self, Error::Io { .. })
    }

    /// Whether this is a codec error.
    pub fn is_codec(&self) -> (r: bool)
        ensures
            r == (*self is Codec),
    {
        matches!(self, Error::Codec { .. })
    }

    /// The operating system's error code behind this error, if any.
    pub fn os_code(&self) -> (r: Option<i32>)
        ensures
            r == match *self {
                Error::Io { os_code } => os_code,
                Error::Codec { os_code, .. } => os_code,
            },
    {
        match self {
            Error::Io { os_code } => *os_code,
            Error::Codec { os_code, .. } => *os_code,
        }
    }
}

} // verus!
