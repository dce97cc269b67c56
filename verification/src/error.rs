//! Error taxonomy of the decoder, and the translation of the codec's
//! numeric status codes into it.

use vstd::prelude::*;

verus! {

/// Declares `std::io::Error` so that `Error::Io` can carry the failure
/// reported by the byte source.  The value is opaque to the verifier.
#[verifier::external_type_specification]
#[verifier::external_body]
pub struct ExIoError(std::io::Error);

/// Errors encountered by the MP3 decoder.
#[derive(Debug)]
pub enum Error {
    /// An error caused by some IO operation required during decoding.
    Io(std::io::Error),
    /// The decoder tried to parse a frame from its internal buffer, but there
    /// was not enough.
    InsufficientData,
    /// The decoder encountered data which was not a frame (ie, ID3 data), and
    /// skipped it.
    SkippedData,
    /// The decoder has reached the end of the provided reader.
    Eof,
    /// The codec had a memory error, likely allocation.
    MiniMemory,
    /// The codec had an IO error.
    MiniIo,
    /// The codec had a parameter error.
    MiniParam,
    /// The codec had a user error.
    MiniUser,
    /// The codec had a decoder error, likely the sampling rate/channels/layer
    /// changed mid stream.
    MiniDecode,
    /// The codec returned an unknown error code.
    MiniUnknown,
}

/// Status code with which the codec reports a parameter error.
pub const MP3D_E_PARAM: i32 = -1;
/// Status code with which the codec reports a memory error.
pub const MP3D_E_MEMORY: i32 = -2;
/// Status code with which the codec reports an IO error.
pub const MP3D_E_IOERROR: i32 = -3;
/// Status code with which the codec reports an error raised from a callback.
pub const MP3D_E_USER: i32 = -4;
/// Status code with which the codec reports a decode error it cannot skip.
pub const MP3D_E_DECODE: i32 = -5;

/// The error that a nonzero codec status code translates to.
pub open spec fn mini_error(ec: int) -> Error {
    if ec == MP3D_E_MEMORY as int {
        Error::MiniMemory
    } else if ec == MP3D_E_IOERROR as int {
        Error::MiniIo
    } else if ec == MP3D_E_PARAM as int {
        Error::MiniParam
    } else if ec == MP3D_E_USER as int {
        Error::MiniUser
    } else if ec == MP3D_E_DECODE as int {
        Error::MiniDecode
    } else {
        Error::MiniUnknown
    }
}

/// Translate a codec status code: zero is success, anything else is the
/// fatal error named by [`mini_error`].
pub fn from_mini_error(ec: i32) -> (r: Result<(), Error>)
    ensures
        ec == 0 ==> r == Ok::<(), Error>(()),
        ec != 0 ==> r == Err::<(), Error>(mini_error(ec as int)),
{
    match ec {
        0 => Ok(()),
        MP3D_E_MEMORY => Err(Error::MiniMemory),
        MP3D_E_IOERROR => Err(Error::MiniIo),
        MP3D_E_PARAM => Err(Error::MiniParam),
        MP3D_E_USER => Err(Error::MiniUser),
        MP3D_E_DECODE => Err(Error::MiniDecode),
        _ => Err(Error::MiniUnknown),
    }
}

/// The fixed description of each error.  A wrapped byte-source failure
/// keeps its own report inside the `Io` value; here it is named summarily.
pub open spec fn description_spec(e: Error) -> Seq<char> {
    match e {
        Error::Io(_) => "IO error"@,
        Error::InsufficientData => "Insufficient data"@,
        Error::SkippedData => "Skipped data"@,
        Error::Eof => "End of reader"@,
        Error::MiniMemory => "Minimp3 memory error"@,
        Error::MiniIo => "Minimp3 io error"@,
        Error::MiniParam => "Minimp3 parameter error"@,
        Error::MiniUser => "Minimp3 user error"@,
        Error::MiniDecode => "Minimp3 decoder error"@,
        Error::MiniUnknown => "Unknown error"@,
    }
}

impl Error {
    /// A short, fixed description of the error.
    pub fn description(&self) -> (r: &'static str)
        ensures
            r@ == description_spec(*self),
    {
        match self {
            Error::Io(_) => "IO error",
            Error::InsufficientData => "Insufficient data",
            Error::SkippedData => "Skipped data",
            Error::Eof => "End of reader",
            Error::MiniMemory => "Minimp3 memory error",
            Error::MiniIo => "Minimp3 io error",
            Error::MiniParam => "Minimp3 parameter error",
            Error::MiniUser => "Minimp3 user error",
            Error::MiniDecode => "Minimp3 decoder error",
            Error::MiniUnknown => "Unknown error",
        }
    }
}

impl From<std::io::Error> for Error {
    /// Wrap a byte-source failure, as the decoder's refill step does.
    fn from(err: std::io::Error) -> (r: Error)
        ensures
            r == Error::Io(err),
    {
        Error::Io(err)
    }
}

impl vstd::std_specs::convert::FromSpecImpl<std::io::Error> for Error {
    open spec fn obeys_from_spec() -> bool {
        true
    }

    open spec fn from_spec(err: std::io::Error) -> Self {
        Error::Io(err)
    }
}

} // verus!
