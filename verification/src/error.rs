//! Faults of the audio device layer, surfaced synchronously from device
//! and stream handling; none of them touches the graph.

use vstd::prelude::*;

verus! {

/// A fault of the audio device layer: an internal fault, a rejected
/// parameterisation, or an error code of the platform audio library.
#[derive(Debug)]
pub enum Error {
    General { message: String },
    Parameterisation { message: String },
    RtAudio { code: i32, message: String },
}

impl Error {
    /// The human-readable message the fault carries.
    pub fn message(&self) -> (r: &String)
        ensures
            *r == match *self {
                Error::General { message } => message,
                Error::Parameterisation { message } => message,
                Error::RtAudio { code: _, message } => message,
            },
    {
        match self {
            Error::General { message } => message,
            Error::Parameterisation { message } => message,
            Error::RtAudio { code: _, message } => message,
        }
    }
}

/// Context of an internal fault.
pub struct GeneralError {
    pub message: String,
}

impl GeneralError {
    /// An internal fault carrying `message`.
    pub fn create(message: String) -> (r: Error)
        ensures
            r == (Error::General { message }),
    {
        Error::General { message }
    }
}

/// Context of a rejected parameterisation.
pub struct ParameterisationError {
    pub message: String,
}

impl ParameterisationError {
    /// A parameterisation fault carrying `message`.
    pub fn create(message: String) -> (r: Error)
        ensures
            r == (Error::Parameterisation { message }),
    {
        Error::Parameterisation { message }
    }
}

/// Context of a platform audio library error.
pub struct RtAudioError {
    pub code: i32,
    pub message: String,
}

impl RtAudioError {
    /// A platform audio fault carrying the library's error `code` and
    /// `message`.
    pub fn create(code: i32, message: String) -> (r: Error)
        ensures
            r == (Error::RtAudio { code, message }),
    {
        Error::RtAudio { code, message }
    }
}

} // verus!
