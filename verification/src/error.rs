//! The terminal failures of a run.

use vstd::prelude::*;

verus! {

/// Why a run stopped. Every variant is terminal: nothing is retried and no
/// later step runs once one of these has been produced.
#[derive(Clone, Copy, Debug, PartialEq, Eq, Structural)]
pub enum Error {
    /// A tool-only flag had no value, or a value was not a 16-bit number.
    MalformedArguments,
    /// The build tool could not be started.
    BuildToolUnavailable,
    /// The build tool ran and failed; holds the status code to exit with.
    BuildFailed(i32),
    /// More than one executable artifact was produced.
    AmbiguousArtifact,
    /// The build succeeded without producing an executable artifact.
    NoArtifact,
    /// No device could be opened.
    DeviceNotFound,
    /// The executable could not be converted to a flat binary.
    ConversionFailed,
    /// The device did not answer the information query.
    DeviceQueryFailed,
    /// The transfer to the device failed.
    FlashFailed,
}

impl Error {
    /// The status code a process ends with after this failure: the build
    /// tool's own code for a failed build, `1` for every other failure. It
    /// is never zero: a failed build that was recorded with the code zero
    /// ends with `1` as well.
    pub open spec fn spec_exit_code(self) -> i32 {
        match self {
            Error::BuildFailed(code) if code != 0 => code,
            _ => 1,
        }
    }

    /// The short text that names this failure to the user.
    pub open spec fn spec_message(self) -> Seq<char> {
        match self {
            Error::MalformedArguments => "malformed arguments"@,
            Error::BuildToolUnavailable => "the build tool could not be started"@,
            Error::BuildFailed(_) => "the build failed"@,
            Error::AmbiguousArtifact => "multiple artifacts"@,
            Error::NoArtifact => "no artifact"@,
            Error::DeviceNotFound => "Are you sure device is plugged in and in bootloader mode?"@,
            Error::ConversionFailed => "the executable could not be converted"@,
            Error::DeviceQueryFailed => "bin_info failed"@,
            Error::FlashFailed => "flashing failed"@,
        }
    }

    /// Computes [`Error::spec_message`].
    pub fn message(&self) -> (text: &'static str)
        ensures
            text@ == self.spec_message(),
    {
        match self {
            Error::MalformedArguments => "malformed arguments",
            Error::BuildToolUnavailable => "the build tool could not be started",
            Error::BuildFailed(_) => "the build failed",
            Error::AmbiguousArtifact => "multiple artifacts",
            Error::NoArtifact => "no artifact",
            Error::DeviceNotFound => "Are you sure device is plugged in and in bootloader mode?",
            Error::ConversionFailed => "the executable could not be converted",
            Error::DeviceQueryFailed => "bin_info failed",
            Error::FlashFailed => "flashing failed",
        }
    }

    /// Computes [`Error::spec_exit_code`].
    pub fn exit_code(&self) -> (code: i32)
        ensures
            code == self.spec_exit_code(),
            code != 0,
    {
        match self {
            Error::BuildFailed(code) => if *code != 0 {
                *code
            } else {
                1
            },
            _ => 1,
        }
    }
}

} // verus!
