//! How the build tool's process ended.

use vstd::prelude::*;

verus! {

/// The end of a process: the code it exited with, if it exited by itself, or
/// the signal that ended it, if one did. Never both, and a signal's number
/// is at least 1.
#[derive(Clone, Copy, Debug, PartialEq, Eq)]
pub struct ExitStatus {
    code: Option<i32>,
    signal: Option<i32>,
}

/// Whether a code and a signal can be the two parts of one status: they are
/// not both present, and a signal's number is at least 1.
pub open spec fn valid_parts(code: Option<i32>, signal: Option<i32>) -> bool {
    &&& code is Some ==> signal is None
    &&& match signal {
        Some(number) => number >= 1,
        None => true,
    }
}

/// The exit code that a status is made with: the one given, if any.
pub open spec fn kept_code(code: Option<i32>, signal: Option<i32>) -> Option<i32> {
    code
}

/// The signal that a status is made with: the one given, unless there is an
/// exit code beside it or its number is below 1.
pub open spec fn kept_signal(code: Option<i32>, signal: Option<i32>) -> Option<i32> {
    match (code, signal) {
        (None, Some(number)) if number >= 1 => Some(number),
        _ => None,
    }
}

impl ExitStatus {
    /// The code that the process exited with, if it exited by itself.
    pub closed spec fn spec_code(self) -> Option<i32> {
        self.code
    }

    /// The signal that ended the process, if one did.
    pub closed spec fn spec_signal(self) -> Option<i32> {
        self.signal
    }

    /// What holds of every status.
    pub open spec fn well_formed(self) -> bool {
        valid_parts(self.spec_code(), self.spec_signal())
    }

    #[verifier::type_invariant]
    closed spec fn holds_always(self) -> bool {
        self.well_formed()
    }

    /// Whether the process exited by itself with code zero.
    pub open spec fn spec_success(self) -> bool {
        self.spec_code() == Some(0i32)
    }

    /// The code to end with in turn: the exit code if there is one, else the
    /// number of the signal, else `1`.
    pub open spec fn spec_exit_code(self) -> i32 {
        match self.spec_code() {
            Some(code) => code,
            None => match self.spec_signal() {
                Some(signal) => signal,
                None => 1,
            },
        }
    }

    /// Makes a status of what the system reports. An exit code is kept as it
    /// is. A signal is kept where there is no exit code and its number is at
    /// least 1; no process is ended by any other.
    pub fn new(code: Option<i32>, signal: Option<i32>) -> (status: ExitStatus)
        ensures
            status.spec_code() == kept_code(code, signal),
            status.spec_signal() == kept_signal(code, signal),
            status.well_formed(),
    {
        let signal = match (code, signal) {
            (None, Some(number)) => if number >= 1 {
                Some(number)
            } else {
                None
            },
            _ => None,
        };
        ExitStatus { code, signal }
    }

    /// Computes [`ExitStatus::spec_code`].
    pub fn code(&self) -> (code: Option<i32>)
        ensures
            code == self.spec_code(),
    {
        self.code
    }

    /// Computes [`ExitStatus::spec_signal`].
    pub fn signal(&self) -> (signal: Option<i32>)
        ensures
            signal == self.spec_signal(),
    {
        self.signal
    }

    /// Decides [`ExitStatus::spec_success`].
    pub fn success(&self) -> (yes: bool)
        ensures
            yes == self.spec_success(),
    {
        match self.code {
            Some(code) => code == 0,
            None => false,
        }
    }

    /// Computes [`ExitStatus::spec_exit_code`]. The code of a process that
    /// did not succeed is never zero.
    pub fn exit_code(&self) -> (code: i32)
        ensures
            code == self.spec_exit_code(),
            self.well_formed(),
            !self.spec_success() ==> code != 0,
    {
        proof {
            use_type_invariant(self);
        }
        match self.code {
            Some(code) => code,
            None => match self.signal {
                Some(signal) => signal,
                None => 1,
            },
        }
    }
}

/// A process that did not succeed leaves a code that is not zero.
pub proof fn lemma_failure_is_nonzero(status: ExitStatus)
    requires
        status.well_formed(),
        !status.spec_success(),
    ensures
        status.spec_exit_code() != 0,
{
}

} // verus!
