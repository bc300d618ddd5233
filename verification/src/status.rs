//! How a run of the dashboard can fail, and how it ends.

use vstd::prelude::*;

verus! {

/// What can go wrong during a run.
#[derive(Clone, Copy, Debug, PartialEq, Eq, Structural)]
pub enum ErrorKind {
    /// The terminal could not be put into the mode that the dashboard needs.
    TerminalInit,
    /// The vendor library could not be initialised, or has no first device.
    TelemetryInit,
    /// A counter could not be read for one frame.
    TelemetryRead,
    /// A frame could not be written to the terminal.
    RenderFail,
    /// The keyboard could not be read.
    InputRead,
}

impl ErrorKind {
    /// Only a failed counter read lets the run go on.
    pub open spec fn is_fatal(self) -> bool {
        self != ErrorKind::TelemetryRead
    }

    /// The one line that reports this kind of error.
    pub open spec fn message_text(self) -> Seq<char> {
        match self {
            ErrorKind::TerminalInit => "Failed to initialize the terminal"@,
            ErrorKind::TelemetryInit => "Failed to initialize NVML or to get device index 0"@,
            ErrorKind::TelemetryRead => "Failed to retrieve a GPU reading; the last value was repeated"@,
            ErrorKind::RenderFail => "Failed to draw to the terminal"@,
            ErrorKind::InputRead => "Failed to read the keyboard"@,
        }
    }

    /// The line to write to the error stream for this kind of error.
    pub fn message(self) -> (line: &'static str)
        ensures
            line@ == self.message_text(),
    {
        match self {
            ErrorKind::TerminalInit => "Failed to initialize the terminal",
            ErrorKind::TelemetryInit => "Failed to initialize NVML or to get device index 0",
            ErrorKind::TelemetryRead => "Failed to retrieve a GPU reading; the last value was repeated",
            ErrorKind::RenderFail => "Failed to draw to the terminal",
            ErrorKind::InputRead => "Failed to read the keyboard",
        }
    }
}

/// How a run ended.
#[derive(Clone, Copy, Debug, PartialEq, Eq, Structural)]
pub enum Outcome {
    /// The user asked to quit.
    Quit,
    /// A fatal error stopped the run.
    Fatal(ErrorKind),
}

impl Outcome {
    /// The exit code of the process for this outcome.
    pub open spec fn code(self) -> u8 {
        match self {
            Outcome::Quit => 0,
            Outcome::Fatal(_) => 1,
        }
    }

    /// The exit code of the process: 0 after a clean quit, 1 after a fatal
    /// error.
    pub fn exit_code(self) -> (code: u8)
        ensures
            code == self.code(),
            code == 0 <==> self == Outcome::Quit,
    {
        match self {
            Outcome::Quit => 0,
            Outcome::Fatal(_) => 1,
        }
    }
}

} // verus!
