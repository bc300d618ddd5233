//! The protocol between the dashboard loop and the driver that performs its
//! actions: where the loop stands, what it asks for, and what it is told.

use vstd::prelude::*;
use crate::input::{poll_requests_quit, Event};
use crate::metric::Snapshot;
use crate::status::Outcome;

verus! {

/// How long one poll of the keyboard may wait, in milliseconds.
pub const POLL_TIMEOUT_MS: u64 = 150;

/// The four states of a run.
#[derive(Clone, Copy, Debug, PartialEq, Eq, Structural)]
pub enum Phase {
    Initializing,
    Running,
    ShuttingDown,
    Fatal,
}

/// Where the loop stands: what it is waiting for, or how it ended.
#[derive(Clone, Copy, Debug, PartialEq, Eq, Structural)]
pub enum Stage {
    /// Waiting for the terminal to be acquired and cleared.
    AcquiringTerminal,
    /// Waiting for the telemetry source and the name of its first device.
    AcquiringTelemetry,
    /// Waiting for the snapshot of this frame.
    Sampling,
    /// Waiting for the frame to be drawn.
    Drawing,
    /// Waiting for the keyboard.
    Polling,
    /// The run is over.
    Stopped(Outcome),
}

/// What the loop asks its driver to do next.
#[derive(Clone, Copy, Debug, PartialEq, Eq, Structural)]
pub enum Action {
    /// Put the terminal into raw mode on the alternate screen and clear it.
    AcquireTerminal,
    /// Initialise the telemetry source, bind device 0 and read its name.
    AcquireTelemetry,
    /// Read the counters of the device.
    Sample,
    /// Draw one frame.
    Draw,
    /// Wait for one input event, at most `timeout_ms` milliseconds.
    Poll { timeout_ms: u64 },
    /// Release the terminal, report if there is something to report, and
    /// leave with the outcome's exit code.
    Stop(Outcome),
}

/// What the driver reports back once it has done what it was asked to do.
#[derive(Clone, Debug, PartialEq, Eq)]
pub enum LoopEvent {
    TerminalAcquired,
    TerminalFailed,
    /// The telemetry source is ready; the name is that of device 0.
    TelemetryReady(String),
    TelemetryFailed,
    Sampled(Snapshot),
    SampleFailed,
    Drawn,
    DrawFailed,
    /// The poll ended, with the event that came in time, if one did.
    Polled(Option<Event>),
    PollFailed,
}

impl LoopEvent {
    /// The event reports a poll that a quit key has answered.
    pub open spec fn requests_quit(self) -> bool {
        match self {
            LoopEvent::Polled(polled) => poll_requests_quit(polled),
            _ => false,
        }
    }
}

impl Stage {
    /// The state of the run that the stage belongs to.
    pub open spec fn phase(self) -> Phase {
        match self {
            Stage::AcquiringTerminal | Stage::AcquiringTelemetry => Phase::Initializing,
            Stage::Sampling | Stage::Drawing | Stage::Polling => Phase::Running,
            Stage::Stopped(Outcome::Quit) => Phase::ShuttingDown,
            Stage::Stopped(Outcome::Fatal(_)) => Phase::Fatal,
        }
    }

    /// What the driver is asked to do at the stage.
    pub open spec fn action(self) -> Action {
        match self {
            Stage::AcquiringTerminal => Action::AcquireTerminal,
            Stage::AcquiringTelemetry => Action::AcquireTelemetry,
            Stage::Sampling => Action::Sample,
            Stage::Drawing => Action::Draw,
            Stage::Polling => Action::Poll { timeout_ms: POLL_TIMEOUT_MS },
            Stage::Stopped(outcome) => Action::Stop(outcome),
        }
    }

    /// The stage at the top of an iteration: the loop goes on unless the exit
    /// was requested.
    pub open spec fn top_of_loop(exit_requested: bool) -> Stage {
        if exit_requested {
            Stage::Stopped(Outcome::Quit)
        } else {
            Stage::Sampling
        }
    }

    /// What the driver is asked to do at the stage.
    pub fn pending_action(self) -> (action: Action)
        ensures
            action == self.action(),
    {
        match self {
            Stage::AcquiringTerminal => Action::AcquireTerminal,
            Stage::AcquiringTelemetry => Action::AcquireTelemetry,
            Stage::Sampling => Action::Sample,
            Stage::Drawing => Action::Draw,
            Stage::Polling => Action::Poll { timeout_ms: POLL_TIMEOUT_MS },
            Stage::Stopped(outcome) => Action::Stop(outcome),
        }
    }
}

} // verus!
