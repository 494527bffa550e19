//! Transcode coordinator: finalizes a decoded payload on disk.
//!
//! A native (FLAC) payload is persisted directly at the target path; anything
//! else is written to a temporary file, handed to the external transcoder
//! collaborator, and the temporary file is removed afterwards on every exit
//! path, success or failure. The coordinator itself only decides: it is a
//! state machine from phase and event to next phase and action. The driver
//! performs each action (the writes, the process invocation, the removal) and
//! hands the outcome back as the next event, so the decision logic is
//! verified while the I/O stays outside.

use vstd::prelude::*;
use crate::errors::TranscoderError;
use crate::sniff::AudioKind;

verus! {

/// Why a finalization failed.
#[derive(Debug, Clone, PartialEq, Eq)]
pub enum CoordError {
    /// A filesystem write or rename failed.
    Io,
    /// The external transcoder failed.
    Transcoder(TranscoderError),
}

/// The coordinator's phase. The phases that hold a temporary file on disk are
/// exactly `AwaitTranscode` and `AwaitCleanup`.
#[derive(Debug, Clone, PartialEq, Eq)]
pub enum Phase {
    /// Waiting for the classification of the decoded payload.
    Start,
    /// A direct persist of a native payload was requested; awaiting its result.
    AwaitPersist,
    /// A temporary-file write was requested; awaiting its result.
    AwaitTempWrite,
    /// The transcoder was invoked on the temporary file; awaiting its exit.
    AwaitTranscode,
    /// Removing the temporary file; carries the failure to report, if any.
    AwaitCleanup(Option<TranscoderError>),
    /// The payload was finalized at the target path.
    Done,
    /// The request failed; no temporary file remains.
    Failed(CoordError),
}

/// An outside outcome handed back to the coordinator by the driver.
#[derive(Debug, Clone, PartialEq, Eq)]
pub enum Event {
    /// The decoded payload was classified.
    Classified(AudioKind),
    /// The direct persist finished; `true` on success.
    Persisted(bool),
    /// The temporary-file write finished; `true` on success.
    TempWritten(bool),
    /// The transcoder executable could not be located.
    TranscoderMissing,
    /// The transcoder exited, with the given success flag and captured
    /// standard-error text.
    TranscoderExited { success: bool, stderr: String },
    /// The temporary file was removed.
    TempRemoved,
}

/// What the driver must do next.
#[derive(Debug, Clone, Copy, PartialEq, Eq, Structural)]
pub enum Action {
    /// Write the decoded bytes to the final target path.
    Persist,
    /// Write the decoded bytes to the temporary path.
    WriteTemp,
    /// Invoke the external transcoder on the temporary file.
    Invoke,
    /// Remove the temporary file.
    RemoveTemp,
    /// Nothing is left to do.
    Halt,
}

/// The transcode coordinator: its phase, and whether a temporary file it
/// created is currently on disk.
#[derive(Debug, Clone, PartialEq, Eq)]
pub struct Coordinator {
    pub phase: Phase,
    pub temp_on_disk: bool,
}

/// A coordinator is well formed when it accounts for its temporary file: one
/// is on disk exactly in the phases between the temporary write and the
/// cleanup.
pub open spec fn wf(c: Coordinator) -> bool {
    c.temp_on_disk <==> (c.phase is AwaitTranscode || c.phase is AwaitCleanup)
}

/// The coordinator before any event: no temporary file, waiting for the
/// payload's classification.
pub open spec fn spec_init() -> Coordinator {
    Coordinator { phase: Phase::Start, temp_on_disk: false }
}

/// The transition relation: next coordinator and requested action for each
/// phase and event. An event that does not belong to the current phase
/// changes nothing and requests nothing.
pub open spec fn spec_step(c: Coordinator, e: Event) -> (Coordinator, Action) {
    match (c.phase, e) {
        (Phase::Start, Event::Classified(AudioKind::Flac)) => (
            Coordinator { phase: Phase::AwaitPersist, temp_on_disk: c.temp_on_disk },
            Action::Persist,
        ),
        (Phase::Start, Event::Classified(AudioKind::Other)) => (
            Coordinator { phase: Phase::AwaitTempWrite, temp_on_disk: c.temp_on_disk },
            Action::WriteTemp,
        ),
        (Phase::AwaitPersist, Event::Persisted(ok)) => (
            Coordinator {
                phase: if ok { Phase::Done } else { Phase::Failed(CoordError::Io) },
                temp_on_disk: c.temp_on_disk,
            },
            Action::Halt,
        ),
        (Phase::AwaitTempWrite, Event::TempWritten(ok)) => if ok {
            (Coordinator { phase: Phase::AwaitTranscode, temp_on_disk: true }, Action::Invoke)
        } else {
            (
                Coordinator { phase: Phase::Failed(CoordError::Io), temp_on_disk: c.temp_on_disk },
                Action::Halt,
            )
        },
        (Phase::AwaitTranscode, Event::TranscoderMissing) => (
            Coordinator {
                phase: Phase::AwaitCleanup(Some(TranscoderError::NotFound)),
                temp_on_disk: c.temp_on_disk,
            },
            Action::RemoveTemp,
        ),
        (Phase::AwaitTranscode, Event::TranscoderExited { success, stderr }) => (
            Coordinator {
                phase: Phase::AwaitCleanup(
                    if success {
                        None
                    } else {
                        Some(TranscoderError::NonZeroExit(stderr))
                    },
                ),
                temp_on_disk: c.temp_on_disk,
            },
            Action::RemoveTemp,
        ),
        (Phase::AwaitCleanup(failure), Event::TempRemoved) => (
            Coordinator {
                phase: match failure {
                    None => Phase::Done,
                    Some(err) => Phase::Failed(CoordError::Transcoder(err)),
                },
                temp_on_disk: false,
            },
            Action::Halt,
        ),
        (ph, _) => (Coordinator { phase: ph, temp_on_disk: c.temp_on_disk }, Action::Halt),
    }
}

impl Coordinator {
    /// A fresh coordinator for one finalization request.
    pub fn new() -> (c: Coordinator)
        ensures
            c == spec_init(),
            wf(c),
    {
        Coordinator { phase: Phase::Start, temp_on_disk: false }
    }

    /// Feed one event to the coordinator and learn the next action to
    /// perform.
    pub fn step(self, e: Event) -> (r: (Coordinator, Action))
        ensures
            r == spec_step(self, e),
    {
        let Coordinator { phase, temp_on_disk } = self;
        match (phase, e) {
            (Phase::Start, Event::Classified(AudioKind::Flac)) => (
                Coordinator { phase: Phase::AwaitPersist, temp_on_disk },
                Action::Persist,
            ),
            (Phase::Start, Event::Classified(AudioKind::Other)) => (
                Coordinator { phase: Phase::AwaitTempWrite, temp_on_disk },
                Action::WriteTemp,
            ),
            (Phase::AwaitPersist, Event::Persisted(ok)) => (
                Coordinator {
                    phase: if ok {
                        Phase::Done
                    } else {
                        Phase::Failed(CoordError::Io)
                    },
                    temp_on_disk,
                },
                Action::Halt,
            ),
            (Phase::AwaitTempWrite, Event::TempWritten(ok)) => if ok {
                (Coordinator { phase: Phase::AwaitTranscode, temp_on_disk: true }, Action::Invoke)
            } else {
                (Coordinator { phase: Phase::Failed(CoordError::Io), temp_on_disk }, Action::Halt)
            },
            (Phase::AwaitTranscode, Event::TranscoderMissing) => (
                Coordinator {
                    phase: Phase::AwaitCleanup(Some(TranscoderError::NotFound)),
                    temp_on_disk,
                },
                Action::RemoveTemp,
            ),
            (Phase::AwaitTranscode, Event::TranscoderExited { success, stderr }) => (
                Coordinator {
                    phase: Phase::AwaitCleanup(
                        if success {
                            None
                        } else {
                            Some(TranscoderError::NonZeroExit(stderr))
                        },
                    ),
                    temp_on_disk,
                },
                Action::RemoveTemp,
            ),
            (Phase::AwaitCleanup(failure), Event::TempRemoved) => (
                Coordinator {
                    phase: match failure {
                        None => Phase::Done,
                        Some(err) => Phase::Failed(CoordError::Transcoder(err)),
                    },
                    temp_on_disk: false,
                },
                Action::Halt,
            ),
            (ph, _) => (Coordinator { phase: ph, temp_on_disk }, Action::Halt),
        }
    }
}

/// Law: every step preserves well-formedness, and in any terminal phase —
/// `Done` or `Failed`, success or failure — no temporary file remains on
/// disk: every temporary file created mid-pipeline is removed on every exit
/// path.
pub proof fn lemma_no_temp_left(c: Coordinator, e: Event)
    requires
        wf(c),
    ensures
        wf(spec_step(c, e).0),
        spec_step(c, e).0.phase is Done ==> !spec_step(c, e).0.temp_on_disk,
        spec_step(c, e).0.phase is Failed ==> !spec_step(c, e).0.temp_on_disk,
{
}

} // verus!
