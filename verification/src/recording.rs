//! The recording stage: purely reactive, it appends every frame that
//! detection forwarded to the output container and never stops on a bad
//! frame. It terminates only when its channel closes, so it needs no
//! independent cancellation check.

use vstd::prelude::*;

use crate::frame::Frame;

verus! {

/// What the encoding capability said of one append attempt.
pub enum WriteOutcome {
    Written,
    WriteError,
}

/// The recording loop's decision for one receive.
pub enum RecordingAction {
    /// Hand this frame to the encoding capability.
    Append(Frame),
    /// The channel closed: the producer exited, the stage is done.
    Stop,
}

/// One iteration of the recording loop: a received frame is always appended;
/// only channel closure (`None`) ends the stage.
pub fn recording_step(received: Option<Frame>) -> (a: RecordingAction)
    ensures
        received matches Some(f) ==> (a matches RecordingAction::Append(g) && g == f),
        received is None ==> a is Stop,
{
    match received {
        Some(f) => RecordingAction::Append(f),
        None => RecordingAction::Stop,
    }
}

/// After an append attempt: a write failure is worth a warning but never ends
/// the loop — one bad frame must not abort the whole recording.
pub fn recording_after_write(outcome: WriteOutcome) -> (warn: bool)
    ensures
        warn <==> outcome is WriteError,
{
    match outcome {
        WriteOutcome::Written => false,
        WriteOutcome::WriteError => true,
    }
}

} // verus!
