//! The capture stage: acquire frames in a loop, forward each to detection,
//! and, only while someone is watching the stream, hand an independent copy
//! to the streaming stage.

use vstd::prelude::*;

use crate::frame::Frame;

verus! {

/// What one acquisition attempt produced. Transient errors (a dropped camera
/// frame) are expected and must not stop the pipeline.
pub enum GrabOutcome {
    Grabbed(Frame),
    TransientError,
}

/// The capture loop's decision for one iteration.
pub enum CaptureAction {
    /// Shut the stage down (cancellation observed).
    Stop,
    /// Log a warning and try to acquire again immediately.
    Retry,
    /// Send `frame` to the detection channel; if `duplicate` is present, also
    /// send it to the streaming channel.
    Forward { frame: Frame, duplicate: Option<Frame> },
}

/// One iteration of the capture loop.
///
/// The duplicate for streaming exists exactly when the streaming-active flag
/// is set, and it is an independent copy of the forwarded frame: detection and
/// streaming never share a buffer.
pub fn capture_step(cancelled: bool, grab: GrabOutcome, streaming_active: bool) -> (a:
    CaptureAction)
    ensures
        cancelled ==> a is Stop,
        !cancelled && grab is TransientError ==> a is Retry,
        !cancelled ==> (grab matches GrabOutcome::Grabbed(f) ==> (a matches CaptureAction::Forward {
            frame,
            duplicate,
        } && frame == f && (duplicate is Some <==> streaming_active) && (
        duplicate matches Some(d) ==> d.data@ == f.data@ && d.timestamp_ms == f.timestamp_ms))),
{
    if cancelled {
        CaptureAction::Stop
    } else {
        match grab {
            GrabOutcome::TransientError => CaptureAction::Retry,
            GrabOutcome::Grabbed(f) => {
                let duplicate = if streaming_active {
                    Some(f.duplicate())
                } else {
                    None
                };
                CaptureAction::Forward { frame: f, duplicate }
            },
        }
    }
}

/// Whether the capture loop goes on after its sends.
///
/// A closed detection channel means downstream has shut down and further work
/// is pointless: the stage stops. A closed streaming channel is never fatal
/// here; streaming is best-effort, so that failure is only logged.
pub fn capture_continue_after_send(detection_closed: bool, streaming_closed: bool) -> (c: bool)
    ensures
        c <==> !detection_closed,
{
    !detection_closed
}

} // verus!
