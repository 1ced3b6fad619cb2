//! The pipeline's wiring: the four bounded channels the orchestrator
//! constructs before spawning the five stages. Their fixed capacity is the
//! system's only throttle — when a consumer stalls, the channels between it
//! and the capture stage fill up, the producers' sends stop being enabled,
//! and total buffered memory stays bounded instead of growing with input.

use vstd::prelude::*;

use crate::channel::BoundedChannel;
use crate::frame::Frame;

verus! {

/// Fixed capacity of every stage-connecting channel (the reference sizing).
pub const CHANNEL_CAPACITY: usize = 100;

/// The four channels connecting the stages: capture feeds detection always
/// and streaming conditionally; detection feeds recording with frames and
/// alerting with unit motion events.
pub struct PipelineChannels {
    pub capture_to_detection: BoundedChannel<Frame>,
    pub detection_to_recording: BoundedChannel<Frame>,
    pub detection_to_alerting: BoundedChannel<bool>,
    pub capture_to_streaming: BoundedChannel<Frame>,
}

impl PipelineChannels {
    /// Every channel respects its bound and was built with the fixed
    /// capacity.
    pub open spec fn wf(&self) -> bool {
        &&& self.capture_to_detection.wf()
        &&& self.detection_to_recording.wf()
        &&& self.detection_to_alerting.wf()
        &&& self.capture_to_streaming.wf()
        &&& self.capture_to_detection.cap() == CHANNEL_CAPACITY as nat
        &&& self.detection_to_recording.cap() == CHANNEL_CAPACITY as nat
        &&& self.detection_to_alerting.cap() == CHANNEL_CAPACITY as nat
        &&& self.capture_to_streaming.cap() == CHANNEL_CAPACITY as nat
    }

    /// How many values sit queued across the whole pipeline.
    pub open spec fn total_buffered(&self) -> nat {
        self.capture_to_detection.contents().len() + self.detection_to_recording.contents().len()
            + self.detection_to_alerting.contents().len()
            + self.capture_to_streaming.contents().len()
    }

    /// What the orchestrator builds before spawning the stages: four empty,
    /// open channels of the fixed capacity.
    pub fn new() -> (p: PipelineChannels)
        ensures
            p.wf(),
            p.total_buffered() == 0,
            !p.capture_to_detection.is_closed(),
            !p.detection_to_recording.is_closed(),
            !p.detection_to_alerting.is_closed(),
            !p.capture_to_streaming.is_closed(),
    {
        PipelineChannels {
            capture_to_detection: BoundedChannel::new(CHANNEL_CAPACITY),
            detection_to_recording: BoundedChannel::new(CHANNEL_CAPACITY),
            detection_to_alerting: BoundedChannel::new(CHANNEL_CAPACITY),
            capture_to_streaming: BoundedChannel::new(CHANNEL_CAPACITY),
        }
    }
}

/// However long the pipeline runs, the channels never hold more than four
/// capacities' worth of values: a stalled consumer bounds memory, it does not
/// grow it.
pub proof fn lemma_bounded_memory(p: &PipelineChannels)
    requires
        p.wf(),
    ensures
        p.total_buffered() <= 4 * CHANNEL_CAPACITY,
{
}

/// Backpressure from a stalled recording stage: once detection's forward
/// channel is at capacity, detection's send is no longer enabled, so
/// detection stops draining its own input; once that channel fills too,
/// capture's send to detection is no longer enabled and capture blocks
/// instead of allocating further.
pub proof fn lemma_backpressure(p: &PipelineChannels)
    requires
        p.wf(),
        p.detection_to_recording.contents().len() == p.detection_to_recording.cap(),
        p.capture_to_detection.contents().len() == p.capture_to_detection.cap(),
    ensures
        !p.detection_to_recording.send_enabled(),
        !p.capture_to_detection.send_enabled(),
{
}

} // verus!
