//! The detection stage: run the motion-analysis capability over each received
//! frame, forward frames with motion to recording, and emit a motion event to
//! alerting, with a rate limit on the warning printed when the alerting
//! channel refuses the event.

use vstd::prelude::*;

use crate::frame::Frame;

verus! {

/// What the motion-analysis capability said of one frame. `Terminal` means the
/// input source is exhausted: no further frames will be usable and the stage
/// must stop, not retry.
pub enum AnalysisOutcome {
    NoMotion,
    Motion(Frame),
    Terminal,
}

/// The detection loop's decision for one frame.
pub enum DetectionAction {
    /// Shut the stage down (cancellation observed, or analysis reported that
    /// the input is exhausted).
    Stop,
    /// No motion: the frame is dropped and nothing is forwarded.
    Discard,
    /// Motion: send this frame to the recording channel and a motion event to
    /// the alerting channel.
    Forward(Frame),
}

/// One iteration of the detection loop. Cancellation is checked first, even
/// with frames still pending.
pub fn detection_step(cancelled: bool, outcome: AnalysisOutcome) -> (a: DetectionAction)
    ensures
        cancelled ==> a is Stop,
        !cancelled && outcome is NoMotion ==> a is Discard,
        !cancelled && outcome is Terminal ==> a is Stop,
        !cancelled ==> (outcome matches AnalysisOutcome::Motion(f) ==> (
        a matches DetectionAction::Forward(g) && g == f)),
{
    if cancelled {
        DetectionAction::Stop
    } else {
        match outcome {
            AnalysisOutcome::NoMotion => DetectionAction::Discard,
            AnalysisOutcome::Motion(f) => DetectionAction::Forward(f),
            AnalysisOutcome::Terminal => DetectionAction::Stop,
        }
    }
}

/// The frames a run of the detection loop forwards to recording, given the
/// analysis outcomes in arrival order: every `Motion` frame before the first
/// `Terminal`, kept in their relative order.
pub open spec fn forwarded_of(outcomes: Seq<AnalysisOutcome>) -> Seq<Frame>
    decreases outcomes.len(),
{
    if outcomes.len() == 0 {
        Seq::empty()
    } else {
        match outcomes[0] {
            AnalysisOutcome::Terminal => Seq::empty(),
            AnalysisOutcome::Motion(f) => seq![f] + forwarded_of(outcomes.drop_first()),
            AnalysisOutcome::NoMotion => forwarded_of(outcomes.drop_first()),
        }
    }
}

/// How many `Motion` results the analysis capability returned before the first
/// `Terminal`.
pub open spec fn motion_count(outcomes: Seq<AnalysisOutcome>) -> nat
    decreases outcomes.len(),
{
    if outcomes.len() == 0 {
        0
    } else {
        match outcomes[0] {
            AnalysisOutcome::Terminal => 0,
            AnalysisOutcome::Motion(f) => 1 + motion_count(outcomes.drop_first()),
            AnalysisOutcome::NoMotion => motion_count(outcomes.drop_first()),
        }
    }
}

/// For every sequence of frames fed to detection, the number of frames
/// forwarded to recording equals the number of `Motion` results returned by
/// the analysis capability; `forwarded_of` lists them in the order received.
pub proof fn lemma_forwarded_count(outcomes: Seq<AnalysisOutcome>)
    ensures
        forwarded_of(outcomes).len() == motion_count(outcomes),
    decreases outcomes.len(),
{
    if outcomes.len() > 0 {
        lemma_forwarded_count(outcomes.drop_first());
    }
}

/// Run the detection decision over a whole batch of analysis outcomes, in
/// arrival order, stopping at the first `Terminal`: the forwarded frames are
/// exactly `forwarded_of` the batch.
pub fn process_batch(outcomes: Vec<AnalysisOutcome>) -> (forwarded: Vec<Frame>)
    ensures
        forwarded@ == forwarded_of(outcomes@),
{
    let ghost orig = outcomes@;
    let mut remaining = outcomes;
    let mut forwarded: Vec<Frame> = Vec::new();
    proof {
        assert(forwarded@ + forwarded_of(remaining@) =~= forwarded_of(remaining@));
    }
    loop
        invariant_except_break
            forwarded_of(orig) == forwarded@ + forwarded_of(remaining@),
        ensures
            forwarded@ == forwarded_of(orig),
        decreases remaining@.len(),
    {
        if remaining.len() == 0 {
            proof {
                assert(forwarded@ + forwarded_of(remaining@) =~= forwarded@);
            }
            break ;
        }
        let ghost before = remaining@;
        let ghost fwd_before = forwarded@;
        let outcome = remaining.remove(0);
        match detection_step(false, outcome) {
            DetectionAction::Stop => {
                proof {
                    assert(forwarded_of(before) =~= Seq::<Frame>::empty());
                    assert(fwd_before + forwarded_of(before) =~= fwd_before);
                }
                break ;
            },
            DetectionAction::Discard => {
                proof {
                    assert(forwarded_of(before) == forwarded_of(before.drop_first()));
                }
            },
            DetectionAction::Forward(f) => {
                forwarded.push(f);
                proof {
                    assert(forwarded_of(before) == seq![f] + forwarded_of(before.drop_first()));
                    assert(fwd_before + (seq![f] + forwarded_of(before.drop_first())) =~= forwarded@
                        + forwarded_of(before.drop_first()));
                }
            },
        }
    }
    forwarded
}

/// The fixed window within which a repeated "unable to send signal to
/// messenger thread" warning is suppressed, to avoid flooding the log when the
/// alert consumer is stalled.
pub const SEND_WARN_WINDOW_MS: u64 = 10000;

/// A warning is due when more than the suppression window has passed since the
/// last one.
pub open spec fn warn_due(last_warned_ms: u64, now_ms: u64) -> bool {
    now_ms as int > last_warned_ms as int + SEND_WARN_WINDOW_MS as int
}

/// Rate limiter for the warning the detection stage prints when it cannot
/// hand a motion event to the alerting channel.
pub struct WarnLimiter {
    /// When the warning was last printed, in milliseconds.
    pub last_warned_ms: u64,
}

impl WarnLimiter {
    pub fn new() -> (w: WarnLimiter)
        ensures
            w.last_warned_ms == 0,
    {
        WarnLimiter { last_warned_ms: 0 }
    }

    /// Called when a motion event could not be sent: decides whether to print
    /// the warning now. At most one warning leaves per suppression window.
    pub fn note_send_failure(&mut self, now_ms: u64) -> (warn: bool)
        ensures
            warn == warn_due(old(self).last_warned_ms, now_ms),
            warn ==> final(self).last_warned_ms == now_ms,
            !warn ==> final(self).last_warned_ms == old(self).last_warned_ms,
    {
        if now_ms >= self.last_warned_ms && now_ms - self.last_warned_ms > SEND_WARN_WINDOW_MS {
            self.last_warned_ms = now_ms;
            true
        } else {
            false
        }
    }
}

} // verus!
