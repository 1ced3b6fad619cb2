//! The alerting stage: consume motion events and notify at most once per
//! cooldown window. The "last sent" timestamp advances whenever a
//! notification is attempted, whatever the send outcome, so one failing alert
//! does not cause a burst of retries on the next events.

use vstd::prelude::*;
use vstd::string::StringExecFns;

verus! {

/// Minimum time between two consecutive outbound notifications.
pub const ALERT_COOLDOWN_MS: u64 = 5000;

/// The cooldown has elapsed when more than `ALERT_COOLDOWN_MS` has passed
/// since the last attempted notification.
pub open spec fn cooldown_elapsed(last_sent_ms: u64, now_ms: u64) -> bool {
    now_ms as int > last_sent_ms as int + ALERT_COOLDOWN_MS as int
}

/// The alerting loop's decision for one motion event.
#[derive(PartialEq, Eq, Structural)]
pub enum AlertAction {
    /// Cancellation observed: the stage stops.
    Stop,
    /// Within the cooldown window: the event is dropped silently.
    Suppress,
    /// Build a payload and attempt to send it.
    Notify,
}

/// The single "last notification attempted" timestamp the stage owns. Not
/// shared with any other stage.
pub struct AlertGate {
    /// When a notification was last attempted, in milliseconds.
    pub last_sent_ms: u64,
}

impl AlertGate {
    pub fn new() -> (g: AlertGate)
        ensures
            g.last_sent_ms == 0,
    {
        AlertGate { last_sent_ms: 0 }
    }

    /// One motion event: notify exactly when the cooldown has elapsed, and
    /// advance the timestamp on every attempt, successful or not.
    pub fn on_event(&mut self, cancelled: bool, now_ms: u64) -> (a: AlertAction)
        ensures
            cancelled ==> a == AlertAction::Stop && *final(self) == *old(self),
            !cancelled && cooldown_elapsed(old(self).last_sent_ms, now_ms) ==> a
                == AlertAction::Notify && final(self).last_sent_ms == now_ms,
            !cancelled && !cooldown_elapsed(old(self).last_sent_ms, now_ms) ==> a
                == AlertAction::Suppress && *final(self) == *old(self),
    {
        if cancelled {
            AlertAction::Stop
        } else if now_ms >= self.last_sent_ms && now_ms - self.last_sent_ms > ALERT_COOLDOWN_MS {
            self.last_sent_ms = now_ms;
            AlertAction::Notify
        } else {
            AlertAction::Suppress
        }
    }

    /// Feed a whole sequence of motion-event times through this state, in
    /// order: exactly `notify_count` notifications go out.
    pub fn run_events(&mut self, times: &Vec<u64>) -> (n: usize)
        ensures
            n as nat == notify_count(old(self).last_sent_ms, times@),
            final(self).last_sent_ms == last_sent_after(old(self).last_sent_ms, times@),
    {
        let ghost last0 = self.last_sent_ms;
        let mut n: usize = 0;
        let mut i: usize = 0;
        proof {
            assert(times@.skip(0) =~= times@);
        }
        while i < times.len()
            invariant
                i <= times@.len(),
                n <= i,
                notify_count(last0, times@) == n + notify_count(
                    self.last_sent_ms,
                    times@.skip(i as int),
                ),
                last_sent_after(last0, times@) == last_sent_after(
                    self.last_sent_ms,
                    times@.skip(i as int),
                ),
            decreases times@.len() - i,
        {
            let ghost rest = times@.skip(i as int);
            proof {
                assert(rest[0] == times@[i as int]);
                assert(rest.drop_first() =~= times@.skip(i as int + 1));
            }
            let a = self.on_event(false, times[i]);
            if a == AlertAction::Notify {
                n = n + 1;
            }
            i = i + 1;
        }
        proof {
            assert(times@.skip(times@.len() as int) =~= Seq::<u64>::empty());
        }
        n
    }
}

/// How many notifications leave when the given motion-event times are fed, in
/// order, through a dispatcher that last notified at `last_sent_ms`.
pub open spec fn notify_count(last_sent_ms: u64, times: Seq<u64>) -> nat
    decreases times.len(),
{
    if times.len() == 0 {
        0
    } else if cooldown_elapsed(last_sent_ms, times[0]) {
        1 + notify_count(times[0], times.drop_first())
    } else {
        notify_count(last_sent_ms, times.drop_first())
    }
}

/// The dispatcher's timestamp after those same events.
pub open spec fn last_sent_after(last_sent_ms: u64, times: Seq<u64>) -> u64
    decreases times.len(),
{
    if times.len() == 0 {
        last_sent_ms
    } else if cooldown_elapsed(last_sent_ms, times[0]) {
        last_sent_after(times[0], times.drop_first())
    } else {
        last_sent_after(last_sent_ms, times.drop_first())
    }
}

/// Feeding two runs of events one after the other is the same as feeding
/// their concatenation.
pub proof fn lemma_notify_count_concat(last_sent_ms: u64, first: Seq<u64>, second: Seq<u64>)
    ensures
        notify_count(last_sent_ms, first + second) == notify_count(last_sent_ms, first)
            + notify_count(last_sent_after(last_sent_ms, first), second),
        last_sent_after(last_sent_ms, first + second) == last_sent_after(
            last_sent_after(last_sent_ms, first),
            second,
        ),
    decreases first.len(),
{
    if first.len() == 0 {
        assert(first + second =~= second);
    } else {
        assert((first + second)[0] == first[0]);
        assert((first + second).drop_first() =~= first.drop_first() + second);
        if cooldown_elapsed(last_sent_ms, first[0]) {
            lemma_notify_count_concat(first[0], first.drop_first(), second);
        } else {
            lemma_notify_count_concat(last_sent_ms, first.drop_first(), second);
        }
    }
}

/// Events that all fall within the cooldown window yield no notification
/// and keep the timestamp unchanged.
pub proof fn lemma_cooldown_suppresses_all(last_sent_ms: u64, times: Seq<u64>)
    requires
        forall|i: int| 0 <= i < times.len() ==> !cooldown_elapsed(last_sent_ms, #[trigger] times[i]),
    ensures
        notify_count(last_sent_ms, times) == 0,
        last_sent_after(last_sent_ms, times) == last_sent_ms,
    decreases times.len(),
{
    if times.len() > 0 {
        assert(forall|i: int|
            0 <= i < times.drop_first().len() ==> times.drop_first()[i] == times[i + 1]);
        lemma_cooldown_suppresses_all(last_sent_ms, times.drop_first());
    }
}

/// A burst of events within a window shorter than the cooldown sends exactly
/// one notification: the first event notifies, every later event of the burst
/// is suppressed.
pub proof fn lemma_burst_notifies_once(last_sent_ms: u64, times: Seq<u64>)
    requires
        times.len() > 0,
        cooldown_elapsed(last_sent_ms, times[0]),
        forall|i: int| 0 <= i < times.len() ==> #[trigger] times[i] <= times[0] + ALERT_COOLDOWN_MS,
    ensures
        notify_count(last_sent_ms, times) == 1,
        last_sent_after(last_sent_ms, times) == times[0],
{
    assert(forall|i: int|
        0 <= i < times.drop_first().len() ==> times.drop_first()[i] == times[i + 1]);
    lemma_cooldown_suppresses_all(times[0], times.drop_first());
}

/// After such a burst, one more event arriving once the cooldown has elapsed
/// (measured from the burst's single notification) notifies exactly once
/// more.
pub proof fn lemma_event_after_cooldown_notifies_again(
    last_sent_ms: u64,
    times: Seq<u64>,
    next: u64,
)
    requires
        times.len() > 0,
        cooldown_elapsed(last_sent_ms, times[0]),
        forall|i: int| 0 <= i < times.len() ==> #[trigger] times[i] <= times[0] + ALERT_COOLDOWN_MS,
        cooldown_elapsed(times[0], next),
    ensures
        notify_count(last_sent_ms, times.push(next)) == 2,
{
    lemma_burst_notifies_once(last_sent_ms, times);
    assert(times.push(next) =~= times + seq![next]);
    lemma_notify_count_concat(last_sent_ms, times, seq![next]);
    assert(seq![next].drop_first() =~= Seq::<u64>::empty());
    assert(notify_count(times[0], seq![next]) == 1 + notify_count(next, Seq::<u64>::empty()));
}

/// The fixed text appended to the timestamp in a motion notification.
pub open spec fn motion_suffix() -> Seq<char> {
    " Motion Detected"@
}

/// The notification text for a motion event observed at the given formatted
/// time: the timestamp followed by the fixed motion suffix.
pub fn motion_alert_text(timestamp: &str) -> (r: String)
    ensures
        r@ == timestamp@ + motion_suffix(),
{
    let mut r = timestamp.to_owned();
    r.append(" Motion Detected");
    r
}

/// Relies on chrono's `Local::now` and its formatter: the wall-clock time in
/// the machine's time zone, rendered as `%Y-%m-%d_%H-%M-%S`. The result
/// depends on the clock and the time zone, so nothing is promised of its
/// content; only its length is, since the fixed format renders a zero-padded
/// four-digit year, five two-digit fields and six separators whatever the
/// clock says.
#[verifier::external_body]
fn local_timestamp_text() -> (r: String)
    ensures
        r@.len() >= 19,
{
    chrono::Local::now().format("%Y-%m-%d_%H-%M-%S").to_string()
}

/// The full text of a motion notification stamped with the wall-clock time
/// now: whatever the clock said, the text is a timestamp of at least nineteen
/// characters followed by the fixed motion suffix.
pub fn build_motion_message() -> (r: String)
    ensures
        r@.len() >= motion_suffix().len() + 19,
        r@.skip(r@.len() - motion_suffix().len()) == motion_suffix(),
{
    let ts = local_timestamp_text();
    let r = motion_alert_text(ts.as_str());
    proof {
        assert(r@.skip(r@.len() - motion_suffix().len()) =~= motion_suffix());
    }
    r
}

} // verus!
