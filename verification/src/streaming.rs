//! The streaming stage: a single-client HTTP server alternating between two
//! states. Idle polls for a connection with a short bounded sleep, so the
//! stage stays responsive to cancellation even with no client; Active serves
//! one multipart section per duplicated frame until the client disappears,
//! the channel closes, or cancellation is observed.
//!
//! The stage is the sole writer of the streaming-active flag that the capture
//! stage reads; the flag is true exactly while a client connection is open
//! and alive, which here is the `Active` phase.

use vstd::prelude::*;

use crate::frame::Frame;

verus! {

/// How long the idle loop sleeps when no connection is pending, bounding how
/// late a cancellation can be noticed while idle.
pub const POLL_INTERVAL_MS: u64 = 100;

#[derive(PartialEq, Eq, Structural, Clone, Copy)]
pub enum StreamPhase {
    /// No client: poll the listener without blocking.
    Idle,
    /// One client connected: serve it frames. A second client waits until
    /// this one disconnects; this server never fans out.
    Active,
}

/// The streaming stage's state: its phase and the shared streaming-active
/// flag it owns. No other stage ever writes the flag.
pub struct Streamer {
    pub phase: StreamPhase,
    pub client_active: bool,
}

/// What one non-blocking accept attempt produced.
pub enum AcceptOutcome {
    /// A client connected.
    Connected,
    /// No pending connection: the poll would block.
    NoPending,
    /// The listener itself failed: the stage cannot go on.
    Failed,
}

/// The idle loop's decision for one poll.
pub enum IdleAction {
    /// Write the fixed HTTP response header to the new client and start
    /// serving frames.
    SendHeader,
    /// Sleep this many milliseconds, then poll again.
    Sleep(u64),
    /// Shut the stage down.
    Stop,
}

/// The active loop's decision for one receive from the streaming channel.
pub enum ActiveAction {
    /// Encode this frame and write it to the client as one multipart section.
    SendPart(Frame),
    /// The channel closed (the producer exited): drop the client and idle.
    BackToIdle,
    /// Cancellation observed: the whole stage terminates, not just the
    /// connection.
    Stop,
}

/// The streamer after learning whether a write to the client worked: a failed
/// write or flush (the client disconnected) drops straight back to idle with
/// the flag cleared; nothing more is ever written to a dead connection.
pub open spec fn after_write(s: Streamer, ok: bool) -> Streamer {
    if ok {
        s
    } else {
        Streamer { phase: StreamPhase::Idle, client_active: false }
    }
}

impl Streamer {
    /// The flag is true exactly while a client is being served.
    pub open spec fn wf(&self) -> bool {
        self.client_active <==> self.phase is Active
    }

    pub fn new() -> (s: Streamer)
        ensures
            s.wf(),
            s.phase is Idle,
            !s.client_active,
    {
        Streamer { phase: StreamPhase::Idle, client_active: false }
    }

    /// One iteration of the idle loop. Cancellation stops the stage; a new
    /// client moves to Active with the flag set and the response header owed;
    /// no pending connection costs exactly one bounded poll interval.
    pub fn idle_step(&mut self, cancelled: bool, accept: AcceptOutcome) -> (a: IdleAction)
        requires
            old(self).wf(),
            old(self).phase is Idle,
        ensures
            final(self).wf(),
            cancelled ==> a is Stop && *final(self) == *old(self),
            !cancelled && accept is Connected ==> a is SendHeader && final(self).phase is Active
                && final(self).client_active,
            !cancelled && accept is NoPending ==> (a matches IdleAction::Sleep(ms) && ms
                == POLL_INTERVAL_MS && *final(self) == *old(self)),
            !cancelled && accept is Failed ==> a is Stop && *final(self) == *old(self),
    {
        if cancelled {
            IdleAction::Stop
        } else {
            match accept {
                AcceptOutcome::Connected => {
                    self.phase = StreamPhase::Active;
                    self.client_active = true;
                    IdleAction::SendHeader
                },
                AcceptOutcome::NoPending => IdleAction::Sleep(POLL_INTERVAL_MS),
                AcceptOutcome::Failed => IdleAction::Stop,
            }
        }
    }

    /// One iteration of the active loop: cancellation terminates the whole
    /// stage at once; a closed channel drops the client and returns to idle;
    /// a received frame is served unchanged.
    pub fn active_step(&mut self, cancelled: bool, received: Option<Frame>) -> (a: ActiveAction)
        requires
            old(self).wf(),
            old(self).phase is Active,
        ensures
            final(self).wf(),
            cancelled ==> a is Stop && final(self).phase is Idle && !final(self).client_active,
            !cancelled && received is None ==> a is BackToIdle && final(self).phase is Idle
                && !final(self).client_active,
            !cancelled ==> (received matches Some(f) ==> (a matches ActiveAction::SendPart(g) && g
                == f && *final(self) == *old(self))),
    {
        if cancelled {
            self.phase = StreamPhase::Idle;
            self.client_active = false;
            ActiveAction::Stop
        } else {
            match received {
                None => {
                    self.phase = StreamPhase::Idle;
                    self.client_active = false;
                    ActiveAction::BackToIdle
                },
                Some(f) => ActiveAction::SendPart(f),
            }
        }
    }

    /// Record the outcome of one write or flush to the client.
    pub fn on_write_result(&mut self, ok: bool)
        requires
            old(self).wf(),
            old(self).phase is Active,
        ensures
            final(self).wf(),
            *final(self) == after_write(*old(self), ok),
    {
        if !ok {
            self.phase = StreamPhase::Idle;
            self.client_active = false;
        }
    }
}

/// A client that closes its connection mid-stream clears the streaming-active
/// flag at once. The capture stage duplicates a frame for streaming exactly
/// when it reads the flag as true, so no frame read after the failed write is
/// duplicated for the dead client.
pub proof fn lemma_disconnect_stops_duplication(s: Streamer)
    requires
        s.wf(),
        s.phase is Active,
    ensures
        !after_write(s, false).client_active,
        after_write(s, false).wf(),
{
}

} // verus!
