use vstd::prelude::*;
use crate::tables::payload_of;
use crate::types::{Endpoint, HANDSHAKE_RETRIES, HANDSHAKE_TIMEOUT_SECS, SYN_ACK_WINDOW, seq_next, seq_successor};

verus! {

/// Where a handshake attempt stands in its SYN-ACK schedule.
#[derive(Clone, Copy, Debug, PartialEq, Eq, Structural)]
pub enum RetryPhase {
    /// Waiting for the remote address to resolve.
    Resolving,
    /// A SYN-ACK went out; waiting for its timer.
    Waiting,
    /// Every round has passed; the timeout has been reported.
    Finished,
}

/// What the surrounding runtime reports to an attempt.
#[derive(Clone, Copy, Debug)]
pub enum RetryEvent {
    /// The task was just spawned, or asks what to do next.
    Started,
    /// Address resolution gave the remote's link address.
    Resolved { link_addr: [u8; 6] },
    /// Address resolution failed.
    ResolveFailed,
    /// The timer after a SYN-ACK ran out.
    TimerExpired,
}

/// A SYN-ACK ready for transmission.
#[derive(Debug)]
pub struct SynAckSegment {
    pub dst_link: [u8; 6],
    pub src_link: [u8; 6],
    pub src_addr: u32,
    pub dst_addr: u32,
    pub src_port: u16,
    pub dst_port: u16,
    pub seq_num: u32,
    pub ack_num: u32,
    pub syn: bool,
    pub ack: bool,
    pub window_size: u16,
    pub data: bytes::Bytes,
}

/// What the runtime is to do next for an attempt.
#[derive(Debug)]
pub enum RetryAction {
    /// Resolve this network address, then report the result.
    Resolve { addr: u32 },
    /// Transmit the segment, wait this long, then report `TimerExpired`.
    TransmitThenWait { segment: SynAckSegment, timeout_secs: u64 },
    /// The attempt gave up; its timeout is in the ready queue. Stop.
    GiveUp,
    /// Nothing to do for this event.
    Idle,
    /// The attempt no longer exists (its handshake completed). Stop.
    Cancelled,
}

/// The SYN-ACK schedule of one half-open handshake.
#[derive(Clone, Copy, Debug, PartialEq, Eq, Structural)]
pub struct HandshakeRetry {
    pub local_isn: u32,
    pub remote_isn: u32,
    pub local: Endpoint,
    pub remote: Endpoint,
    /// Rounds completed so far.
    pub rounds: usize,
    pub phase: RetryPhase,
}

/// `seg` is the SYN-ACK that attempt `s` sends once the remote resolved to `link`.
pub open spec fn is_syn_ack_for(seg: SynAckSegment, s: HandshakeRetry, link: [u8; 6], local_link: [u8; 6]) -> bool {
    &&& seg.dst_link == link
    &&& seg.src_link == local_link
    &&& seg.src_addr == s.local.addr
    &&& seg.dst_addr == s.remote.addr
    &&& seg.src_port == s.local.port
    &&& seg.dst_port == s.remote.port
    &&& seg.seq_num == s.local_isn
    &&& seg.ack_num == seq_next(s.remote_isn)
    &&& seg.syn
    &&& seg.ack
    &&& seg.window_size == SYN_ACK_WINDOW
    &&& payload_of(seg.data).len() == 0
}

impl HandshakeRetry {
    pub open spec fn wf(&self) -> bool {
        &&& self.rounds <= HANDSHAKE_RETRIES
        &&& (self.phase == RetryPhase::Finished <==> self.rounds == HANDSHAKE_RETRIES)
    }

    /// The attempt after one more round has been used up.
    pub open spec fn after_round(self) -> HandshakeRetry {
        HandshakeRetry {
            rounds: (self.rounds + 1) as usize,
            phase: if self.rounds + 1 < HANDSHAKE_RETRIES {
                RetryPhase::Resolving
            } else {
                RetryPhase::Finished
            },
            ..self
        }
    }

    /// Whether `e` ends the current round in state `self`.
    pub open spec fn ends_round(self, e: RetryEvent) -> bool {
        ||| (self.phase == RetryPhase::Resolving && e is ResolveFailed)
        ||| (self.phase == RetryPhase::Waiting && e is TimerExpired)
    }

    pub fn new(local_isn: u32, remote_isn: u32, local: Endpoint, remote: Endpoint) -> (r: HandshakeRetry)
        ensures
            r == (HandshakeRetry { local_isn, remote_isn, local, remote, rounds: 0, phase: RetryPhase::Resolving }),
            r.wf(),
    {
        HandshakeRetry { local_isn, remote_isn, local, remote, rounds: 0, phase: RetryPhase::Resolving }
    }

    /// The state after event `e`.
    pub open spec fn next(self, e: RetryEvent) -> HandshakeRetry {
        if self.ends_round(e) {
            self.after_round()
        } else if self.phase == RetryPhase::Resolving && e is Resolved {
            HandshakeRetry { phase: RetryPhase::Waiting, ..self }
        } else {
            self
        }
    }

    /// Event `e` uses up the last round: the attempt gives up.
    pub open spec fn gives_up(self, e: RetryEvent) -> bool {
        self.ends_round(e) && self.after_round().phase == RetryPhase::Finished
    }

    /// `r` is what the runtime is told to do after event `e` in state `self`.
    pub open spec fn action_is(self, e: RetryEvent, local_link: [u8; 6], r: RetryAction) -> bool {
        if self.gives_up(e) {
            r is GiveUp
        } else if self.ends_round(e) || (self.phase == RetryPhase::Resolving && e is Started) {
            r == RetryAction::Resolve { addr: self.remote.addr }
        } else if self.phase == RetryPhase::Resolving && e is Resolved {
            &&& r matches RetryAction::TransmitThenWait { segment, timeout_secs }
            &&& timeout_secs == HANDSHAKE_TIMEOUT_SECS
            &&& is_syn_ack_for(segment, self, e->link_addr, local_link)
        } else {
            r is Idle
        }
    }

    /// Advances the schedule by one event and says what the runtime does next.
    pub fn step(&mut self, event: RetryEvent, local_link: [u8; 6]) -> (r: RetryAction)
        requires
            old(self).wf(),
        ensures
            final(self).wf(),
            *final(self) == old(self).next(event),
            old(self).action_is(event, local_link, r),
    {
        match (self.phase, event) {
            (RetryPhase::Resolving, RetryEvent::Started) => RetryAction::Resolve { addr: self.remote.addr },
            (RetryPhase::Resolving, RetryEvent::Resolved { link_addr }) => {
                self.phase = RetryPhase::Waiting;
                let segment = SynAckSegment {
                    dst_link: link_addr,
                    src_link: local_link,
                    src_addr: self.local.addr,
                    dst_addr: self.remote.addr,
                    src_port: self.local.port,
                    dst_port: self.remote.port,
                    seq_num: self.local_isn,
                    ack_num: seq_successor(self.remote_isn),
                    syn: true,
                    ack: true,
                    window_size: SYN_ACK_WINDOW,
                    data: bytes::Bytes::new(),
                };
                RetryAction::TransmitThenWait { segment, timeout_secs: HANDSHAKE_TIMEOUT_SECS }
            },
            (RetryPhase::Resolving, RetryEvent::ResolveFailed)
            | (RetryPhase::Waiting, RetryEvent::TimerExpired) => {
                self.rounds = self.rounds + 1;
                if self.rounds < HANDSHAKE_RETRIES {
                    self.phase = RetryPhase::Resolving;
                    RetryAction::Resolve { addr: self.remote.addr }
                } else {
                    self.phase = RetryPhase::Finished;
                    RetryAction::GiveUp
                }
            },
            _ => RetryAction::Idle,
        }
    }
}

} // verus!
