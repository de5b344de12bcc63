use vstd::prelude::*;
use crate::isn::{IsnGenerator, isn_of};
use crate::ready::ReadySockets;
use crate::retry::{HandshakeRetry, RetryAction, RetryEvent, RetryPhase};
use crate::tables::InflightTable;
use crate::types::{
    ControlBlock, Endpoint, Fail, Ipv4Header, Malformed, Poll, Receiver, Sender, TcpHeader, seq_next,
    seq_successor,
};
use crate::window::{mss_of, negotiate_options, scale_of, scaled, scaled_window, window_fits};

verus! {

/// One half-open handshake: the SYN was answered, the final ACK has not come.
#[derive(Clone, Copy, Debug, PartialEq, Eq, Structural)]
pub struct InflightAccept {
    pub local_isn: u32,
    pub remote_isn: u32,
    pub window_size: u32,
    pub window_scale: u8,
    pub mss: usize,
    /// Identifies the retry task that drives `retry`.
    pub task: u64,
    pub retry: HandshakeRetry,
}

/// What the listener takes from its runtime's configuration.
#[derive(Clone, Copy, Debug)]
pub struct LocalConfig {
    pub link_addr: [u8; 6],
    pub receive_window_size: u32,
}

/// A retry task to spawn for a newly admitted handshake.
#[derive(Clone, Copy, Debug, PartialEq, Eq, Structural)]
pub struct TaskStart {
    pub remote: Endpoint,
    pub task: u64,
}

/// The listening side of TCP connection establishment for one local endpoint.
pub struct PassiveSocket {
    pub inflight: InflightTable,
    pub ready: ReadySockets,
    pub max_backlog: usize,
    pub isn_generator: IsnGenerator,
    pub local: Endpoint,
    pub config: LocalConfig,
    pub next_task: u64,
}

/// The remote endpoint a segment comes from.
pub open spec fn remote_of(ip: Ipv4Header, header: TcpHeader) -> Endpoint {
    Endpoint { addr: ip.src_addr, port: header.src_port }
}

/// The connection that confirming attempt `e` yields.
pub open spec fn established(local: Endpoint, remote: Endpoint, e: InflightAccept, receive_window: u32) -> ControlBlock {
    ControlBlock {
        local,
        remote,
        sender: Sender { seq: seq_next(e.local_isn), window_size: e.window_size, window_scale: e.window_scale, mss: e.mss },
        receiver: Receiver { seq: seq_next(e.remote_isn), window_size: receive_window },
    }
}

impl PassiveSocket {
    pub open spec fn wf(&self) -> bool {
        &&& self.ready.wf()
        &&& self.inflight@.dom().finite()
        &&& forall|k: (u32, u16)| #[trigger] self.inflight@.contains_key(k) ==> {
            &&& self.inflight@[k].retry.wf()
            &&& self.inflight@[k].retry.remote.key() == k
        }
        &&& forall|k: (u32, u16)| #[trigger] self.ready.endpoints@.contains(k) ==> !self.inflight@.contains_key(k)
    }

    /// In-flight attempts and queued entries together reach the backlog bound.
    pub open spec fn backlog_full(&self) -> bool {
        self.inflight@.len() + self.ready.ready@.len() >= self.max_backlog
    }

    /// A handshake from `remote` with this header would be admitted.
    pub open spec fn admits(&self, remote: Endpoint, header: TcpHeader) -> bool {
        &&& !self.ready.endpoints@.contains(remote.key())
        &&& !self.inflight@.contains_key(remote.key())
        &&& header.is_bare_syn()
        &&& !self.backlog_full()
    }

    /// The attempt that admitting a SYN from `remote` records.
    pub open spec fn new_attempt(&self, remote: Endpoint, header: TcpHeader) -> InflightAccept {
        let local_isn = isn_of(self.isn_generator, self.local, remote);
        InflightAccept {
            local_isn,
            remote_isn: header.seq_num,
            window_size: scaled(header.window_size, scale_of(header.options@)) as u32,
            window_scale: scale_of(header.options@),
            mss: mss_of(header.options@),
            task: self.next_task,
            retry: HandshakeRetry {
                local_isn,
                remote_isn: header.seq_num,
                local: self.local,
                remote,
                rounds: 0,
                phase: RetryPhase::Resolving,
            },
        }
    }

    /// Retry task `task` still drives the attempt of `remote`.
    pub open spec fn is_live(&self, remote: Endpoint, task: u64) -> bool {
        self.inflight@.contains_key(remote.key()) && self.inflight@[remote.key()].task == task
    }

    /// Everything but the two collections, the generator and the task counter is as in `old`.
    pub open spec fn same_setup(&self, old: PassiveSocket) -> bool {
        &&& self.max_backlog == old.max_backlog
        &&& self.local == old.local
        &&& self.config == old.config
    }

    /// `after` and `r` are what handling segment (`ip`, `header`) in state `self` gives.
    pub open spec fn receives(&self, after: PassiveSocket, ip: Ipv4Header, header: TcpHeader, r: Result<Option<TaskStart>, Fail>) -> bool {
        &&& after.wf()
        &&& after.same_setup(*self)
        &&& {
            let remote = remote_of(ip, header);
            let k = remote.key();
            let e = self.inflight@[k];
            if self.ready.endpoints@.contains(k) {
                r == Ok::<Option<TaskStart>, Fail>(None) && after == *self
            } else if self.inflight@.contains_key(k) {
                if !header.ack {
                    r == Err::<Option<TaskStart>, Fail>(Fail::Malformed { details: Malformed::ExpectedAck })
                        && after == *self
                } else if header.ack_num != seq_next(e.local_isn) {
                    r == Err::<Option<TaskStart>, Fail>(Fail::Malformed { details: Malformed::InvalidAckNumber })
                        && after == *self
                } else {
                    &&& r == Ok::<Option<TaskStart>, Fail>(None)
                    &&& after.inflight@ == self.inflight@.remove(k)
                    &&& after.ready.ready@ == self.ready.ready@.push(
                        Ok(established(self.local, remote, e, self.config.receive_window_size)),
                    )
                    &&& after.ready.endpoints@ == self.ready.endpoints@.insert(k)
                    &&& after.ready.wake_due == (self.ready.wake_due || self.ready.waiter)
                    &&& !after.ready.waiter
                    &&& after.isn_generator == self.isn_generator
                    &&& after.next_task == self.next_task
                }
            } else if !header.is_bare_syn() {
                r == Err::<Option<TaskStart>, Fail>(Fail::Malformed { details: Malformed::InvalidFlags })
                    && after == *self
            } else if self.backlog_full() {
                r == Err::<Option<TaskStart>, Fail>(Fail::ConnectionRefused) && after == *self
            } else {
                &&& r == Ok::<Option<TaskStart>, Fail>(Some(TaskStart { remote, task: self.next_task }))
                &&& after.inflight@ == self.inflight@.insert(k, self.new_attempt(remote, header))
                &&& after.ready == self.ready
                &&& after.isn_generator.nonce == self.isn_generator.nonce
                &&& after.isn_generator.counter == (self.isn_generator.counter + 1) % 0x1_0000
                &&& after.next_task == (self.next_task + 1) % 0x1_0000_0000_0000_0000
            }
        }
    }

    /// `after` and `r` are what event `event` for task `task` of `remote` gives in state `self`.
    pub open spec fn retry_steps(&self, after: PassiveSocket, remote: Endpoint, task: u64, event: RetryEvent, r: RetryAction) -> bool {
        &&& after.wf()
        &&& after.same_setup(*self)
        &&& (!self.is_live(remote, task) ==> r is Cancelled && after == *self)
        &&& (self.is_live(remote, task) ==> ({
            let e = self.inflight@[remote.key()];
            &&& e.retry.action_is(event, self.config.link_addr, r)
            &&& after.inflight@ == self.inflight@.insert(
                remote.key(),
                InflightAccept { retry: e.retry.next(event), ..e },
            )
            &&& after.ready.ready@ == (if e.retry.gives_up(event) {
                self.ready.ready@.push(Err(Fail::Timeout))
            } else {
                self.ready.ready@
            })
            &&& after.ready.endpoints@ == self.ready.endpoints@
            &&& !e.retry.gives_up(event) ==> after.ready == self.ready
            &&& after.isn_generator == self.isn_generator
            &&& after.next_task == self.next_task
        }))
    }

    /// `after` and `r` are what polling for a completed handshake in state `self` gives.
    pub open spec fn accepts(&self, after: PassiveSocket, r: Poll<Result<ControlBlock, Fail>>) -> bool {
        &&& after.wf()
        &&& after.same_setup(*self)
        &&& after.inflight == self.inflight
        &&& after.isn_generator == self.isn_generator
        &&& after.next_task == self.next_task
        &&& after.ready.wake_due == self.ready.wake_due
        &&& (self.ready.ready@.len() == 0 ==> {
            &&& r == Poll::<Result<ControlBlock, Fail>>::Pending
            &&& after.ready.ready@ == self.ready.ready@
            &&& after.ready.endpoints@ == self.ready.endpoints@
            &&& after.ready.waiter
        })
        &&& (self.ready.ready@.len() > 0 ==> {
            &&& r == Poll::Ready(self.ready.ready@[0])
            &&& after.ready.ready@ == self.ready.ready@.drop_first()
            &&& after.ready.waiter == self.ready.waiter
        })
    }

    pub fn new(local: Endpoint, max_backlog: usize, nonce: u32, config: LocalConfig) -> (r: PassiveSocket)
        ensures
            r.wf(),
            r.inflight@.len() == 0,
            r.ready.ready@.len() == 0,
            !r.ready.waiter,
            !r.ready.wake_due,
            r.max_backlog == max_backlog,
            r.local == local,
            r.config == config,
            r.isn_generator == IsnGenerator::new_spec(nonce),
            r.next_task == 0,
    {
        let inflight = InflightTable::new();
        proof {
            assert(inflight@ =~= Map::empty());
        }
        PassiveSocket {
            inflight,
            ready: ReadySockets::new(),
            max_backlog,
            isn_generator: IsnGenerator::new(nonce),
            local,
            config,
            next_task: 0,
        }
    }

    /// Handles one inbound segment addressed to the listening endpoint.
    ///
    /// A segment from an endpoint whose connection waits to be accepted is ignored.
    /// A segment from an endpoint with an attempt in flight must be the ACK that
    /// confirms the SYN-ACK; it moves the attempt to the ready queue. Any other
    /// segment must be a bare SYN, admitted while the backlog has room: the attempt
    /// is recorded and the retry task to spawn is returned.
    pub fn receive2(&mut self, ip_header: &Ipv4Header, header: &TcpHeader) -> (r: Result<Option<TaskStart>, Fail>)
        requires
            old(self).wf(),
            old(self).admits(remote_of(*ip_header, *header), *header) ==> window_fits(
                header.window_size,
                scale_of(header.options@),
            ),
        ensures
            old(self).receives(*final(self), *ip_header, *header, r),
    {
        let remote = Endpoint { addr: ip_header.src_addr, port: header.src_port };
        let key = remote.to_key();
        if self.ready.endpoints.contains(&key) {
            return Ok(None);
        }
        let inflight_len = self.inflight.len();

        if let Some(entry) = self.inflight.get(&key) {
            if !header.ack {
                return Err(Fail::Malformed { details: Malformed::ExpectedAck });
            }
            let confirmed = seq_successor(entry.local_isn);
            if header.ack_num != confirmed {
                return Err(Fail::Malformed { details: Malformed::InvalidAckNumber });
            }
            let sender = Sender {
                seq: confirmed,
                window_size: entry.window_size,
                window_scale: entry.window_scale,
                mss: entry.mss,
            };
            let receiver = Receiver {
                seq: seq_successor(entry.remote_isn),
                window_size: self.config.receive_window_size,
            };
            self.inflight.remove(&key);
            let cb = ControlBlock { local: self.local, remote, sender, receiver };
            self.ready.push_ok(cb);
            return Ok(None);
        }

        if !header.syn || header.ack || header.rst {
            return Err(Fail::Malformed { details: Malformed::InvalidFlags });
        }
        let ready_len = self.ready.len();
        if inflight_len >= self.max_backlog || ready_len >= self.max_backlog - inflight_len {
            return Err(Fail::ConnectionRefused);
        }
        let local_isn = self.isn_generator.generate(&self.local, &remote);
        let remote_isn = header.seq_num;
        let task = self.next_task;
        self.next_task = self.next_task.wrapping_add(1);
        let retry = HandshakeRetry::new(local_isn, remote_isn, self.local, remote);

        let (window_scale, mss) = negotiate_options(&header.options);
        let window_size = scaled_window(header.window_size, window_scale);
        let accept = InflightAccept { local_isn, remote_isn, window_size, window_scale, mss, task, retry };
        self.inflight.insert(key, accept);
        Ok(Some(TaskStart { remote, task }))
    }

    /// Feeds an event to the retry task `task` of the attempt from `remote` and says
    /// what the task does next. A task whose attempt is gone, or belongs to another
    /// task, is told to stop. When the last round passes, the timeout goes to the
    /// ready queue; the attempt itself stays recorded.
    pub fn on_retry_event(&mut self, remote: Endpoint, task: u64, event: RetryEvent) -> (r: RetryAction)
        requires
            old(self).wf(),
        ensures
            old(self).retry_steps(*final(self), remote, task, event, r),
    {
        let key = remote.to_key();
        let mut entry = match self.inflight.get(&key) {
            Some(entry) => entry,
            None => {
                return RetryAction::Cancelled;
            },
        };
        if entry.task != task {
            return RetryAction::Cancelled;
        }
        let action = entry.retry.step(event, self.config.link_addr);
        self.inflight.insert(key, entry);
        if let RetryAction::GiveUp = action {
            self.ready.push_err(Fail::Timeout);
        }
        action
    }

    /// Takes the oldest completed handshake, or registers the consumer for a wake-up.
    pub fn poll_accept(&mut self) -> (r: Poll<Result<ControlBlock, Fail>>)
        requires
            old(self).wf(),
        ensures
            old(self).accepts(*final(self), r),
    {
        self.ready.poll()
    }

    /// Whether a waiting consumer is owed a wake-up; clears the debt.
    pub fn take_wake(&mut self) -> (r: bool)
        requires
            old(self).wf(),
        ensures
            final(self).wf(),
            r == old(self).ready.wake_due,
            *final(self) == (PassiveSocket {
                ready: ReadySockets { wake_due: false, ..old(self).ready },
                ..*old(self)
            }),
    {
        let r = self.ready.wake_due;
        self.ready.wake_due = false;
        r
    }

    /// The number of half-open attempts.
    pub fn inflight_len(&self) -> (r: usize)
        ensures
            r == self.inflight@.len(),
    {
        self.inflight.len()
    }

    /// The number of completed handshakes waiting to be accepted.
    pub fn ready_len(&self) -> (r: usize)
        ensures
            r == self.ready.ready@.len(),
    {
        self.ready.len()
    }

    /// The half-open attempt from `remote`, if any.
    pub fn inflight_entry(&self, remote: &Endpoint) -> (r: Option<InflightAccept>)
        ensures
            r == (if self.inflight@.contains_key(remote.key()) {
                Some(self.inflight@[remote.key()])
            } else {
                None::<InflightAccept>
            }),
    {
        self.inflight.get(&remote.to_key())
    }
}

} // verus!
