use vstd::prelude::*;
use crate::ready::{is_ok_for, ok_keys, ok_unique};
use crate::retry::{RetryAction, RetryEvent, RetryPhase};
use crate::socket::{PassiveSocket, TaskStart, established, remote_of};
use crate::types::{ControlBlock, Endpoint, Fail, Ipv4Header, Malformed, Poll, TcpHeader, seq_next};

verus! {

/// Admitting a fresh SYN under the backlog bound records exactly one new attempt,
/// filed under the segment's source endpoint, and hands out exactly one retry task for it.
pub proof fn lemma_admission_records_one_attempt(
    before: PassiveSocket,
    after: PassiveSocket,
    ip: Ipv4Header,
    header: TcpHeader,
    r: Result<Option<TaskStart>, Fail>,
)
    requires
        before.wf(),
        before.admits(remote_of(ip, header), header),
        before.receives(after, ip, header, r),
    ensures
        r == Ok::<Option<TaskStart>, Fail>(Some(TaskStart { remote: remote_of(ip, header), task: before.next_task })),
        after.inflight@.len() == before.inflight@.len() + 1,
        after.inflight@.contains_key(remote_of(ip, header).key()),
        after.inflight@[remote_of(ip, header).key()].task == before.next_task,
        forall|k: (u32, u16)|
            k != remote_of(ip, header).key() ==> #[trigger] after.inflight@.contains_key(k)
                == before.inflight@.contains_key(k) && after.inflight@[k] == before.inflight@[k],
        after.ready == before.ready,
{
    let k = remote_of(ip, header).key();
    assert(after.inflight@.dom() =~= before.inflight@.dom().insert(k));
}

/// A segment from an endpoint with an attempt in flight that lacks the ACK flag, or
/// acknowledges anything but the local ISN plus one, is rejected as malformed and
/// leaves the attempt, and everything else, as it was.
pub proof fn lemma_unconfirming_segment_rejected(
    before: PassiveSocket,
    after: PassiveSocket,
    ip: Ipv4Header,
    header: TcpHeader,
    r: Result<Option<TaskStart>, Fail>,
)
    requires
        before.wf(),
        before.inflight@.contains_key(remote_of(ip, header).key()),
        !header.ack || header.ack_num != seq_next(before.inflight@[remote_of(ip, header).key()].local_isn),
        before.receives(after, ip, header, r),
    ensures
        (r matches Err(Fail::Malformed { details })),
        !header.ack ==> r == Err::<Option<TaskStart>, Fail>(Fail::Malformed { details: Malformed::ExpectedAck }),
        header.ack ==> r == Err::<Option<TaskStart>, Fail>(Fail::Malformed { details: Malformed::InvalidAckNumber }),
        after.inflight@ == before.inflight@,
        after == before,
{
    assert(!before.ready.endpoints@.contains(remote_of(ip, header).key()));
}

/// The ACK that confirms an attempt takes it out of the table and queues exactly one
/// connection for its endpoint, after everything queued before it.
pub proof fn lemma_confirmed_handshake_queued_once(
    before: PassiveSocket,
    after: PassiveSocket,
    ip: Ipv4Header,
    header: TcpHeader,
    r: Result<Option<TaskStart>, Fail>,
)
    requires
        before.wf(),
        before.inflight@.contains_key(remote_of(ip, header).key()),
        header.ack,
        header.ack_num == seq_next(before.inflight@[remote_of(ip, header).key()].local_isn),
        before.receives(after, ip, header, r),
    ensures
        ({
            let k = remote_of(ip, header).key();
            let cb = established(
                before.local,
                remote_of(ip, header),
                before.inflight@[k],
                before.config.receive_window_size,
            );
            &&& r == Ok::<Option<TaskStart>, Fail>(None)
            &&& !after.inflight@.contains_key(k)
            &&& after.inflight@.len() == before.inflight@.len() - 1
            &&& after.ready.ready@ == before.ready.ready@.push(Ok(cb))
            &&& forall|i: int| 0 <= i < after.ready.ready@.len() && #[trigger] is_ok_for(after.ready.ready@[i], k)
                ==> i == before.ready.ready@.len()
        }),
{
    let k = remote_of(ip, header).key();
    assert(!before.ready.endpoints@.contains(k));
    assert(after.inflight@.dom() =~= before.inflight@.dom().remove(k));
    let q = after.ready.ready@;
    assert forall|i: int| 0 <= i < q.len() && #[trigger] is_ok_for(q[i], k) implies i == before.ready.ready@.len() by {
        if i < before.ready.ready@.len() {
            assert(is_ok_for(before.ready.ready@[i], k));
            assert(ok_keys(before.ready.ready@).contains(k));
        }
    }
}

/// Accepting hands out the oldest entry; a connection handed out leaves no other
/// entry for its endpoint behind, so it is returned exactly once.
pub proof fn lemma_accept_returns_connection_once(
    before: PassiveSocket,
    after: PassiveSocket,
    r: Poll<Result<ControlBlock, Fail>>,
)
    requires
        before.wf(),
        before.ready.ready@.len() > 0,
        before.accepts(after, r),
    ensures
        r == Poll::Ready(before.ready.ready@[0]),
        before.ready.ready@[0] matches Ok(cb) ==> forall|i: int|
            0 <= i < after.ready.ready@.len() ==> !#[trigger] is_ok_for(after.ready.ready@[i], cb.remote.key()),
{
    if before.ready.ready@[0] is Ok {
        let k = before.ready.ready@[0]->Ok_0.remote.key();
        assert forall|i: int| 0 <= i < after.ready.ready@.len() implies !#[trigger] is_ok_for(after.ready.ready@[i], k) by {
            if is_ok_for(after.ready.ready@[i], k) {
                assert(is_ok_for(before.ready.ready@[i + 1], k));
                assert(is_ok_for(before.ready.ready@[0], k));
            }
        }
    }
}

/// With the backlog full, a fresh SYN is refused and neither collection changes size.
pub proof fn lemma_full_backlog_refuses(
    before: PassiveSocket,
    after: PassiveSocket,
    ip: Ipv4Header,
    header: TcpHeader,
    r: Result<Option<TaskStart>, Fail>,
)
    requires
        before.wf(),
        !before.ready.endpoints@.contains(remote_of(ip, header).key()),
        !before.inflight@.contains_key(remote_of(ip, header).key()),
        header.is_bare_syn(),
        before.inflight@.len() + before.ready.ready@.len() == before.max_backlog,
        before.receives(after, ip, header, r),
    ensures
        r == Err::<Option<TaskStart>, Fail>(Fail::ConnectionRefused),
        after.inflight@.len() == before.inflight@.len(),
        after.ready.ready@.len() == before.ready.ready@.len(),
{
}

/// No segment queues a second connection for an endpoint that already has one
/// waiting: such a segment changes nothing, and the queue never holds two
/// connections for one endpoint.
pub proof fn lemma_one_connection_per_endpoint(
    before: PassiveSocket,
    after: PassiveSocket,
    ip: Ipv4Header,
    header: TcpHeader,
    r: Result<Option<TaskStart>, Fail>,
)
    requires
        before.wf(),
        before.receives(after, ip, header, r),
    ensures
        before.ready.endpoints@.contains(remote_of(ip, header).key()) ==> (after == before),
        ok_unique(after.ready.ready@),
{
}

/// An attempt whose address never resolves asks for resolution again after each of
/// the first failures, gives up at the last round with exactly one timeout in the
/// ready queue, and queues nothing more whatever happens after that.
pub proof fn lemma_unresolved_attempt_times_out_once(
    s0: PassiveSocket,
    s1: PassiveSocket,
    s2: PassiveSocket,
    s3: PassiveSocket,
    s4: PassiveSocket,
    remote: Endpoint,
    task: u64,
    later: RetryEvent,
    r1: RetryAction,
    r2: RetryAction,
    r3: RetryAction,
    r4: RetryAction,
)
    requires
        s0.wf(),
        s0.is_live(remote, task),
        s0.inflight@[remote.key()].retry.rounds == 0,
        s0.inflight@[remote.key()].retry.phase == RetryPhase::Resolving,
        s0.retry_steps(s1, remote, task, RetryEvent::ResolveFailed, r1),
        s1.retry_steps(s2, remote, task, RetryEvent::ResolveFailed, r2),
        s2.retry_steps(s3, remote, task, RetryEvent::ResolveFailed, r3),
        s3.retry_steps(s4, remote, task, later, r4),
    ensures
        r1 == (RetryAction::Resolve { addr: remote.addr }),
        r2 == (RetryAction::Resolve { addr: remote.addr }),
        (r3 is GiveUp),
        s3.ready.ready@ == s0.ready.ready@.push(Err(Fail::Timeout)),
        s4.ready.ready@ == s3.ready.ready@,
        !(r4 is GiveUp),
{
    let k = remote.key();
    assert(s1.is_live(remote, task));
    assert(s2.is_live(remote, task));
    assert(s3.is_live(remote, task));
    assert(s3.inflight@[k].retry.phase == RetryPhase::Finished);
}

} // verus!
