use vstd::prelude::*;
use vstd::set_lib::*;
use std::collections::VecDeque;
use crate::tables::EndpointSet;
use crate::types::{ControlBlock, Fail, Poll};

verus! {

/// The remote endpoints of the successful entries of `s`.
pub open spec fn ok_keys(s: Seq<Result<ControlBlock, Fail>>) -> Set<(u32, u16)> {
    Set::new(|k: (u32, u16)| exists|i: int| 0 <= i < s.len() && #[trigger] is_ok_for(s[i], k))
}

/// `e` is a successful entry for the remote endpoint with key `k`.
pub open spec fn is_ok_for(e: Result<ControlBlock, Fail>, k: (u32, u16)) -> bool {
    e is Ok && e->Ok_0.remote.key() == k
}

/// No two successful entries of `s` are for the same remote endpoint.
pub open spec fn ok_unique(s: Seq<Result<ControlBlock, Fail>>) -> bool {
    forall|i: int, j: int, k: (u32, u16)|
        0 <= i < s.len() && 0 <= j < s.len() && #[trigger] is_ok_for(s[i], k) && #[trigger] is_ok_for(s[j], k)
            ==> i == j
}

/// Completed handshakes waiting to be accepted, first in first out, with
/// the remote endpoints of the successful ones and the consumer's wake-up slot.
pub struct ReadySockets {
    pub ready: VecDeque<Result<ControlBlock, Fail>>,
    pub endpoints: EndpointSet,
    /// A consumer polled and found nothing.
    pub waiter: bool,
    /// An entry arrived while a consumer was waiting; it is owed a wake-up.
    pub wake_due: bool,
}

pub proof fn lemma_push_ok(s: Seq<Result<ControlBlock, Fail>>, cb: ControlBlock)
    requires
        ok_unique(s),
        !ok_keys(s).contains(cb.remote.key()),
    ensures
        ok_unique(s.push(Ok(cb))),
        ok_keys(s.push(Ok(cb))) == ok_keys(s).insert(cb.remote.key()),
{
    let t = s.push(Ok(cb));
    assert(is_ok_for(t[s.len() as int], cb.remote.key()));
    assert forall|i: int, j: int, k: (u32, u16)|
        0 <= i < t.len() && 0 <= j < t.len() && #[trigger] is_ok_for(t[i], k) && #[trigger] is_ok_for(t[j], k)
            implies i == j by {
        if i < s.len() && j < s.len() {
            assert(is_ok_for(s[i], k) && is_ok_for(s[j], k));
        } else if i < s.len() {
            assert(is_ok_for(s[i], k));
        } else if j < s.len() {
            assert(is_ok_for(s[j], k));
        }
    }
    assert forall|k: (u32, u16)| #[trigger] ok_keys(t).contains(k) <==> ok_keys(s).insert(cb.remote.key()).contains(k) by {
        if ok_keys(s).contains(k) {
            let i = choose|i: int| 0 <= i < s.len() && #[trigger] is_ok_for(s[i], k);
            assert(is_ok_for(t[i], k));
        }
        if ok_keys(t).contains(k) {
            let i = choose|i: int| 0 <= i < t.len() && #[trigger] is_ok_for(t[i], k);
            if i < s.len() {
                assert(is_ok_for(s[i], k));
            }
        }
    }
    assert(ok_keys(t) =~= ok_keys(s).insert(cb.remote.key()));
}

pub proof fn lemma_push_err(s: Seq<Result<ControlBlock, Fail>>, e: Fail)
    requires
        ok_unique(s),
    ensures
        ok_unique(s.push(Err(e))),
        ok_keys(s.push(Err(e))) == ok_keys(s),
{
    let t = s.push(Err(e));
    assert forall|i: int, j: int, k: (u32, u16)|
        0 <= i < t.len() && 0 <= j < t.len() && #[trigger] is_ok_for(t[i], k) && #[trigger] is_ok_for(t[j], k)
            implies i == j by {
        assert(is_ok_for(s[i], k) && is_ok_for(s[j], k));
    }
    assert forall|k: (u32, u16)| #[trigger] ok_keys(t).contains(k) <==> ok_keys(s).contains(k) by {
        if ok_keys(s).contains(k) {
            let i = choose|i: int| 0 <= i < s.len() && #[trigger] is_ok_for(s[i], k);
            assert(is_ok_for(t[i], k));
        }
        if ok_keys(t).contains(k) {
            let i = choose|i: int| 0 <= i < t.len() && #[trigger] is_ok_for(t[i], k);
            assert(is_ok_for(s[i], k));
        }
    }
    assert(ok_keys(t) =~= ok_keys(s));
}

pub proof fn lemma_pop_front(s: Seq<Result<ControlBlock, Fail>>)
    requires
        ok_unique(s),
        s.len() > 0,
    ensures
        ok_unique(s.drop_first()),
        ok_keys(s.drop_first()) == (if s[0] is Ok {
            ok_keys(s).remove(s[0]->Ok_0.remote.key())
        } else {
            ok_keys(s)
        }),
{
    let t = s.drop_first();
    assert forall|i: int, j: int, k: (u32, u16)|
        0 <= i < t.len() && 0 <= j < t.len() && #[trigger] is_ok_for(t[i], k) && #[trigger] is_ok_for(t[j], k)
            implies i == j by {
        assert(is_ok_for(s[i + 1], k) && is_ok_for(s[j + 1], k));
    }
    let expected = if s[0] is Ok {
        ok_keys(s).remove(s[0]->Ok_0.remote.key())
    } else {
        ok_keys(s)
    };
    assert forall|k: (u32, u16)| #[trigger] ok_keys(t).contains(k) <==> expected.contains(k) by {
        if ok_keys(t).contains(k) {
            let i = choose|i: int| 0 <= i < t.len() && #[trigger] is_ok_for(t[i], k);
            assert(is_ok_for(s[i + 1], k));
            if s[0] is Ok && s[0]->Ok_0.remote.key() == k {
                assert(is_ok_for(s[0], k));
            }
        }
        if expected.contains(k) {
            let i = choose|i: int| 0 <= i < s.len() && #[trigger] is_ok_for(s[i], k);
            assert(i != 0);
            assert(is_ok_for(t[i - 1], k));
        }
    }
    assert(ok_keys(t) =~= expected);
}

impl ReadySockets {
    /// The successful entries' endpoints are exactly the reserved set, one entry each.
    pub open spec fn wf(&self) -> bool {
        &&& self.endpoints@ == ok_keys(self.ready@)
        &&& ok_unique(self.ready@)
    }

    pub fn new() -> (r: ReadySockets)
        ensures
            r.wf(),
            r.ready@ == Seq::<Result<ControlBlock, Fail>>::empty(),
            !r.waiter,
            !r.wake_due,
    {
        let r = ReadySockets { ready: VecDeque::new(), endpoints: EndpointSet::new(), waiter: false, wake_due: false };
        assert(ok_keys(r.ready@) =~= Set::<(u32, u16)>::empty());
        r
    }

    /// Queues a completed connection. Its remote endpoint must not already have one queued.
    pub fn push_ok(&mut self, cb: ControlBlock)
        requires
            old(self).wf(),
            !old(self).endpoints@.contains(cb.remote.key()),
        ensures
            final(self).wf(),
            final(self).ready@ == old(self).ready@.push(Ok(cb)),
            final(self).endpoints@ == old(self).endpoints@.insert(cb.remote.key()),
            !final(self).waiter,
            final(self).wake_due == (old(self).wake_due || old(self).waiter),
    {
        proof {
            lemma_push_ok(self.ready@, cb);
        }
        self.endpoints.insert(cb.remote.to_key());
        self.ready.push_back(Ok(cb));
        self.wake_due = self.wake_due || self.waiter;
        self.waiter = false;
    }

    /// Queues a failed handshake.
    pub fn push_err(&mut self, err: Fail)
        requires
            old(self).wf(),
        ensures
            final(self).wf(),
            final(self).ready@ == old(self).ready@.push(Err(err)),
            final(self).endpoints@ == old(self).endpoints@,
            !final(self).waiter,
            final(self).wake_due == (old(self).wake_due || old(self).waiter),
    {
        proof {
            lemma_push_err(self.ready@, err);
        }
        self.ready.push_back(Err(err));
        self.wake_due = self.wake_due || self.waiter;
        self.waiter = false;
    }

    /// Takes the oldest entry, or registers the consumer as waiting when there is none.
    pub fn poll(&mut self) -> (r: Poll<Result<ControlBlock, Fail>>)
        requires
            old(self).wf(),
        ensures
            final(self).wf(),
            final(self).wake_due == old(self).wake_due,
            final(self).endpoints@.subset_of(old(self).endpoints@),
            old(self).ready@.len() == 0 ==> {
                &&& r == Poll::<Result<ControlBlock, Fail>>::Pending
                &&& final(self).ready@ == old(self).ready@
                &&& final(self).waiter
            },
            old(self).ready@.len() > 0 ==> {
                &&& r == Poll::Ready(old(self).ready@[0])
                &&& final(self).ready@ == old(self).ready@.drop_first()
                &&& final(self).waiter == old(self).waiter
            },
    {
        match self.ready.pop_front() {
            None => {
                self.waiter = true;
                Poll::Pending
            },
            Some(r) => {
                proof {
                    lemma_pop_front(old(self).ready@);
                    assert(old(self).ready@.drop_first() =~= self.ready@);
                }
                if let Ok(cb) = r {
                    self.endpoints.remove(&cb.remote.to_key());
                }
                Poll::Ready(r)
            },
        }
    }

    pub fn len(&self) -> (r: usize)
        ensures
            r == self.ready@.len(),
    {
        self.ready.len()
    }
}

} // verus!
