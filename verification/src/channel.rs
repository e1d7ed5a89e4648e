//! Priority-aware inter-thread mailbox between the frontend and the engine.
//!
//! Two FIFO queues back the channel: a priority queue for control commands
//! and a regular queue for job requests. Receiving always drains the
//! priority queue first, so a `Cancel` is observed ahead of any queued job.
//! `Cancel` is additionally placed as a boundary marker in the regular
//! queue; draining the regular queue up to that marker reports whether any
//! queued jobs were discarded by the cancellation.
//!
//! The queue discipline is carried by the verified [`RequestQueues`]
//! operations. [`Sender`] and [`Receiver`] share one `RequestQueues` behind
//! a [`vstd::rwlock::RwLock`] whose invariant is [`RequestQueues::wf`], so
//! every value ever stored in the channel respects the class discipline.

use vstd::prelude::*;
use vstd::rwlock::{RwLock, RwLockPredicate};

use std::collections::VecDeque;
use std::sync::Arc;

use crate::request::Request;

verus! {

/// The two request queues, while held exclusively (under the channel lock,
/// or before the channel is shared).
pub struct RequestQueues {
    pub priority: VecDeque<Request>,
    pub regular: VecDeque<Request>,
}

impl RequestQueues {
    /// Class discipline: the priority queue holds only priority-class
    /// requests, and the regular queue holds only job requests and `Cancel`
    /// boundary markers.
    pub open spec fn wf(&self) -> bool {
        &&& forall|i: int|
            0 <= i < self.priority@.len() ==> (#[trigger] self.priority@[i]).is_priority_spec()
        &&& forall|i: int|
            0 <= i < self.regular@.len() ==> ((#[trigger] self.regular@[i]) is StartJob
                || self.regular@[i] is Cancel)
    }

    pub fn new() -> (r: RequestQueues)
        ensures
            r.priority@ == Seq::<Request>::empty(),
            r.regular@ == Seq::<Request>::empty(),
            r.wf(),
    {
        RequestQueues { priority: VecDeque::new(), regular: VecDeque::new() }
    }

    /// Append one request, honouring its class. `Cancel` goes to both
    /// queues: the priority copy asks the engine to cancel, the regular copy
    /// marks the boundary up to which queued jobs are discarded.
    pub fn enqueue(&mut self, req: Request)
        ensures
            (final(self).priority@, final(self).regular@) == send_spec(
                old(self).priority@,
                old(self).regular@,
                req,
            ),
            req is Cancel ==> {
                &&& final(self).priority@ == old(self).priority@.push(req)
                &&& final(self).regular@ == old(self).regular@.push(req)
            },
            req.is_priority_spec() && !(req is Cancel) ==> {
                &&& final(self).priority@ == old(self).priority@.push(req)
                &&& final(self).regular@ == old(self).regular@
            },
            !req.is_priority_spec() ==> {
                &&& final(self).priority@ == old(self).priority@
                &&& final(self).regular@ == old(self).regular@.push(req)
            },
            old(self).wf() ==> final(self).wf(),
    {
        if let Request::Cancel = req {
            self.regular.push_back(Request::Cancel);
            self.priority.push_back(req);
        } else if req.is_priority_action() {
            self.priority.push_back(req);
        } else {
            self.regular.push_back(req);
        }
    }

    /// Remove and return the next request: the head of the priority queue
    /// if there is one, else the head of the regular queue, else nothing.
    pub fn try_dequeue(&mut self) -> (r: Option<Request>)
        ensures
            old(self).priority@.len() > 0 ==> {
                &&& r == Some(old(self).priority@[0])
                &&& final(self).priority@ == old(self).priority@.drop_first()
                &&& final(self).regular@ == old(self).regular@
            },
            old(self).priority@.len() == 0 && old(self).regular@.len() > 0 ==> {
                &&& r == Some(old(self).regular@[0])
                &&& final(self).priority@ == old(self).priority@
                &&& final(self).regular@ == old(self).regular@.drop_first()
            },
            old(self).priority@.len() == 0 && old(self).regular@.len() == 0 ==> {
                &&& r is None
                &&& final(self).priority@ == old(self).priority@
                &&& final(self).regular@ == old(self).regular@
            },
            old(self).wf() ==> final(self).wf(),
    {
        let r = match self.priority.pop_front() {
            Some(val) => Some(val),
            None => self.regular.pop_front(),
        };
        proof {
            assert(old(self).priority@.len() > 0 ==> final(self).priority@
                =~= old(self).priority@.drop_first());
            assert(old(self).priority@.len() == 0 && old(self).regular@.len() > 0
                ==> final(self).regular@ =~= old(self).regular@.drop_first());
        }
        r
    }

    /// Remove queued jobs ahead of the first `Cancel` marker in the regular
    /// queue (the whole queue if no marker is present), and report whether
    /// any job was discarded.
    pub fn drain_to_cancel(&mut self) -> (discarded: bool)
        ensures
            final(self).priority@ == old(self).priority@,
            final(self).regular@ == drained_past_cancel(old(self).regular@),
            discarded == (old(self).regular@.len() > 0 && !(old(self).regular@[0] is Cancel)),
            old(self).wf() ==> final(self).wf(),
    {
        let ghost orig = self.regular@;
        let mut any_removed = false;
        loop
            invariant_except_break
                drained_past_cancel(orig) == drained_past_cancel(self.regular@),
                any_removed == (orig.len() > 0 && !(orig[0] is Cancel) && self.regular@.len()
                    < orig.len()),
                !any_removed ==> self.regular@ == orig,
            invariant
                self.priority@ == old(self).priority@,
                old(self).wf() ==> forall|i: int|
                    0 <= i < self.regular@.len() ==> ((#[trigger] self.regular@[i]) is StartJob
                        || self.regular@[i] is Cancel),
            ensures
                self.regular@ == drained_past_cancel(orig),
                any_removed == (orig.len() > 0 && !(orig[0] is Cancel)),
            decreases self.regular@.len(),
        {
            match self.regular.pop_front() {
                None => {
                    break ;
                },
                Some(val) => {
                    if let Request::Cancel = val {
                        break ;
                    } else {
                        any_removed = true;
                    }
                },
            }
        }
        any_removed
    }
}

/// What remains of the regular queue after draining up to and over the
/// first `Cancel` marker; the whole queue drains when no marker is present.
pub open spec fn drained_past_cancel(s: Seq<Request>) -> Seq<Request>
    decreases s.len(),
{
    if s.len() == 0 {
        Seq::empty()
    } else if s[0] is Cancel {
        s.drop_first()
    } else {
        drained_past_cancel(s.drop_first())
    }
}

/// The queue pair after one request is sent: `Cancel` lands in both queues,
/// other priority-class requests in the priority queue, jobs in the regular
/// queue.
pub open spec fn send_spec(pri: Seq<Request>, reg: Seq<Request>, req: Request) -> (Seq<Request>,
    Seq<Request>) {
    if req is Cancel {
        (pri.push(req), reg.push(req))
    } else if req.is_priority_spec() {
        (pri.push(req), reg)
    } else {
        (pri, reg.push(req))
    }
}

/// The queue pair after a whole sequence of requests is sent in order.
pub open spec fn send_all_spec(pri: Seq<Request>, reg: Seq<Request>, reqs: Seq<Request>) -> (Seq<
    Request,
>, Seq<Request>)
    decreases reqs.len(),
{
    if reqs.len() == 0 {
        (pri, reg)
    } else {
        let (p, r) = send_spec(pri, reg, reqs[0]);
        send_all_spec(p, r, reqs.drop_first())
    }
}

/// Sending only job-class requests never touches the priority queue; they
/// are appended to the regular queue in order.
pub proof fn lemma_send_all_jobs(pri: Seq<Request>, reg: Seq<Request>, jobs: Seq<Request>)
    requires
        forall|i: int| 0 <= i < jobs.len() ==> !(#[trigger] jobs[i]).is_priority_spec(),
    ensures
        send_all_spec(pri, reg, jobs) == (pri, reg + jobs),
    decreases jobs.len(),
{
    if jobs.len() == 0 {
        assert(reg + jobs =~= reg);
    } else {
        lemma_send_all_jobs(pri, reg.push(jobs[0]), jobs.drop_first());
        assert(reg.push(jobs[0]) + jobs.drop_first() =~= reg + jobs);
    }
}

/// Draining a regular queue made of job requests, then a `Cancel` marker,
/// then anything else, discards exactly the jobs ahead of the marker.
pub proof fn lemma_drain_stops_at_marker(pending: Seq<Request>, rest: Seq<Request>)
    requires
        forall|i: int| 0 <= i < pending.len() ==> !((#[trigger] pending[i]) is Cancel),
    ensures
        drained_past_cancel(pending + seq![Request::Cancel] + rest) == rest,
    decreases pending.len(),
{
    let whole = pending + seq![Request::Cancel] + rest;
    if pending.len() == 0 {
        assert(whole[0] is Cancel);
        assert(whole.drop_first() =~= rest);
    } else {
        lemma_drain_stops_at_marker(pending.drop_first(), rest);
        assert(!(whole[0] is Cancel));
        assert(whole.drop_first() =~= pending.drop_first() + seq![Request::Cancel] + rest);
    }
}

/// The cancellation protocol, end to end over the queue model: with some
/// jobs pending in the regular queue and nothing in the priority queue,
/// sending `Cancel` followed by any number of further job requests leaves
/// the `Cancel` as the first request to be received; draining then discards
/// exactly the pending jobs, reports whether there were any, and preserves
/// the jobs sent after the `Cancel`.
pub proof fn lemma_cancel_protocol(pending: Seq<Request>, jobs: Seq<Request>)
    requires
        forall|i: int| 0 <= i < pending.len() ==> (#[trigger] pending[i]) is StartJob,
        forall|i: int| 0 <= i < jobs.len() ==> !(#[trigger] jobs[i]).is_priority_spec(),
    ensures
        ({
            let (p1, r1) = send_spec(Seq::empty(), pending, Request::Cancel);
            let (p2, r2) = send_all_spec(p1, r1, jobs);
            &&& p2.len() > 0
            &&& p2[0] is Cancel
            &&& drained_past_cancel(r2) == jobs
            &&& (r2.len() > 0 && !(r2[0] is Cancel)) == (pending.len() > 0)
        }),
{
    let (p1, r1) = send_spec(Seq::empty(), pending, Request::Cancel);
    lemma_send_all_jobs(p1, r1, jobs);
    let (p2, r2) = send_all_spec(p1, r1, jobs);
    assert(p2 == p1);
    assert(p2[0] is Cancel);
    assert(r2 =~= pending + seq![Request::Cancel] + jobs);
    lemma_drain_stops_at_marker(pending, jobs);
    if pending.len() > 0 {
        assert(r2[0] == pending[0]);
    }
}

/// The invariant every value stored in the channel lock satisfies.
pub struct ChannelPred {}

impl RwLockPredicate<RequestQueues> for ChannelPred {
    open spec fn inv(self, v: RequestQueues) -> bool {
        v.wf()
    }
}

/// Sending half of the channel; may be cloned into any thread that produces
/// requests.
pub struct Sender {
    inner: Arc<RwLock<RequestQueues, ChannelPred>>,
}

/// Receiving half of the channel, owned exclusively by the engine thread.
/// Receiving never blocks: a worker with nothing else to do waits by
/// re-checking [`Receiver::try_recv`] in its own loop.
pub struct Receiver {
    inner: Arc<RwLock<RequestQueues, ChannelPred>>,
}

impl Sender {
    #[verifier::type_invariant]
    spec fn wf(&self) -> bool {
        (*self.inner).pred() == (ChannelPred {  })
    }

    /// Enqueue one request. Never blocks for long (only for the lock) and
    /// never fails from the sender's view.
    pub fn send(&self, req: Request) {
        proof {
            use_type_invariant(self);
        }
        let (mut queues, handle) = (*self.inner).acquire_write();
        queues.enqueue(req);
        handle.release_write(queues);
    }
}

impl Receiver {
    #[verifier::type_invariant]
    spec fn wf(&self) -> bool {
        (*self.inner).pred() == (ChannelPred {  })
    }

    /// Remove and return the next request in priority-then-FIFO order, or
    /// nothing when both queues are empty.
    pub fn try_recv(&self) -> (r: Option<Request>) {
        proof {
            use_type_invariant(self);
        }
        let (mut queues, handle) = (*self.inner).acquire_write();
        let r = queues.try_dequeue();
        handle.release_write(queues);
        r
    }

    /// Discard queued jobs ahead of the first `Cancel` marker and report
    /// whether any job was discarded, which is what decides whether a
    /// user-visible cancellation notice is warranted.
    pub fn execute_cancel(&self) -> (discarded: bool) {
        proof {
            use_type_invariant(self);
        }
        let (mut queues, handle) = (*self.inner).acquire_write();
        let discarded = queues.drain_to_cancel();
        handle.release_write(queues);
        discarded
    }
}

/// Create a connected sender/receiver pair over one empty channel.
pub fn channel() -> (Sender, Receiver) {
    let queues = RequestQueues::new();
    let lock: RwLock<RequestQueues, ChannelPred> = RwLock::new(
        queues,
        Ghost(ChannelPred {  }),
    );
    let tx_side: Arc<RwLock<RequestQueues, ChannelPred>> = Arc::new(lock);
    let rx_side: Arc<RwLock<RequestQueues, ChannelPred>> = tx_side.clone();
    (Sender { inner: tx_side }, Receiver { inner: rx_side })
}

} // verus!
