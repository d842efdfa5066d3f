//! The job queue between a worker pool and its workers, and what a worker
//! does with each message it takes from it.
use std::collections::VecDeque;
use vstd::prelude::*;

verus! {

/// What travels down the pool's job queue.
pub enum Message<J> {
    NewJob(J),
    Terminate,
}

/// `n` terminate messages.
pub open spec fn terminates<J>(n: nat) -> Seq<Message<J>> {
    Seq::new(n, |i: int| Message::Terminate)
}

/// A first-in first-out queue of messages. Besides the messages waiting, it
/// keeps the history of every message ever sent and every message handed
/// out, so that its invariant can state that nothing is lost or handed out
/// twice: what was handed out, followed by what waits, is what was sent.
pub struct JobQueue<J> {
    pending: VecDeque<Message<J>>,
    sent: Ghost<Seq<Message<J>>>,
    delivered: Ghost<Seq<Message<J>>>,
}

impl<J> JobQueue<J> {
    /// Messages waiting, oldest first.
    pub closed spec fn pending(&self) -> Seq<Message<J>> {
        self.pending@
    }

    /// Every message sent so far, in order.
    pub closed spec fn sent(&self) -> Seq<Message<J>> {
        self.sent@
    }

    /// Every message handed out so far, in order.
    pub closed spec fn delivered(&self) -> Seq<Message<J>> {
        self.delivered@
    }

    pub closed spec fn wf(&self) -> bool {
        self.delivered@ + self.pending@ == self.sent@
    }

    pub fn new() -> (r: JobQueue<J>)
        ensures
            r.wf(),
            r.pending() == Seq::<Message<J>>::empty(),
            r.sent() == Seq::<Message<J>>::empty(),
            r.delivered() == Seq::<Message<J>>::empty(),
    {
        let r = JobQueue { pending: VecDeque::new(), sent: Ghost(Seq::empty()), delivered: Ghost(Seq::empty()) };
        assert(r.delivered@ + r.pending@ =~= r.sent@);
        r
    }

    /// Sends `message` behind everything already waiting.
    pub fn push(&mut self, message: Message<J>)
        requires
            old(self).wf(),
        ensures
            final(self).wf(),
            final(self).pending() == old(self).pending().push(message),
            final(self).sent() == old(self).sent().push(message),
            final(self).delivered() == old(self).delivered(),
    {
        let ghost m = message;
        self.pending.push_back(message);
        self.sent = Ghost(self.sent@.push(m));
        assert(self.delivered@ + self.pending@ =~= self.sent@);
    }

    /// Hands out the oldest waiting message, if any.
    pub fn pop(&mut self) -> (r: Option<Message<J>>)
        requires
            old(self).wf(),
        ensures
            final(self).wf(),
            final(self).sent() == old(self).sent(),
            old(self).pending().len() == 0 ==> r is None && final(self).pending() == old(
                self,
            ).pending() && final(self).delivered() == old(self).delivered(),
            old(self).pending().len() > 0 ==> r == Some(old(self).pending()[0])
                && final(self).pending() == old(self).pending().drop_first()
                && final(self).delivered() == old(self).delivered().push(old(self).pending()[0]),
    {
        let r = self.pending.pop_front();
        proof {
            if r is Some {
                let m = old(self).pending@[0];
                self.delivered@ = self.delivered@.push(m);
                assert(old(self).pending@ =~= seq![m] + self.pending@);
                assert(self.delivered@ + self.pending@ =~= self.sent@);
            }
        }
        r
    }

    /// Sends one terminate message per worker, behind every job already
    /// waiting, so that each worker leaves its loop once the jobs before it
    /// have been handed out.
    pub fn shutdown(&mut self, workers: usize)
        requires
            old(self).wf(),
        ensures
            final(self).wf(),
            final(self).pending() == old(self).pending() + terminates::<J>(workers as nat),
            final(self).sent() == old(self).sent() + terminates::<J>(workers as nat),
            final(self).delivered() == old(self).delivered(),
    {
        let mut i: usize = 0;
        while i < workers
            invariant
                i <= workers,
                self.wf(),
                self.pending() == old(self).pending() + terminates::<J>(i as nat),
                self.sent() == old(self).sent() + terminates::<J>(i as nat),
                self.delivered() == old(self).delivered(),
            decreases workers - i,
        {
            self.push(Message::Terminate);
            i = i + 1;
            assert(terminates::<J>(i as nat) =~= terminates::<J>((i - 1) as nat).push(Message::Terminate));
            assert(self.pending() =~= old(self).pending() + terminates::<J>(i as nat));
            assert(self.sent() =~= old(self).sent() + terminates::<J>(i as nat));
        }
    }

    /// Number of messages waiting.
    pub fn len(&self) -> (r: usize)
        ensures
            r == self.pending().len(),
    {
        self.pending.len()
    }

    /// Whether no message is waiting.
    pub fn is_empty(&self) -> (r: bool)
        ensures
            r == (self.pending().len() == 0),
    {
        self.pending.len() == 0
    }
}

/// Nothing sent is lost or handed out twice: once no message is waiting,
/// the messages handed out are exactly the messages sent, in the order they
/// were sent.
pub proof fn lemma_drained_queue_delivered_all<J>(q: &JobQueue<J>)
    requires
        q.wf(),
        q.pending().len() == 0,
    ensures
        q.delivered() == q.sent(),
{
    assert(q.delivered() + q.pending() =~= q.delivered());
}

/// How many terminate messages `s` holds.
pub open spec fn terminate_count<J>(s: Seq<Message<J>>) -> nat
    decreases s.len(),
{
    if s.len() == 0 {
        0
    } else {
        terminate_count(s.drop_last()) + if s.last() is Terminate {
            1nat
        } else {
            0nat
        }
    }
}

proof fn lemma_no_terminates<J>(jobs: Seq<Message<J>>)
    requires
        forall|i: int| 0 <= i < jobs.len() ==> #[trigger] jobs[i] is NewJob,
    ensures
        terminate_count(jobs) == 0,
    decreases jobs.len(),
{
    if jobs.len() > 0 {
        let rest = jobs.drop_last();
        assert forall|i: int| 0 <= i < rest.len() implies #[trigger] rest[i] is NewJob by {
            assert(rest[i] == jobs[i]);
        }
        lemma_no_terminates(rest);
    }
}

/// Shutting down a pool of `workers` workers whose queue holds only jobs
/// leaves exactly one terminate message per worker in it, so every worker
/// leaves its loop and none waits forever.
pub proof fn lemma_one_terminate_per_worker<J>(jobs: Seq<Message<J>>, workers: nat)
    requires
        forall|i: int| 0 <= i < jobs.len() ==> #[trigger] jobs[i] is NewJob,
    ensures
        terminate_count(jobs + terminates::<J>(workers)) == workers,
    decreases workers,
{
    if workers == 0 {
        assert(jobs + terminates::<J>(0) =~= jobs);
        lemma_no_terminates(jobs);
    } else {
        let shorter = jobs + terminates::<J>((workers - 1) as nat);
        lemma_one_terminate_per_worker(jobs, (workers - 1) as nat);
        assert((jobs + terminates::<J>(workers)).drop_last() =~= shorter);
    }
}

/// A worker's step on the message it received: the job to run, or `None`
/// when it must leave its loop.
pub fn next_job<J>(message: Message<J>) -> (r: Option<J>)
    ensures
        message matches Message::NewJob(j) ==> r == Some(j),
        message is Terminate ==> r is None,
{
    match message {
        Message::NewJob(j) => Some(j),
        Message::Terminate => None,
    }
}

} // verus!
