use std::collections::VecDeque;
use vstd::prelude::*;

verus! {

/// What a worker gets when it asks the queue for work.
pub enum Fetch<T> {
    /// The oldest pending job, now owned by the one worker that asked.
    Job(T),
    /// The queue is closed and holds no more jobs: the worker may exit.
    Closed,
    /// The queue is open and empty: the worker must block until woken.
    Wait,
}

/// Why a job was not accepted.
#[derive(Clone, Copy, Debug, PartialEq, Eq, Structural)]
pub enum SubmitError {
    /// The queue was closed before the job came.
    QueueClosed,
}

/// What one fetch from a queue holding `pending`, open or not, yields.
pub open spec fn fetch_outcome<T>(pending: Seq<T>, open: bool) -> Fetch<T> {
    if pending.len() > 0 {
        Fetch::Job(pending[0])
    } else if open {
        Fetch::Wait
    } else {
        Fetch::Closed
    }
}

/// The jobs still pending after one fetch.
pub open spec fn pending_after_fetch<T>(pending: Seq<T>) -> Seq<T> {
    if pending.len() > 0 {
        pending.drop_first()
    } else {
        pending
    }
}

/// The outcomes of `n` fetches in a row with no job submitted between them.
pub open spec fn fetches<T>(pending: Seq<T>, open: bool, n: nat) -> Seq<Fetch<T>>
    decreases n,
{
    if n == 0 {
        seq![]
    } else {
        seq![fetch_outcome(pending, open)] + fetches(pending_after_fetch(pending), open, (n - 1) as nat)
    }
}

/// The fetch outcomes that hand out each job of `jobs` as a `Job`, in order.
pub open spec fn jobs_handed_out<T>(jobs: Seq<T>) -> Seq<Fetch<T>> {
    jobs.map_values(|j: T| Fetch::Job(j))
}

/// Once closed, a queue hands out every pending job exactly once, oldest
/// first, and only then reports that it is closed: nothing queued before the
/// close is lost or handed out twice.
pub proof fn lemma_closed_queue_drains<T>(pending: Seq<T>)
    ensures
        fetches(pending, false, pending.len() + 1) == jobs_handed_out(pending).push(
            Fetch::<T>::Closed,
        ),
{
    lemma_drain(pending, false);
}

/// While open, a queue hands out every pending job exactly once, oldest first,
/// and then tells the next worker to wait rather than to exit.
pub proof fn lemma_open_queue_drains<T>(pending: Seq<T>)
    ensures
        fetches(pending, true, pending.len() + 1) == jobs_handed_out(pending).push(
            Fetch::<T>::Wait,
        ),
{
    lemma_drain(pending, true);
}

/// A closed queue that holds no job reports `Closed` to every fetch, so each
/// idle worker that asks is told to stop and none blocks.
pub proof fn lemma_closed_empty_queue_stops_all<T>(n: nat)
    ensures
        fetches(Seq::<T>::empty(), false, n) == Seq::new(n, |i: int| Fetch::<T>::Closed),
    decreases n,
{
    if n > 0 {
        lemma_closed_empty_queue_stops_all::<T>((n - 1) as nat);
        assert(fetches(Seq::<T>::empty(), false, n) =~= Seq::new(n, |i: int| Fetch::<T>::Closed));
    } else {
        assert(fetches(Seq::<T>::empty(), false, n) =~= Seq::new(n, |i: int| Fetch::<T>::Closed));
    }
}

proof fn lemma_drain<T>(pending: Seq<T>, open: bool)
    ensures
        fetches(pending, open, pending.len() + 1) == jobs_handed_out(pending).push(
            fetch_outcome(Seq::<T>::empty(), open),
        ),
    decreases pending.len(),
{
    if pending.len() == 0 {
        assert(pending =~= Seq::<T>::empty());
        assert(fetches(pending_after_fetch(pending), open, 0) == Seq::<Fetch<T>>::empty());
        assert(fetches(pending, open, 1) =~= jobs_handed_out(pending).push(
            fetch_outcome(Seq::<T>::empty(), open),
        ));
    } else {
        let rest = pending.drop_first();
        lemma_drain(rest, open);
        assert(fetches(pending, open, pending.len() + 1) == seq![Fetch::Job(pending[0])] + fetches(
            rest,
            open,
            rest.len() + 1,
        ));
        assert(fetches(pending, open, pending.len() + 1) =~= jobs_handed_out(pending).push(
            fetch_outcome(Seq::<T>::empty(), open),
        ));
    }
}

/// A first-in first-out queue of jobs with an open flag. Jobs come in only
/// while it is open; once closed it still hands out what it holds, then
/// reports that it is closed.
pub struct JobQueue<T> {
    pending: VecDeque<T>,
    open: bool,
}

impl<T> JobQueue<T> {
    /// The jobs waiting to be fetched, oldest first.
    pub closed spec fn pending(&self) -> Seq<T> {
        self.pending@
    }

    /// Whether the queue still takes jobs.
    pub closed spec fn is_open(&self) -> bool {
        self.open
    }

    /// An open, empty queue.
    pub fn new() -> (r: Self)
        ensures
            r.pending() == Seq::<T>::empty(),
            r.is_open(),
    {
        JobQueue { pending: VecDeque::new(), open: true }
    }

    /// Whether the queue still takes jobs.
    pub fn accepts(&self) -> (r: bool)
        ensures
            r == self.is_open(),
    {
        self.open
    }

    /// The number of jobs waiting.
    pub fn len(&self) -> (r: usize)
        ensures
            r == self.pending().len(),
    {
        self.pending.len()
    }

    /// Puts `job` behind the pending jobs if the queue is open; a closed
    /// queue refuses it and stays as it was.
    pub fn enqueue(&mut self, job: T) -> (r: Result<(), SubmitError>)
        ensures
            r is Ok <==> old(self).is_open(),
            r is Err ==> r == Err::<(), SubmitError>(SubmitError::QueueClosed),
            final(self).is_open() == old(self).is_open(),
            old(self).is_open() ==> final(self).pending() == old(self).pending().push(job),
            !old(self).is_open() ==> final(self).pending() == old(self).pending(),
    {
        if !self.open {
            return Err(SubmitError::QueueClosed);
        }
        self.pending.push_back(job);
        Ok(())
    }

    /// Takes the oldest pending job; with none pending, says whether the
    /// caller should wait or stop.
    pub fn dequeue(&mut self) -> (r: Fetch<T>)
        ensures
            r == fetch_outcome(old(self).pending(), old(self).is_open()),
            final(self).pending() == pending_after_fetch(old(self).pending()),
            final(self).is_open() == old(self).is_open(),
    {
        match self.pending.pop_front() {
            Some(job) => Fetch::Job(job),
            None => {
                if self.open {
                    Fetch::Wait
                } else {
                    Fetch::Closed
                }
            },
        }
    }

    /// Closes the queue; the pending jobs stay. Returns whether this call did
    /// the closing, so that closing twice is seen as such.
    pub fn close(&mut self) -> (r: bool)
        ensures
            r == old(self).is_open(),
            !final(self).is_open(),
            final(self).pending() == old(self).pending(),
    {
        let was_open = self.open;
        self.open = false;
        was_open
    }
}

} // verus!
