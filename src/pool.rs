use vstd::prelude::*;

verus! {

/// What can go wrong in a pool's life.
#[derive(Clone, Copy, Debug, PartialEq, Eq, Structural)]
pub enum PoolError {
    /// A pool was asked for with no workers; it could never run a job.
    InvalidPoolSize,
    /// A job was submitted after shutdown had begun.
    ShutDown,
}

/// The worker ids `0, 1, ..., n - 1`, in order.
pub open spec fn ids_below(n: nat) -> Seq<usize> {
    Seq::new(n, |i: int| i as usize)
}

/// The bookkeeping of a fixed-size pool: how many workers it has, whether it
/// still takes jobs, and which workers' threads are yet to be joined.
pub struct PoolState {
    size: usize,
    unjoined: Vec<usize>,
    live: bool,
}

/// `after` and `joined` are what a shutdown of `before` leaves and returns:
/// the workers not yet joined, in id order, and a pool that takes no more jobs
/// and has nobody left to join.
pub open spec fn shutdown_post(before: PoolState, after: PoolState, joined: Seq<usize>) -> bool {
    &&& joined == before.to_join()
    &&& after.to_join() == Seq::<usize>::empty()
    &&& !after.is_live()
    &&& after.worker_count() == before.worker_count()
}

impl PoolState {
    /// The number of workers.
    pub closed spec fn worker_count(&self) -> nat {
        self.size as nat
    }

    /// The ids of the workers whose threads are yet to be joined, in order.
    pub closed spec fn to_join(&self) -> Seq<usize> {
        self.unjoined@
    }

    /// Whether shutdown has not begun.
    pub closed spec fn is_live(&self) -> bool {
        self.live
    }

    /// A live pool has every worker still to join; after shutdown, none.
    pub open spec fn wf(&self) -> bool {
        &&& self.worker_count() > 0
        &&& self.is_live() ==> self.to_join() == ids_below(self.worker_count())
        &&& !self.is_live() ==> self.to_join() == Seq::<usize>::empty()
    }

    /// A live pool of `size` workers, ids `0` to `size - 1`; a pool with no
    /// worker is refused.
    pub fn new(size: usize) -> (r: Result<PoolState, PoolError>)
        ensures
            r is Err <==> size == 0,
            r is Err ==> r == Err::<PoolState, PoolError>(PoolError::InvalidPoolSize),
            r matches Ok(p) ==> p.wf() && p.is_live() && p.worker_count() == size,
    {
        if size == 0 {
            return Err(PoolError::InvalidPoolSize);
        }
        let mut unjoined: Vec<usize> = Vec::with_capacity(size);
        let mut id: usize = 0;
        while id < size
            invariant
                id <= size,
                unjoined@ == ids_below(id as nat),
            decreases size - id,
        {
            unjoined.push(id);
            proof {
                assert(unjoined@ =~= ids_below((id + 1) as nat));
            }
            id = id + 1;
        }
        Ok(PoolState { size, unjoined, live: true })
    }

    /// The number of workers.
    pub fn size(&self) -> (r: usize)
        ensures
            r == self.worker_count(),
    {
        self.size
    }

    /// Whether jobs are still taken.
    pub fn is_accepting(&self) -> (r: bool)
        ensures
            r == self.is_live(),
    {
        self.live
    }

    /// May a job be submitted now? Not once shutdown has begun.
    pub fn check_submit(&self) -> (r: Result<(), PoolError>)
        ensures
            r is Ok <==> self.is_live(),
            r is Err ==> r == Err::<(), PoolError>(PoolError::ShutDown),
    {
        if self.live {
            Ok(())
        } else {
            Err(PoolError::ShutDown)
        }
    }

    /// Begins shutdown, at most once: returns the ids of the workers to join,
    /// in id order, and leaves nobody to join, so a second call returns none.
    pub fn shutdown(&mut self) -> (r: Vec<usize>)
        requires
            old(self).wf(),
        ensures
            shutdown_post(*old(self), *final(self), r@),
            final(self).wf(),
    {
        self.live = false;
        let mut unjoined: Vec<usize> = Vec::new();
        std::mem::swap(&mut self.unjoined, &mut unjoined);
        unjoined
    }
}

/// Shutting down twice does what shutting down once does: the second call
/// joins nobody and leaves the pool as the first left it, and over both calls
/// each worker of a live pool is joined exactly once, in id order.
pub proof fn lemma_shutdown_idempotent(
    fresh: PoolState,
    once: PoolState,
    first: Seq<usize>,
    twice: PoolState,
    second: Seq<usize>,
)
    requires
        fresh.wf(),
        shutdown_post(fresh, once, first),
        shutdown_post(once, twice, second),
    ensures
        second == Seq::<usize>::empty(),
        twice.to_join() == once.to_join(),
        twice.is_live() == once.is_live(),
        twice.worker_count() == once.worker_count(),
        fresh.is_live() ==> first + second == ids_below(fresh.worker_count()),
{
    assert(first + second =~= first);
}

} // verus!
