use vstd::prelude::*;
use std::collections::VecDeque;
use crate::num::NonZeroUsize;

verus! {

/// What a semaphore holds: permits still free, permits handed out and not
/// yet given back, the number it was made with, and the waiters queued for
/// a permit, oldest first.
pub struct PermitState<W> {
    pub available: nat,
    pub held: nat,
    pub size: nat,
    pub waiters: Seq<W>,
}

impl<W> PermitState<W> {
    /// Every permit is either free or held, and there is at least one.
    pub open spec fn wf(self) -> bool {
        &&& self.available + self.held == self.size
        &&& 0 < self.size <= usize::MAX
    }
}

/// The state of a fresh semaphore with `size` permits.
pub open spec fn fresh_state<W>(size: nat) -> PermitState<W> {
    PermitState { available: size, held: 0, size, waiters: Seq::empty() }
}

/// A try to take a permit: whether it succeeded, and the state after it.
pub open spec fn acquire_outcome<W>(s: PermitState<W>) -> (bool, PermitState<W>) {
    if s.available > 0 {
        (
            true,
            PermitState {
                available: (s.available - 1) as nat,
                held: s.held + 1,
                size: s.size,
                waiters: s.waiters,
            },
        )
    } else {
        (false, s)
    }
}

/// A poll of an acquire future on behalf of `waiter`: whether it got a
/// permit, and the state after it. A poll that gets none queues the waiter.
pub open spec fn poll_outcome<W>(s: PermitState<W>, waiter: W) -> (bool, PermitState<W>) {
    if s.available > 0 {
        acquire_outcome(s)
    } else {
        (
            false,
            PermitState {
                available: s.available,
                held: s.held,
                size: s.size,
                waiters: s.waiters.push(waiter),
            },
        )
    }
}

/// Giving a permit back: the waiter to wake, if any, and the state after it.
/// A waiter is woken only when the semaphore had no free permit, and it is
/// the one that has waited longest.
pub open spec fn release_outcome<W>(s: PermitState<W>) -> (Option<W>, PermitState<W>) {
    if s.available == 0 && s.waiters.len() > 0 {
        (
            Some(s.waiters[0]),
            PermitState {
                available: s.available + 1,
                held: (s.held - 1) as nat,
                size: s.size,
                waiters: s.waiters.drop_first(),
            },
        )
    } else {
        (
            None,
            PermitState {
                available: s.available + 1,
                held: (s.held - 1) as nat,
                size: s.size,
                waiters: s.waiters,
            },
        )
    }
}

/// A counting semaphore. `W` is what stands for a waiting task (a waker);
/// the semaphore hands it back when a released permit should wake it.
pub struct Semaphore<W> {
    permits: Permits,
    waiters: VecDeque<W>,
    size: Ghost<nat>,
    id: Ghost<int>,
}

/// The free permits, with the count of those handed out beside them.
struct Permits {
    count: usize,
    held: Ghost<nat>,
}

/// A permit taken from a semaphore; give it back with [`AcquireLock::release`].
pub struct AcquireLock {
    semaphore: Ghost<int>,
}

/// The future of [`Semaphore::acquire`]; drive it with [`AcquireFuture::poll`].
pub struct AcquireFuture {
    semaphore: Ghost<int>,
}

/// The result of polling an [`AcquireFuture`].
pub enum AcquirePoll {
    Ready(AcquireLock),
    Pending,
}

/// No permit was free.
#[derive(Debug)]
pub struct AcquireLockError;

impl AcquireLockError {
    /// The text that describes this error.
    pub fn message(&self) -> (r: String)
        ensures
            r@ == "AcquireLockError: Failed to acquire lock"@,
    {
        "AcquireLockError: Failed to acquire lock".to_owned()
    }
}

impl<W> Semaphore<W> {
    #[verifier::type_invariant]
    spec fn inv(self) -> bool {
        self@.wf()
    }

    /// The permits, the waiters and the size of this semaphore.
    pub closed spec fn view(&self) -> PermitState<W> {
        PermitState {
            available: self.permits.count as nat,
            held: self.permits.held@,
            size: self.size@,
            waiters: self.waiters@,
        }
    }

    /// The identity of this semaphore. Nothing states it of a new semaphore,
    /// so no two semaphores can be shown to share it; the permits and futures
    /// a semaphore hands out carry it.
    pub closed spec fn id(&self) -> int {
        self.id@
    }

    /// A semaphore with `size` free permits and nobody waiting.
    pub fn with_size(size: NonZeroUsize) -> (r: Self)
        ensures
            r@ == fresh_state::<W>(size@),
            r@.wf(),
    {
        let n = size.get();
        Semaphore {
            permits: Permits { count: n, held: Ghost(0) },
            waiters: VecDeque::new(),
            size: Ghost(n as nat),
            id: Ghost(0),
        }
    }

    /// Takes a permit if one is free; fails, changing nothing, if none is.
    pub fn try_acquire(&mut self) -> (r: Result<AcquireLock, AcquireLockError>)
        ensures
            (r is Ok, final(self)@) == acquire_outcome(old(self)@),
            r is Ok <==> old(self)@.available > 0,
            final(self)@.wf(),
            final(self).id() == old(self).id(),
            r matches Ok(lock) ==> lock.semaphore_id() == old(self).id(),
    {
        proof {
            use_type_invariant(&*self);
        }
        let count = self.permits.count;
        if count > 0 {
            self.permits = Permits { count: count - 1, held: Ghost(self.permits.held@ + 1) };
            Ok(AcquireLock { semaphore: self.id })
        } else {
            Err(AcquireLockError)
        }
    }

    /// A future that takes a permit from this semaphore when one is free.
    pub fn acquire(&self) -> (r: AcquireFuture)
        ensures
            r.semaphore_id() == self.id(),
    {
        AcquireFuture { semaphore: self.id }
    }
}

impl AcquireFuture {
    /// The identity of the semaphore this future takes a permit from.
    pub closed spec fn semaphore_id(&self) -> int {
        self.semaphore@
    }

    /// Tries to take a permit from `semaphore`. When none is free, `waker`
    /// joins the back of the semaphore's waiters and the poll is pending.
    pub fn poll<W>(&mut self, semaphore: &mut Semaphore<W>, waker: W) -> (r: AcquirePoll)
        requires
            old(self).semaphore_id() == old(semaphore).id(),
        ensures
            (r is Ready, final(semaphore)@) == poll_outcome(old(semaphore)@, waker),
            r is Ready <==> old(semaphore)@.available > 0,
            final(semaphore)@.wf(),
            final(semaphore).id() == old(semaphore).id(),
            *final(self) == *old(self),
            r matches AcquirePoll::Ready(lock) ==> lock.semaphore_id() == old(semaphore).id(),
    {
        match semaphore.try_acquire() {
            Ok(lock) => AcquirePoll::Ready(lock),
            Err(_) => {
                proof {
                    use_type_invariant(&*semaphore);
                }
                let mut waiters = VecDeque::new();
                std::mem::swap(&mut waiters, &mut semaphore.waiters);
                waiters.push_back(waker);
                semaphore.waiters = waiters;
                AcquirePoll::Pending
            },
        }
    }
}

impl AcquireLock {
    /// The identity of the semaphore this permit was taken from.
    pub closed spec fn semaphore_id(&self) -> int {
        self.semaphore@
    }

    /// Gives the permit back to the semaphore it came from. When the
    /// semaphore had no free permit, the longest waiting waiter leaves the
    /// queue and is returned, to be woken.
    pub fn release<W>(self, semaphore: &mut Semaphore<W>) -> (r: Option<W>)
        requires
            self.semaphore_id() == old(semaphore).id(),
            old(semaphore)@.held > 0,
        ensures
            (r, final(semaphore)@) == release_outcome(old(semaphore)@),
            final(semaphore)@.wf(),
            final(semaphore).id() == old(semaphore).id(),
    {
        proof {
            use_type_invariant(&*semaphore);
        }
        let count = semaphore.permits.count;
        semaphore.permits = Permits {
            count: count + 1,
            held: Ghost((semaphore.permits.held@ - 1) as nat),
        };
        if count == 0 {
            let mut waiters = VecDeque::new();
            std::mem::swap(&mut waiters, &mut semaphore.waiters);
            let woken = waiters.pop_front();
            semaphore.waiters = waiters;
            proof {
                if old(semaphore)@.waiters.len() > 0 {
                    assert(semaphore.waiters@ =~= old(semaphore)@.waiters.drop_first());
                }
            }
            woken
        } else {
            None
        }
    }
}

/// The state after `k` successful tries to take a permit, one after another.
pub open spec fn acquired_times<W>(s: PermitState<W>, k: nat) -> PermitState<W>
    decreases k,
{
    if k == 0 {
        s
    } else {
        acquire_outcome(acquired_times(s, (k - 1) as nat)).1
    }
}

/// A try to take a permit succeeds exactly when one is free; it then moves
/// one permit from free to held and touches nothing else, and when none is
/// free it fails and changes nothing at all, the waiters included.
pub proof fn lemma_try_acquire_touches_only_the_count<W>(s: PermitState<W>)
    ensures
        acquire_outcome(s).0 <==> s.available > 0,
        s.available == 0 ==> acquire_outcome(s) == (false, s),
        s.available > 0 ==> acquire_outcome(s).1.available + 1 == s.available,
        s.available > 0 ==> acquire_outcome(s).1.held == s.held + 1,
        acquire_outcome(s).1.size == s.size,
        acquire_outcome(s).1.waiters == s.waiters,
{
}

/// A poll that finds a free permit takes it exactly as a try would, and
/// leaves every queued waiter in place; a poll that finds none changes no
/// count and puts its waiter behind all the others.
pub proof fn lemma_poll_queues_only_when_no_permit<W>(s: PermitState<W>, waiter: W)
    ensures
        poll_outcome(s, waiter).0 <==> s.available > 0,
        s.available > 0 ==> poll_outcome(s, waiter) == acquire_outcome(s),
        s.available > 0 ==> poll_outcome(s, waiter).1.waiters == s.waiters,
        s.available > 0 ==> poll_outcome(s, waiter).1.available + 1 == s.available,
        s.available > 0 ==> poll_outcome(s, waiter).1.held == s.held + 1,
        s.available == 0 ==> poll_outcome(s, waiter).1.waiters.len() == s.waiters.len() + 1,
        s.available == 0 ==> poll_outcome(s, waiter).1.waiters.last() == waiter,
        s.available == 0 ==> poll_outcome(s, waiter).1.waiters.drop_last() == s.waiters,
        s.available == 0 ==> poll_outcome(s, waiter).1.available == s.available,
        s.available == 0 ==> poll_outcome(s, waiter).1.held == s.held,
        poll_outcome(s, waiter).1.size == s.size,
{
    if s.available == 0 {
        assert(s.waiters.push(waiter).drop_last() =~= s.waiters);
    }
}

/// A release frees one permit; it wakes a waiter exactly when no permit was
/// free and someone waits, and that waiter is the oldest, the only one to
/// leave the queue.
pub proof fn lemma_release_frees_one_and_wakes_oldest<W>(s: PermitState<W>)
    requires
        s.held > 0,
    ensures
        release_outcome(s).1.available == s.available + 1,
        release_outcome(s).1.held + 1 == s.held,
        release_outcome(s).1.size == s.size,
        release_outcome(s).0 is Some <==> (s.available == 0 && s.waiters.len() > 0),
        release_outcome(s).0 is Some ==> release_outcome(s).0 == Some(s.waiters[0])
            && release_outcome(s).1.waiters == s.waiters.subrange(1, s.waiters.len() as int),
        release_outcome(s).0 is None ==> release_outcome(s).1.waiters == s.waiters,
{
}

/// Every operation keeps each permit either free or held, never changes the
/// size, and never hands out more permits than the semaphore was made with.
pub proof fn lemma_operations_conserve_permits<W>(s: PermitState<W>, waiter: W)
    requires
        s.wf(),
    ensures
        acquire_outcome(s).1.wf(),
        acquire_outcome(s).1.size == s.size,
        poll_outcome(s, waiter).1.wf(),
        poll_outcome(s, waiter).1.size == s.size,
        s.held > 0 ==> release_outcome(s).1.wf(),
        s.held > 0 ==> release_outcome(s).1.size == s.size,
        s.held <= s.size,
        s.available <= s.size,
{
}

/// Taking a permit and giving it straight back leaves the semaphore as it
/// was, unless the permit taken was the last free one while tasks wait: then
/// the release wakes the oldest waiter instead.
pub proof fn lemma_acquire_then_release_restores<W>(s: PermitState<W>)
    requires
        s.wf(),
        s.available > 0,
        s.available > 1 || s.waiters.len() == 0,
    ensures
        acquire_outcome(s).0,
        release_outcome(acquire_outcome(s).1) == (None::<W>, s),
{
}

/// A fresh semaphore of size `n` grants exactly `n` permits: each of the
/// first `n` tries succeeds and the one after them fails.
pub proof fn lemma_fresh_grants_exactly_size<W>(n: nat, k: nat)
    requires
        0 < n <= usize::MAX,
        k <= n,
    ensures
        acquired_times(fresh_state::<W>(n), k).available == n - k,
        acquired_times(fresh_state::<W>(n), k).held == k,
        acquired_times(fresh_state::<W>(n), k).waiters == Seq::<W>::empty(),
        k < n ==> acquire_outcome(acquired_times(fresh_state::<W>(n), k)).0,
        k == n ==> !acquire_outcome(acquired_times(fresh_state::<W>(n), k)).0,
    decreases k,
{
    if k > 0 {
        lemma_fresh_grants_exactly_size::<W>(n, (k - 1) as nat);
    }
}

/// Waiters are woken in the order they queued: with no free permit, a
/// release wakes the oldest waiter; once that waiter has taken the permit,
/// the next release wakes the second oldest.
pub proof fn lemma_waiters_woken_in_order<W>(s: PermitState<W>)
    requires
        s.wf(),
        s.available == 0,
        s.waiters.len() >= 2,
    ensures
        ({
            let (first, s1) = release_outcome(s);
            let (got, s2) = acquire_outcome(s1);
            let (second, s3) = release_outcome(s2);
            &&& first == Some(s.waiters[0])
            &&& got
            &&& second == Some(s.waiters[1])
            &&& s3.waiters == s.waiters.subrange(2, s.waiters.len() as int)
        }),
{
    let s1 = release_outcome(s).1;
    assert(s1.waiters[0] == s.waiters[1]);
    assert(s1.waiters.drop_first() =~= s.waiters.subrange(2, s.waiters.len() as int));
}

} // verus!
