//! A process-shared semaphore and the mutex built from it.
//!
//! The semaphore's control block lives in a shared mapping. A mutex pairs a
//! semaphore created with count [`UNLOCKED`] with a second mapping that holds
//! the protected value. A guard's release flag decides whether its drop
//! signals the semaphore; clearing it before a fork and setting it in exactly
//! one process hands a held lock over to that process.
use vstd::prelude::*;

use crate::sharedmem::SharedMemory;

verus! {

#[verifier::external_type_specification]
#[verifier::external_body]
pub struct ExSemT(libc::sem_t);

/// The initial count of a mutex's semaphore: unlocked.
pub const UNLOCKED: u32 = 1;

/// A counting semaphore whose control block lives in shared memory.
pub struct RawSemaphore {
    mem: SharedMemory<libc::sem_t>,
}

impl RawSemaphore {
    pub closed spec fn addr(&self) -> usize {
        self.mem.addr()
    }

    /// The semaphore in `mem`, whose initialisation returned `init_status`:
    /// zero means it is ready, anything else is the error in `errno`.
    pub fn from_init(mem: SharedMemory<libc::sem_t>, init_status: i32) -> (r: Result<
        RawSemaphore,
        nix::errno::Errno,
    >)
        ensures
            r is Ok <==> init_status == 0,
            r matches Ok(s) ==> s.addr() == mem.addr(),
    {
        match crate::errors::check_status(init_status) {
            Ok(()) => Ok(RawSemaphore { mem }),
            Err(e) => Err(e),
        }
    }

    /// The address of the control block.
    pub fn as_ptr(&self) -> (r: usize)
        ensures
            r == self.addr(),
    {
        self.mem.as_ptr()
    }

    /// The handle on the mapping that holds the control block.
    pub fn memory(&self) -> (r: &SharedMemory<libc::sem_t>)
        ensures
            r.addr() == self.addr(),
    {
        &self.mem
    }
}

/// A lock over a value in shared memory, usable across forked processes.
pub struct Mutex<T> {
    sem: RawSemaphore,
    mem: SharedMemory<T>,
}

impl<T> Mutex<T> {
    pub closed spec fn semaphore_addr(&self) -> usize {
        self.sem.addr()
    }

    pub closed spec fn value_addr(&self) -> usize {
        self.mem.addr()
    }

    /// The mutex over the value in `mem`, locked through `sem`, which was
    /// created with count [`UNLOCKED`].
    pub fn new(sem: RawSemaphore, mem: SharedMemory<T>) -> (r: Mutex<T>)
        ensures
            r.semaphore_addr() == sem.addr(),
            r.value_addr() == mem.addr(),
    {
        Mutex { sem, mem }
    }

    /// The address of the semaphore's control block.
    pub fn semaphore_ptr(&self) -> (r: usize)
        ensures
            r == self.semaphore_addr(),
    {
        self.sem.as_ptr()
    }

    /// The address of the protected value.
    pub fn value_ptr(&self) -> (r: usize)
        ensures
            r == self.value_addr(),
    {
        self.mem.as_ptr()
    }

    /// The semaphore that locks the value.
    pub fn semaphore(&self) -> (r: &RawSemaphore)
        ensures
            r.addr() == self.semaphore_addr(),
    {
        &self.sem
    }

    /// The handle on the mapping that holds the value.
    pub fn memory(&self) -> (r: &SharedMemory<T>)
        ensures
            r.addr() == self.value_addr(),
    {
        &self.mem
    }
}

/// The token of one copy of a held lock: whether dropping it signals the
/// semaphore.
pub struct MutexGuard {
    cleanup: bool,
}

impl MutexGuard {
    /// Whether dropping this copy signals the semaphore.
    pub closed spec fn releases(&self) -> bool {
        self.cleanup
    }

    /// The guard of a lock that was just acquired: it releases on drop.
    pub fn acquired() -> (r: MutexGuard)
        ensures
            r.releases(),
    {
        MutexGuard { cleanup: true }
    }

    /// Whether dropping this copy signals the semaphore.
    pub fn cleanup(&self) -> (r: bool)
        ensures
            r == self.releases(),
    {
        self.cleanup
    }

    /// Sets whether dropping this copy signals the semaphore.
    pub fn set_cleanup(&mut self, cleanup: bool)
        ensures
            final(self).releases() == cleanup,
    {
        self.cleanup = cleanup;
    }

    /// The copy of this guard that a forked process holds.
    pub fn fork_copy(&self) -> (r: MutexGuard)
        ensures
            r.releases() == self.releases(),
    {
        MutexGuard { cleanup: self.cleanup }
    }
}

/// The semaphore count once a lock was taken from `count`.
pub open spec fn count_after_lock(count: nat) -> nat {
    (count - 1) as nat
}

/// The semaphore count once `guard` was dropped at `count`.
pub open spec fn count_after_drop(count: nat, guard: MutexGuard) -> nat {
    if guard.releases() {
        count + 1
    } else {
        count
    }
}

/// How many of the live guard copies will signal the semaphore.
pub open spec fn pending(guards: Seq<MutexGuard>) -> nat
    decreases guards.len(),
{
    if guards.len() == 0 {
        0
    } else {
        pending(guards.drop_last()) + if guards.last().releases() {
            1nat
        } else {
            0nat
        }
    }
}

/// The accounting that keeps lock holders exclusive: the semaphore's count
/// and the signals still owed by live guards add up to one.
pub open spec fn exclusive(count: nat, guards: Seq<MutexGuard>) -> bool {
    count + pending(guards) == 1
}

/// Dropping one guard copy removes it from the live ones and adds its signal
/// to the count.
proof fn lemma_pending_remove(guards: Seq<MutexGuard>, i: int)
    requires
        0 <= i < guards.len(),
    ensures
        pending(guards) == pending(guards.remove(i)) + if guards[i].releases() {
            1nat
        } else {
            0nat
        },
    decreases guards.len(),
{
    if i == guards.len() - 1 {
        assert(guards.remove(i) =~= guards.drop_last());
    } else {
        let rest = guards.remove(i);
        assert(rest.drop_last() =~= guards.drop_last().remove(i));
        assert(rest.last() == guards.last());
        lemma_pending_remove(guards.drop_last(), i);
    }
}

/// Mutual exclusion: while the accounting holds, at most one live guard
/// copy owes a signal, and a lock can be taken (the count is positive)
/// exactly when none does.
pub proof fn lemma_exclusion(count: nat, guards: Seq<MutexGuard>)
    requires
        exclusive(count, guards),
    ensures
        count <= 1,
        pending(guards) <= 1,
        count > 0 <==> pending(guards) == 0,
{
}

/// A mutex starts unlocked, with no guards: the accounting holds.
pub proof fn lemma_new_mutex_exclusive()
    ensures
        exclusive(UNLOCKED as nat, Seq::<MutexGuard>::empty()),
{
}

/// Taking the lock when the count is positive, which yields a releasing
/// guard, keeps the accounting.
pub proof fn lemma_lock_keeps_exclusion(count: nat, guards: Seq<MutexGuard>, guard: MutexGuard)
    requires
        exclusive(count, guards),
        count > 0,
        guard.releases(),
    ensures
        exclusive(count_after_lock(count), guards.push(guard)),
{
    assert(guards.push(guard).drop_last() =~= guards);
}

/// Dropping any live guard copy, in any order, keeps the accounting.
pub proof fn lemma_drop_keeps_exclusion(count: nat, guards: Seq<MutexGuard>, i: int)
    requires
        exclusive(count, guards),
        0 <= i < guards.len(),
    ensures
        exclusive(count_after_drop(count, guards[i]), guards.remove(i)),
{
    lemma_pending_remove(guards, i);
}

/// Hand-off across a fork: the holder of `held` clears its flag, forks, and
/// only the child's copy sets it again. The accounting still holds with both
/// copies alive; the count stays zero, so the parent's next lock waits; the
/// parent's drop signals nothing, and the child's drop makes the lock
/// available again.
pub proof fn lemma_handoff(
    count: nat,
    guards: Seq<MutexGuard>,
    held: MutexGuard,
    parent: MutexGuard,
    child: MutexGuard,
)
    requires
        exclusive(count, guards.push(held)),
        held.releases(),
        !parent.releases(),
        child.releases(),
    ensures
        exclusive(count, guards.push(parent).push(child)),
        count == 0,
        count_after_drop(count, parent) == 0,
        count_after_drop(count_after_drop(count, parent), child) == 1,
        count_after_drop(count, child) == 1,
{
    assert(guards.push(held).drop_last() =~= guards);
    assert(guards.push(parent).push(child).drop_last() =~= guards.push(parent));
    assert(guards.push(parent).drop_last() =~= guards);
    assert(pending(guards.push(parent)) == pending(guards));
}

} // verus!
