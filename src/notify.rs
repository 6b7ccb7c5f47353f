//! The wake handle of a driving thread.
//!
//! Any context, an interrupt handler included, may request a wake; the drive
//! loop consumes the request. The flag is one atomic boolean, so its swaps and
//! stores happen in one total order; the spec functions below describe what each
//! operation does in that order, and the laws at the end follow from them.

use vstd::prelude::*;
use std::sync::atomic::{AtomicBool, Ordering};

verus! {

/// The kernel's identity of a thread.
pub type Tid = u32;

/// A wake request on a flag that holds `pending`: the new flag, and whether the
/// kernel's wakeup of the owning thread is to be issued.
pub open spec fn request_step(pending: bool) -> (bool, bool) {
    (true, !pending)
}

/// The drive loop's consumption of a flag that holds `pending`: the new flag,
/// and what the loop observes.
pub open spec fn consume_step(pending: bool) -> (bool, bool) {
    (false, pending)
}

/// The flag after `n` wake requests, starting from `pending`.
pub open spec fn after_requests(pending: bool, n: nat) -> bool
    decreases n,
{
    if n == 0 {
        pending
    } else {
        request_step(after_requests(pending, (n - 1) as nat)).0
    }
}

/// How many kernel wakeups `n` wake requests issue, starting from `pending`.
pub open spec fn wakeups_issued(pending: bool, n: nat) -> nat
    decreases n,
{
    if n == 0 {
        0
    } else {
        wakeups_issued(pending, (n - 1) as nat) + if request_step(
            after_requests(pending, (n - 1) as nat),
        ).1 {
            1nat
        } else {
            0nat
        }
    }
}

/// The thread to wake after a request that found the flag at `was_pending`.
pub fn wake_target(thread: Tid, was_pending: bool) -> (r: Option<Tid>)
    ensures
        r == (if request_step(was_pending).1 {
            Some(thread)
        } else {
            None
        }),
{
    if was_pending {
        None
    } else {
        Some(thread)
    }
}

/// The wake handle of one thread: the thread's identity and its wake flag.
pub struct ThreadNotify {
    /// The thread that drives the loop and is parked while it waits.
    thread: Tid,
    /// Set by a wake request, until the drive loop consumes it.
    unparked: AtomicBool,
}

impl ThreadNotify {
    /// The thread that this handle wakes.
    pub closed spec fn owner(&self) -> Tid {
        self.thread
    }

    pub fn thread(&self) -> (r: Tid)
        ensures
            r == self.owner(),
    {
        self.thread
    }

    /// The handle of `thread`, with no wake pending.
    pub fn new(thread: Tid) -> (r: ThreadNotify)
        ensures
            r.owner() == thread,
    {
        ThreadNotify { thread, unparked: AtomicBool::new(false) }
    }

    /// Requests a wake. Returns the thread whose kernel wakeup the caller
    /// issues, or `None` where a request was already pending, so that
    /// requests until the next consumption coalesce into one.
    pub fn wake_by_ref(&self) -> (r: Option<Tid>)
        ensures
            r matches Some(t) ==> t == self.owner(),
    {
        let was_pending = self.unparked.swap(true, Ordering::Relaxed);
        wake_target(self.thread, was_pending)
    }

    /// Swaps the flag to false and returns whether a wake was pending.
    pub fn consume(&self) -> (r: bool) {
        self.unparked.swap(false, Ordering::Acquire)
    }

    /// Clears the flag.
    pub fn clear(&self) {
        self.unparked.store(false, Ordering::Release)
    }
}

/// Wake requests coalesce: any number of them between two consumptions is
/// observed as exactly one pending wake by the second, and issues exactly one
/// kernel wakeup (none where there was no request).
pub proof fn lemma_requests_coalesce(pending: bool, n: nat)
    ensures
        consume_step(after_requests(consume_step(pending).0, n)).1 == (n > 0),
        wakeups_issued(consume_step(pending).0, n) == if n > 0 {
            1nat
        } else {
            0nat
        },
    decreases n,
{
    let start = consume_step(pending).0;
    if n > 0 {
        let m = (n - 1) as nat;
        if m > 0 {
            lemma_requests_coalesce(pending, m);
            assert(after_requests(start, m));
        } else {
            assert(after_requests(start, m) == start);
            assert(wakeups_issued(start, m) == 0);
        }
    }
}

/// No wakeup is lost to the race with parking: once the drive loop has consumed
/// the flag and decided to park, the first request that follows, from whatever
/// context, issues the kernel wakeup, so the blocking call returns.
pub proof fn lemma_request_after_consume_wakes(pending: bool)
    ensures
        request_step(consume_step(pending).0).1,
        consume_step(request_step(consume_step(pending).0).0).1,
{
}

} // verus!
