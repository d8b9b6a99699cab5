//! Collapsing bursts of render requests into one render.
//!
//! A request starts a timer unless one is already running; when the timer
//! expires a single render is emitted. However many requests arrive while the
//! timer runs, they cost one render.

use vstd::prelude::*;
use crate::action::{Action, ActionView};

verus! {

/// The time a render request waits for others to join it where no other time
/// is asked for, in milliseconds.
pub const DEBOUNCE_MILLIS: u64 = 0;

/// The state of the coalescer: the time that its timer runs, and whether a
/// render is already scheduled.
pub struct Debouncer {
    delay_millis: u64,
    scheduled: bool,
}

/// Whether a render is scheduled after `requests` requests, given whether one
/// was scheduled before them.
pub open spec fn scheduled_after(scheduled: bool, requests: nat) -> bool {
    scheduled || requests > 0
}

/// The number of timers that `requests` requests start, given whether a render
/// was scheduled before them: the first request starts one if none is running,
/// and no later request does.
pub open spec fn timers_started(scheduled: bool, requests: nat) -> nat
    decreases requests,
{
    if requests == 0 {
        0
    } else {
        timers_started(scheduled, (requests - 1) as nat) + if scheduled_after(
            scheduled,
            (requests - 1) as nat,
        ) {
            0nat
        } else {
            1nat
        }
    }
}

impl Debouncer {
    /// Whether a render is scheduled.
    pub closed spec fn scheduled(&self) -> bool {
        self.scheduled
    }

    /// The time that the timer runs, in milliseconds.
    pub closed spec fn delay(&self) -> u64 {
        self.delay_millis
    }

    /// A coalescer with nothing scheduled, whose timer runs the default time.
    pub fn new() -> (debouncer: Debouncer)
        ensures
            !debouncer.scheduled(),
            debouncer.delay() == DEBOUNCE_MILLIS,
    {
        Debouncer { delay_millis: DEBOUNCE_MILLIS, scheduled: false }
    }

    /// A coalescer with nothing scheduled, whose timer runs `delay_millis`
    /// milliseconds.
    pub fn with_delay(delay_millis: u64) -> (debouncer: Debouncer)
        ensures
            !debouncer.scheduled(),
            debouncer.delay() == delay_millis,
    {
        Debouncer { delay_millis, scheduled: false }
    }

    /// The time that the timer runs, in milliseconds.
    pub fn delay_millis(&self) -> (millis: u64)
        ensures
            millis == self.delay(),
    {
        self.delay_millis
    }

    /// Whether a render is scheduled.
    pub fn is_scheduled(&self) -> (scheduled: bool)
        ensures
            scheduled == self.scheduled(),
    {
        self.scheduled
    }

    /// Asks for a render soon. Returns whether the caller has to start the
    /// timer: it does when no render was scheduled, and the request is dropped
    /// otherwise.
    pub fn request(&mut self) -> (start_timer: bool)
        ensures
            start_timer == !old(self).scheduled(),
            final(self).scheduled(),
            final(self).delay() == old(self).delay(),
    {
        if self.scheduled {
            return false;
        }
        self.scheduled = true;
        true
    }

    /// Asks for a render `requests` times in a row and returns how many timers
    /// the caller has to start.
    pub fn request_burst(&mut self, requests: usize) -> (timers: usize)
        ensures
            timers == timers_started(old(self).scheduled(), requests as nat),
            final(self).scheduled() == scheduled_after(old(self).scheduled(), requests as nat),
            final(self).delay() == old(self).delay(),
    {
        let mut timers: usize = 0;
        let mut made: usize = 0;
        while made < requests
            invariant
                made <= requests,
                timers <= made,
                timers == timers_started(old(self).scheduled(), made as nat),
                self.scheduled() == scheduled_after(old(self).scheduled(), made as nat),
                self.delay() == old(self).delay(),
            decreases requests - made,
        {
            if self.request() {
                timers = timers + 1;
            }
            made = made + 1;
        }
        timers
    }

    /// The timer has expired: the scheduled render is due, and the next request
    /// starts a new timer.
    pub fn expire(&mut self) -> (render: Action)
        ensures
            render@ == ActionView::Render,
            !final(self).scheduled(),
            final(self).delay() == old(self).delay(),
    {
        self.scheduled = false;
        Action::Render
    }
}

/// A burst of requests costs one render: from rest, any number of requests
/// above zero starts exactly one timer and leaves a render scheduled; while a
/// render is scheduled, no number of requests starts another.
pub proof fn lemma_burst_starts_one_timer(requests: nat)
    ensures
        requests > 0 ==> timers_started(false, requests) == 1,
        requests > 0 ==> scheduled_after(false, requests),
        timers_started(true, requests) == 0,
    decreases requests,
{
    if requests > 0 {
        lemma_burst_starts_one_timer((requests - 1) as nat);
        assert(timers_started(false, 0) == 0);
    }
}

} // verus!
