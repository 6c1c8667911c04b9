use vstd::prelude::*;

verus! {

/// The barrier's state as the laws see it: pending permits, and whether it blocks.
pub struct BarrierView {
    pub permits: nat,
    pub blocking: bool,
}

/// Every how many passes an unblocked barrier lets the host's own work run.
pub const YIELD_EVERY: u64 = 0x1000;

pub open spec fn spec_add_permit(s: BarrierView) -> BarrierView {
    BarrierView {
        permits: if s.permits < u64::MAX {
            s.permits + 1
        } else {
            s.permits
        },
        blocking: s.blocking,
    }
}

/// A blocking barrier lets a thread through only on a permit; an open one always does.
pub open spec fn spec_passes(s: BarrierView) -> bool {
    !s.blocking || s.permits > 0
}

/// The barrier after a thread asked to pass.
pub open spec fn spec_acquire(s: BarrierView) -> BarrierView {
    if s.blocking && s.permits > 0 {
        BarrierView { permits: (s.permits - 1) as nat, blocking: true }
    } else {
        s
    }
}

pub open spec fn spec_pause(s: BarrierView) -> BarrierView {
    BarrierView { permits: 0, blocking: true }
}

pub open spec fn spec_continue(s: BarrierView) -> BarrierView {
    BarrierView { permits: 1, blocking: false }
}

pub open spec fn spec_step(s: BarrierView) -> BarrierView {
    spec_add_permit(s)
}

/// What a thread asking to pass is told.
#[derive(Debug, Copy, Clone, PartialEq, Eq, Structural)]
pub enum Pass {
    /// Go on.
    Go,
    /// Let the host run its own work once, then go on.
    YieldThenGo,
    /// Wait until the barrier changes, then ask again.
    Wait,
}

/// A barrier every thread step passes: open, or blocking and granting one pass per permit.
#[derive(Debug)]
pub struct ControllerSemaphore {
    permits: u64,
    blocking: bool,
    i: u64,
}

impl ControllerSemaphore {
    pub closed spec fn view(&self) -> BarrierView {
        BarrierView { permits: self.permits as nat, blocking: self.blocking }
    }

    /// How many passes the barrier has let through, counted modulo 2^64.
    pub closed spec fn spec_passed(&self) -> u64 {
        self.i
    }

    /// An open barrier with no permit.
    pub fn new() -> (r: Self)
        ensures
            r.view() == (BarrierView { permits: 0, blocking: false }),
            r.spec_passed() == 0,
    {
        Self { permits: 0, blocking: false, i: 0 }
    }

    /// Lets a thread through if the barrier allows it, taking a permit where it blocks.
    pub fn acquire(&mut self) -> (r: Pass)
        ensures
            final(self).view() == spec_acquire(old(self).view()),
            (r != Pass::Wait) == spec_passes(old(self).view()),
            old(self).view().blocking ==> r != Pass::YieldThenGo,
            !old(self).view().blocking ==> (r == Pass::YieldThenGo <==> old(self).spec_passed()
                % YIELD_EVERY == 0),
            r != Pass::Wait ==> final(self).spec_passed() == (if old(self).spec_passed() == u64::MAX {
                0
            } else {
                (old(self).spec_passed() + 1) as u64
            }),
            r == Pass::Wait ==> final(self).spec_passed() == old(self).spec_passed(),
    {
        if self.blocking {
            if self.permits > 0 {
                self.permits = self.permits - 1;
            } else {
                return Pass::Wait;
            }
            self.i = self.i.wrapping_add(1);
            Pass::Go
        } else {
            let tick = self.i % YIELD_EVERY == 0;
            self.i = self.i.wrapping_add(1);
            if tick {
                Pass::YieldThenGo
            } else {
                Pass::Go
            }
        }
    }

    pub fn add_permit(&mut self)
        ensures
            final(self).spec_passed() == old(self).spec_passed(),
            final(self).view() == spec_add_permit(old(self).view()),
    {
        if self.permits < u64::MAX {
            self.permits = self.permits + 1;
        }
    }

    /// Switches blocking on or off; switching it off also grants a permit.
    pub fn set_blocking(&mut self, blocking: bool)
        ensures
            final(self).spec_passed() == old(self).spec_passed(),
            final(self).view().blocking == blocking,
            blocking ==> final(self).view().permits == old(self).view().permits,
            !blocking ==> final(self).view() == spec_add_permit(
                BarrierView { permits: old(self).view().permits, blocking: false },
            ),
    {
        self.blocking = blocking;
        if !blocking {
            self.add_permit();
        }
    }

    /// Drops every pending permit and opens the barrier.
    pub fn reset(&mut self)
        ensures
            final(self).spec_passed() == old(self).spec_passed(),
            final(self).view() == (BarrierView { permits: 0, blocking: false }),
    {
        self.permits = 0;
        self.blocking = false;
    }

    /// Whether a thread would get through now.
    pub fn available(&self) -> (r: bool)
        ensures
            r == spec_passes(self.view()),
    {
        self.permits > 0 || !self.blocking
    }
}

/// How fast a resumed simulation runs.
#[derive(Debug, Copy, Clone, PartialEq, Eq, Structural)]
pub enum Speed {
    Normal,
}

/// Pauses, single-steps or resumes every thread through one barrier.
#[derive(Debug)]
pub struct DebugController {
    semaphore: ControllerSemaphore,
    display_debug: bool,
}

impl DebugController {
    pub closed spec fn view(&self) -> BarrierView {
        self.semaphore.view()
    }

    pub closed spec fn spec_display_debug(&self) -> bool {
        self.display_debug
    }

    /// How many passes the barrier has let through, counted modulo 2^64.
    pub closed spec fn spec_passed(&self) -> u64 {
        self.semaphore.spec_passed()
    }

    pub fn new() -> (r: Self)
        ensures
            r.view() == (BarrierView { permits: 0, blocking: false }),
            !r.spec_display_debug(),
    {
        Self { semaphore: ControllerSemaphore::new(), display_debug: false }
    }

    /// Asked before every thread step.
    pub fn wait(&mut self) -> (r: Pass)
        ensures
            final(self).view() == spec_acquire(old(self).view()),
            (r != Pass::Wait) == spec_passes(old(self).view()),
            old(self).view().blocking ==> r != Pass::YieldThenGo,
            !old(self).view().blocking ==> (r == Pass::YieldThenGo <==> old(self).spec_passed()
                % YIELD_EVERY == 0),
            r != Pass::Wait ==> final(self).spec_passed() == (if old(self).spec_passed() == u64::MAX {
                0
            } else {
                (old(self).spec_passed() + 1) as u64
            }),
            r == Pass::Wait ==> final(self).spec_passed() == old(self).spec_passed(),
            final(self).spec_display_debug() == old(self).spec_display_debug(),
    {
        self.semaphore.acquire()
    }

    /// Drops pending permits, opens the barrier and grants one immediate pass.
    pub fn continue_(&mut self, _speed: Speed)
        ensures
            final(self).spec_passed() == old(self).spec_passed(),
            final(self).view() == spec_continue(old(self).view()),
            !final(self).spec_display_debug(),
    {
        self.semaphore.reset();
        self.semaphore.set_blocking(false);
        self.display_debug = false;
    }

    /// Drops pending permits and blocks the barrier.
    pub fn pause(&mut self)
        ensures
            final(self).spec_passed() == old(self).spec_passed(),
            final(self).view() == spec_pause(old(self).view()),
            final(self).spec_display_debug(),
    {
        self.semaphore.reset();
        self.semaphore.set_blocking(true);
        self.display_debug = true;
    }

    /// Grants exactly one pass, leaving the blocking mode as it is.
    pub fn step(&mut self)
        ensures
            final(self).spec_passed() == old(self).spec_passed(),
            final(self).view() == spec_step(old(self).view()),
            final(self).spec_display_debug() == old(self).spec_display_debug(),
    {
        self.semaphore.add_permit();
    }

    pub fn display_debug(&self) -> (r: bool)
        ensures
            r == self.spec_display_debug(),
    {
        self.display_debug
    }
}

/// Passing `n` times in a row, as long as the barrier lets each through.
pub open spec fn acquire_n(s: BarrierView, n: nat) -> BarrierView
    decreases n,
{
    if n == 0 {
        s
    } else {
        acquire_n(spec_acquire(s), (n - 1) as nat)
    }
}

/// After a pause, a thread waits, and waiting changes nothing; a step then lets exactly one
/// pass through; a continue lets every later pass through.
pub proof fn law_pause_step_continue(s: BarrierView, n: nat)
    ensures
        !spec_passes(spec_pause(s)),
        spec_acquire(spec_pause(s)) == spec_pause(s),
        spec_passes(spec_step(spec_pause(s))),
        !spec_passes(spec_acquire(spec_step(spec_pause(s)))),
        spec_passes(acquire_n(spec_continue(spec_pause(s)), n)),
{
    lemma_open_stays_open(spec_continue(spec_pause(s)), n);
}

proof fn lemma_open_stays_open(s: BarrierView, n: nat)
    requires
        !s.blocking,
    ensures
        !acquire_n(s, n).blocking,
        spec_passes(acquire_n(s, n)),
    decreases n,
{
    if n > 0 {
        lemma_open_stays_open(spec_acquire(s), (n - 1) as nat);
    }
}

} // verus!
