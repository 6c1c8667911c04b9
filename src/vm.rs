use vstd::prelude::*;
use crate::broadcaster::ThreadId;
use crate::error::Error;
use crate::exec::{Progress, Step};

verus! {

/// A command to the scheduler.
#[derive(Debug, Copy, Clone, PartialEq, Eq, Structural)]
pub enum Control {
    Continue,
    Pause,
    Step,
}

/// Something the scheduler's loop observed.
#[derive(Debug)]
pub enum Event {
    /// A step of this thread completed.
    Thread(ThreadId),
    /// A step failed.
    Error(Error),
    /// The redraw timer fired.
    Redraw,
    /// A control command arrived; `None` once the control channel is closed.
    Control(Option<Control>),
}

/// What the loop does next.
#[derive(Debug)]
pub struct Actions {
    /// Threads to step once more.
    pub run: Vec<ThreadId>,
    /// Redraw now and arm the timer again.
    pub redraw: bool,
    /// Wait for the next control command.
    pub listen_control: bool,
    /// End the run with this error.
    pub abort: Option<Error>,
}

/// The decisions of the scheduler's loop: which threads run on, which are held while
/// paused, and when the run ends.
#[derive(Debug)]
pub struct Scheduler {
    state: Control,
    paused_threads: Vec<ThreadId>,
    aborted: bool,
}

/// The event a completed thread step stands for.
pub open spec fn spec_event_of(id: ThreadId, step: Step) -> Event {
    match step.result {
        Err(e) => Event::Error(e),
        Ok(_) => Event::Thread(id),
    }
}

/// The event a completed thread step stands for.
pub fn event_of(id: ThreadId, step: Step) -> (r: Event)
    ensures
        r == spec_event_of(id, step),
{
    match step.result {
        Err(e) => Event::Error(e),
        Ok(_) => Event::Thread(id),
    }
}

impl Scheduler {
    pub closed spec fn spec_state(&self) -> Control {
        self.state
    }

    pub closed spec fn spec_paused(&self) -> Seq<ThreadId> {
        self.paused_threads@
    }

    pub closed spec fn spec_aborted(&self) -> bool {
        self.aborted
    }

    /// A running scheduler holding no thread.
    pub fn new() -> (r: Self)
        ensures
            r.spec_state() == Control::Continue,
            r.spec_paused().len() == 0,
            !r.spec_aborted(),
    {
        Scheduler { state: Control::Continue, paused_threads: Vec::new(), aborted: false }
    }

    pub fn is_aborted(&self) -> (r: bool)
        ensures
            r == self.spec_aborted(),
    {
        self.aborted
    }

    /// Decides what follows `event`. A failed step ends the whole run with its error;
    /// nothing happens after that.
    pub fn on_event(&mut self, event: Event) -> (r: Actions)
        ensures
            old(self).spec_aborted() ==> final(self).spec_aborted() && r.run@.len() == 0 && !r.redraw
                && !r.listen_control && r.abort is None,
            !old(self).spec_aborted() ==> match event {
                Event::Error(e) => final(self).spec_aborted() && r.abort == Some(e) && r.run@.len()
                    == 0 && !r.redraw && !r.listen_control,
                Event::Thread(id) => !final(self).spec_aborted() && r.abort is None && !r.redraw
                    && !r.listen_control && final(self).spec_state() == old(self).spec_state() && if old(
                    self,
                ).spec_state() == Control::Continue {
                    r.run@ == seq![id] && final(self).spec_paused() == old(self).spec_paused()
                } else {
                    r.run@.len() == 0 && final(self).spec_paused() == old(self).spec_paused().push(id)
                },
                Event::Redraw => !final(self).spec_aborted() && r.abort is None && r.redraw
                    && r.run@.len() == 0 && !r.listen_control && final(self).spec_state() == old(
                    self,
                ).spec_state() && final(self).spec_paused() == old(self).spec_paused(),
                Event::Control(Some(c)) => !final(self).spec_aborted() && r.abort is None
                    && !r.redraw && r.listen_control && final(self).spec_state() == (if c
                    == Control::Step {
                    Control::Pause
                } else {
                    c
                }) && if c == Control::Pause {
                    r.run@.len() == 0 && final(self).spec_paused() == old(self).spec_paused()
                } else {
                    r.run@ == old(self).spec_paused() && final(self).spec_paused().len() == 0
                },
                Event::Control(None) => !final(self).spec_aborted() && r.abort is None && !r.redraw
                    && !r.listen_control && r.run@.len() == 0 && final(self).spec_state() == old(
                    self,
                ).spec_state() && final(self).spec_paused() == old(self).spec_paused(),
            },
    {
        let mut r = Actions { run: Vec::new(), redraw: false, listen_control: false, abort: None };
        if self.aborted {
            return r;
        }
        match event {
            Event::Error(e) => {
                self.aborted = true;
                r.abort = Some(e);
            },
            Event::Thread(id) => match self.state {
                Control::Continue => {
                    r.run.push(id);
                    assert(r.run@ =~= seq![id]);
                },
                _ => {
                    self.paused_threads.push(id);
                },
            },
            Event::Redraw => {
                r.redraw = true;
            },
            Event::Control(Some(c)) => {
                // a step releases the held threads for one pass and pauses again at once
                self.state = match c {
                    Control::Step => Control::Pause,
                    _ => c,
                };
                r.listen_control = true;
                match c {
                    Control::Pause => {},
                    _ => {
                        r.run = self.paused_threads.clone();
                        self.paused_threads = Vec::new();
                    },
                }
            },
            Event::Control(None) => {},
        }
        r
    }
}

/// A failed thread step ends the run: its error reaches the loop's caller unchanged, and
/// no event after it starts anything.
pub proof fn law_fatal_abort(id: ThreadId, step: Step, e: Error)
    requires
        step.result == Err::<Progress, Error>(e),
    ensures
        spec_event_of(id, step) == Event::Error(e),
{
}

} // verus!
