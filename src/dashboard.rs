//! The render loop's state: the snapshot on screen and whether the loop
//! still runs. Events arrive one at a time from the event bus.
use crate::teamcity::{Build, FetchError};
use vstd::prelude::*;

verus! {

/// A key the user pressed.
#[derive(PartialEq, Eq, Structural, Clone, Copy, Debug)]
pub enum Key {
    Char(char),
    Other,
}

/// One message on the event bus.
#[derive(Debug)]
pub enum Event {
    Input(Key),
    NewBuild(Build),
    Tick,
}

/// What the render loop does after an event.
#[derive(PartialEq, Eq, Structural, Clone, Copy, Debug)]
pub enum Action {
    /// Draw the current snapshot.
    Redraw,
    /// Nothing to do.
    Idle,
    /// Restore the terminal and leave the loop.
    Shutdown,
}

/// Whether the loop still draws and takes events.
#[derive(PartialEq, Eq, Structural, Clone, Copy, Debug)]
pub enum Phase {
    Running,
    ShuttingDown,
}

/// The render loop's state. It alone holds the snapshot on screen.
#[derive(Debug)]
pub struct Dashboard {
    pub latest: Build,
    pub phase: Phase,
}

/// The quit key: `q`.
pub open spec fn is_quit(k: Key) -> bool {
    k == Key::Char('q')
}

/// The key that ends the session.
pub fn is_quit_key(k: Key) -> (r: bool)
    ensures
        r == is_quit(k),
{
    k == Key::Char('q')
}

/// The loop's transition on one event: a quit key starts shutdown, other
/// keys are ignored, a tick redraws, a new snapshot replaces the held one
/// and redraws. Once shutting down, nothing changes any more.
pub open spec fn next(d: Dashboard, ev: Event) -> (Dashboard, Action) {
    if d.phase == Phase::ShuttingDown {
        (d, Action::Idle)
    } else {
        match ev {
            Event::Input(k) => if is_quit(k) {
                (Dashboard { latest: d.latest, phase: Phase::ShuttingDown }, Action::Shutdown)
            } else {
                (d, Action::Idle)
            },
            Event::Tick => (d, Action::Redraw),
            Event::NewBuild(b) => (Dashboard { latest: b, phase: Phase::Running }, Action::Redraw),
        }
    }
}

/// What the poller puts on the bus for one fetch: the new snapshot, or
/// nothing when the fetch failed.
pub open spec fn poll_outcome(r: Result<Build, FetchError>) -> Option<Event> {
    match r {
        Ok(b) => Some(Event::NewBuild(b)),
        Err(_) => None,
    }
}

/// The state after the poller's outcome for `r` has been delivered.
pub open spec fn after_poll(d: Dashboard, r: Result<Build, FetchError>) -> Dashboard {
    match poll_outcome(r) {
        Some(ev) => next(d, ev).0,
        None => d,
    }
}

/// The poller's decision for one fetch result.
pub fn poll_event(r: Result<Build, FetchError>) -> (e: Option<Event>)
    ensures
        e == poll_outcome(r),
{
    match r {
        Ok(b) => Some(Event::NewBuild(b)),
        Err(_) => None,
    }
}

impl Dashboard {
    /// A running dashboard that shows `initial`.
    pub fn new(initial: Build) -> (d: Dashboard)
        ensures
            d.latest == initial,
            d.phase == Phase::Running,
    {
        Dashboard { latest: initial, phase: Phase::Running }
    }

    /// The snapshot on screen.
    pub fn snapshot(&self) -> (b: &Build)
        ensures
            *b == self.latest,
    {
        &self.latest
    }

    /// Whether the loop still takes events.
    pub fn is_running(&self) -> (r: bool)
        ensures
            r == (self.phase == Phase::Running),
    {
        self.phase == Phase::Running
    }

    /// Handles one event.
    pub fn step(&mut self, ev: Event) -> (a: Action)
        ensures
            (*final(self), a) == next(*old(self), ev),
    {
        if self.phase == Phase::ShuttingDown {
            return Action::Idle;
        }
        match ev {
            Event::Input(k) => if is_quit_key(k) {
                self.phase = Phase::ShuttingDown;
                Action::Shutdown
            } else {
                Action::Idle
            },
            Event::Tick => Action::Redraw,
            Event::NewBuild(b) => {
                self.latest = b;
                Action::Redraw
            },
        }
    }
}

/// A failed background poll puts nothing on the bus, so the snapshot the
/// render loop holds afterwards is exactly the one it held before.
pub proof fn lemma_failed_poll_keeps_snapshot(d: Dashboard, e: FetchError)
    ensures
        poll_outcome(Err(e)) is None,
        after_poll(d, Err(e)) == d,
{
}

/// Once a quit key has been handled, the loop is shutting down and no later
/// event is acted upon: it changes nothing and leads to no action.
pub proof fn lemma_nothing_after_quit(d: Dashboard, k: Key, later: Event)
    requires
        d.phase == Phase::Running,
        is_quit(k),
    ensures
        next(d, Event::Input(k)).1 == Action::Shutdown,
        next(d, Event::Input(k)).0.phase == Phase::ShuttingDown,
        next(d, Event::Input(k)).0.latest == d.latest,
        next(next(d, Event::Input(k)).0, later) == (next(d, Event::Input(k)).0, Action::Idle),
{
}

} // verus!
