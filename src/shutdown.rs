//! Shutdown coordination: Running, then Draining once a termination signal
//! arrives, then Stopped when the last in-flight request finishes, the drain
//! grace period ends, or a second signal forces it. Stopped is final.
use vstd::prelude::*;

verus! {

#[derive(Debug, Clone, Copy, PartialEq, Eq, Structural)]
pub enum Phase {
    Running,
    Draining,
    Stopped,
}

/// The coordinator's state: its phase and the number of requests in flight.
pub struct Coordinator {
    phase: Phase,
    in_flight: u64,
}

/// The abstract state: phase and in-flight count.
pub struct CoordState {
    pub phase: Phase,
    pub in_flight: nat,
}

/// Well-formed: a draining coordinator still has work in flight.
pub open spec fn state_wf(s: CoordState) -> bool {
    s.phase == Phase::Draining ==> s.in_flight > 0
}

/// Accepting a new request: only while running.
pub open spec fn accept_step(s: CoordState) -> (CoordState, bool) {
    if s.phase == Phase::Running && s.in_flight < u64::MAX {
        (CoordState { phase: s.phase, in_flight: s.in_flight + 1 }, true)
    } else {
        (s, false)
    }
}

/// A request finished; the last one to finish while draining stops the coordinator.
pub open spec fn finish_step(s: CoordState) -> CoordState {
    if s.in_flight == 0 {
        s
    } else if s.phase == Phase::Draining && s.in_flight == 1 {
        CoordState { phase: Phase::Stopped, in_flight: 0 }
    } else {
        CoordState { phase: s.phase, in_flight: (s.in_flight - 1) as nat }
    }
}

/// A termination signal: running begins to drain (or stops at once when idle);
/// a second signal while draining forces the stop.
pub open spec fn signal_step(s: CoordState) -> CoordState {
    match s.phase {
        Phase::Running => if s.in_flight == 0 {
            CoordState { phase: Phase::Stopped, in_flight: 0 }
        } else {
            CoordState { phase: Phase::Draining, in_flight: s.in_flight }
        },
        _ => CoordState { phase: Phase::Stopped, in_flight: s.in_flight },
    }
}

/// The drain grace period ended.
pub open spec fn grace_step(s: CoordState) -> CoordState {
    if s.phase == Phase::Draining {
        CoordState { phase: Phase::Stopped, in_flight: s.in_flight }
    } else {
        s
    }
}

impl Coordinator {
    pub closed spec fn state(&self) -> CoordState {
        CoordState { phase: self.phase, in_flight: self.in_flight as nat }
    }

    pub open spec fn wf(&self) -> bool {
        state_wf(self.state())
    }

    /// A running coordinator with nothing in flight.
    pub fn new() -> (r: Coordinator)
        ensures
            r.wf(),
            r.state() == (CoordState { phase: Phase::Running, in_flight: 0 }),
    {
        Coordinator { phase: Phase::Running, in_flight: 0 }
    }

    pub fn phase(&self) -> (r: Phase)
        ensures
            r == self.state().phase,
    {
        self.phase
    }

    pub fn in_flight(&self) -> (r: u64)
        ensures
            r as nat == self.state().in_flight,
    {
        self.in_flight
    }

    pub fn is_stopped(&self) -> (r: bool)
        ensures
            r == (self.state().phase == Phase::Stopped),
    {
        self.phase == Phase::Stopped
    }

    /// Asks to start a new request; refused unless running.
    pub fn accept(&mut self) -> (r: bool)
        requires
            old(self).wf(),
        ensures
            final(self).wf(),
            (final(self).state(), r) == accept_step(old(self).state()),
    {
        if self.phase == Phase::Running && self.in_flight < u64::MAX {
            self.in_flight = self.in_flight + 1;
            true
        } else {
            false
        }
    }

    /// Records that an accepted request finished; returns whether one was in flight.
    pub fn finish(&mut self) -> (r: bool)
        requires
            old(self).wf(),
        ensures
            final(self).wf(),
            final(self).state() == finish_step(old(self).state()),
            r == (old(self).state().in_flight > 0),
    {
        if self.in_flight == 0 {
            return false;
        }
        if self.phase == Phase::Draining && self.in_flight == 1 {
            self.phase = Phase::Stopped;
        }
        self.in_flight = self.in_flight - 1;
        true
    }

    /// A termination signal arrived.
    pub fn signal(&mut self)
        requires
            old(self).wf(),
        ensures
            final(self).wf(),
            final(self).state() == signal_step(old(self).state()),
    {
        match self.phase {
            Phase::Running => {
                if self.in_flight == 0 {
                    self.phase = Phase::Stopped;
                } else {
                    self.phase = Phase::Draining;
                }
            },
            _ => {
                self.phase = Phase::Stopped;
            },
        }
    }

    /// The drain grace period ended.
    pub fn grace_elapsed(&mut self)
        requires
            old(self).wf(),
        ensures
            final(self).wf(),
            final(self).state() == grace_step(old(self).state()),
    {
        if self.phase == Phase::Draining {
            self.phase = Phase::Stopped;
        }
    }
}

/// A signal during a request: the coordinator drains, refuses every new
/// request, keeps the request in flight, and stops once that request finishes.
pub proof fn lemma_signal_drains_in_flight(s: CoordState)
    requires
        state_wf(s),
        s.phase == Phase::Running,
        s.in_flight == 1,
    ensures
        signal_step(s).phase == Phase::Draining,
        signal_step(s).in_flight == 1,
        !accept_step(signal_step(s)).1,
        accept_step(signal_step(s)).0 == signal_step(s),
        finish_step(signal_step(s)).phase == Phase::Stopped,
{
}

/// Once a signal has arrived, no new request is accepted.
pub proof fn lemma_no_acceptance_after_signal(s: CoordState)
    requires
        s.phase != Phase::Running,
    ensures
        !accept_step(s).1,
        accept_step(s).0 == s,
{
}

/// While draining, the coordinator stops exactly when the last request finishes.
pub proof fn lemma_drain_ends_with_last_request(s: CoordState)
    requires
        state_wf(s),
        s.phase == Phase::Draining,
    ensures
        finish_step(s).phase == Phase::Stopped <==> s.in_flight == 1,
{
}

/// Stopped is final: no event leaves it.
pub proof fn lemma_stopped_is_final(s: CoordState)
    requires
        s.phase == Phase::Stopped,
    ensures
        accept_step(s).0.phase == Phase::Stopped,
        finish_step(s).phase == Phase::Stopped,
        signal_step(s).phase == Phase::Stopped,
        grace_step(s).phase == Phase::Stopped,
{
}

} // verus!
