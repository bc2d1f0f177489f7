//! Orderly shutdown on an external interrupt.

use vstd::prelude::*;
use crate::session::{CloseStep, Link, Session};

verus! {

/// Where the process stands.
#[derive(Clone, Copy, PartialEq, Eq, Structural, Debug)]
pub enum Phase {
    Running,
    /// The interrupt was seen; the session is being closed.
    Draining,
    Stopped,
}

/// Drives the teardown of a session when the interrupt arrives.
#[derive(Clone, Copy, PartialEq, Eq, Structural, Debug)]
pub struct ShutdownCoordinator {
    pub phase: Phase,
    /// Whether listening for the interrupt failed.
    pub listener_failed: bool,
}

impl ShutdownCoordinator {
    /// A coordinator of a running process.
    pub fn new() -> (c: ShutdownCoordinator)
        ensures
            c.phase == Phase::Running,
            !c.listener_failed,
    {
        ShutdownCoordinator { phase: Phase::Running, listener_failed: false }
    }

    /// The interrupt was seen. A running process starts to drain: the session
    /// is closed, and the result lists what to ask of the broker, the channel
    /// first. The interrupt counts once: later ones change nothing.
    pub fn interrupt(&mut self, session: &mut Session) -> (steps: Vec<CloseStep>)
        ensures
            final(self).listener_failed == old(self).listener_failed,
            old(self).phase == Phase::Running ==> {
                &&& final(self).phase == Phase::Draining
                &&& steps@ == old(session).close_steps()
                &&& *final(session) == match old(session).after_close() {
                    Ok(s) => s,
                    Err(_) => *old(session),
                }
            },
            old(self).phase != Phase::Running ==> {
                &&& final(self).phase == old(self).phase
                &&& steps@ == Seq::<CloseStep>::empty()
                &&& *final(session) == *old(session)
            },
    {
        match self.phase {
            Phase::Running => {
                self.phase = Phase::Draining;
                match session.close() {
                    Ok(steps) => steps,
                    Err(_) => Vec::new(),
                }
            },
            _ => Vec::new(),
        }
    }

    /// The broker has closed channel and connection: a draining process stops.
    /// In another phase nothing changes.
    pub fn closed(&mut self) -> (moved: bool)
        ensures
            moved == (old(self).phase == Phase::Draining),
            final(self).phase == if moved {
                Phase::Stopped
            } else {
                old(self).phase
            },
            final(self).listener_failed == old(self).listener_failed,
    {
        match self.phase {
            Phase::Draining => {
                self.phase = Phase::Stopped;
                true
            },
            _ => false,
        }
    }

    /// Listening for the interrupt failed. A running process stops at once,
    /// without closing the session, and the failure is kept for the exit code.
    pub fn listen_failed(&mut self) -> (moved: bool)
        ensures
            moved == (old(self).phase == Phase::Running),
            final(self).phase == if moved {
                Phase::Stopped
            } else {
                old(self).phase
            },
            final(self).listener_failed == (old(self).listener_failed || moved),
    {
        match self.phase {
            Phase::Running => {
                self.phase = Phase::Stopped;
                self.listener_failed = true;
                true
            },
            _ => false,
        }
    }

    /// The exit code of the process: 0 after a clean shutdown, 1 where
    /// listening for the interrupt failed.
    pub fn exit_code(&self) -> (code: u8)
        ensures
            code == if self.listener_failed {
                1u8
            } else {
                0u8
            },
    {
        if self.listener_failed {
            1
        } else {
            0
        }
    }
}

/// An interrupt on a session with both links open asks for the channel's
/// close and then the connection's, and a second close of that session asks
/// for nothing.
pub proof fn law_interrupt_closes_in_order(s: Session)
    requires
        s.usable(),
    ensures
        s.close_steps() == seq![CloseStep::Channel, CloseStep::Connection],
        s.after_close() is Ok,
        s.after_close().unwrap().connection == Link::Closed,
        s.after_close().unwrap().channel == Link::Closed,
        s.after_close().unwrap().close_steps() == Seq::<CloseStep>::empty(),
{
}

} // verus!
