//! The dispatcher: one state machine per dispatch attempt.
//!
//! A dispatch runs `BusyCheck -> HealthCheck -> Acquire -> Execute` and ends
//! in `Succeeded`, `Failed`, or `Dropped`. The machine itself only decides;
//! the surrounding task performs each returned [`DispatchAction`] (queries
//! the state authority, probes and acquires the session, runs the driver,
//! sleeps between retries) and feeds the outcome back as the next
//! [`DispatchEvent`].
//!
//! Every terminal action that ends a dispatch which holds the busy flag
//! releases it (`ReportSuccessAndRelease`, `ReportFailureAndRelease`), so no
//! path leaves an agent stuck busy.

use vstd::prelude::*;

verus! {

/// How many times the driver is invoked before a dispatch gives up.
pub const MAX_RETRIES: u64 = 2;

/// Seconds to wait between two driver attempts.
pub const RETRY_DELAY_SECS: u64 = 5;

#[derive(Clone, Copy, PartialEq, Eq, Structural, Debug)]
pub enum DispatchPhase {
    /// Awaiting the result of the atomic `try_set_busy` entry guard.
    BusyCheck,
    /// Holding the busy flag; awaiting the health probe result.
    HealthCheck,
    /// Awaiting session acquisition (reuse, or fresh construction).
    Acquire,
    /// Awaiting the driver's outcome; `attempts_left` counts the running
    /// attempt as well.
    Execute { attempts_left: u64 },
    /// Terminal: the task succeeded and the busy flag has been released.
    Succeeded,
    /// Terminal: no session, or retries exhausted; the agent was reported
    /// failed and the busy flag has been released.
    Failed,
    /// Terminal: the agent was already busy, so this dispatch was dropped
    /// silently without touching anything.
    Dropped,
}

/// What the dispatch task must do next.
#[derive(Clone, Copy, PartialEq, Eq, Structural, Debug)]
pub enum DispatchAction {
    /// Probe the agent's pooled session and feed back `Healthy`.
    RunHealthCheck,
    /// The probe failed: purge the pool entry so the next acquire builds
    /// fresh, then acquire, and feed back `SessionReady`. Recovery is
    /// attempted inline; the dispatch goes on.
    PurgeThenAcquire,
    /// Acquire a session via the pool and feed back `SessionReady`.
    AcquireSession,
    /// Hand the prompt to the agent driver and feed back `DriverFinished`.
    InvokeDriver,
    /// Wait [`RETRY_DELAY_SECS`], invoke the driver again, and feed back
    /// `DriverFinished`.
    RetryAfterDelay,
    /// Post the terminal failed/unreachable status and release the busy flag.
    ReportFailureAndRelease,
    /// Post the completed status and release the busy flag.
    ReportSuccessAndRelease,
    /// Nothing further: the dispatch is over.
    Stop,
}

/// An outcome fed back into the machine by the dispatch task.
#[derive(Clone, Copy, PartialEq, Eq, Structural, Debug)]
pub enum DispatchEvent {
    /// Result of `try_set_busy`: `true` means the flag was clear and this
    /// dispatch now holds it.
    BusyAcquired(bool),
    /// Result of the health probe; `false` covers timeouts and transport
    /// errors as well.
    Healthy(bool),
    /// Whether a session handle was obtained; construction can fail.
    SessionReady(bool),
    /// Whether the driver completed the task.
    DriverFinished(bool),
}

/// One dispatch attempt: its phase and how often the driver has been invoked.
#[derive(Clone, Copy, PartialEq, Eq, Structural, Debug)]
pub struct DispatchMachine {
    pub phase: DispatchPhase,
    pub invocations: u64,
}

/// The machine's transition function; `step` is its executable twin.
pub open spec fn spec_step(m: DispatchMachine, e: DispatchEvent) -> (DispatchMachine, DispatchAction) {
    match (m.phase, e) {
        (DispatchPhase::BusyCheck, DispatchEvent::BusyAcquired(got)) => {
            if got {
                (DispatchMachine { phase: DispatchPhase::HealthCheck, ..m },
                    DispatchAction::RunHealthCheck)
            } else {
                (DispatchMachine { phase: DispatchPhase::Dropped, ..m }, DispatchAction::Stop)
            }
        },
        (DispatchPhase::HealthCheck, DispatchEvent::Healthy(ok)) => {
            if ok {
                (DispatchMachine { phase: DispatchPhase::Acquire, ..m },
                    DispatchAction::AcquireSession)
            } else {
                (DispatchMachine { phase: DispatchPhase::Acquire, ..m },
                    DispatchAction::PurgeThenAcquire)
            }
        },
        (DispatchPhase::Acquire, DispatchEvent::SessionReady(ready)) => {
            if ready {
                (DispatchMachine {
                    phase: DispatchPhase::Execute { attempts_left: MAX_RETRIES },
                    invocations: (m.invocations + 1) as u64,
                }, DispatchAction::InvokeDriver)
            } else {
                (DispatchMachine { phase: DispatchPhase::Failed, ..m },
                    DispatchAction::ReportFailureAndRelease)
            }
        },
        (DispatchPhase::Execute { attempts_left }, DispatchEvent::DriverFinished(done)) => {
            if done {
                (DispatchMachine { phase: DispatchPhase::Succeeded, ..m },
                    DispatchAction::ReportSuccessAndRelease)
            } else if attempts_left > 1 {
                (DispatchMachine {
                    phase: DispatchPhase::Execute { attempts_left: (attempts_left - 1) as u64 },
                    invocations: (m.invocations + 1) as u64,
                }, DispatchAction::RetryAfterDelay)
            } else {
                (DispatchMachine { phase: DispatchPhase::Failed, ..m },
                    DispatchAction::ReportFailureAndRelease)
            }
        },
        _ => (m, DispatchAction::Stop),
    }
}

impl DispatchMachine {
    /// The relation the machine maintains between its phase and its
    /// invocation count.
    pub open spec fn inv(self) -> bool {
        &&& (self.phase matches DispatchPhase::BusyCheck ==> self.invocations == 0)
        &&& (self.phase matches DispatchPhase::HealthCheck ==> self.invocations == 0)
        &&& (self.phase matches DispatchPhase::Acquire ==> self.invocations == 0)
        &&& (self.phase matches DispatchPhase::Execute { attempts_left } ==> {
            &&& 1 <= attempts_left <= MAX_RETRIES
            &&& self.invocations + attempts_left == MAX_RETRIES + 1
        })
        &&& (self.phase matches DispatchPhase::Dropped ==> self.invocations == 0)
        &&& self.invocations <= MAX_RETRIES
    }

    /// A fresh dispatch attempt, about to run its entry guard.
    pub fn start() -> (r: DispatchMachine)
        ensures
            r == (DispatchMachine { phase: DispatchPhase::BusyCheck, invocations: 0 }),
            r.inv(),
    {
        DispatchMachine { phase: DispatchPhase::BusyCheck, invocations: 0 }
    }

    pub open spec fn is_terminal(self) -> bool {
        self.phase is Succeeded || self.phase is Failed || self.phase is Dropped
    }

    /// Feeds one event into the machine and returns the next action to
    /// perform.
    pub fn step(&mut self, event: DispatchEvent) -> (a: DispatchAction)
        requires
            old(self).inv(),
        ensures
            (*final(self), a) == spec_step(*old(self), event),
            final(self).inv(),
    {
        proof {
            lemma_step_preserves_inv(*self, event);
        }
        let next = match (self.phase, event) {
            (DispatchPhase::BusyCheck, DispatchEvent::BusyAcquired(got)) => {
                if got {
                    (DispatchPhase::HealthCheck, self.invocations, DispatchAction::RunHealthCheck)
                } else {
                    (DispatchPhase::Dropped, self.invocations, DispatchAction::Stop)
                }
            },
            (DispatchPhase::HealthCheck, DispatchEvent::Healthy(ok)) => {
                if ok {
                    (DispatchPhase::Acquire, self.invocations, DispatchAction::AcquireSession)
                } else {
                    (DispatchPhase::Acquire, self.invocations, DispatchAction::PurgeThenAcquire)
                }
            },
            (DispatchPhase::Acquire, DispatchEvent::SessionReady(ready)) => {
                if ready {
                    (DispatchPhase::Execute { attempts_left: MAX_RETRIES },
                        self.invocations + 1, DispatchAction::InvokeDriver)
                } else {
                    (DispatchPhase::Failed, self.invocations,
                        DispatchAction::ReportFailureAndRelease)
                }
            },
            (DispatchPhase::Execute { attempts_left }, DispatchEvent::DriverFinished(done)) => {
                if done {
                    (DispatchPhase::Succeeded, self.invocations,
                        DispatchAction::ReportSuccessAndRelease)
                } else if attempts_left > 1 {
                    (DispatchPhase::Execute { attempts_left: attempts_left - 1 },
                        self.invocations + 1, DispatchAction::RetryAfterDelay)
                } else {
                    (DispatchPhase::Failed, self.invocations,
                        DispatchAction::ReportFailureAndRelease)
                }
            },
            (phase, _) => (phase, self.invocations, DispatchAction::Stop),
        };
        self.phase = next.0;
        self.invocations = next.1;
        next.2
    }
}

/// Every step keeps the phase/invocation relation intact.
pub proof fn lemma_step_preserves_inv(m: DispatchMachine, e: DispatchEvent)
    requires
        m.inv(),
    ensures
        spec_step(m, e).0.inv(),
{
}

/// A terminal dispatch stays terminal: further events change nothing and ask
/// for nothing.
pub proof fn lemma_terminal_absorbs(m: DispatchMachine, e: DispatchEvent)
    requires
        m.is_terminal(),
    ensures
        spec_step(m, e) == (m, DispatchAction::Stop),
{
}

/// The phases during which a dispatch holds its agent's busy flag.
pub open spec fn holds_busy_flag(phase: DispatchPhase) -> bool {
    phase is HealthCheck || phase is Acquire || phase is Execute
}

/// No path strands the busy flag: a step out of a flag-holding phase either
/// stays in a flag-holding phase or ends the dispatch with an action that
/// releases the flag — success, retry exhaustion, and failed acquisition
/// alike. A stuck flag would starve the agent permanently.
pub proof fn lemma_no_stuck_busy_flag(m: DispatchMachine, e: DispatchEvent)
    requires
        m.inv(),
        holds_busy_flag(m.phase),
    ensures
        ({
            let (m2, a) = spec_step(m, e);
            holds_busy_flag(m2.phase)
                || a == DispatchAction::ReportSuccessAndRelease
                || a == DispatchAction::ReportFailureAndRelease
        }),
{
}

/// Retry bound: once a dispatch has acquired its session, a driver that
/// always fails is invoked exactly [`MAX_RETRIES`] times — the initial
/// invocation and one delayed retry — before the dispatch reaches the
/// terminal `Failed` phase, whose entry action reports the failure and
/// releases the busy flag.
pub proof fn lemma_retry_bound(m0: DispatchMachine)
    requires
        m0.inv(),
        m0.phase is Acquire,
    ensures
        ({
            let (m1, a1) = spec_step(m0, DispatchEvent::SessionReady(true));
            let (m2, a2) = spec_step(m1, DispatchEvent::DriverFinished(false));
            let (m3, a3) = spec_step(m2, DispatchEvent::DriverFinished(false));
            &&& a1 == DispatchAction::InvokeDriver
            &&& a2 == DispatchAction::RetryAfterDelay
            &&& a3 == DispatchAction::ReportFailureAndRelease
            &&& m3.phase is Failed
            &&& m3.invocations == MAX_RETRIES
        }),
{
}

/// At most one dispatch per agent is in flight: while some dispatch holds an
/// agent's busy flag, the atomic entry guard hands every further dispatch
/// attempt for that agent a `false`, and the machine drops it silently — it
/// terminates at once, with no driver invocation and nothing to do.
pub proof fn lemma_busy_agent_drops_second_dispatch(
    s: crate::state::StateActor,
    agent: Seq<char>,
    m: DispatchMachine,
    guard: bool,
)
    requires
        s.busy(agent),
        guard == !s.busy(agent),
        m.inv(),
        m.phase is BusyCheck,
    ensures
        spec_step(m, DispatchEvent::BusyAcquired(guard)).0.phase is Dropped,
        spec_step(m, DispatchEvent::BusyAcquired(guard)).0.invocations == 0,
        spec_step(m, DispatchEvent::BusyAcquired(guard)).1 == DispatchAction::Stop,
{
}

} // verus!
