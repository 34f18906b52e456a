//! The reconnection supervisor.
//!
//! The supervisor owns the process-level retry policy: it counts connection
//! attempts, decides after each session's end whether another one starts,
//! and, while no session is active, folds bus events into its pending
//! command list.  Starting sessions, sleeping out the backoff and carrying
//! events is the caller's; the supervisor only decides.

use vstd::prelude::*;
use crate::data::{clone_commands, Command, Event};
use crate::session::SessionOutcome;

verus! {

/// The supervisor's state.
pub struct Supervisor {
    /// Connection attempts since the last clean disconnect (or re-arm).
    pub attempts: u64,
    /// Whether a new session should be started when none runs.
    pub want_retry: bool,
    /// Commands issued while no session was active, replayed to the next one.
    pub pending: Vec<Command>,
    /// Whether the process remains up across disconnects and failures.
    pub remain: bool,
    /// Attempts allowed before the supervisor gives up until new input.
    pub max_attempts: u64,
}

/// The supervisor's state as mathematical values.
pub struct SupervisorModel {
    pub attempts: int,
    pub want_retry: bool,
    pub pending: Seq<Command>,
    pub remain: bool,
    pub max_attempts: int,
}

/// What ending a session does to the supervisor; the second component says
/// whether the whole loop stops.  A clean disconnect resets the attempt
/// counter and drops the pending commands; a failure drops the pending
/// commands and keeps the counter; after any of them the supervisor retries
/// exactly when it is configured to remain and the counter is under the
/// limit.
pub open spec fn end_step(m: SupervisorModel, outcome: SessionOutcome) -> (SupervisorModel, bool) {
    match outcome {
        SessionOutcome::Exited => (m, true),
        SessionOutcome::Disconnected => (
            SupervisorModel {
                attempts: 0,
                pending: Seq::empty(),
                want_retry: m.remain && 0 < m.max_attempts,
                ..m
            },
            false,
        ),
        SessionOutcome::UserDisconnect => (
            SupervisorModel { want_retry: m.remain && m.attempts < m.max_attempts, ..m },
            false,
        ),
        SessionOutcome::Failed => (
            SupervisorModel {
                pending: Seq::empty(),
                want_retry: m.remain && m.attempts < m.max_attempts,
                ..m
            },
            false,
        ),
    }
}

/// An event that re-arms retrying while no session is active.
pub open spec fn rearms(ev: Event) -> bool {
    match ev {
        Event::Command(c) => match c {
            Command::Reconnect | Command::Scan | Command::Calibrate | Command::Status => true,
            _ => false,
        },
        _ => false,
    }
}

/// A command that is appended to the pending list when it re-arms retrying.
pub open spec fn queued_when_idle(c: Command) -> bool {
    match c {
        Command::Scan | Command::Calibrate | Command::Status => true,
        _ => false,
    }
}

/// What observing one bus event with no session active does to the
/// supervisor's state.  `Reconnect` and the device commands clear the
/// counter and re-arm retrying; the device commands are also queued for the
/// next session; everything else leaves the state alone.
pub open spec fn idle_step(m: SupervisorModel, ev: Event) -> SupervisorModel {
    match ev {
        Event::Command(c) => {
            if queued_when_idle(c) {
                SupervisorModel { attempts: 0, want_retry: true, pending: m.pending.push(c), ..m }
            } else if c is Reconnect {
                SupervisorModel { attempts: 0, want_retry: true, ..m }
            } else {
                m
            }
        }
        _ => m,
    }
}

/// What the caller must do with an idle-time event.
#[derive(Debug)]
pub enum IdleAction {
    /// Nothing; the supervisor may have updated its state.
    Ignore,
    /// Stop the supervisor loop: the process winds down.
    Stop,
    /// Publish this event on the bus.
    Publish(Event),
}

/// The action owed for an idle-time event: stop on `Exit`, an error for a
/// connection-level command that cannot be served while disconnected,
/// nothing otherwise.
pub open spec fn idle_action_ok(ev: Event, action: IdleAction) -> bool {
    match ev {
        Event::Exit => action is Stop,
        Event::Command(c) => {
            if queued_when_idle(c) || c is Reconnect {
                action is Ignore
            } else {
                &&& action matches IdleAction::Publish(p)
                &&& p matches Event::Error(msg) && msg@ == "Device is disconnected"@
            }
        }
        _ => action is Ignore,
    }
}

impl Supervisor {
    pub open spec fn model(self) -> SupervisorModel {
        SupervisorModel {
            attempts: self.attempts as int,
            want_retry: self.want_retry,
            pending: self.pending@,
            remain: self.remain,
            max_attempts: self.max_attempts as int,
        }
    }

    /// A fresh supervisor: no attempts yet, retrying armed, nothing pending.
    pub fn new(remain: bool, max_attempts: u64) -> (r: Supervisor)
        ensures
            r.model() == (SupervisorModel {
                attempts: 0,
                want_retry: true,
                pending: Seq::empty(),
                remain,
                max_attempts: max_attempts as int,
            }),
    {
        let r = Supervisor { attempts: 0, want_retry: true, pending: Vec::new(), remain, max_attempts };
        proof {
            assert(r.pending@ =~= Seq::<Command>::empty());
        }
        r
    }

    /// Counts a new connection attempt and hands back the event that replays
    /// the pending commands to the new session, if there are any.  The
    /// pending list itself is kept: it is dropped only when a session ends.
    pub fn begin_attempt(&mut self) -> (replay: Option<Event>)
        requires
            old(self).want_retry,
            old(self).attempts < u64::MAX,
        ensures
            final(self).model() == (SupervisorModel {
                attempts: old(self).model().attempts + 1,
                ..old(self).model()
            }),
            old(self).pending@.len() == 0 ==> replay is None,
            old(self).pending@.len() > 0 ==> (replay matches Some(ev)
                && (ev matches Event::CommandQueue(q) && q@ == old(self).pending@)),
    {
        self.attempts = self.attempts + 1;
        if self.pending.len() > 0 {
            Some(Event::CommandQueue(clone_commands(&self.pending)))
        } else {
            None
        }
    }

    /// Whether the next attempt waits out the backoff interval first: only
    /// from the second attempt of a run onwards.
    pub fn needs_backoff(&self) -> (r: bool)
        ensures
            r == (self.want_retry && self.attempts > 1),
    {
        self.want_retry && self.attempts > 1
    }

    /// Folds a session's end into the retry policy; `true` stops the
    /// supervisor loop for good.
    pub fn on_session_end(&mut self, outcome: SessionOutcome) -> (stop: bool)
        ensures
            final(self).model() == end_step(old(self).model(), outcome).0,
            stop == end_step(old(self).model(), outcome).1,
    {
        match outcome {
            SessionOutcome::Exited => true,
            SessionOutcome::Disconnected => {
                self.attempts = 0;
                self.pending.clear();
                self.want_retry = self.remain && 0 < self.max_attempts;
                proof {
                    assert(self.pending@ =~= Seq::<Command>::empty());
                }
                false
            }
            SessionOutcome::UserDisconnect => {
                self.want_retry = self.remain && self.attempts < self.max_attempts;
                false
            }
            SessionOutcome::Failed => {
                self.pending.clear();
                self.want_retry = self.remain && self.attempts < self.max_attempts;
                proof {
                    assert(self.pending@ =~= Seq::<Command>::empty());
                }
                false
            }
        }
    }

    /// Observes one bus event while no session is active.
    pub fn on_idle_event(&mut self, ev: &Event) -> (action: IdleAction)
        ensures
            final(self).model() == idle_step(old(self).model(), *ev),
            idle_action_ok(*ev, action),
    {
        match ev {
            Event::Exit => IdleAction::Stop,
            Event::Command(c) => match c {
                Command::Reconnect => {
                    self.attempts = 0;
                    self.want_retry = true;
                    IdleAction::Ignore
                }
                Command::Scan | Command::Calibrate | Command::Status => {
                    self.attempts = 0;
                    self.want_retry = true;
                    self.pending.push(c.clone());
                    IdleAction::Ignore
                }
                _ => IdleAction::Publish(Event::Error("Device is disconnected".to_owned())),
            },
            _ => IdleAction::Ignore,
        }
    }
}

// ---------------------------------------------------------------------------
// Laws of the retry policy
// ---------------------------------------------------------------------------

/// Law: a clean disconnect resets the attempt counter to 0, so the next
/// attempt is counted as the first of a new run.
pub proof fn lemma_clean_disconnect_resets(m: SupervisorModel)
    ensures
        end_step(m, SessionOutcome::Disconnected).0.attempts == 0,
        end_step(m, SessionOutcome::Disconnected).0.pending == Seq::<Command>::empty(),
{
}

/// Law: when the attempt limit is exhausted and the session ended
/// abnormally, the supervisor stops attempting.
pub proof fn lemma_exhaustion_disarms(m: SupervisorModel)
    requires
        m.attempts >= m.max_attempts,
    ensures
        !end_step(m, SessionOutcome::Failed).0.want_retry,
{
}

/// The supervisor's state after folding a run of idle-time events.
pub open spec fn idle_fold(m: SupervisorModel, evs: Seq<Event>) -> SupervisorModel
    decreases evs.len(),
{
    if evs.len() == 0 {
        m
    } else {
        idle_fold(idle_step(m, evs[0]), evs.drop_first())
    }
}

/// Law: a disarmed supervisor stays disarmed under every run of idle-time
/// events that holds no `Reconnect`, `Scan`, `Calibrate` or `Status`
/// command.
pub proof fn lemma_disarmed_stays_disarmed(m: SupervisorModel, evs: Seq<Event>)
    requires
        !m.want_retry,
        forall|i: int| 0 <= i < evs.len() ==> !rearms(#[trigger] evs[i]),
    ensures
        !idle_fold(m, evs).want_retry,
    decreases evs.len(),
{
    if evs.len() > 0 {
        assert(!rearms(evs[0]));
        assert(idle_step(m, evs[0]) == m);
        lemma_disarmed_stays_disarmed(m, evs.drop_first());
    }
}

/// Law: any re-arming command while disconnected enables retrying again and
/// clears the attempt counter.
pub proof fn lemma_rearm_enables(m: SupervisorModel, ev: Event)
    requires
        rearms(ev),
    ensures
        idle_step(m, ev).want_retry,
        idle_step(m, ev).attempts == 0,
{
}

} // verus!
