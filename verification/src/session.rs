//! One device session: the connection/notification state machine.
//!
//! A session covers one physical connection attempt end-to-end.  It walks
//! `Connecting → Connected → ServicesDiscovered → Subscribed → Ready` and
//! ends in one of the terminal phases.  While `Ready` it decodes inbound
//! notification frames, suppresses device-level retransmissions, paces the
//! outbound queue, and answers bus events.  All waiting, reading and writing
//! is the caller's: the session is handed plain values (frame bytes, bus
//! events, clock readings) and says what to write, what to publish and when
//! to stop.

use vstd::prelude::*;
use crate::codec;
use crate::data::{Command, Event};
use crate::outbound::{self, OutboundQueue};

verus! {

/// Where a session stands in its lifecycle.
#[derive(Clone, Copy, PartialEq, Eq, Structural, Debug)]
pub enum SessionPhase {
    Connecting,
    Connected,
    ServicesDiscovered,
    Subscribed,
    Ready,
    Disconnected,
    Exited,
    Errored,
}

/// How a session ended; the supervisor's retry policy turns on this.
#[derive(Clone, Copy, PartialEq, Eq, Structural, Debug)]
pub enum SessionOutcome {
    /// A bus `Exit` was observed: the whole process winds down.
    Exited,
    /// The notification stream ended: a clean disconnect.
    Disconnected,
    /// A `Disconnect` command asked for the termination.
    UserDisconnect,
    /// A write failed or the session could not be brought up.
    Failed,
}

/// What the caller must do after handing the session an input.  `writes` are
/// frames for the device, in order; `publish` is an event for the bus;
/// `cleanup` asks for the best-effort unsubscribe/disconnect pair; `terminal`
/// says the session is over and with which outcome.
pub struct SessionStep {
    pub writes: Vec<Vec<u8>>,
    pub publish: Option<Event>,
    pub cleanup: bool,
    pub terminal: Option<SessionOutcome>,
}

/// One device session.
pub struct Session {
    pub phase: SessionPhase,
    pub outbound: OutboundQueue,
    /// Results emitted so far; the next result is numbered `scan_count + 1`.
    pub scan_count: usize,
    /// The raw bytes of the last scan frame that produced a result.
    pub last_scan_msg: Vec<u8>,
    /// When that frame arrived, on the caller's millisecond clock.
    pub last_scan_at_ms: u64,
    /// Scan frames identical to the previous one within this window are
    /// device-level retransmissions and are dropped.
    pub dedup_window_ms: u64,
}

impl Session {
    /// A scan frame counting as a retransmission of the previous one.
    pub open spec fn is_duplicate(self, m: Seq<u8>, now_ms: u64) -> bool {
        &&& m == self.last_scan_msg@
        &&& self.last_scan_at_ms <= now_ms
        &&& now_ms < self.last_scan_at_ms + self.dedup_window_ms
    }

    /// The scan bookkeeping (count, last frame, last arrival) of `s2` is that
    /// of `s`.
    pub open spec fn same_scan_state(s: Session, s2: Session) -> bool {
        &&& s2.scan_count == s.scan_count
        &&& s2.last_scan_msg@ == s.last_scan_msg@
        &&& s2.last_scan_at_ms == s.last_scan_at_ms
        &&& s2.dedup_window_ms == s.dedup_window_ms
    }

    pub fn new(dedup_window_ms: u64) -> (r: Session)
        ensures
            r.phase == SessionPhase::Connecting,
            r.outbound.frames() == Seq::<Seq<u8>>::empty(),
            !r.outbound.waiting,
            r.scan_count == 0,
            r.last_scan_msg@ == Seq::<u8>::empty(),
            r.last_scan_at_ms == 0,
            r.dedup_window_ms == dedup_window_ms,
    {
        let r = Session {
            phase: SessionPhase::Connecting,
            outbound: OutboundQueue::new(),
            scan_count: 0,
            last_scan_msg: Vec::new(),
            last_scan_at_ms: 0,
            dedup_window_ms,
        };
        proof {
            assert(r.last_scan_msg@ =~= Seq::<u8>::empty());
        }
        r
    }

    /// The link is up: entry into `Connected`.
    pub fn on_connected(&mut self)
        requires
            old(self).phase == SessionPhase::Connecting,
        ensures
            *final(self) == (Session { phase: SessionPhase::Connected, ..*old(self) }),
    {
        self.phase = SessionPhase::Connected;
    }

    /// Service discovery finished.
    pub fn on_services_discovered(&mut self)
        requires
            old(self).phase == SessionPhase::Connected,
        ensures
            *final(self) == (Session { phase: SessionPhase::ServicesDiscovered, ..*old(self) }),
    {
        self.phase = SessionPhase::ServicesDiscovered;
    }

    /// The notify characteristic was looked up.  Its absence is fatal for the
    /// session: the phase turns `Errored` and the error says what was
    /// missing.
    pub fn require_notify_characteristic(&mut self, found: bool) -> (r: Result<(), String>)
        requires
            old(self).phase == SessionPhase::ServicesDiscovered,
        ensures
            found ==> r is Ok && *final(self) == *old(self),
            !found ==> {
                &&& *final(self) == (Session { phase: SessionPhase::Errored, ..*old(self) })
                &&& r matches Err(m) && m@ == "No notif_char found"@
            },
    {
        if found {
            Ok(())
        } else {
            self.phase = SessionPhase::Errored;
            Err("No notif_char found".to_owned())
        }
    }

    /// Notifications are subscribed; the write characteristic may now be
    /// looked up.
    pub fn on_subscribed(&mut self)
        requires
            old(self).phase == SessionPhase::ServicesDiscovered,
        ensures
            *final(self) == (Session { phase: SessionPhase::Subscribed, ..*old(self) }),
    {
        self.phase = SessionPhase::Subscribed;
    }

    /// The write characteristic was looked up.  Present: the session is
    /// `Ready`.  Absent: fatal, as with the notify characteristic.
    pub fn require_write_characteristic(&mut self, found: bool) -> (r: Result<(), String>)
        requires
            old(self).phase == SessionPhase::Subscribed,
        ensures
            found ==> {
                &&& *final(self) == (Session { phase: SessionPhase::Ready, ..*old(self) })
                &&& r is Ok
            },
            !found ==> {
                &&& *final(self) == (Session { phase: SessionPhase::Errored, ..*old(self) })
                &&& r matches Err(m) && m@ == "No write_char found"@
            },
    {
        if found {
            self.phase = SessionPhase::Ready;
            Ok(())
        } else {
            self.phase = SessionPhase::Errored;
            Err("No write_char found".to_owned())
        }
    }

    /// Handles one inbound notification frame while `Ready`: decodes it,
    /// drops retransmitted scan frames, and paces the outbound queue.
    /// `publish` is the decoded event, if the frame produced one; `write` is
    /// the next queued frame, now owed to the device.
    pub fn handle_notification(&mut self, msg: &Vec<u8>, now_ms: u64) -> (r: (Option<Event>, Option<Vec<u8>>))
        requires
            old(self).phase == SessionPhase::Ready,
            old(self).scan_count < usize::MAX,
        ensures
            final(self).phase == SessionPhase::Ready,
            notification_publish_ok(*old(self), msg@, now_ms, *final(self), r.0),
            ({
                let (q2, w2, wr) = outbound::notify_step(old(self).outbound.frames(), old(self).outbound.waiting);
                &&& final(self).outbound.frames() == q2
                &&& final(self).outbound.waiting == w2
                &&& match (r.1, wr) {
                    (Some(a), Some(b)) => a@ == b,
                    (None, None) => true,
                    _ => false,
                }
            }),
    {
        let publish: Option<Event> = match codec::decode_notification(msg) {
            codec::Notification::Scan(data) => {
                if self.is_duplicate_frame(msg, now_ms) {
                    None
                } else {
                    self.scan_count = self.scan_count + 1;
                    let copy = copy_bytes(msg);
                    self.last_scan_msg = copy;
                    self.last_scan_at_ms = now_ms;
                    Some(Event::Scan(data.into_result(self.scan_count)))
                }
            }
            codec::Notification::Calibrated => Some(Event::Calibrated),
            codec::Notification::PowerLevel(level) => Some(Event::PowerLevel(level)),
            codec::Notification::DeviceInfo(vals) => Some(Event::DeviceInfo(vals)),
            codec::Notification::Unrecognized => None,
        };
        let write = self.outbound.after_notification();
        (publish, write)
    }

    /// Queues the frames a command calls for while `Ready`.  `Scan` and
    /// `Calibrate` queue their one frame; `Status` queues two, info then
    /// battery; the remaining commands queue nothing (connection-level
    /// commands are the caller's to act on).  At most one frame comes back
    /// for the wire.
    pub fn handle_command(&mut self, cmd: &Command) -> (writes: Vec<Vec<u8>>)
        requires
            old(self).phase == SessionPhase::Ready,
        ensures
            final(self).phase == SessionPhase::Ready,
            Session::same_scan_state(*old(self), *final(self)),
            enqueue_run_ok(*old(self), frames_for_command(*cmd), *final(self), writes@),
            writes@.len() <= 1,
    {
        let ghost s0 = *self;
        let ghost fs = frames_for_command(*cmd);
        let mut writes: Vec<Vec<u8>> = Vec::new();
        proof {
            assert(outbound::frames_of(writes@) =~= Seq::<Seq<u8>>::empty());
        }
        match cmd {
            Command::Scan => {
                self.enqueue_into(codec::scan_command_frame(), &mut writes);
                proof {
                    lemma_single_frame_run(s0, codec::scan_command(), *self, writes@);
                }
            }
            Command::Calibrate => {
                self.enqueue_into(codec::calibrate_command_frame(), &mut writes);
                proof {
                    lemma_single_frame_run(s0, codec::calibrate_command(), *self, writes@);
                }
            }
            Command::Status => {
                self.enqueue_into(codec::info_command_frame(), &mut writes);
                let ghost ws1 = outbound::frames_of(writes@);
                self.enqueue_into(codec::battery_command_frame(), &mut writes);
                proof {
                    let (q1, w1, wr1) = outbound::enqueue_step(s0.outbound.frames(), s0.outbound.waiting, codec::info_command());
                    let (q2, w2, wr2) = outbound::enqueue_step(q1, w1, codec::battery_command());
                    outbound::lemma_enqueue_all_two(s0.outbound.frames(), s0.outbound.waiting, codec::info_command(), codec::battery_command());
                    assert(ws1 =~= outbound::opt_seq(wr1));
                    assert(outbound::frames_of(writes@) =~= outbound::opt_seq(wr1) + outbound::opt_seq(wr2));
                    assert(fs =~= seq![codec::info_command(), codec::battery_command()]);
                }
            }
            _ => {
                proof {
                    assert(fs =~= Seq::<Seq<u8>>::empty());
                }
            }
        }
        proof {
            outbound::lemma_enqueue_all_write_bound(s0.outbound.frames(), s0.outbound.waiting, fs);
        }
        writes
    }

    /// Enqueues one frame, appending any wire-owed frame to `writes`.
    fn enqueue_into(&mut self, frame: Vec<u8>, writes: &mut Vec<Vec<u8>>)
        ensures
            final(self).phase == old(self).phase,
            Session::same_scan_state(*old(self), *final(self)),
            ({
                let (q2, w2, wr) = outbound::enqueue_step(old(self).outbound.frames(), old(self).outbound.waiting, frame@);
                &&& final(self).outbound.frames() == q2
                &&& final(self).outbound.waiting == w2
                &&& match wr {
                    Some(b) => outbound::frames_of(final(writes)@) == outbound::frames_of(old(writes)@).push(b),
                    None => final(writes)@ == old(writes)@,
                }
            }),
    {
        let ghost ws0 = outbound::frames_of(writes@);
        match self.outbound.enqueue(frame) {
            Some(w) => {
                writes.push(w);
                proof {
                    assert(outbound::frames_of(writes@) =~= ws0.push(frame@));
                }
            }
            None => {}
        }
    }

    /// Answers one bus event while `Ready`.
    ///
    /// `Exit` ends the session (`Exited`): clean up, publish nothing, write
    /// nothing further.  A `Disconnect` command ends it (`UserDisconnect`):
    /// clean up, then publish `Disconnected`.  Any other command queues its
    /// frames as `handle_command` says.  A `CommandQueue` replays its
    /// commands in order.  Every other event is not for the session and
    /// changes nothing.
    pub fn handle_bus_event(&mut self, ev: &Event) -> (r: SessionStep)
        requires
            old(self).phase == SessionPhase::Ready,
        ensures
            bus_event_ok(*old(self), *ev, *final(self), r),
            r.writes@.len() <= 1,
    {
        match ev {
            Event::Exit => {
                self.phase = SessionPhase::Exited;
                SessionStep {
                    writes: Vec::new(),
                    publish: None,
                    cleanup: true,
                    terminal: Some(SessionOutcome::Exited),
                }
            }
            Event::Command(cmd) => {
                if matches!(cmd, Command::Disconnect) {
                    self.phase = SessionPhase::Disconnected;
                    SessionStep {
                        writes: Vec::new(),
                        publish: Some(Event::Disconnected),
                        cleanup: true,
                        terminal: Some(SessionOutcome::UserDisconnect),
                    }
                } else {
                    let writes = self.handle_command(cmd);
                    SessionStep { writes, publish: None, cleanup: false, terminal: None }
                }
            }
            Event::CommandQueue(cmds) => {
                let writes = self.handle_command_run(cmds);
                SessionStep { writes, publish: None, cleanup: false, terminal: None }
            }
            _ => {
                SessionStep { writes: Vec::new(), publish: None, cleanup: false, terminal: None }
            }
        }
    }

    /// Replays a run of commands in order, queueing all their frames.
    fn handle_command_run(&mut self, cmds: &Vec<Command>) -> (writes: Vec<Vec<u8>>)
        requires
            old(self).phase == SessionPhase::Ready,
        ensures
            final(self).phase == SessionPhase::Ready,
            Session::same_scan_state(*old(self), *final(self)),
            enqueue_run_ok(*old(self), frames_for_commands(cmds@), *final(self), writes@),
            writes@.len() <= 1,
    {
        let ghost s0 = *self;
        let mut writes: Vec<Vec<u8>> = Vec::new();
        let mut i: usize = 0;
        proof {
            assert(frames_for_commands(cmds@.subrange(0, 0)) =~= Seq::<Seq<u8>>::empty());
            assert(outbound::frames_of(writes@) =~= Seq::<Seq<u8>>::empty());
        }
        while i < cmds.len()
            invariant
                i <= cmds.len(),
                self.phase == SessionPhase::Ready,
                Session::same_scan_state(s0, *self),
                enqueue_run_ok(s0, frames_for_commands(cmds@.subrange(0, i as int)), *self, writes@),
            decreases cmds.len() - i,
        {
            let ghost prefix = frames_for_commands(cmds@.subrange(0, i as int));
            let ghost ws_before = outbound::frames_of(writes@);
            let step_writes = self.handle_command(&cmds[i]);
            let ghost step_ws = outbound::frames_of(step_writes@);
            append_all(&mut writes, step_writes);
            proof {
                let here = frames_for_command(cmds@[i as int]);
                outbound::lemma_enqueue_all_append(s0.outbound.frames(), s0.outbound.waiting, prefix, here);
                assert(cmds@.subrange(0, i + 1 as int) =~= cmds@.subrange(0, i as int).push(cmds@[i as int]));
                lemma_frames_for_commands_push(cmds@.subrange(0, i as int), cmds@[i as int]);
                assert(outbound::frames_of(writes@) =~= ws_before + step_ws);
            }
            i = i + 1;
        }
        proof {
            assert(cmds@.subrange(0, cmds@.len() as int) =~= cmds@);
            outbound::lemma_enqueue_all_write_bound(s0.outbound.frames(), s0.outbound.waiting, frames_for_commands(cmds@));
        }
        writes
    }

    /// A keepalive idle period elapsed with no inbound notification: queue a
    /// battery request, probing liveness and keeping the link awake.
    pub fn on_keepalive_idle(&mut self) -> (write: Option<Vec<u8>>)
        requires
            old(self).phase == SessionPhase::Ready,
        ensures
            final(self).phase == SessionPhase::Ready,
            Session::same_scan_state(*old(self), *final(self)),
            ({
                let (q2, w2, wr) = outbound::enqueue_step(old(self).outbound.frames(), old(self).outbound.waiting, codec::battery_command());
                &&& final(self).outbound.frames() == q2
                &&& final(self).outbound.waiting == w2
                &&& match (write, wr) {
                    (Some(a), Some(b)) => a@ == b,
                    (None, None) => true,
                    _ => false,
                }
            }),
    {
        self.outbound.enqueue(codec::battery_command_frame())
    }

    /// The notification stream ended: a clean disconnect.  Publish
    /// `Disconnected`, then clean up.
    pub fn on_stream_ended(&mut self) -> (r: SessionStep)
        requires
            old(self).phase == SessionPhase::Ready,
        ensures
            *final(self) == (Session { phase: SessionPhase::Disconnected, ..*old(self) }),
            r.writes@.len() == 0,
            r.publish == Some(Event::Disconnected),
            r.cleanup,
            r.terminal == Some(SessionOutcome::Disconnected),
    {
        self.phase = SessionPhase::Disconnected;
        SessionStep {
            writes: Vec::new(),
            publish: Some(Event::Disconnected),
            cleanup: true,
            terminal: Some(SessionOutcome::Disconnected),
        }
    }

    /// A write to the device failed: fatal for the session.  Clean up and
    /// end `Failed`; the supervisor decides about a retry.
    pub fn on_write_failed(&mut self) -> (r: SessionStep)
        requires
            old(self).phase == SessionPhase::Ready,
        ensures
            *final(self) == (Session { phase: SessionPhase::Errored, ..*old(self) }),
            r.writes@.len() == 0,
            r.publish is None,
            r.cleanup,
            r.terminal == Some(SessionOutcome::Failed),
    {
        self.phase = SessionPhase::Errored;
        SessionStep {
            writes: Vec::new(),
            publish: None,
            cleanup: true,
            terminal: Some(SessionOutcome::Failed),
        }
    }

    /// The retransmission test on the raw frame bytes.
    fn is_duplicate_frame(&self, msg: &Vec<u8>, now_ms: u64) -> (r: bool)
        ensures
            r == self.is_duplicate(msg@, now_ms),
    {
        bytes_eq(msg, &self.last_scan_msg) && now_ms >= self.last_scan_at_ms
            && now_ms - self.last_scan_at_ms < self.dedup_window_ms
    }
}

/// What handling a notification publishes, and what it does to the scan
/// bookkeeping.  A scan frame equal to the last one within the window is
/// dropped: no event, no new number, and the remembered frame and time stay
/// as they were (the window is measured from the first arrival).  Any other
/// scan frame is numbered `scan_count + 1` and remembered.  The other frame
/// kinds decode to their events and leave the scan bookkeeping alone.
pub open spec fn notification_publish_ok(s: Session, m: Seq<u8>, now_ms: u64, s2: Session, publish: Option<Event>) -> bool {
    if codec::is_scan_frame(m) {
        if s.is_duplicate(m, now_ms) {
            &&& publish is None
            &&& Session::same_scan_state(s, s2)
        } else {
            &&& publish == Some(Event::Scan(codec::scan_result_of(m, (s.scan_count + 1) as usize)))
            &&& s2.scan_count == s.scan_count + 1
            &&& s2.last_scan_msg@ == m
            &&& s2.last_scan_at_ms == now_ms
            &&& s2.dedup_window_ms == s.dedup_window_ms
        }
    } else {
        &&& Session::same_scan_state(s, s2)
        &&& if codec::is_calibration_frame(m) {
            publish == Some(Event::Calibrated)
        } else if codec::is_power_frame(m) {
            publish == Some(Event::PowerLevel(codec::power_of(m)))
        } else if codec::is_info_frame(m) {
            publish matches Some(Event::DeviceInfo(vals)) && vals@ == codec::info_values_of(m)
        } else {
            publish is None
        }
    }
}

/// Law: a scan frame identical to the previous one, arriving within the
/// suppression window, neither increments the result counter nor produces a
/// scan event, and leaves the window anchored at the first arrival.
pub proof fn lemma_duplicate_suppressed(s: Session, m: Seq<u8>, now_ms: u64, s2: Session, publish: Option<Event>)
    requires
        codec::is_scan_frame(m),
        s.is_duplicate(m, now_ms),
        notification_publish_ok(s, m, now_ms, s2, publish),
    ensures
        publish is None,
        s2.scan_count == s.scan_count,
        s2.last_scan_at_ms == s.last_scan_at_ms,
{
}

/// Law: a scan frame identical to the previous one, arriving once the
/// suppression window has passed, does produce a scan event and takes the
/// next result number.
pub proof fn lemma_identical_after_window_emits(s: Session, m: Seq<u8>, now_ms: u64, s2: Session, publish: Option<Event>)
    requires
        codec::is_scan_frame(m),
        m == s.last_scan_msg@,
        now_ms >= s.last_scan_at_ms + s.dedup_window_ms,
        notification_publish_ok(s, m, now_ms, s2, publish),
    ensures
        publish == Some(Event::Scan(codec::scan_result_of(m, (s.scan_count + 1) as usize))),
        s2.scan_count == s.scan_count + 1,
{
}

/// The frames a command puts on the outbound queue.
pub open spec fn frames_for_command(cmd: Command) -> Seq<Seq<u8>> {
    match cmd {
        Command::Scan => seq![codec::scan_command()],
        Command::Calibrate => seq![codec::calibrate_command()],
        Command::Status => seq![codec::info_command(), codec::battery_command()],
        _ => Seq::empty(),
    }
}

/// The frames a run of commands puts on the outbound queue, in order.
pub open spec fn frames_for_commands(cmds: Seq<Command>) -> Seq<Seq<u8>>
    decreases cmds.len(),
{
    if cmds.len() == 0 {
        Seq::empty()
    } else {
        frames_for_command(cmds[0]) + frames_for_commands(cmds.drop_first())
    }
}

proof fn lemma_frames_for_commands_push(cmds: Seq<Command>, c: Command)
    ensures
        frames_for_commands(cmds.push(c)) == frames_for_commands(cmds) + frames_for_command(c),
    decreases cmds.len(),
{
    if cmds.len() == 0 {
        assert(cmds.push(c)[0] == c);
        assert(cmds.push(c).drop_first() =~= Seq::<Command>::empty());
        assert(frames_for_commands(cmds.push(c)) == frames_for_command(c) + frames_for_commands(Seq::<Command>::empty()));
        assert(frames_for_commands(cmds.push(c)) =~= frames_for_command(c));
        assert(frames_for_commands(cmds) + frames_for_command(c) =~= frames_for_command(c));
    } else {
        assert(cmds.push(c).drop_first() =~= cmds.drop_first().push(c));
        lemma_frames_for_commands_push(cmds.drop_first(), c);
        assert(frames_for_command(cmds[0]) + (frames_for_commands(cmds.drop_first()) + frames_for_command(c))
            =~= (frames_for_command(cmds[0]) + frames_for_commands(cmds.drop_first())) + frames_for_command(c));
    }
}

/// Session `s2` and the written frames `writes` are what enqueueing the run
/// `fs` into `s`'s outbound queue yields.
pub open spec fn enqueue_run_ok(s: Session, fs: Seq<Seq<u8>>, s2: Session, writes: Seq<Vec<u8>>) -> bool {
    let (q2, w2, ws) = outbound::enqueue_all(s.outbound.frames(), s.outbound.waiting, fs);
    &&& s2.outbound.frames() == q2
    &&& s2.outbound.waiting == w2
    &&& outbound::frames_of(writes) == ws
}

/// Closes `enqueue_run_ok` for a single-frame run from the one-step
/// relation `enqueue_into` leaves behind.
proof fn lemma_single_frame_run(s0: Session, f: Seq<u8>, s2: Session, writes: Seq<Vec<u8>>)
    requires
        ({
            let (q2, w2, wr) = outbound::enqueue_step(s0.outbound.frames(), s0.outbound.waiting, f);
            &&& s2.outbound.frames() == q2
            &&& s2.outbound.waiting == w2
            &&& outbound::frames_of(writes) == outbound::opt_seq(wr)
        }),
    ensures
        enqueue_run_ok(s0, seq![f], s2, writes),
{
    outbound::lemma_enqueue_all_one(s0.outbound.frames(), s0.outbound.waiting, f);
}

/// What answering one bus event does: the terminal cases end the session
/// with their outcome, command events queue frames, everything else is
/// ignored.
pub open spec fn bus_event_ok(s: Session, ev: Event, s2: Session, r: SessionStep) -> bool {
    match ev {
        Event::Exit => {
            &&& s2 == (Session { phase: SessionPhase::Exited, ..s })
            &&& r.writes@.len() == 0
            &&& r.publish is None
            &&& r.cleanup
            &&& r.terminal == Some(SessionOutcome::Exited)
        }
        Event::Command(Command::Disconnect) => {
            &&& s2 == (Session { phase: SessionPhase::Disconnected, ..s })
            &&& r.writes@.len() == 0
            &&& r.publish == Some(Event::Disconnected)
            &&& r.cleanup
            &&& r.terminal == Some(SessionOutcome::UserDisconnect)
        }
        Event::Command(cmd) => {
            &&& s2.phase == SessionPhase::Ready
            &&& Session::same_scan_state(s, s2)
            &&& enqueue_run_ok(s, frames_for_command(cmd), s2, r.writes@)
            &&& r.publish is None
            &&& !r.cleanup
            &&& r.terminal is None
        }
        Event::CommandQueue(cmds) => {
            &&& s2.phase == SessionPhase::Ready
            &&& Session::same_scan_state(s, s2)
            &&& enqueue_run_ok(s, frames_for_commands(cmds@), s2, r.writes@)
            &&& r.publish is None
            &&& !r.cleanup
            &&& r.terminal is None
        }
        _ => {
            &&& s2 == s
            &&& r.writes@.len() == 0
            &&& r.publish is None
            &&& !r.cleanup
            &&& r.terminal is None
        }
    }
}

/// Moves every element of `more` onto the end of `dst`.
fn append_all(dst: &mut Vec<Vec<u8>>, more: Vec<Vec<u8>>)
    ensures
        final(dst)@ == old(dst)@ + more@,
{
    let mut rest = more;
    let ghost more0 = rest@;
    let ghost dst0 = dst@;
    while rest.len() > 0
        invariant
            rest.len() <= more0.len(),
            rest@ == more0.subrange(more0.len() - rest.len(), more0.len() as int),
            dst@ == dst0 + more0.subrange(0, more0.len() - rest.len()),
        decreases rest.len(),
    {
        let ghost done = more0.len() - rest@.len();
        let item = rest.remove(0);
        dst.push(item);
        proof {
            assert(rest@ =~= more0.subrange(done + 1, more0.len() as int));
            assert(dst@ =~= dst0 + more0.subrange(0, done + 1));
        }
    }
    proof {
        assert(dst@ =~= dst0 + more0);
    }
}

/// Byte-for-byte equality of two frames.
fn bytes_eq(a: &Vec<u8>, b: &Vec<u8>) -> (r: bool)
    ensures
        r == (a@ == b@),
{
    if a.len() != b.len() {
        return false;
    }
    let mut i: usize = 0;
    while i < a.len()
        invariant
            i <= a.len(),
            a.len() == b.len(),
            forall|j: int| 0 <= j < i ==> a@[j] == b@[j],
        decreases a.len() - i,
    {
        if a[i] != b[i] {
            return false;
        }
        i = i + 1;
    }
    proof {
        assert(a@ =~= b@);
    }
    true
}

/// A copy of a frame's bytes.
fn copy_bytes(v: &Vec<u8>) -> (r: Vec<u8>)
    ensures
        r@ == v@,
{
    let mut out: Vec<u8> = Vec::new();
    let mut i: usize = 0;
    while i < v.len()
        invariant
            i <= v.len(),
            out@ == v@.subrange(0, i as int),
        decreases v.len() - i,
    {
        out.push(v[i]);
        proof {
            assert(out@ =~= v@.subrange(0, i + 1 as int));
        }
        i = i + 1;
    }
    proof {
        assert(out@ =~= v@);
    }
    out
}

/// The device-selection rule of discovery: with an address filter only the
/// address decides; without one, the first device carrying both the command
/// and the notification service is taken.
pub fn device_matches(has_write_service: bool, has_notify_service: bool, address_filter: bool, address_matches: bool) -> (r: bool)
    ensures
        r == (if address_filter {
            address_matches
        } else {
            has_write_service && has_notify_service
        }),
{
    if address_filter {
        address_matches
    } else {
        has_write_service && has_notify_service
    }
}

} // verus!
