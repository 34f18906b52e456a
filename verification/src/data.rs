//! The domain data model: commands, bus events, scan results and the
//! aggregated connection state that consumers derive by folding bus events.

use vstd::prelude::*;

verus! {

/// Three values of one color space.  Color components are carried as
/// fixed-point hundredths (the device reports signed 16-bit values scaled by
/// 100), so `Triple(100, 100, -56)` stands for `(1.00, 1.00, -0.56)`.
#[derive(Clone, Copy, PartialEq, Eq, Debug)]
pub struct Triple<T>(pub T, pub T, pub T);

/// One color measurement pushed by the device.
///
/// `idx` counts the results of one session, starting at 1; duplicate
/// retransmissions of a frame do not increment it.
#[derive(Clone, Copy, PartialEq, Eq, Debug)]
pub struct ScanResult {
    pub idx: usize,
    pub lab: Triple<i16>,
    pub luv: Triple<i16>,
    pub lch: Triple<i16>,
    pub yxy: Triple<i16>,
    pub rgb: Triple<u8>,
}

/// An outbound intent produced by a consumer (console, network client, or the
/// launch configuration).
#[derive(Debug, PartialEq, Eq)]
pub enum Command {
    Scan,
    Calibrate,
    Status,
    Connect(String),
    Reconnect,
    Disconnect,
}

impl Clone for Command {
    fn clone(&self) -> (res: Self)
        ensures
            res == *self,
    {
        match self {
            Command::Scan => Command::Scan,
            Command::Calibrate => Command::Calibrate,
            Command::Status => Command::Status,
            Command::Connect(addr) => Command::Connect(addr.clone()),
            Command::Reconnect => Command::Reconnect,
            Command::Disconnect => Command::Disconnect,
        }
    }
}

/// Everything the event bus carries.
#[derive(Debug, PartialEq, Eq)]
pub enum Event {
    Exit,
    Error(String),
    Scan(ScanResult),
    Connecting(Option<String>, Option<String>),
    Connected(String, Option<String>),
    Disconnected,
    PowerLevel(i16),
    DeviceInfo([i16; 15]),
    Calibrated,
    Command(Command),
    CommandQueue(Vec<Command>),
}

/// Deep equality on events: all fields equal, with command queues compared by
/// their contents.
pub open spec fn event_equiv(a: Event, b: Event) -> bool {
    match (a, b) {
        (Event::CommandQueue(qa), Event::CommandQueue(qb)) => qa@ == qb@,
        _ => a == b,
    }
}

impl Clone for Event {
    fn clone(&self) -> (res: Self)
        ensures
            event_equiv(res, *self),
    {
        match self {
            Event::Exit => Event::Exit,
            Event::Error(msg) => Event::Error(msg.clone()),
            Event::Scan(res) => Event::Scan(*res),
            Event::Connecting(addr, name) => Event::Connecting(clone_opt_string(addr), clone_opt_string(name)),
            Event::Connected(addr, name) => Event::Connected(addr.clone(), clone_opt_string(name)),
            Event::Disconnected => Event::Disconnected,
            Event::PowerLevel(level) => Event::PowerLevel(*level),
            Event::DeviceInfo(info) => Event::DeviceInfo(*info),
            Event::Calibrated => Event::Calibrated,
            Event::Command(cmd) => Event::Command(cmd.clone()),
            Event::CommandQueue(cmds) => Event::CommandQueue(clone_commands(cmds)),
        }
    }
}

fn clone_opt_string(s: &Option<String>) -> (res: Option<String>)
    ensures
        res == *s,
{
    match s {
        Some(inner) => Some(inner.clone()),
        None => None,
    }
}

/// Copies a command list; the copy holds the same commands in the same order.
pub fn clone_commands(cmds: &Vec<Command>) -> (res: Vec<Command>)
    ensures
        res@ == cmds@,
{
    let mut out: Vec<Command> = Vec::new();
    let mut i: usize = 0;
    while i < cmds.len()
        invariant
            i <= cmds.len(),
            out@ == cmds@.subrange(0, i as int),
        decreases cmds.len() - i,
    {
        out.push(cmds[i].clone());
        proof {
            assert(out@ =~= cmds@.subrange(0, i + 1 as int));
        }
        i = i + 1;
    }
    proof {
        assert(out@ =~= cmds@);
    }
    out
}

/// The connection state a consumer holds, derived purely by folding bus
/// events in arrival order.
#[derive(Debug)]
pub struct State {
    pub connected: bool,
    pub connecting: bool,
    pub device_address: Option<String>,
    pub device_name: Option<String>,
    pub power_level: Option<i16>,
    pub device_info_raw: Option<[i16; 15]>,
    /// Timestamp of the last calibration, in milliseconds as supplied by the
    /// caller's clock when the event was folded.
    pub calibrated: Option<u64>,
}

impl Clone for State {
    fn clone(&self) -> (res: Self)
        ensures
            res == *self,
    {
        State {
            connected: self.connected,
            connecting: self.connecting,
            device_address: clone_opt_string(&self.device_address),
            device_name: clone_opt_string(&self.device_name),
            power_level: self.power_level,
            device_info_raw: self.device_info_raw,
            calibrated: self.calibrated,
        }
    }
}

impl Default for State {
    /// The empty state a consumer starts from at process start.
    fn default() -> (res: Self)
        ensures
            res == State::initial(),
    {
        State {
            connected: false,
            connecting: false,
            device_address: None,
            device_name: None,
            power_level: None,
            device_info_raw: None,
            calibrated: None,
        }
    }
}

impl State {
    pub open spec fn initial() -> State {
        State {
            connected: false,
            connecting: false,
            device_address: None,
            device_name: None,
            power_level: None,
            device_info_raw: None,
            calibrated: None,
        }
    }

    /// The state after folding one event, `now_ms` being the clock reading
    /// used for calibration timestamps.
    pub open spec fn folded(self, ev: Event, now_ms: u64) -> State {
        match ev {
            Event::Connected(addr, name) => State {
                connecting: false,
                connected: true,
                device_address: Some(addr),
                device_name: name,
                ..self
            },
            Event::Connecting(addr, name) => State {
                connecting: true,
                connected: false,
                device_address: addr,
                device_name: name,
                ..self
            },
            Event::Disconnected => State { connected: false, ..self },
            Event::PowerLevel(level) => State { power_level: Some(level), ..self },
            Event::Calibrated => State { calibrated: Some(now_ms), ..self },
            Event::DeviceInfo(raw) => State { device_info_raw: Some(raw), ..self },
            _ => self,
        }
    }

    /// Folds one bus event into the state.
    pub fn apply_event(&mut self, ev: &Event, now_ms: u64)
        ensures
            *final(self) == old(self).folded(*ev, now_ms),
    {
        match ev {
            Event::Connected(addr, name) => {
                self.connecting = false;
                self.connected = true;
                self.device_address = Some(addr.clone());
                self.device_name = clone_opt_string(name);
            }
            Event::Connecting(addr, name) => {
                self.connecting = true;
                self.connected = false;
                self.device_address = clone_opt_string(addr);
                self.device_name = clone_opt_string(name);
            }
            Event::Disconnected => {
                self.connected = false;
            }
            Event::PowerLevel(level) => {
                self.power_level = Some(*level);
            }
            Event::Calibrated => {
                self.calibrated = Some(now_ms);
            }
            Event::DeviceInfo(raw) => {
                self.device_info_raw = Some(*raw);
            }
            _ => {}
        }
    }
}

} // verus!
