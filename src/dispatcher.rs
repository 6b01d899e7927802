use crate::actions::{AppAction, MovingDirection};
use crate::idasen::MotionCommand;
use crate::list::initial_selection;
use crate::notification::{Notification, NotificationType};
use crate::state::{DeviceEntry, State, Status};
use vstd::prelude::*;

verus! {

/// What the dispatcher is waiting for.
#[derive(Debug, Clone, Copy, PartialEq, Eq, Structural)]
pub enum Phase {
    /// Ready for the next action.
    Idle,
    /// Waiting for the configured address to be parsed.
    ResolvingAddress,
    /// Waiting for a connection attempt; `true` when a scan follows it.
    Connecting(bool),
    Scanning,
    /// Waiting for a motion command; `true` when input was frozen for it.
    Moving(bool),
    Disconnecting,
    /// Shut down; no action is taken any more.
    Terminated,
}

/// The work that the dispatcher hands to its executor.
#[derive(Debug, Clone, PartialEq, Eq)]
pub enum Command {
    /// Nothing to do: the dispatcher is ready for the next action, or has
    /// refused the one it was given.
    Nothing,
    /// Parse this text as a device address and report `AddressParsed`.
    ParseAddress(String),
    /// Scan for devices and report `Scanned`.
    Scan,
    /// Find the device with this address in a fresh scan and connect to it;
    /// report `DeviceNotFound`, `ConnectFailed` or `Connected`.
    Connect(u64),
    /// Send one raw command to the desk and report `MotionDone`.
    Motion(MotionCommand),
    /// Run the move-to-height loop and report `MotionDone`.
    MoveTo(u16),
    /// Disconnect the device and report `Disconnected`; after a successful
    /// disconnection the session is gone.
    Disconnect,
    /// Signal the process to exit.
    Exit,
}

/// The outcome of a command, handed back to the dispatcher.
#[derive(Debug, Clone)]
pub enum Report {
    AddressParsed(Option<u64>),
    /// The devices found, or `None` when the scan failed.
    Scanned(Option<Vec<DeviceEntry>>),
    /// The address is not among the devices found; any earlier session is
    /// given up.
    DeviceNotFound,
    ConnectFailed,
    /// A session with the device at this address is established.
    Connected(u64),
    /// Whether the motion command succeeded.
    MotionDone(bool),
    /// Whether the disconnection succeeded.
    Disconnected(bool),
}

/// The next command, and the notification to show, if any.
#[derive(Debug)]
pub struct Step {
    pub command: Command,
    pub notice: Option<Notification>,
}

pub open spec fn scanning_reason() -> Seq<char> {
    "loading devices list..."@
}

pub open spec fn connecting_reason() -> Seq<char> {
    "connecting to device..."@
}

pub open spec fn moving_reason() -> Seq<char> {
    "desk is moving..."@
}

pub open spec fn shutting_down_reason() -> Seq<char> {
    "shutting down..."@
}

pub open spec fn is_background(s: Status, reason: Seq<char>) -> bool {
    match s {
        Status::Background(m) => m@ == reason,
        _ => false,
    }
}

pub open spec fn is_frozen(s: Status, reason: Seq<char>) -> bool {
    match s {
        Status::Freezed(m) => m@ == reason,
        _ => false,
    }
}

pub open spec fn is_notice(n: Option<Notification>, kind: NotificationType, msg: Seq<char>) -> bool {
    match n {
        Some(x) => x.kind == kind && x.message@ == msg,
        None => false,
    }
}

/// `b` is `a` with at most its status changed.
pub open spec fn only_status_changed(a: State, b: State) -> bool {
    &&& b.positions_list == a.positions_list
    &&& b.devices_list == a.devices_list
    &&& b.current_view == a.current_view
    &&& b.connected_device == a.connected_device
    &&& b.position == a.position
}

/// Owns the connection lifecycle: takes one action at a time and turns it
/// into commands for its executor, updating the shared state as they finish.
#[derive(Debug)]
pub struct Dispatcher {
    phase: Phase,
    connected: Option<u64>,
}

impl Dispatcher {
    pub closed spec fn spec_phase(&self) -> Phase {
        self.phase
    }

    /// The address of the device whose session is held, if any.
    pub closed spec fn spec_connected(&self) -> Option<u64> {
        self.connected
    }

    /// `step` starts a scan: the status says so and the phase waits for it.
    pub open spec fn scan_started(self, s0: State, s1: State, d1: Dispatcher, step: Step) -> bool {
        &&& is_background(s1.status, scanning_reason())
        &&& s1.positions_list == s0.positions_list
        &&& s1.devices_list == s0.devices_list
        &&& s1.current_view == s0.current_view
        &&& s1.position == s0.position
        &&& s1.connected_device == s0.connected_device
        &&& d1.spec_phase() == Phase::Scanning
        &&& d1.spec_connected() == self.spec_connected()
        &&& step.command == Command::Scan
    }

    /// `step` starts a connection to `addr`.
    pub open spec fn connect_started(
        self,
        s0: State,
        s1: State,
        d1: Dispatcher,
        step: Step,
        addr: u64,
        then_scan: bool,
    ) -> bool {
        &&& is_background(s1.status, connecting_reason())
        &&& only_status_changed(s0, s1)
        &&& d1.spec_phase() == Phase::Connecting(then_scan)
        &&& d1.spec_connected() == self.spec_connected()
        &&& step.command == Command::Connect(addr)
        &&& step.notice is None
    }

    /// `step` ends the current work: status running, ready for the next action.
    pub open spec fn work_ended(self, s1: State, d1: Dispatcher, step: Step) -> bool {
        &&& s1.status is Running
        &&& d1.spec_phase() == Phase::Idle
        &&& step.command == Command::Nothing
    }

    /// The shared state names the device whose session is held, and no other.
    pub open spec fn mirrors(&self, state: State) -> bool {
        state.connected_device == self.spec_connected()
    }

    pub fn new() -> (r: Self)
        ensures
            r.spec_phase() == Phase::Idle,
            r.spec_connected() is None,
    {
        Dispatcher { phase: Phase::Idle, connected: None }
    }

    pub fn is_idle(&self) -> (r: bool)
        ensures
            r == (self.spec_phase() == Phase::Idle),
    {
        self.phase == Phase::Idle
    }

    pub fn is_terminated(&self) -> (r: bool)
        ensures
            r == (self.spec_phase() == Phase::Terminated),
    {
        self.phase == Phase::Terminated
    }

    pub fn connected(&self) -> (r: Option<u64>)
        ensures
            r == self.spec_connected(),
    {
        self.connected
    }

    fn start_scan(&mut self, state: &mut State) -> (r: Step)
        ensures
            old(self).scan_started(*old(state), *final(state), *final(self), r),
            r.notice is None,
    {
        state.status = Status::Background("loading devices list...".to_owned());
        self.phase = Phase::Scanning;
        Step { command: Command::Scan, notice: None }
    }

    fn start_connect(&mut self, state: &mut State, addr: u64, then_scan: bool) -> (r: Step)
        ensures
            old(self).connect_started(*old(state), *final(state), *final(self), r, addr, then_scan),
    {
        state.status = Status::Background("connecting to device...".to_owned());
        self.phase = Phase::Connecting(then_scan);
        Step { command: Command::Connect(addr), notice: None }
    }

    /// Takes the next action. Only an idle dispatcher takes one: otherwise
    /// nothing changes and the action is refused, so a second action never
    /// starts before the work of the first has ended.
    pub fn begin(&mut self, state: &mut State, action: AppAction) -> (r: Step)
        ensures
            old(self).mirrors(*old(state)) ==> final(self).mirrors(*final(state)),
            final(state).positions_list == old(state).positions_list,
            final(state).current_view == old(state).current_view,
            final(state).position == old(state).position,
            old(self).spec_phase() != Phase::Idle ==> {
                &&& *final(self) == *old(self)
                &&& *final(state) == *old(state)
                &&& r.command == Command::Nothing
                &&& r.notice is None
            },
            old(self).spec_phase() == Phase::Idle ==> r.notice is None && match action {
                AppAction::Init(c) => match c.predefined_mac {
                    Some(text) => {
                        &&& r.command == Command::ParseAddress(text)
                        &&& final(self).spec_phase() == Phase::ResolvingAddress
                        &&& final(self).spec_connected() == old(self).spec_connected()
                        &&& *final(state) == *old(state)
                    },
                    None => old(self).scan_started(*old(state), *final(state), *final(self), r),
                },
                AppAction::UpdateDevicesList => old(self).scan_started(
                    *old(state),
                    *final(state),
                    *final(self),
                    r,
                ),
                AppAction::ConnectDevice(addr) => old(self).connect_started(
                    *old(state),
                    *final(state),
                    *final(self),
                    r,
                    addr,
                    false,
                ),
                AppAction::StartMoving(d) => if old(self).spec_connected() is None {
                    &&& *final(self) == *old(self)
                    &&& *final(state) == *old(state)
                    &&& r.command == Command::Nothing
                } else {
                    &&& final(self).spec_connected() == old(self).spec_connected()
                    &&& only_status_changed(*old(state), *final(state))
                    &&& match d {
                        MovingDirection::Up => {
                            &&& is_frozen(final(state).status, moving_reason())
                            &&& final(self).spec_phase() == Phase::Moving(true)
                            &&& r.command == Command::Motion(MotionCommand::Up)
                        },
                        MovingDirection::Down => {
                            &&& final(state).status == old(state).status
                            &&& final(self).spec_phase() == Phase::Moving(false)
                            &&& r.command == Command::Motion(MotionCommand::Down)
                        },
                        MovingDirection::Stop => {
                            &&& final(state).status == old(state).status
                            &&& final(self).spec_phase() == Phase::Moving(false)
                            &&& r.command == Command::Motion(MotionCommand::Stop)
                        },
                        MovingDirection::ToHeight(h) => {
                            &&& final(state).status == old(state).status
                            &&& final(self).spec_phase() == Phase::Moving(false)
                            &&& r.command == Command::MoveTo(h)
                        },
                    }
                },
                AppAction::TearDown => if old(self).spec_connected() is None {
                    &&& *final(state) == *old(state)
                    &&& final(self).spec_phase() == Phase::Terminated
                    &&& final(self).spec_connected() is None
                    &&& r.command == Command::Exit
                } else {
                    &&& is_frozen(final(state).status, shutting_down_reason())
                    &&& only_status_changed(*old(state), *final(state))
                    &&& final(self).spec_phase() == Phase::Disconnecting
                    &&& final(self).spec_connected() == old(self).spec_connected()
                    &&& r.command == Command::Disconnect
                },
            },
    {
        if self.phase != Phase::Idle {
            return Step { command: Command::Nothing, notice: None };
        }
        match action {
            AppAction::Init(c) => match c.predefined_mac {
                Some(text) => {
                    self.phase = Phase::ResolvingAddress;
                    Step { command: Command::ParseAddress(text), notice: None }
                },
                None => self.start_scan(state),
            },
            AppAction::UpdateDevicesList => self.start_scan(state),
            AppAction::ConnectDevice(addr) => self.start_connect(state, addr, false),
            AppAction::StartMoving(d) => {
                if self.connected.is_none() {
                    return Step { command: Command::Nothing, notice: None };
                }
                match d {
                    MovingDirection::Up => {
                        state.status = Status::Freezed("desk is moving...".to_owned());
                        self.phase = Phase::Moving(true);
                        Step { command: Command::Motion(MotionCommand::Up), notice: None }
                    },
                    MovingDirection::Down => {
                        self.phase = Phase::Moving(false);
                        Step { command: Command::Motion(MotionCommand::Down), notice: None }
                    },
                    MovingDirection::Stop => {
                        self.phase = Phase::Moving(false);
                        Step { command: Command::Motion(MotionCommand::Stop), notice: None }
                    },
                    MovingDirection::ToHeight(h) => {
                        self.phase = Phase::Moving(false);
                        Step { command: Command::MoveTo(h), notice: None }
                    },
                }
            },
            AppAction::TearDown => {
                if self.connected.is_none() {
                    self.phase = Phase::Terminated;
                    Step { command: Command::Exit, notice: None }
                } else {
                    state.status = Status::Freezed("shutting down...".to_owned());
                    self.phase = Phase::Disconnecting;
                    Step { command: Command::Disconnect, notice: None }
                }
            },
        }
    }

    /// After a connection attempt: a scan follows when one was asked for,
    /// otherwise the work ends.
    fn after_connect(&mut self, state: &mut State, then_scan: bool, notice: Notification) -> (r: Step)
        ensures
            r.notice == Some(notice),
            final(self).spec_connected() == old(self).spec_connected(),
            then_scan ==> old(self).scan_started(*old(state), *final(state), *final(self), r),
            !then_scan ==> old(self).work_ended(*final(state), *final(self), r) && only_status_changed(
                *old(state),
                *final(state),
            ),
    {
        if then_scan {
            let step = self.start_scan(state);
            Step { command: step.command, notice: Some(notice) }
        } else {
            state.status = Status::Running;
            self.phase = Phase::Idle;
            Step { command: Command::Nothing, notice: Some(notice) }
        }
    }

    /// Takes the outcome of the command last handed out. A report that does
    /// not answer that command changes nothing.
    pub fn finish(&mut self, state: &mut State, report: Report) -> (r: Step)
        ensures
            old(self).mirrors(*old(state)) ==> final(self).mirrors(*final(state)),
            final(state).positions_list == old(state).positions_list,
            final(state).current_view == old(state).current_view,
            final(state).position == old(state).position,
            match (old(self).spec_phase(), report) {
                (Phase::ResolvingAddress, Report::AddressParsed(Some(addr))) => old(
                    self,
                ).connect_started(*old(state), *final(state), *final(self), r, addr, true),
                (Phase::ResolvingAddress, Report::AddressParsed(None)) => {
                    &&& old(self).scan_started(*old(state), *final(state), *final(self), r)
                    &&& is_notice(
                        r.notice,
                        NotificationType::Error,
                        "invalid mac address in config"@,
                    )
                },
                (Phase::Connecting(then_scan), Report::DeviceNotFound) => {
                    &&& final(self).spec_connected() is None
                    &&& final(state).connected_device is None
                    &&& is_notice(
                        r.notice,
                        NotificationType::Error,
                        "impossible to find the given device"@,
                    )
                    &&& then_scan ==> final(self).spec_phase() == Phase::Scanning && is_background(
                        final(state).status,
                        scanning_reason(),
                    ) && r.command == Command::Scan
                    &&& !then_scan ==> old(self).work_ended(*final(state), *final(self), r)
                        && final(state).devices_list == old(state).devices_list
                },
                (Phase::Connecting(then_scan), Report::ConnectFailed) => {
                    &&& final(self).spec_connected() is None
                    &&& final(state).connected_device is None
                    &&& is_notice(
                        r.notice,
                        NotificationType::Error,
                        "impossible to connect to the device"@,
                    )
                    &&& final(state).positions_list == old(state).positions_list
                    &&& final(state).current_view == old(state).current_view
                    &&& final(state).position == old(state).position
                    &&& then_scan ==> final(self).spec_phase() == Phase::Scanning && is_background(
                        final(state).status,
                        scanning_reason(),
                    ) && r.command == Command::Scan
                    &&& !then_scan ==> old(self).work_ended(*final(state), *final(self), r)
                        && final(state).devices_list == old(state).devices_list
                },
                (Phase::Connecting(then_scan), Report::Connected(addr)) => {
                    &&& final(self).spec_connected() == Some(addr)
                    &&& final(state).connected_device == Some(addr)
                    &&& is_notice(
                        r.notice,
                        NotificationType::Info,
                        "device successfully connected"@,
                    )
                    &&& final(state).positions_list == old(state).positions_list
                    &&& final(state).current_view == old(state).current_view
                    &&& final(state).position == old(state).position
                    &&& then_scan ==> final(self).spec_phase() == Phase::Scanning && is_background(
                        final(state).status,
                        scanning_reason(),
                    ) && r.command == Command::Scan
                    &&& !then_scan ==> old(self).work_ended(*final(state), *final(self), r)
                        && final(state).devices_list == old(state).devices_list
                },
                (Phase::Scanning, Report::Scanned(Some(found))) => {
                    &&& old(self).work_ended(*final(state), *final(self), r)
                    &&& final(self).spec_connected() == old(self).spec_connected()
                    &&& final(state).devices_list.spec_items() == found@
                    &&& final(state).devices_list.selection() == initial_selection(
                        found@.len() as int,
                    )
                    &&& final(state).positions_list == old(state).positions_list
                    &&& final(state).current_view == old(state).current_view
                    &&& final(state).connected_device == old(state).connected_device
                    &&& final(state).position == old(state).position
                    &&& is_notice(r.notice, NotificationType::Info, "devices scan completed"@)
                },
                (Phase::Scanning, Report::Scanned(None)) => {
                    &&& old(self).work_ended(*final(state), *final(self), r)
                    &&& final(self).spec_connected() == old(self).spec_connected()
                    &&& only_status_changed(*old(state), *final(state))
                    &&& is_notice(
                        r.notice,
                        NotificationType::Error,
                        "error in running bluetooth scan"@,
                    )
                },
                (Phase::Moving(froze), Report::MotionDone(ok)) => {
                    &&& final(self).spec_phase() == Phase::Idle
                    &&& final(self).spec_connected() == old(self).spec_connected()
                    &&& r.command == Command::Nothing
                    &&& only_status_changed(*old(state), *final(state))
                    &&& froze ==> final(state).status is Running
                    &&& !froze ==> final(state).status == old(state).status
                    &&& ok ==> r.notice is None
                    &&& !ok ==> is_notice(r.notice, NotificationType::Error, "desk command failed"@)
                },
                (Phase::Disconnecting, Report::Disconnected(ok)) => {
                    &&& final(self).spec_phase() == Phase::Terminated
                    &&& ok ==> final(self).spec_connected() is None && final(state).connected_device is None
                    &&& !ok ==> final(self).spec_connected() == old(self).spec_connected()
                        && final(state).connected_device == old(state).connected_device
                    &&& r.command == Command::Exit
                    &&& final(state).status is Running
                    &&& final(state).devices_list == old(state).devices_list
                    &&& ok ==> is_notice(r.notice, NotificationType::Info, "device disconnected"@)
                    &&& !ok ==> is_notice(
                        r.notice,
                        NotificationType::Error,
                        "impossible to disconnect from device"@,
                    )
                },
                _ => {
                    &&& *final(self) == *old(self)
                    &&& *final(state) == *old(state)
                    &&& r.command == Command::Nothing
                    &&& r.notice is None
                },
            },
    {
        match (self.phase, report) {
            (Phase::ResolvingAddress, Report::AddressParsed(Some(addr))) => {
                self.start_connect(state, addr, true)
            },
            (Phase::ResolvingAddress, Report::AddressParsed(None)) => {
                let step = self.start_scan(state);
                let notice = Notification::new(
                    NotificationType::Error,
                    "invalid mac address in config".to_owned(),
                );
                Step { command: step.command, notice: Some(notice) }
            },
            (Phase::Connecting(then_scan), Report::DeviceNotFound) => {
                self.connected = None;
                state.connected_device = None;
                let notice = Notification::new(
                    NotificationType::Error,
                    "impossible to find the given device".to_owned(),
                );
                self.after_connect(state, then_scan, notice)
            },
            (Phase::Connecting(then_scan), Report::ConnectFailed) => {
                self.connected = None;
                state.connected_device = None;
                let notice = Notification::new(
                    NotificationType::Error,
                    "impossible to connect to the device".to_owned(),
                );
                self.after_connect(state, then_scan, notice)
            },
            (Phase::Connecting(then_scan), Report::Connected(addr)) => {
                self.connected = Some(addr);
                state.connected_device = Some(addr);
                let notice = Notification::new(
                    NotificationType::Info,
                    "device successfully connected".to_owned(),
                );
                self.after_connect(state, then_scan, notice)
            },
            (Phase::Scanning, Report::Scanned(Some(found))) => {
                state.devices_list.set(found);
                state.status = Status::Running;
                self.phase = Phase::Idle;
                let notice = Notification::new(
                    NotificationType::Info,
                    "devices scan completed".to_owned(),
                );
                Step { command: Command::Nothing, notice: Some(notice) }
            },
            (Phase::Scanning, Report::Scanned(None)) => {
                state.status = Status::Running;
                self.phase = Phase::Idle;
                let notice = Notification::new(
                    NotificationType::Error,
                    "error in running bluetooth scan".to_owned(),
                );
                Step { command: Command::Nothing, notice: Some(notice) }
            },
            (Phase::Moving(froze), Report::MotionDone(ok)) => {
                if froze {
                    state.status = Status::Running;
                }
                self.phase = Phase::Idle;
                let notice = if ok {
                    None
                } else {
                    Some(Notification::new(NotificationType::Error, "desk command failed".to_owned()))
                };
                Step { command: Command::Nothing, notice }
            },
            (Phase::Disconnecting, Report::Disconnected(ok)) => {
                state.status = Status::Running;
                self.phase = Phase::Terminated;
                if ok {
                    self.connected = None;
                    state.connected_device = None;
                }
                let notice = if ok {
                    Notification::new(NotificationType::Info, "device disconnected".to_owned())
                } else {
                    Notification::new(
                        NotificationType::Error,
                        "impossible to disconnect from device".to_owned(),
                    )
                };
                Step { command: Command::Exit, notice: Some(notice) }
            },
            _ => Step { command: Command::Nothing, notice: None },
        }
    }
}

} // verus!
