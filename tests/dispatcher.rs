use idasen_tui::actions::{AppAction, MovingDirection, SelectionMove};
use idasen_tui::config::Config;
use idasen_tui::dispatcher::{Command, Dispatcher, Report};
use idasen_tui::idasen::MotionCommand;
use idasen_tui::notification::NotificationType;
use idasen_tui::state::{DeviceEntry, SavedPosition, State, Status};

const DESK: u64 = 0xE8_5F_AA_01_02_03;

fn fresh() -> (Dispatcher, State) {
    let config = Config {
        predefined_mac: None,
        saved_positions: vec![
            SavedPosition { name: "sit".to_string(), height: 7200 },
            SavedPosition { name: "stand".to_string(), height: 11000 },
        ],
    };
    (Dispatcher::new(), State::new(config))
}

fn connected() -> (Dispatcher, State) {
    let (mut d, mut s) = fresh();
    d.begin(&mut s, AppAction::ConnectDevice(DESK));
    d.finish(&mut s, Report::Connected(DESK));
    (d, s)
}

#[test]
fn scan_then_connect_in_order() {
    let (mut d, mut s) = fresh();
    let step = d.begin(&mut s, AppAction::UpdateDevicesList);
    assert_eq!(step.command, Command::Scan);
    assert_eq!(s.status, Status::Background("loading devices list...".to_string()));
    let snapshot = s.clone();
    let refused = d.begin(&mut s, AppAction::ConnectDevice(DESK));
    assert_eq!(refused.command, Command::Nothing);
    assert_eq!(s, snapshot);
    let found = vec![DeviceEntry { address: DESK, local_name: Some("Desk".to_string()) }];
    let step = d.finish(&mut s, Report::Scanned(Some(found.clone())));
    assert_eq!(step.command, Command::Nothing);
    assert_eq!(step.notice.unwrap().kind, NotificationType::Info);
    assert_eq!(s.status, Status::Running);
    assert_eq!(s.devices_list.items(), &found);
    let step = d.begin(&mut s, AppAction::ConnectDevice(DESK));
    assert_eq!(step.command, Command::Connect(DESK));
    assert_eq!(s.status, Status::Background("connecting to device...".to_string()));
}

#[test]
fn failed_scan_reports_error() {
    let (mut d, mut s) = fresh();
    d.begin(&mut s, AppAction::UpdateDevicesList);
    let step = d.finish(&mut s, Report::Scanned(None));
    let n = step.notice.unwrap();
    assert_eq!(n.kind, NotificationType::Error);
    assert_eq!(n.message, "error in running bluetooth scan");
    assert_eq!(s.status, Status::Running);
    assert!(d.is_idle());
}

#[test]
fn second_connect_waits_for_first() {
    let (mut d, mut s) = fresh();
    assert_eq!(d.begin(&mut s, AppAction::ConnectDevice(DESK)).command, Command::Connect(DESK));
    assert_eq!(d.begin(&mut s, AppAction::ConnectDevice(7)).command, Command::Nothing);
    d.finish(&mut s, Report::Connected(DESK));
    assert_eq!(d.connected(), Some(DESK));
    assert_eq!(d.begin(&mut s, AppAction::ConnectDevice(7)).command, Command::Connect(7));
    let step = d.finish(&mut s, Report::Connected(7));
    assert_eq!(step.notice.unwrap().message, "device successfully connected");
    assert_eq!(d.connected(), Some(7));
    assert_eq!(s.connected_device, Some(7));
}

#[test]
fn connect_outcomes() {
    let (mut d, mut s) = connected();
    d.begin(&mut s, AppAction::ConnectDevice(9));
    let step = d.finish(&mut s, Report::DeviceNotFound);
    assert_eq!(step.notice.unwrap().message, "impossible to find the given device");
    assert_eq!(d.connected(), None);
    assert_eq!(s.connected_device, None);
    assert_eq!(s.status, Status::Running);
    let (mut d, mut s) = connected();
    d.begin(&mut s, AppAction::ConnectDevice(9));
    let step = d.finish(&mut s, Report::ConnectFailed);
    assert_eq!(step.notice.unwrap().kind, NotificationType::Error);
    assert_eq!(d.connected(), None);
    assert_eq!(s.connected_device, None);
    assert_eq!(s.status, Status::Running);
}

#[test]
fn init_without_address_scans() {
    let (mut d, mut s) = fresh();
    let step = d.begin(&mut s, AppAction::Init(Config::default()));
    assert_eq!(step.command, Command::Scan);
}

#[test]
fn init_with_address_connects_then_scans() {
    let (mut d, mut s) = fresh();
    let config = Config { predefined_mac: Some("E8:5F:AA:01:02:03".to_string()), saved_positions: Vec::new() };
    let step = d.begin(&mut s, AppAction::Init(config));
    assert_eq!(step.command, Command::ParseAddress("E8:5F:AA:01:02:03".to_string()));
    let step = d.finish(&mut s, Report::AddressParsed(Some(DESK)));
    assert_eq!(step.command, Command::Connect(DESK));
    let step = d.finish(&mut s, Report::Connected(DESK));
    assert_eq!(step.command, Command::Scan);
    assert_eq!(s.status, Status::Background("loading devices list...".to_string()));
}

#[test]
fn init_with_bad_address_warns_and_scans() {
    let (mut d, mut s) = fresh();
    let config = Config { predefined_mac: Some("nonsense".to_string()), saved_positions: Vec::new() };
    d.begin(&mut s, AppAction::Init(config));
    let step = d.finish(&mut s, Report::AddressParsed(None));
    assert_eq!(step.command, Command::Scan);
    assert_eq!(step.notice.unwrap().message, "invalid mac address in config");
}

#[test]
fn moving_without_device_is_ignored() {
    let (mut d, mut s) = fresh();
    let snapshot = s.clone();
    let step = d.begin(&mut s, AppAction::StartMoving(MovingDirection::Up));
    assert_eq!(step.command, Command::Nothing);
    assert_eq!(s, snapshot);
    assert!(d.is_idle());
}

#[test]
fn moving_up_freezes_until_done() {
    let (mut d, mut s) = connected();
    let step = d.begin(&mut s, AppAction::StartMoving(MovingDirection::Up));
    assert_eq!(step.command, Command::Motion(MotionCommand::Up));
    assert_eq!(s.status, Status::Freezed("desk is moving...".to_string()));
    d.finish(&mut s, Report::MotionDone(true));
    assert_eq!(s.status, Status::Running);
    let step = d.begin(&mut s, AppAction::StartMoving(MovingDirection::Down));
    assert_eq!(step.command, Command::Motion(MotionCommand::Down));
    assert_eq!(s.status, Status::Running);
    let step = d.finish(&mut s, Report::MotionDone(false));
    assert_eq!(step.notice.unwrap().message, "desk command failed");
    let step = d.begin(&mut s, AppAction::StartMoving(MovingDirection::Stop));
    assert_eq!(step.command, Command::Motion(MotionCommand::Stop));
}

#[test]
fn saved_positions_survive_moving_to_them() {
    let (mut d, mut s) = connected();
    let before = s.positions_list.items().clone();
    s.move_position_selection(SelectionMove::Next);
    let h = s.selected_target().unwrap();
    assert_eq!(h, 11000);
    let step = d.begin(&mut s, AppAction::StartMoving(MovingDirection::ToHeight(h)));
    assert_eq!(step.command, Command::MoveTo(11000));
    d.finish(&mut s, Report::MotionDone(true));
    assert_eq!(s.positions_list.items(), &before);
    assert_eq!(s.selected_target(), Some(11000));
}

#[test]
fn teardown_without_device_leaves_state() {
    let (mut d, mut s) = fresh();
    let snapshot = s.clone();
    let step = d.begin(&mut s, AppAction::TearDown);
    assert_eq!(step.command, Command::Exit);
    assert!(step.notice.is_none());
    assert_eq!(s, snapshot);
    assert!(d.is_terminated());
    assert_eq!(d.begin(&mut s, AppAction::UpdateDevicesList).command, Command::Nothing);
}

#[test]
fn teardown_with_device_disconnects() {
    let (mut d, mut s) = connected();
    let step = d.begin(&mut s, AppAction::TearDown);
    assert_eq!(step.command, Command::Disconnect);
    assert_eq!(s.status, Status::Freezed("shutting down...".to_string()));
    let step = d.finish(&mut s, Report::Disconnected(true));
    assert_eq!(step.command, Command::Exit);
    assert_eq!(step.notice.unwrap().message, "device disconnected");
    assert_eq!(d.connected(), None);
    assert_eq!(s.connected_device, None);
    assert_eq!(s.status, Status::Running);
    assert!(d.is_terminated());
}

#[test]
fn teardown_failure_reports_error() {
    let (mut d, mut s) = connected();
    d.begin(&mut s, AppAction::TearDown);
    let step = d.finish(&mut s, Report::Disconnected(false));
    assert_eq!(step.notice.unwrap().message, "impossible to disconnect from device");
    assert_eq!(d.connected(), Some(DESK));
    assert_eq!(s.connected_device, Some(DESK));
    assert_eq!(step.command, Command::Exit);
}

#[test]
fn unexpected_report_changes_nothing() {
    let (mut d, mut s) = fresh();
    let snapshot = s.clone();
    let step = d.finish(&mut s, Report::Connected(DESK));
    assert_eq!(step.command, Command::Nothing);
    assert_eq!(s, snapshot);
    assert_eq!(d.connected(), None);
}
