use idasen_tui::idasen::{
    decode_notification, decode_position_speed, locate_endpoints, speed_estimate, Direction,
    Error, MotionCommand, MoveController, PositionSpeed, CONTROL_UUID, MAX_HEIGHT, MIN_HEIGHT,
    POSITION_UUID,
};

#[test]
fn decode_zero_payload_is_min_height_idle() {
    let ps = PositionSpeed::from_bytes(&[0x00, 0x00, 0x00, 0x00]);
    assert_eq!(ps.position, MIN_HEIGHT);
    assert_eq!(ps.speed, 0);
    assert_eq!(ps.get_direction(), Direction::Idle);
}

#[test]
fn decode_negative_speed_is_down() {
    let bytes = (-5i16).to_le_bytes();
    let ps = PositionSpeed::from_bytes(&[0x00, 0x00, bytes[0], bytes[1]]);
    assert_eq!(ps.speed, -5);
    assert_eq!(ps.get_direction(), Direction::Down);
}

#[test]
fn decode_positive_speed_is_up() {
    let ps = PositionSpeed::from_bytes(&[0x10, 0x27, 0x20, 0x00]);
    assert_eq!(ps.position, 10000 + MIN_HEIGHT);
    assert_eq!(ps.speed, 32);
    assert_eq!(ps.get_direction(), Direction::Up);
}

#[test]
fn decode_extreme_speeds() {
    assert_eq!(PositionSpeed::from_bytes(&[0, 0, 0x00, 0x80]).speed, i16::MIN);
    assert_eq!(PositionSpeed::from_bytes(&[0, 0, 0xFF, 0x7F]).speed, i16::MAX);
}

#[test]
fn decode_rejects_short_or_overflowing_payloads() {
    assert_eq!(decode_position_speed(&[0x00, 0x00, 0x00]), None);
    assert_eq!(decode_position_speed(&[0xFF, 0xFF, 0x00, 0x00]), None);
    let top = u16::MAX - MIN_HEIGHT;
    let b = top.to_le_bytes();
    assert_eq!(
        decode_position_speed(&[b[0], b[1], 0, 0]),
        Some(PositionSpeed { position: u16::MAX, speed: 0 })
    );
}

#[test]
fn decode_notification_keeps_only_position_endpoint() {
    let payload = [0x64, 0x00, 0x00, 0x00];
    assert_eq!(
        decode_notification(POSITION_UUID, &payload),
        Some(PositionSpeed { position: 6300, speed: 0 })
    );
    assert_eq!(decode_notification(CONTROL_UUID, &payload), None);
}

#[test]
fn motion_payloads() {
    assert_eq!(MotionCommand::Up.payload(), [0x47, 0x00]);
    assert_eq!(MotionCommand::Down.payload(), [0x46, 0x00]);
    assert_eq!(MotionCommand::Stop.payload(), [0xFF, 0x00]);
}

#[test]
fn endpoints_found() {
    let ids = vec![7u128, POSITION_UUID, CONTROL_UUID, POSITION_UUID];
    let e = locate_endpoints(&ids).unwrap();
    assert_eq!(e.control, 2);
    assert_eq!(e.position, 1);
}

#[test]
fn endpoints_missing_control() {
    let ids = vec![POSITION_UUID];
    match locate_endpoints(&ids) {
        Err(Error::CharacteristicsNotFound(name)) => assert_eq!(name, "Control"),
        other => panic!("unexpected {:?}", other),
    }
}

#[test]
fn endpoints_missing_position() {
    let ids = vec![1u128, CONTROL_UUID];
    match locate_endpoints(&ids) {
        Err(Error::CharacteristicsNotFound(name)) => assert_eq!(name, "Position"),
        other => panic!("unexpected {:?}", other),
    }
}

#[test]
fn speed_estimate_values() {
    assert_eq!(speed_estimate(100, 1000), Some(100));
    assert_eq!(speed_estimate(30, 200), Some(150));
    assert_eq!(speed_estimate(0, 0), Some(0));
    assert_eq!(speed_estimate(5, 0), None);
    assert_eq!(speed_estimate(60000, 1), Some(60_000_000));
    assert_eq!(speed_estimate(u16::MAX, 1), Some(65_535_000));
}

#[test]
fn move_step_far_fast_reading_still_brakes() {
    let mut c = MoveController::new(6200).unwrap();
    c.seed(0, 0);
    let s = c.step(60000, 1);
    assert!(!s.done);
    assert_eq!(s.commands, vec![MotionCommand::Down, MotionCommand::Stop]);
}

#[test]
fn move_step_movement_in_no_time_brakes() {
    let mut c = MoveController::new(9000).unwrap();
    c.seed(7000, 500);
    let s = c.step(7100, 500);
    assert_eq!(s.commands, vec![MotionCommand::Up, MotionCommand::Stop]);
    c.seed(7100, 500);
    let s = c.step(7100, 500);
    assert_eq!(s.commands, vec![MotionCommand::Up]);
}

#[test]
fn move_to_refuses_out_of_range_targets() {
    assert!(matches!(MoveController::new(MIN_HEIGHT - 1), Err(Error::PositionNotInRange)));
    assert!(matches!(MoveController::new(MAX_HEIGHT + 1), Err(Error::PositionNotInRange)));
    assert!(matches!(MoveController::new(0), Err(Error::PositionNotInRange)));
    assert_eq!(MoveController::new(MIN_HEIGHT).unwrap().target(), MIN_HEIGHT);
    assert_eq!(MoveController::new(MAX_HEIGHT).unwrap().target(), MAX_HEIGHT);
}

#[test]
fn move_step_at_target_sends_nothing() {
    let mut c = MoveController::new(8000).unwrap();
    c.seed(8000, 0);
    let s = c.step(8000, 100);
    assert!(s.done);
    assert!(s.commands.is_empty());
}

#[test]
fn move_step_close_stops() {
    let mut c = MoveController::new(8000).unwrap();
    c.seed(7995, 0);
    let s = c.step(7995, 100);
    assert!(s.done);
    assert_eq!(s.commands, vec![MotionCommand::Stop, MotionCommand::Stop]);
}

#[test]
fn move_step_far_heads_for_target() {
    let mut c = MoveController::new(9000).unwrap();
    c.seed(8000, 0);
    let s = c.step(8000, 100);
    assert!(!s.done);
    assert_eq!(s.commands, vec![MotionCommand::Up]);
    let mut c = MoveController::new(7000).unwrap();
    c.seed(8000, 0);
    let s = c.step(8000, 100);
    assert_eq!(s.commands, vec![MotionCommand::Down]);
}

#[test]
fn move_step_slow_zone_brakes() {
    let mut c = MoveController::new(8000).unwrap();
    c.seed(8040, 0);
    let s = c.step(8040, 100);
    assert!(!s.done);
    assert_eq!(s.commands, vec![MotionCommand::Down, MotionCommand::Stop]);
}

#[test]
fn move_step_fast_approach_brakes() {
    let mut c = MoveController::new(9000).unwrap();
    // 1000 units in one second: braking distance 500
    c.seed(7700, 0);
    let s = c.step(8700, 1000);
    assert_eq!(s.commands, vec![MotionCommand::Up, MotionCommand::Stop]);
    c.seed(8400, 0);
    let s = c.step(8400, 1000);
    assert_eq!(s.commands, vec![MotionCommand::Up]);
}

fn simulate(start: u16, target: u16) -> u16 {
    let mut c = MoveController::new(target).unwrap();
    let mut position = start;
    let mut now: u64 = 0;
    c.seed(position, now);
    for _ in 0..10000 {
        now += 100;
        let step = c.step(position, now);
        let mut velocity: i32 = 0;
        for cmd in &step.commands {
            velocity = match cmd {
                MotionCommand::Up => 30,
                MotionCommand::Down => -30,
                MotionCommand::Stop => 0,
            };
        }
        if step.done {
            return position;
        }
        let next = if velocity == 0 {
            let d = target as i32 - position as i32;
            position as i32 + d.signum() * d.abs().min(7)
        } else {
            position as i32 + velocity
        };
        position = next as u16;
        c.seed(position, now);
    }
    panic!("did not converge")
}

#[test]
fn move_to_converges_within_stop_distance() {
    for (start, target) in [(6200u16, 12700u16), (12700, 6200), (7000, 7005), (9000, 8123)] {
        let end = simulate(start, target);
        assert!((end as i32 - target as i32).abs() <= 10, "{} -> {}: {}", start, target, end);
    }
}
