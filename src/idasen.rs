use vstd::prelude::*;

verus! {

/// Lowest height the actuator reports, in tenths of a millimetre.
pub const MIN_HEIGHT: u16 = 6200;

/// Highest height the actuator can reach, in tenths of a millimetre.
pub const MAX_HEIGHT: u16 = 12700;

/// Identifier of the motion-control endpoint (`99fa0002-338a-1024-8a49-009c0215f78a`).
pub const CONTROL_UUID: u128 = 0x99fa0002_338a_1024_8a49_009c0215f78a;

/// Identifier of the position-telemetry endpoint (`99fa0021-338a-1024-8a49-009c0215f78a`).
pub const POSITION_UUID: u128 = 0x99fa0021_338a_1024_8a49_009c0215f78a;

/// Distance from the target, in tenths of a millimetre, that counts as arrived.
pub const STOP_DISTANCE: u16 = 10;

/// Below this distance from the target the desk is stopped after every command.
pub const SLOW_ZONE: u64 = 50;

/// One decoded telemetry reading.
#[derive(Debug, PartialEq, Eq, Clone, Copy, Structural)]
pub struct PositionSpeed {
    /// Height in tenths of a millimetre.
    pub position: u16,
    /// Signed speed; the sign gives the direction of travel.
    pub speed: i16,
}

#[derive(Debug, PartialEq, Eq, Clone, Copy)]
pub enum Direction {
    Idle,
    Up,
    Down,
}

/// A raw command written to the motion-control endpoint.
#[derive(Debug, PartialEq, Eq, Clone, Copy)]
pub enum MotionCommand {
    Up,
    Down,
    Stop,
}

#[derive(Debug, Clone)]
pub enum Error {
    /// A required endpoint is missing from the device; holds its name.
    CharacteristicsNotFound(String),
    /// The requested height lies outside `[MIN_HEIGHT, MAX_HEIGHT]`.
    PositionNotInRange,
    /// The device refused the subscription to position telemetry.
    CannotSubscribePosition,
}

/// Unsigned little-endian value of two bytes.
pub open spec fn le_u16(lo: u8, hi: u8) -> int {
    lo as int + 256 * (hi as int)
}

/// Two's-complement little-endian value of two bytes.
pub open spec fn le_i16(lo: u8, hi: u8) -> int {
    if le_u16(lo, hi) < 32768 {
        le_u16(lo, hi)
    } else {
        le_u16(lo, hi) - 65536
    }
}

/// A payload can be decoded when it has four bytes and the height fits in 16 bits.
pub open spec fn decodable(b: Seq<u8>) -> bool {
    b.len() >= 4 && le_u16(b[0], b[1]) + MIN_HEIGHT <= u16::MAX
}

/// The sample that a decodable payload stands for.
pub open spec fn decoded(b: Seq<u8>) -> PositionSpeed
    recommends
        decodable(b),
{
    PositionSpeed { position: (le_u16(b[0], b[1]) + MIN_HEIGHT) as u16, speed: le_i16(b[2], b[3]) as i16 }
}

pub open spec fn direction_of(speed: i16) -> Direction {
    if speed == 0 {
        Direction::Idle
    } else if speed > 0 {
        Direction::Up
    } else {
        Direction::Down
    }
}

pub open spec fn in_travel_range(h: int) -> bool {
    MIN_HEIGHT <= h <= MAX_HEIGHT
}

pub open spec fn distance(a: int, b: int) -> int {
    if a >= b {
        a - b
    } else {
        b - a
    }
}

impl MotionCommand {
    /// The two bytes written to the control endpoint for this command.
    pub fn payload(&self) -> (r: [u8; 2])
        ensures
            *self == MotionCommand::Up ==> r@ == seq![0x47u8, 0x00u8],
            *self == MotionCommand::Down ==> r@ == seq![0x46u8, 0x00u8],
            *self == MotionCommand::Stop ==> r@ == seq![0xFFu8, 0x00u8],
    {
        match self {
            MotionCommand::Up => [0x47u8, 0x00u8],
            MotionCommand::Down => [0x46u8, 0x00u8],
            MotionCommand::Stop => [0xFFu8, 0x00u8],
        }
    }
}

impl PositionSpeed {
    /// Decodes a telemetry payload: bytes 0..2 are the height above `MIN_HEIGHT`,
    /// bytes 2..4 the signed speed, both little-endian.
    pub fn from_bytes(bytes: &[u8]) -> (r: Self)
        requires
            decodable(bytes@),
        ensures
            r == decoded(bytes@),
    {
        let raw: u16 = bytes[0] as u16 + 256 * (bytes[1] as u16);
        let position: u16 = raw + MIN_HEIGHT;
        let unsigned: u16 = bytes[2] as u16 + 256 * (bytes[3] as u16);
        let speed: i16 = if unsigned < 32768 {
            unsigned as i16
        } else {
            (unsigned - 32768) as i16 + i16::MIN
        };
        PositionSpeed { position, speed }
    }

    pub fn get_direction(&self) -> (r: Direction)
        ensures
            r == direction_of(self.speed),
    {
        if self.speed == 0 {
            Direction::Idle
        } else if self.speed > 0 {
            Direction::Up
        } else {
            Direction::Down
        }
    }
}

/// Decodes a telemetry payload, or gives `None` where it is too short or its
/// height does not fit in 16 bits.
pub fn decode_position_speed(bytes: &[u8]) -> (r: Option<PositionSpeed>)
    ensures
        r == (if decodable(bytes@) {
            Some(decoded(bytes@))
        } else {
            None
        }),
{
    if bytes.len() < 4 {
        return None;
    }
    let raw: u16 = bytes[0] as u16 + 256 * (bytes[1] as u16);
    if raw > u16::MAX - MIN_HEIGHT {
        return None;
    }
    Some(PositionSpeed::from_bytes(bytes))
}

/// Keeps the push notifications of the position-telemetry endpoint and decodes them.
pub fn decode_notification(uuid: u128, value: &[u8]) -> (r: Option<PositionSpeed>)
    ensures
        r == (if uuid == POSITION_UUID && decodable(value@) {
            Some(decoded(value@))
        } else {
            None
        }),
{
    if uuid == POSITION_UUID {
        decode_position_speed(value)
    } else {
        None
    }
}

/// Where the two required endpoints stand in a device's list of characteristics.
#[derive(Debug, PartialEq, Eq, Clone, Copy)]
pub struct Endpoints {
    pub control: usize,
    pub position: usize,
}

/// `i` is the first index of `id` in `ids`.
pub open spec fn first_index_of(ids: Seq<u128>, id: u128, i: int) -> bool {
    0 <= i < ids.len() && ids[i] == id && forall|j: int| 0 <= j < i ==> ids[j] != id
}

pub open spec fn is_missing_endpoint(e: Error, name: Seq<char>) -> bool {
    match e {
        Error::CharacteristicsNotFound(n) => n@ == name,
        _ => false,
    }
}

fn first_index(ids: &Vec<u128>, id: u128) -> (r: Option<usize>)
    ensures
        match r {
            Some(i) => first_index_of(ids@, id, i as int),
            None => !ids@.contains(id),
        },
{
    let mut i: usize = 0;
    while i < ids.len()
        invariant
            i <= ids.len(),
            forall|j: int| 0 <= j < i ==> ids@[j] != id,
        decreases ids.len() - i,
    {
        if ids[i] == id {
            return Some(i);
        }
        i = i + 1;
    }
    None
}

/// Finds the motion-control and position-telemetry endpoints among the
/// identifiers of a device's characteristics, control first.
pub fn locate_endpoints(ids: &Vec<u128>) -> (r: Result<Endpoints, Error>)
    ensures
        match r {
            Ok(e) => first_index_of(ids@, CONTROL_UUID, e.control as int) && first_index_of(
                ids@,
                POSITION_UUID,
                e.position as int,
            ),
            Err(e) => if !ids@.contains(CONTROL_UUID) {
                is_missing_endpoint(e, "Control"@)
            } else {
                !ids@.contains(POSITION_UUID) && is_missing_endpoint(e, "Position"@)
            },
        },
        r is Ok <==> ids@.contains(CONTROL_UUID) && ids@.contains(POSITION_UUID),
{
    let control = match first_index(ids, CONTROL_UUID) {
        Some(i) => i,
        None => {
            return Err(Error::CharacteristicsNotFound("Control".to_owned()));
        },
    };
    let position = match first_index(ids, POSITION_UUID) {
        Some(i) => i,
        None => {
            return Err(Error::CharacteristicsNotFound("Position".to_owned()));
        },
    };
    Ok(Endpoints { control, position })
}

/// Estimated closing speed, in tenths of a millimetre per second, from a
/// distance travelled over a number of milliseconds. When no time has passed
/// but the desk moved, the speed is unbounded: `None`.
pub open spec fn speed_of(moved: int, elapsed_millis: int) -> Option<int> {
    if elapsed_millis <= 0 {
        if moved == 0 {
            Some(0)
        } else {
            None
        }
    } else {
        Some(moved * 1000 / elapsed_millis)
    }
}

pub fn speed_estimate(moved: u16, elapsed_millis: u64) -> (r: Option<u64>)
    ensures
        r == (match speed_of(moved as int, elapsed_millis as int) {
            Some(v) => Some(v as u64),
            None => None::<u64>,
        }),
        r matches Some(v) ==> v <= 65_535_000,
{
    if elapsed_millis == 0 {
        if moved == 0 {
            Some(0)
        } else {
            None
        }
    } else {
        assert((moved as u64) * 1000 <= 65_535_000) by (nonlinear_arith)
            requires
                moved <= 65535,
        ;
        let v: u64 = (moved as u64) * 1000 / elapsed_millis;
        assert(v <= (moved as u64) * 1000) by {
            vstd::arithmetic::div_mod::lemma_div_is_ordered_by_denominator(
                (moved as u64) * 1000,
                1,
                elapsed_millis as int,
            );
        }
        Some(v)
    }
}

/// The command that heads for the target, or stops when close enough.
pub open spec fn heading_command(target: int, current: int) -> MotionCommand {
    if distance(target, current) <= STOP_DISTANCE {
        MotionCommand::Stop
    } else if target > current {
        MotionCommand::Up
    } else {
        MotionCommand::Down
    }
}

/// Within this distance the desk would coast past the target: half a second
/// of travel at the current speed, and never less than `SLOW_ZONE`.
pub open spec fn braking_distance(speed: int) -> int {
    if speed / 2 > SLOW_ZONE {
        speed / 2
    } else {
        SLOW_ZONE as int
    }
}

/// The overshoot guard: the desk is stopped when the remaining distance is
/// below the braking distance, and always when its speed is unbounded.
pub open spec fn must_brake(remaining: int, speed: Option<int>) -> bool {
    match speed {
        Some(v) => remaining < braking_distance(v),
        None => true,
    }
}

/// What one round of the move-to-height loop sends, and whether the loop ends.
#[derive(Debug)]
pub struct MoveStep {
    pub commands: Vec<MotionCommand>,
    pub done: bool,
}

/// The closed-loop controller that drives the desk to a target height. Its
/// caller reads the height, calls `seed`, then in each round reads the height,
/// calls `step`, sends the commands, and calls `seed` with a fresh reading,
/// until a step is done.
pub struct MoveController {
    target: u16,
    last_position: u16,
    last_read_at: u64,
    seeded: bool,
}

impl MoveController {
    pub closed spec fn spec_target(&self) -> u16 {
        self.target
    }

    pub closed spec fn spec_last_position(&self) -> u16 {
        self.last_position
    }

    pub closed spec fn spec_last_read_at(&self) -> u64 {
        self.last_read_at
    }

    /// A reading has been recorded, so a speed can be estimated.
    pub closed spec fn seeded(&self) -> bool {
        self.seeded
    }

    /// Starts a move towards `target`; a target outside the travel range is
    /// refused before anything is read or sent.
    pub fn new(target: u16) -> (r: Result<MoveController, Error>)
        ensures
            in_travel_range(target as int) ==> (r matches Ok(c) && c.spec_target() == target
                && !c.seeded()),
            !in_travel_range(target as int) ==> (r matches Err(Error::PositionNotInRange)),
    {
        if target < MIN_HEIGHT || target > MAX_HEIGHT {
            Err(Error::PositionNotInRange)
        } else {
            Ok(MoveController { target, last_position: target, last_read_at: 0, seeded: false })
        }
    }

    pub fn target(&self) -> (r: u16)
        ensures
            r == self.spec_target(),
    {
        self.target
    }

    /// Records a reading taken at `now` (milliseconds) as the base of the next
    /// speed estimate.
    pub fn seed(&mut self, position: u16, now: u64)
        ensures
            final(self).spec_target() == old(self).spec_target(),
            final(self).spec_last_position() == position,
            final(self).spec_last_read_at() == now,
            final(self).seeded(),
    {
        self.last_position = position;
        self.last_read_at = now;
        self.seeded = true;
    }

    /// The speed, estimated from the last seeded reading, at which the desk
    /// reached `current` at `now`.
    pub open spec fn speed_at(&self, current: u16, now: u64) -> Option<int> {
        speed_of(
            distance(self.spec_last_position() as int, current as int),
            now - self.spec_last_read_at(),
        )
    }

    /// One round of the loop at height `current`, read at `now`. The move is
    /// done exactly when the desk is within `STOP_DISTANCE` of the target;
    /// at the target nothing is sent. Otherwise the desk heads for the target,
    /// and a Stop follows whenever the overshoot guard says so.
    pub fn step(&self, current: u16, now: u64) -> (r: MoveStep)
        requires
            self.seeded(),
        ensures
            r.done <==> distance(self.spec_target() as int, current as int) <= STOP_DISTANCE,
            current == self.spec_target() ==> r.commands@.len() == 0,
            current != self.spec_target() ==> {
                &&& 1 <= r.commands@.len() <= 2
                &&& r.commands@[0] == heading_command(self.spec_target() as int, current as int)
                &&& (r.commands@.len() == 2 <==> must_brake(
                    distance(self.spec_target() as int, current as int),
                    self.speed_at(current, now),
                ))
                &&& r.commands@.len() == 2 ==> r.commands@[1] == MotionCommand::Stop
            },
    {
        let mut commands: Vec<MotionCommand> = Vec::new();
        if current == self.target {
            return MoveStep { commands, done: true };
        }
        let remaining: u16 = if self.target > current {
            self.target - current
        } else {
            current - self.target
        };
        let moved: u16 = if self.last_position > current {
            self.last_position - current
        } else {
            current - self.last_position
        };
        let elapsed: u64 = if now > self.last_read_at {
            now - self.last_read_at
        } else {
            0
        };
        let done = remaining <= STOP_DISTANCE;
        if done {
            commands.push(MotionCommand::Stop);
        } else if self.target > current {
            commands.push(MotionCommand::Up);
        } else {
            commands.push(MotionCommand::Down);
        }
        let brake = match speed_estimate(moved, elapsed) {
            Some(speed) => {
                let distance_to_brake: u64 = if speed / 2 > SLOW_ZONE {
                    speed / 2
                } else {
                    SLOW_ZONE
                };
                (remaining as u64) < distance_to_brake
            },
            None => true,
        };
        if brake {
            commands.push(MotionCommand::Stop);
        }
        MoveStep { commands, done }
    }
}

/// Each reading farther than `STOP_DISTANCE` from the target is followed by
/// a strictly closer one.
pub open spec fn keeps_closing_in(target: u16, readings: Seq<u16>) -> bool {
    forall|i: int|
        0 <= i < readings.len() - 1 && distance(target as int, #[trigger] readings[i] as int)
            > STOP_DISTANCE ==> distance(target as int, readings[i + 1] as int) < distance(
            target as int,
            readings[i] as int,
        )
}

proof fn lemma_closing_bound(target: u16, readings: Seq<u16>, i: int)
    requires
        0 <= i < readings.len(),
        keeps_closing_in(target, readings),
        forall|j: int| 0 <= j < i ==> distance(target as int, #[trigger] readings[j] as int) > STOP_DISTANCE,
    ensures
        distance(target as int, readings[i] as int) <= distance(target as int, readings[0] as int) - i,
    decreases i,
{
    if i > 0 {
        lemma_closing_bound(target, readings, i - 1);
        assert(distance(target as int, readings[i - 1] as int) > STOP_DISTANCE);
    }
}

/// With a desk that keeps closing in, the move ends in time: a reading within
/// `STOP_DISTANCE` of the target, where `step` is done, comes at the latest
/// after `distance(target, readings[0]) - STOP_DISTANCE` rounds.
pub proof fn lemma_converging_desk_arrives(target: u16, readings: Seq<u16>)
    requires
        readings.len() > 0,
        readings.len() > distance(target as int, readings[0] as int) - STOP_DISTANCE,
        keeps_closing_in(target, readings),
    ensures
        exists|k: int|
            0 <= k < readings.len() && k <= if distance(target as int, readings[0] as int)
                > STOP_DISTANCE {
                distance(target as int, readings[0] as int) - STOP_DISTANCE
            } else {
                0
            } && distance(target as int, #[trigger] readings[k] as int) <= STOP_DISTANCE,
{
    let d0 = distance(target as int, readings[0] as int);
    if d0 <= STOP_DISTANCE {
        assert(distance(target as int, readings[0] as int) <= STOP_DISTANCE);
    } else {
        let n = d0 - STOP_DISTANCE;
        if !(exists|k: int| 0 <= k <= n && distance(target as int, #[trigger] readings[k] as int) <= STOP_DISTANCE) {
            assert forall|j: int| 0 <= j < n implies distance(target as int, #[trigger] readings[j] as int) > STOP_DISTANCE by {
                if distance(target as int, readings[j] as int) <= STOP_DISTANCE {
                    assert(0 <= j <= n);
                }
            }
            lemma_closing_bound(target, readings, n);
            assert(distance(target as int, readings[n] as int) <= STOP_DISTANCE);
        }
    }
}

} // verus!
