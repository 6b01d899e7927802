use crate::idasen::PositionSpeed;
use crate::state::State;
use vstd::prelude::*;

verus! {

/// How long the poller waits before it tries again, in milliseconds.
pub const POLL_DELAY_MILLIS: u64 = 2000;

/// What the poller's executor observed.
#[derive(Debug, Clone, Copy, PartialEq, Eq, Structural)]
pub enum PollEvent {
    /// A cycle begins; `true` when a device session exists.
    CycleStart(bool),
    /// The seed reading, or `None` when the read failed.
    SeedRead(Option<PositionSpeed>),
    /// Whether the telemetry stream could be opened.
    StreamOpened(bool),
    /// A sample pushed by the telemetry stream.
    Sample(PositionSpeed),
    /// The telemetry stream has ended.
    StreamEnded,
}

/// What the poller's executor does next.
#[derive(Debug, Clone, Copy, PartialEq, Eq, Structural)]
pub enum PollAction {
    /// Read the position once and report `SeedRead`.
    ReadSeed,
    /// Open the telemetry stream and report `StreamOpened`.
    OpenStream,
    /// Wait for the next sample and report `Sample` or `StreamEnded`.
    NextSample,
    /// Sleep this many milliseconds, then report `CycleStart`.
    Sleep(u64),
}

/// One decision of the position poller. Without a session the shared position
/// is cleared; with one, a seed reading is taken and then every pushed sample
/// is published, the last write winning. Failed reads leave the position as
/// it was and raise nothing; the poller retries after `POLL_DELAY_MILLIS`.
pub fn poll_step(state: &mut State, event: PollEvent) -> (r: PollAction)
    ensures
        final(state).positions_list == old(state).positions_list,
        final(state).devices_list == old(state).devices_list,
        final(state).current_view == old(state).current_view,
        final(state).status == old(state).status,
        final(state).connected_device == old(state).connected_device,
        match event {
            PollEvent::CycleStart(false) => final(state).position is None && r == PollAction::Sleep(
                POLL_DELAY_MILLIS,
            ),
            PollEvent::CycleStart(true) => final(state).position == old(state).position && r
                == PollAction::ReadSeed,
            PollEvent::SeedRead(Some(ps)) => final(state).position == Some(ps) && r
                == PollAction::OpenStream,
            PollEvent::SeedRead(None) => final(state).position == old(state).position && r
                == PollAction::OpenStream,
            PollEvent::StreamOpened(true) => final(state).position == old(state).position && r
                == PollAction::NextSample,
            PollEvent::StreamOpened(false) => final(state).position == old(state).position && r
                == PollAction::Sleep(POLL_DELAY_MILLIS),
            PollEvent::Sample(ps) => final(state).position == Some(ps) && r
                == PollAction::NextSample,
            PollEvent::StreamEnded => final(state).position == old(state).position && r
                == PollAction::Sleep(POLL_DELAY_MILLIS),
        },
{
    match event {
        PollEvent::CycleStart(false) => {
            state.set_position(None);
            PollAction::Sleep(POLL_DELAY_MILLIS)
        },
        PollEvent::CycleStart(true) => PollAction::ReadSeed,
        PollEvent::SeedRead(Some(ps)) => {
            state.set_position(Some(ps));
            PollAction::OpenStream
        },
        PollEvent::SeedRead(None) => PollAction::OpenStream,
        PollEvent::StreamOpened(true) => PollAction::NextSample,
        PollEvent::StreamOpened(false) => PollAction::Sleep(POLL_DELAY_MILLIS),
        PollEvent::Sample(ps) => {
            state.set_position(Some(ps));
            PollAction::NextSample
        },
        PollEvent::StreamEnded => PollAction::Sleep(POLL_DELAY_MILLIS),
    }
}

} // verus!
