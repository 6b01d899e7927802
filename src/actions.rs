use crate::config::Config;
use vstd::prelude::*;

verus! {

/// A request to the command dispatcher.
pub enum AppAction {
    Init(Config),
    TearDown,
    UpdateDevicesList,
    /// Connect to the device with this address (48 bits).
    ConnectDevice(u64),
    StartMoving(MovingDirection),
}

#[derive(Debug, PartialEq, Eq, Clone, Copy)]
pub enum MovingDirection {
    Up,
    Down,
    Stop,
    ToHeight(u16),
}

#[derive(Debug, PartialEq, Eq, Clone, Copy)]
pub enum SelectionMove {
    Prev,
    Next,
}

} // verus!
