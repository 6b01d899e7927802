use crate::actions::SelectionMove;
use crate::config::Config;
use crate::idasen::PositionSpeed;
use crate::list::{initial_selection, next_selection, prev_selection, StatefulList};
use vstd::prelude::*;

verus! {

/// The four panels of the console, in focus order.
#[derive(Debug, Clone, Copy, PartialEq, Eq, Structural)]
pub enum Views {
    Connection,
    Movement,
    SavedPositions,
    DeviceList,
}

pub open spec fn view_index(v: Views) -> int {
    match v {
        Views::Connection => 0,
        Views::Movement => 1,
        Views::SavedPositions => 2,
        Views::DeviceList => 3,
    }
}

pub open spec fn view_at(i: int) -> Views {
    if i == 0 {
        Views::Connection
    } else if i == 1 {
        Views::Movement
    } else if i == 2 {
        Views::SavedPositions
    } else {
        Views::DeviceList
    }
}

impl Views {
    pub fn get_view_by_index(idx: usize) -> (r: Views)
        requires
            idx < 4,
        ensures
            r == view_at(idx as int),
            view_index(r) == idx,
    {
        match idx {
            0 => Views::Connection,
            1 => Views::Movement,
            2 => Views::SavedPositions,
            _ => Views::DeviceList,
        }
    }

    pub fn get_index_by_view(view: Views) -> (r: usize)
        ensures
            r == view_index(view),
            r < 4,
            view_at(r as int) == view,
    {
        match view {
            Views::Connection => 0,
            Views::Movement => 1,
            Views::SavedPositions => 2,
            Views::DeviceList => 3,
        }
    }
}

/// Whether the console takes input, and if not, why.
#[derive(Debug, Clone, PartialEq, Eq)]
pub enum Status {
    /// Work runs in the background; the reason is shown.
    Background(String),
    /// Input is ignored until the work ends; the reason is shown.
    Freezed(String),
    Running,
}

/// A named height the desk can be sent to.
#[derive(Debug, Clone, PartialEq, Eq)]
pub struct SavedPosition {
    pub name: String,
    /// Height in tenths of a millimetre.
    pub height: u16,
}

/// A device found by a scan.
#[derive(Debug, Clone, PartialEq, Eq)]
pub struct DeviceEntry {
    /// The device's 48-bit address.
    pub address: u64,
    pub local_name: Option<String>,
}

/// Finds the first device with address `addr` among the devices a scan found.
pub fn find_device(devices: &Vec<DeviceEntry>, addr: u64) -> (r: Option<usize>)
    ensures
        match r {
            Some(i) => i < devices@.len() && devices@[i as int].address == addr && forall|j: int|
                0 <= j < i ==> devices@[j].address != addr,
            None => forall|j: int| 0 <= j < devices@.len() ==> devices@[j].address != addr,
        },
{
    let mut i: usize = 0;
    while i < devices.len()
        invariant
            i <= devices@.len(),
            forall|j: int| 0 <= j < i ==> devices@[j].address != addr,
        decreases devices@.len() - i,
    {
        if devices[i].address == addr {
            return Some(i);
        }
        i = i + 1;
    }
    None
}

/// The application state shared by the dispatcher, the poller and the console.
#[derive(Debug, Clone, PartialEq, Eq)]
pub struct State {
    pub positions_list: StatefulList<SavedPosition>,
    pub devices_list: StatefulList<DeviceEntry>,
    pub current_view: Views,
    pub status: Status,
    pub connected_device: Option<u64>,
    pub position: Option<PositionSpeed>,
}

impl State {
    pub fn new(config: Config) -> (r: Self)
        ensures
            r.positions_list.spec_items() == config.saved_positions@,
            r.positions_list.selection() == initial_selection(
                config.saved_positions@.len() as int,
            ),
            r.devices_list.spec_items().len() == 0,
            r.devices_list.selection() is None,
            r.current_view == Views::Connection,
            r.status is Running,
            r.connected_device is None,
            r.position is None,
    {
        State {
            positions_list: StatefulList::with_items(config.saved_positions),
            devices_list: StatefulList::new(),
            current_view: Views::Connection,
            status: Status::Running,
            connected_device: None,
            position: None,
        }
    }

    /// Moves the focus to the next panel, after the last back to the first.
    pub fn move_view_focus_next(&mut self)
        ensures
            final(self).current_view == view_at((view_index(old(self).current_view) + 1) % 4),
            final(self).positions_list == old(self).positions_list,
            final(self).devices_list == old(self).devices_list,
            final(self).status == old(self).status,
            final(self).connected_device == old(self).connected_device,
            final(self).position == old(self).position,
    {
        let i = Views::get_index_by_view(self.current_view);
        self.current_view = Views::get_view_by_index((i + 1) % 4);
    }

    /// Moves the focus to the previous panel, before the first to the last.
    pub fn move_view_focus_prev(&mut self)
        ensures
            final(self).current_view == view_at((view_index(old(self).current_view) + 3) % 4),
            final(self).positions_list == old(self).positions_list,
            final(self).devices_list == old(self).devices_list,
            final(self).status == old(self).status,
            final(self).connected_device == old(self).connected_device,
            final(self).position == old(self).position,
    {
        let i = Views::get_index_by_view(self.current_view);
        self.current_view = Views::get_view_by_index(
            if i > 0 {
                i - 1
            } else {
                3
            },
        );
    }

    pub fn move_device_selection(&mut self, action: SelectionMove)
        ensures
            final(self).devices_list.spec_items() == old(self).devices_list.spec_items(),
            final(self).devices_list.selection() == (match action {
                SelectionMove::Prev => prev_selection(
                    old(self).devices_list.selection(),
                    old(self).devices_list.spec_items().len() as int,
                ),
                SelectionMove::Next => next_selection(
                    old(self).devices_list.selection(),
                    old(self).devices_list.spec_items().len() as int,
                ),
            }),
            final(self).positions_list == old(self).positions_list,
            final(self).current_view == old(self).current_view,
            final(self).status == old(self).status,
            final(self).connected_device == old(self).connected_device,
            final(self).position == old(self).position,
    {
        match action {
            SelectionMove::Prev => self.devices_list.select_prev(),
            SelectionMove::Next => self.devices_list.select_next(),
        }
    }

    /// Moves the selection among the saved positions; the saved positions
    /// themselves are left as they are.
    pub fn move_position_selection(&mut self, action: SelectionMove)
        ensures
            final(self).positions_list.spec_items() == old(self).positions_list.spec_items(),
            final(self).positions_list.selection() == (match action {
                SelectionMove::Prev => prev_selection(
                    old(self).positions_list.selection(),
                    old(self).positions_list.spec_items().len() as int,
                ),
                SelectionMove::Next => next_selection(
                    old(self).positions_list.selection(),
                    old(self).positions_list.spec_items().len() as int,
                ),
            }),
            final(self).devices_list == old(self).devices_list,
            final(self).current_view == old(self).current_view,
            final(self).status == old(self).status,
            final(self).connected_device == old(self).connected_device,
            final(self).position == old(self).position,
    {
        match action {
            SelectionMove::Prev => self.positions_list.select_prev(),
            SelectionMove::Next => self.positions_list.select_next(),
        }
    }

    /// The height to move to when the selected saved position is chosen: only
    /// while a device is connected and a saved position is selected.
    pub fn selected_target(&self) -> (r: Option<u16>)
        ensures
            match r {
                Some(h) => self.connected_device is Some && (self.positions_list.selection() matches Some(i)
                    && i < self.positions_list.spec_items().len() && h
                    == self.positions_list.spec_items()[i as int].height),
                None => self.connected_device is None || !(self.positions_list.selection() matches Some(i)
                    && i < self.positions_list.spec_items().len()),
            },
    {
        if self.connected_device.is_none() {
            return None;
        }
        match self.positions_list.get_selected() {
            Some(p) => Some(p.height),
            None => None,
        }
    }

    /// The address of the selected device, to connect to.
    pub fn selected_device_address(&self) -> (r: Option<u64>)
        ensures
            match r {
                Some(a) => self.devices_list.selection() matches Some(i) && i
                    < self.devices_list.spec_items().len() && a
                    == self.devices_list.spec_items()[i as int].address,
                None => !(self.devices_list.selection() matches Some(i) && i
                    < self.devices_list.spec_items().len()),
            },
    {
        match self.devices_list.get_selected() {
            Some(d) => Some(d.address),
            None => None,
        }
    }

    /// User input is ignored while the status is frozen.
    pub fn accepts_input(&self) -> (r: bool)
        ensures
            r == !(self.status is Freezed),
    {
        match self.status {
            Status::Freezed(_) => false,
            _ => true,
        }
    }

    /// Publishes the latest telemetry reading, or clears it when no device is
    /// connected; the last write wins.
    pub fn set_position(&mut self, sample: Option<PositionSpeed>)
        ensures
            final(self).position == sample,
            final(self).positions_list == old(self).positions_list,
            final(self).devices_list == old(self).devices_list,
            final(self).current_view == old(self).current_view,
            final(self).status == old(self).status,
            final(self).connected_device == old(self).connected_device,
    {
        self.position = sample;
    }
}

} // verus!
