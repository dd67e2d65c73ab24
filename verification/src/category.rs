//! The seven categories of telemetry that one collection cycle gathers.

use vstd::prelude::*;
use crate::device::DeviceId;

verus! {

/// One kind of device data; each has its own query, record shape and
/// diagnostic label. The order of the variants is the order of a cycle.
#[derive(Clone, Copy, Debug, PartialEq, Eq, Structural)]
pub enum Category {
    Inverter,
    InverterPhase,
    InverterInfo,
    Meter,
    Storage,
    OhmPilot,
    PowerFlow,
}

/// How many categories there are.
pub const CATEGORY_COUNT: usize = 7;

impl Category {
    /// The place of the category in a cycle, counted from zero.
    pub open spec fn index(self) -> nat {
        match self {
            Category::Inverter => 0,
            Category::InverterPhase => 1,
            Category::InverterInfo => 2,
            Category::Meter => 3,
            Category::Storage => 4,
            Category::OhmPilot => 5,
            Category::PowerFlow => 6,
        }
    }

    /// The category that follows this one in a cycle, if any.
    pub open spec fn following(self) -> Option<Category> {
        match self {
            Category::Inverter => Some(Category::InverterPhase),
            Category::InverterPhase => Some(Category::InverterInfo),
            Category::InverterInfo => Some(Category::Meter),
            Category::Meter => Some(Category::Storage),
            Category::Storage => Some(Category::OhmPilot),
            Category::OhmPilot => Some(Category::PowerFlow),
            Category::PowerFlow => None,
        }
    }

    /// The category that comes before this one in a cycle, if any.
    pub open spec fn preceding(self) -> Option<Category> {
        match self {
            Category::Inverter => None,
            Category::InverterPhase => Some(Category::Inverter),
            Category::InverterInfo => Some(Category::InverterPhase),
            Category::Meter => Some(Category::InverterInfo),
            Category::Storage => Some(Category::Meter),
            Category::OhmPilot => Some(Category::Storage),
            Category::PowerFlow => Some(Category::OhmPilot),
        }
    }

    /// The name under which the category appears in diagnostics.
    pub open spec fn label_text(self) -> Seq<char> {
        match self {
            Category::Inverter => "inverter_data"@,
            Category::InverterPhase => "inverter_phase_data"@,
            Category::InverterInfo => "inverter_info"@,
            Category::Meter => "meter_data"@,
            Category::Storage => "storage_data"@,
            Category::OhmPilot => "ohm_pilot_data"@,
            Category::PowerFlow => "power_flow_data"@,
        }
    }

    /// The value of the `device` tag on the category's records: the role of
    /// the physical device, or `Unknown` for the site-wide power flow.
    pub open spec fn device_tag_text(self) -> Seq<char> {
        match self {
            Category::Inverter => "Inverter"@,
            Category::InverterPhase => "Inverter"@,
            Category::InverterInfo => "Inverter"@,
            Category::Meter => "Meter"@,
            Category::Storage => "Storage"@,
            Category::OhmPilot => "OhmPilot"@,
            Category::PowerFlow => "Unknown"@,
        }
    }

    /// The number of the device that a cycle queries for the category; the
    /// power flow is not bound to one device.
    pub open spec fn device_number(self) -> Option<int> {
        match self {
            Category::Inverter => Some(1),
            Category::InverterPhase => Some(1),
            Category::InverterInfo => Some(1),
            Category::Meter => Some(0),
            Category::Storage => Some(0),
            Category::OhmPilot => Some(0),
            Category::PowerFlow => None,
        }
    }

    /// The first category of a cycle.
    pub fn first() -> (c: Category)
        ensures
            c == Category::Inverter,
    {
        Category::Inverter
    }

    /// The place of the category in a cycle, counted from zero.
    pub fn position(self) -> (i: usize)
        ensures
            i == self.index(),
            i < CATEGORY_COUNT,
    {
        match self {
            Category::Inverter => 0,
            Category::InverterPhase => 1,
            Category::InverterInfo => 2,
            Category::Meter => 3,
            Category::Storage => 4,
            Category::OhmPilot => 5,
            Category::PowerFlow => 6,
        }
    }

    /// The category that follows this one in a cycle, if any.
    pub fn next(self) -> (n: Option<Category>)
        ensures
            n == self.following(),
    {
        match self {
            Category::Inverter => Some(Category::InverterPhase),
            Category::InverterPhase => Some(Category::InverterInfo),
            Category::InverterInfo => Some(Category::Meter),
            Category::Meter => Some(Category::Storage),
            Category::Storage => Some(Category::OhmPilot),
            Category::OhmPilot => Some(Category::PowerFlow),
            Category::PowerFlow => None,
        }
    }

    /// The name under which the category appears in diagnostics.
    pub fn label(self) -> (s: &'static str)
        ensures
            s@ == self.label_text(),
    {
        match self {
            Category::Inverter => "inverter_data",
            Category::InverterPhase => "inverter_phase_data",
            Category::InverterInfo => "inverter_info",
            Category::Meter => "meter_data",
            Category::Storage => "storage_data",
            Category::OhmPilot => "ohm_pilot_data",
            Category::PowerFlow => "power_flow_data",
        }
    }

    /// The value of the `device` tag on the category's records.
    pub fn device_tag(self) -> (s: &'static str)
        ensures
            s@ == self.device_tag_text(),
    {
        match self {
            Category::Inverter => "Inverter",
            Category::InverterPhase => "Inverter",
            Category::InverterInfo => "Inverter",
            Category::Meter => "Meter",
            Category::Storage => "Storage",
            Category::OhmPilot => "OhmPilot",
            Category::PowerFlow => "Unknown",
        }
    }

    /// The device that a cycle queries for the category, if the category is
    /// bound to one.
    pub fn device(self) -> (d: Option<DeviceId>)
        ensures
            match self.device_number() {
                Some(n) => d is Some && d->Some_0@ == n,
                None => d is None,
            },
    {
        let number: u8 = match self {
            Category::Inverter => 1,
            Category::InverterPhase => 1,
            Category::InverterInfo => 1,
            Category::Meter => 0,
            Category::Storage => 0,
            Category::OhmPilot => 0,
            Category::PowerFlow => {
                return None;
            },
        };
        match DeviceId::try_from(number) {
            Ok(id) => Some(id),
            Err(_) => None,
        }
    }
}

} // verus!
