//! The seven metric records: a `device` tag, a fixed set of fields and the
//! time at which the record was made, in nanoseconds since the Unix epoch.
//!
//! A field is optional exactly where the device may leave the reading out.

use vstd::prelude::*;

verus! {

/// The common electrical readings of an inverter.
#[derive(Clone, Debug, PartialEq)]
pub struct InverterData<V> {
    pub device: String,
    pub ac_power: Option<V>,
    pub ac_power_abs: Option<V>,
    pub ac_current: Option<V>,
    pub ac_voltage: Option<V>,
    pub ac_frequency: Option<V>,
    pub dc_current: Option<V>,
    pub dc_voltage: Option<V>,
    pub total_energy: Option<V>,
    pub time: i64,
}

/// The readings of an inverter for each of its three phases.
#[derive(Clone, Debug, PartialEq)]
pub struct InverterPhaseData<V> {
    pub device: String,
    pub ac_l1_current: Option<V>,
    pub ac_l2_current: Option<V>,
    pub ac_l3_current: Option<V>,
    pub dc_l1_voltage: Option<V>,
    pub dc_l2_voltage: Option<V>,
    pub dc_l3_voltage: Option<V>,
    pub time: i64,
}

/// What the device knows of an inverter: its kind, name and state.
#[derive(Clone, Debug, PartialEq)]
pub struct InverterInfo {
    pub device: String,
    pub device_type: i64,
    pub pv_power: i64,
    pub name: String,
    pub is_visualized: bool,
    pub id: String,
    pub error_code: i64,
    pub status_code: String,
    pub state: String,
    pub time: i64,
}

/// The readings of the grid meter.
#[derive(Clone, Debug, PartialEq)]
pub struct MeterData<V> {
    pub device: String,
    pub l1_current: Option<V>,
    pub l2_current: Option<V>,
    pub l3_current: Option<V>,
    pub current: Option<V>,
    pub l1_voltage: Option<V>,
    pub l2_voltage: Option<V>,
    pub l3_voltage: Option<V>,
    pub l12_voltage: Option<V>,
    pub l23_voltage: Option<V>,
    pub l31_voltage: Option<V>,
    pub l1_power: Option<V>,
    pub l2_power: Option<V>,
    pub l3_power: Option<V>,
    pub power: V,
    pub frequency_average: V,
    pub time: i64,
}

/// The state of the battery storage.
#[derive(Clone, Debug, PartialEq)]
pub struct StorageData<V> {
    pub device: String,
    pub enabled: bool,
    pub charge_percentage: V,
    pub capacity: V,
    pub dc_current: V,
    pub dc_voltage: V,
    pub temperature_cell: V,
    pub time: i64,
}

/// The state of the auxiliary heater.
#[derive(Clone, Debug, PartialEq)]
pub struct OhmPilotData<V> {
    pub device: String,
    pub state: String,
    pub error_code: i64,
    pub power: V,
    pub temperature: V,
    pub time: i64,
}

/// The power flows of the whole site.
#[derive(Clone, Debug, PartialEq)]
pub struct PowerFlowData<V> {
    pub device: String,
    pub akku: Option<V>,
    pub grid: Option<V>,
    pub load: Option<V>,
    pub photovoltaik: V,
    pub relative_autonomy: Option<V>,
    pub relative_self_consumption: Option<V>,
    pub time: i64,
}

} // verus!
