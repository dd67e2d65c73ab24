//! What the device answers to each query, as far as the records draw on it.
//!
//! The pipeline never computes with a reading; it only carries it. So the
//! type of a reading is left open as `V`, and a caller chooses it.

use vstd::hash_map::StringHashMap;
use vstd::prelude::*;

verus! {

/// One measured quantity: a unit and, if the device had one, a value.
#[derive(Clone, Debug, PartialEq)]
pub struct Quantity<V> {
    pub unit: String,
    pub value: Option<V>,
}

/// The common electrical readings of an inverter.
#[derive(Clone, Debug, PartialEq)]
pub struct CommonInverterData<V> {
    pub pac: Quantity<V>,
    pub sac: Quantity<V>,
    pub iac: Quantity<V>,
    pub uac: Quantity<V>,
    pub fac: Option<Quantity<V>>,
    pub idc: Quantity<V>,
    pub udc: Quantity<V>,
    pub total_energy: Quantity<V>,
}

/// The readings of an inverter for each of its three phases.
#[derive(Clone, Debug, PartialEq)]
pub struct ThreePhaseInverterData<V> {
    pub iac_l1: Quantity<V>,
    pub iac_l2: Quantity<V>,
    pub iac_l3: Quantity<V>,
    pub uac_l1: Quantity<V>,
    pub uac_l2: Quantity<V>,
    pub uac_l3: Quantity<V>,
}

/// What the device knows of one inverter.
#[derive(Clone, Debug, PartialEq)]
pub struct InverterInfoResponse {
    pub dt: i64,
    pub pv_power: i64,
    pub custom_name: String,
    pub show: i64,
    pub unique_id: String,
    pub error_code: i64,
    pub status_code: i64,
    pub inverter_state: String,
}

/// The device's table of inverters: under each identifier in decimal
/// notation, the information on that inverter if the device has any.
pub struct InverterInfoListing {
    table: StringHashMap<Option<InverterInfoResponse>>,
}

impl View for InverterInfoListing {
    type V = Map<Seq<char>, Option<InverterInfoResponse>>;

    closed spec fn view(&self) -> Map<Seq<char>, Option<InverterInfoResponse>> {
        self.table@
    }
}

impl InverterInfoListing {
    /// A table without entries.
    pub fn new() -> (listing: InverterInfoListing)
        ensures
            listing@ == Map::<Seq<char>, Option<InverterInfoResponse>>::empty(),
    {
        InverterInfoListing { table: StringHashMap::new() }
    }

    /// Puts an entry under a key, in place of what stood there.
    pub fn insert(&mut self, key: String, info: Option<InverterInfoResponse>)
        ensures
            final(self)@ == old(self)@.insert(key@, info),
    {
        self.table.insert(key, info);
    }

    /// The entry under a key, if the table has one.
    pub fn get(&self, key: &str) -> (entry: Option<&Option<InverterInfoResponse>>)
        ensures
            match entry {
                Some(info) => self@.contains_key(key@) && *info == self@[key@],
                None => !self@.contains_key(key@),
            },
    {
        self.table.get(key)
    }
}

/// The readings of a grid meter.
#[derive(Clone, Debug, PartialEq)]
pub struct MeterResponse<V> {
    pub current_ac_phase_1: Option<V>,
    pub current_ac_phase_2: Option<V>,
    pub current_ac_phase_3: Option<V>,
    pub current_ac_sum: Option<V>,
    pub voltage_ac_phase_1: Option<V>,
    pub voltage_ac_phase_2: Option<V>,
    pub voltage_ac_phase_3: Option<V>,
    pub voltage_ac_phase_to_phase_12: Option<V>,
    pub voltage_ac_phase_to_phase_23: Option<V>,
    pub voltage_ac_phase_to_phase_31: Option<V>,
    pub power_real_p_phase_1: Option<V>,
    pub power_real_p_phase_2: Option<V>,
    pub power_real_p_phase_3: Option<V>,
    pub power_real_p_sum: V,
    pub frequency_phase_average: V,
}

/// The state of a battery's controller.
#[derive(Clone, Debug, PartialEq)]
pub struct StorageController<V> {
    pub enable: i64,
    pub state_of_charge_relative: V,
    pub capacity_maximum: V,
    pub current_dc: V,
    pub voltage_dc: V,
    pub temperature_cell: V,
}

/// The state of a battery storage.
#[derive(Clone, Debug, PartialEq)]
pub struct StorageResponse<V> {
    pub controller: StorageController<V>,
}

/// The state of an auxiliary heater.
#[derive(Clone, Debug, PartialEq)]
pub struct OhmPilotResponse<V> {
    pub code_of_state: i64,
    pub code_of_error: Option<i64>,
    pub power_real_pac_sum: V,
    pub temperature_channel_1: V,
}

/// The power flows of the whole site.
#[derive(Clone, Debug, PartialEq)]
pub struct Site<V> {
    pub p_akku: Option<V>,
    pub p_grid: Option<V>,
    pub p_load: Option<V>,
    pub p_pv: V,
    pub rel_autonomy: Option<V>,
    pub rel_self_consumption: Option<V>,
}

/// The site-wide summary of power flows.
#[derive(Clone, Debug, PartialEq)]
pub struct PowerFlowResponse<V> {
    pub site: Site<V>,
}

} // verus!
