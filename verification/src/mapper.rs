//! The seven mappers: each makes the record of one category from the
//! device's response and the time of mapping.
//!
//! A record repeats the response field by field under the record's names.
//! The only changes are these: a counter that serves as a flag becomes a
//! boolean (set when the counter is above zero), a status or state code
//! becomes its decimal notation, a reading nested in a part of the response
//! is lifted to the record, and a missing error code of the heater counts as
//! zero. A reading that the device left out is left out of the record.
//!
//! Each category has a mapper proper, which takes the time as an argument; a
//! `stamp_` function, which takes a reading of the clock and fails where the
//! clock gave none; and a `get_` function, which takes what the device client
//! returned, passes its error on, and otherwise reads the clock and stamps.

use vstd::prelude::*;
use crate::category::Category;
use crate::clock::utc_now_nanos;
use crate::decimal::{integer_text, natural_text, render_integer, render_natural};
use crate::device::DeviceId;
use crate::error::{FetchError, OptionEmptyError, time_of_reading};
use crate::record::{
    InverterData,
    InverterInfo,
    InverterPhaseData,
    MeterData,
    OhmPilotData,
    PowerFlowData,
    StorageData,
};
use crate::response::{
    CommonInverterData,
    InverterInfoListing,
    InverterInfoResponse,
    MeterResponse,
    OhmPilotResponse,
    PowerFlowResponse,
    StorageResponse,
    ThreePhaseInverterData,
};

verus! {

impl<V> InverterData<V> {
    /// The record is the inverter record of `response`, made at `time`.
    pub open spec fn mirrors(self, response: CommonInverterData<V>, time: i64) -> bool {
        &&& self.device@ == Category::Inverter.device_tag_text()
        &&& self.ac_power == response.pac.value
        &&& self.ac_power_abs == response.sac.value
        &&& self.ac_current == response.iac.value
        &&& self.ac_voltage == response.uac.value
        &&& self.ac_frequency == match response.fac {
            Some(frequency) => frequency.value,
            None => None,
        }
        &&& self.dc_current == response.idc.value
        &&& self.dc_voltage == response.udc.value
        &&& self.total_energy == response.total_energy.value
        &&& self.time == time
    }
}

impl<V> InverterPhaseData<V> {
    /// The record is the phase record of `response`, made at `time`.
    pub open spec fn mirrors(self, response: ThreePhaseInverterData<V>, time: i64) -> bool {
        &&& self.device@ == Category::InverterPhase.device_tag_text()
        &&& self.ac_l1_current == response.iac_l1.value
        &&& self.ac_l2_current == response.iac_l2.value
        &&& self.ac_l3_current == response.iac_l3.value
        &&& self.dc_l1_voltage == response.uac_l1.value
        &&& self.dc_l2_voltage == response.uac_l2.value
        &&& self.dc_l3_voltage == response.uac_l3.value
        &&& self.time == time
    }
}

impl InverterInfo {
    /// The record is the information record of `response`, made at `time`.
    pub open spec fn mirrors(self, response: InverterInfoResponse, time: i64) -> bool {
        &&& self.device@ == Category::InverterInfo.device_tag_text()
        &&& self.device_type == response.dt
        &&& self.pv_power == response.pv_power
        &&& self.name@ == response.custom_name@
        &&& self.is_visualized == (response.show > 0)
        &&& self.id@ == response.unique_id@
        &&& self.error_code == response.error_code
        &&& self.status_code@ == integer_text(response.status_code as int)
        &&& self.state@ == response.inverter_state@
        &&& self.time == time
    }
}

impl<V> MeterData<V> {
    /// The record is the meter record of `response`, made at `time`.
    pub open spec fn mirrors(self, response: MeterResponse<V>, time: i64) -> bool {
        &&& self.device@ == Category::Meter.device_tag_text()
        &&& self.l1_current == response.current_ac_phase_1
        &&& self.l2_current == response.current_ac_phase_2
        &&& self.l3_current == response.current_ac_phase_3
        &&& self.current == response.current_ac_sum
        &&& self.l1_voltage == response.voltage_ac_phase_1
        &&& self.l2_voltage == response.voltage_ac_phase_2
        &&& self.l3_voltage == response.voltage_ac_phase_3
        &&& self.l12_voltage == response.voltage_ac_phase_to_phase_12
        &&& self.l23_voltage == response.voltage_ac_phase_to_phase_23
        &&& self.l31_voltage == response.voltage_ac_phase_to_phase_31
        &&& self.l1_power == response.power_real_p_phase_1
        &&& self.l2_power == response.power_real_p_phase_2
        &&& self.l3_power == response.power_real_p_phase_3
        &&& self.power == response.power_real_p_sum
        &&& self.frequency_average == response.frequency_phase_average
        &&& self.time == time
    }
}

impl<V> StorageData<V> {
    /// The record is the storage record of `response`, made at `time`.
    pub open spec fn mirrors(self, response: StorageResponse<V>, time: i64) -> bool {
        &&& self.device@ == Category::Storage.device_tag_text()
        &&& self.enabled == (response.controller.enable > 0)
        &&& self.charge_percentage == response.controller.state_of_charge_relative
        &&& self.capacity == response.controller.capacity_maximum
        &&& self.dc_current == response.controller.current_dc
        &&& self.dc_voltage == response.controller.voltage_dc
        &&& self.temperature_cell == response.controller.temperature_cell
        &&& self.time == time
    }
}

impl<V> OhmPilotData<V> {
    /// The record is the heater record of `response`, made at `time`.
    pub open spec fn mirrors(self, response: OhmPilotResponse<V>, time: i64) -> bool {
        &&& self.device@ == Category::OhmPilot.device_tag_text()
        &&& self.state@ == integer_text(response.code_of_state as int)
        &&& self.error_code == match response.code_of_error {
            Some(code) => code,
            None => 0,
        }
        &&& self.power == response.power_real_pac_sum
        &&& self.temperature == response.temperature_channel_1
        &&& self.time == time
    }
}

impl<V> PowerFlowData<V> {
    /// The record is the power flow record of `response`, made at `time`.
    pub open spec fn mirrors(self, response: PowerFlowResponse<V>, time: i64) -> bool {
        &&& self.device@ == Category::PowerFlow.device_tag_text()
        &&& self.akku == response.site.p_akku
        &&& self.grid == response.site.p_grid
        &&& self.load == response.site.p_load
        &&& self.photovoltaik == response.site.p_pv
        &&& self.relative_autonomy == response.site.rel_autonomy
        &&& self.relative_self_consumption == response.site.rel_self_consumption
        &&& self.time == time
    }
}

/// The inverter record has a reading exactly where the device gave one.
pub proof fn inverter_record_keeps_gaps<V>(
    record: InverterData<V>,
    response: CommonInverterData<V>,
    time: i64,
)
    requires
        record.mirrors(response, time),
    ensures
        record.ac_power is None <==> response.pac.value is None,
        record.ac_power_abs is None <==> response.sac.value is None,
        record.ac_current is None <==> response.iac.value is None,
        record.ac_voltage is None <==> response.uac.value is None,
        record.ac_frequency is None <==> (response.fac is None || response.fac->Some_0.value
            is None),
        record.dc_current is None <==> response.idc.value is None,
        record.dc_voltage is None <==> response.udc.value is None,
        record.total_energy is None <==> response.total_energy.value is None,
{
}

/// The phase record has a reading exactly where the device gave one.
pub proof fn inverter_phase_record_keeps_gaps<V>(
    record: InverterPhaseData<V>,
    response: ThreePhaseInverterData<V>,
    time: i64,
)
    requires
        record.mirrors(response, time),
    ensures
        record.ac_l1_current is None <==> response.iac_l1.value is None,
        record.ac_l2_current is None <==> response.iac_l2.value is None,
        record.ac_l3_current is None <==> response.iac_l3.value is None,
        record.dc_l1_voltage is None <==> response.uac_l1.value is None,
        record.dc_l2_voltage is None <==> response.uac_l2.value is None,
        record.dc_l3_voltage is None <==> response.uac_l3.value is None,
{
}

/// The meter record has a reading exactly where the device gave one.
pub proof fn meter_record_keeps_gaps<V>(
    record: MeterData<V>,
    response: MeterResponse<V>,
    time: i64,
)
    requires
        record.mirrors(response, time),
    ensures
        record.l1_current is None <==> response.current_ac_phase_1 is None,
        record.l2_current is None <==> response.current_ac_phase_2 is None,
        record.l3_current is None <==> response.current_ac_phase_3 is None,
        record.current is None <==> response.current_ac_sum is None,
        record.l1_voltage is None <==> response.voltage_ac_phase_1 is None,
        record.l2_voltage is None <==> response.voltage_ac_phase_2 is None,
        record.l3_voltage is None <==> response.voltage_ac_phase_3 is None,
        record.l12_voltage is None <==> response.voltage_ac_phase_to_phase_12 is None,
        record.l23_voltage is None <==> response.voltage_ac_phase_to_phase_23 is None,
        record.l31_voltage is None <==> response.voltage_ac_phase_to_phase_31 is None,
        record.l1_power is None <==> response.power_real_p_phase_1 is None,
        record.l2_power is None <==> response.power_real_p_phase_2 is None,
        record.l3_power is None <==> response.power_real_p_phase_3 is None,
{
}

/// The power flow record has a reading exactly where the device gave one.
pub proof fn power_flow_record_keeps_gaps<V>(
    record: PowerFlowData<V>,
    response: PowerFlowResponse<V>,
    time: i64,
)
    requires
        record.mirrors(response, time),
    ensures
        record.akku is None <==> response.site.p_akku is None,
        record.grid is None <==> response.site.p_grid is None,
        record.load is None <==> response.site.p_load is None,
        record.relative_autonomy is None <==> response.site.rel_autonomy is None,
        record.relative_self_consumption is None <==> response.site.rel_self_consumption
            is None,
{
}

/// The one default among the records: a heater that reports no error code
/// has the error code zero, and a code that it reports is kept.
pub proof fn ohm_pilot_error_code_defaults_to_zero<V>(
    record: OhmPilotData<V>,
    response: OhmPilotResponse<V>,
    time: i64,
)
    requires
        record.mirrors(response, time),
    ensures
        response.code_of_error is None ==> record.error_code == 0,
        response.code_of_error is Some ==> record.error_code == response.code_of_error->Some_0,
{
}

/// Makes the inverter record of a response.
pub fn map_inverter<V>(response: CommonInverterData<V>, time: i64) -> (record: InverterData<V>)
    ensures
        record.mirrors(response, time),
{
    InverterData {
        device: Category::Inverter.device_tag().to_owned(),
        ac_power: response.pac.value,
        ac_power_abs: response.sac.value,
        ac_current: response.iac.value,
        ac_voltage: response.uac.value,
        ac_frequency: match response.fac {
            None => None,
            Some(frequency) => frequency.value,
        },
        dc_current: response.idc.value,
        dc_voltage: response.udc.value,
        total_energy: response.total_energy.value,
        time,
    }
}

/// Makes the phase record of a response.
pub fn map_inverter_phase<V>(response: ThreePhaseInverterData<V>, time: i64) -> (record:
    InverterPhaseData<V>)
    ensures
        record.mirrors(response, time),
{
    InverterPhaseData {
        device: Category::InverterPhase.device_tag().to_owned(),
        ac_l1_current: response.iac_l1.value,
        ac_l2_current: response.iac_l2.value,
        ac_l3_current: response.iac_l3.value,
        dc_l1_voltage: response.uac_l1.value,
        dc_l2_voltage: response.uac_l2.value,
        dc_l3_voltage: response.uac_l3.value,
        time,
    }
}

/// Makes the information record of one inverter. The status code is
/// written in decimal notation.
pub fn map_inverter_info(response: &InverterInfoResponse, time: i64) -> (record: InverterInfo)
    ensures
        record.mirrors(*response, time),
{
    InverterInfo {
        device: Category::InverterInfo.device_tag().to_owned(),
        device_type: response.dt,
        pv_power: response.pv_power,
        name: response.custom_name.clone(),
        is_visualized: response.show > 0,
        id: response.unique_id.clone(),
        error_code: response.error_code,
        status_code: render_integer(response.status_code),
        state: response.inverter_state.clone(),
        time,
    }
}

/// Makes the meter record of a response.
pub fn map_meter<V>(response: MeterResponse<V>, time: i64) -> (record: MeterData<V>)
    ensures
        record.mirrors(response, time),
{
    MeterData {
        device: Category::Meter.device_tag().to_owned(),
        l1_current: response.current_ac_phase_1,
        l2_current: response.current_ac_phase_2,
        l3_current: response.current_ac_phase_3,
        current: response.current_ac_sum,
        l1_voltage: response.voltage_ac_phase_1,
        l2_voltage: response.voltage_ac_phase_2,
        l3_voltage: response.voltage_ac_phase_3,
        l12_voltage: response.voltage_ac_phase_to_phase_12,
        l23_voltage: response.voltage_ac_phase_to_phase_23,
        l31_voltage: response.voltage_ac_phase_to_phase_31,
        l1_power: response.power_real_p_phase_1,
        l2_power: response.power_real_p_phase_2,
        l3_power: response.power_real_p_phase_3,
        power: response.power_real_p_sum,
        frequency_average: response.frequency_phase_average,
        time,
    }
}

/// Makes the storage record of a response, from the state of the
/// battery's controller.
pub fn map_storage<V>(response: StorageResponse<V>, time: i64) -> (record: StorageData<V>)
    ensures
        record.mirrors(response, time),
{
    StorageData {
        device: Category::Storage.device_tag().to_owned(),
        enabled: response.controller.enable > 0,
        charge_percentage: response.controller.state_of_charge_relative,
        capacity: response.controller.capacity_maximum,
        dc_current: response.controller.current_dc,
        dc_voltage: response.controller.voltage_dc,
        temperature_cell: response.controller.temperature_cell,
        time,
    }
}

/// Makes the heater record of a response. The state code is written in
/// decimal notation, and a missing error code counts as zero.
pub fn map_ohm_pilot<V>(response: OhmPilotResponse<V>, time: i64) -> (record: OhmPilotData<V>)
    ensures
        record.mirrors(response, time),
{
    OhmPilotData {
        device: Category::OhmPilot.device_tag().to_owned(),
        state: render_integer(response.code_of_state),
        error_code: match response.code_of_error {
            Some(code) => code,
            None => 0,
        },
        power: response.power_real_pac_sum,
        temperature: response.temperature_channel_1,
        time,
    }
}

/// Makes the power flow record of a response, from the flows of the site.
pub fn map_power_flow<V>(response: PowerFlowResponse<V>, time: i64) -> (record: PowerFlowData<V>)
    ensures
        record.mirrors(response, time),
{
    PowerFlowData {
        device: Category::PowerFlow.device_tag().to_owned(),
        akku: response.site.p_akku,
        grid: response.site.p_grid,
        load: response.site.p_load,
        photovoltaik: response.site.p_pv,
        relative_autonomy: response.site.rel_autonomy,
        relative_self_consumption: response.site.rel_self_consumption,
        time,
    }
}

/// The inverter record of a response, stamped with a reading of the clock. A
/// reading that the clock could not give is the `Timestamp` error.
pub fn stamp_inverter<V>(response: CommonInverterData<V>, reading: Option<i64>) -> (made: Result<
    InverterData<V>,
    FetchError,
>)
    ensures
        match reading {
            Some(time) => made is Ok && made->Ok_0.mirrors(response, time),
            None => made == Err::<InverterData<V>, FetchError>(FetchError::Timestamp),
        },
{
    match time_of_reading(reading) {
        Ok(time) => Ok(map_inverter(response, time)),
        Err(error) => Err(error),
    }
}

/// The phase record of a response, stamped with a reading of the clock. A
/// reading that the clock could not give is the `Timestamp` error.
pub fn stamp_inverter_phase<V>(response: ThreePhaseInverterData<V>, reading: Option<i64>) -> (made: Result<
    InverterPhaseData<V>,
    FetchError,
>)
    ensures
        match reading {
            Some(time) => made is Ok && made->Ok_0.mirrors(response, time),
            None => made == Err::<InverterPhaseData<V>, FetchError>(FetchError::Timestamp),
        },
{
    match time_of_reading(reading) {
        Ok(time) => Ok(map_inverter_phase(response, time)),
        Err(error) => Err(error),
    }
}

/// The meter record of a response, stamped with a reading of the clock. A
/// reading that the clock could not give is the `Timestamp` error.
pub fn stamp_meter<V>(response: MeterResponse<V>, reading: Option<i64>) -> (made: Result<
    MeterData<V>,
    FetchError,
>)
    ensures
        match reading {
            Some(time) => made is Ok && made->Ok_0.mirrors(response, time),
            None => made == Err::<MeterData<V>, FetchError>(FetchError::Timestamp),
        },
{
    match time_of_reading(reading) {
        Ok(time) => Ok(map_meter(response, time)),
        Err(error) => Err(error),
    }
}

/// The storage record of a response, stamped with a reading of the clock. A
/// reading that the clock could not give is the `Timestamp` error.
pub fn stamp_storage<V>(response: StorageResponse<V>, reading: Option<i64>) -> (made: Result<
    StorageData<V>,
    FetchError,
>)
    ensures
        match reading {
            Some(time) => made is Ok && made->Ok_0.mirrors(response, time),
            None => made == Err::<StorageData<V>, FetchError>(FetchError::Timestamp),
        },
{
    match time_of_reading(reading) {
        Ok(time) => Ok(map_storage(response, time)),
        Err(error) => Err(error),
    }
}

/// The heater record of a response, stamped with a reading of the clock. A
/// reading that the clock could not give is the `Timestamp` error.
pub fn stamp_ohm_pilot<V>(response: OhmPilotResponse<V>, reading: Option<i64>) -> (made: Result<
    OhmPilotData<V>,
    FetchError,
>)
    ensures
        match reading {
            Some(time) => made is Ok && made->Ok_0.mirrors(response, time),
            None => made == Err::<OhmPilotData<V>, FetchError>(FetchError::Timestamp),
        },
{
    match time_of_reading(reading) {
        Ok(time) => Ok(map_ohm_pilot(response, time)),
        Err(error) => Err(error),
    }
}

/// The power flow record of a response, stamped with a reading of the clock. A
/// reading that the clock could not give is the `Timestamp` error.
pub fn stamp_power_flow<V>(response: PowerFlowResponse<V>, reading: Option<i64>) -> (made: Result<
    PowerFlowData<V>,
    FetchError,
>)
    ensures
        match reading {
            Some(time) => made is Ok && made->Ok_0.mirrors(response, time),
            None => made == Err::<PowerFlowData<V>, FetchError>(FetchError::Timestamp),
        },
{
    match time_of_reading(reading) {
        Ok(time) => Ok(map_power_flow(response, time)),
        Err(error) => Err(error),
    }
}

/// The information record of one inverter, stamped with a reading of the
/// clock. A reading that the clock could not give is the `Timestamp` error.
pub fn stamp_inverter_info(response: &InverterInfoResponse, reading: Option<i64>) -> (made: Result<
    InverterInfo,
    FetchError,
>)
    ensures
        match reading {
            Some(time) => made is Ok && made->Ok_0.mirrors(*response, time),
            None => made == Err::<InverterInfo, FetchError>(FetchError::Timestamp),
        },
{
    match time_of_reading(reading) {
        Ok(time) => Ok(map_inverter_info(response, time)),
        Err(error) => Err(error),
    }
}

impl InverterInfoListing {
    /// The information that the table holds under `key`: nothing if it has
    /// no entry there, or an empty one.
    pub open spec fn lookup(self, key: Seq<char>) -> Option<InverterInfoResponse> {
        if self@.contains_key(key) {
            self@[key]
        } else {
            None
        }
    }
}

/// Picks from the device's table the information on one inverter. The key
/// is the identifier in decimal notation. That the table has nothing under
/// it is an error of the lookup, which names the key.
pub fn select_inverter<'a>(listing: &'a InverterInfoListing, device_id: DeviceId) -> (found:
    Result<&'a InverterInfoResponse, FetchError>)
    ensures
        match listing.lookup(natural_text(device_id@ as nat)) {
            Some(info) => found is Ok && *found->Ok_0 == info,
            None => found matches Err(FetchError::Lookup(missing)) && missing.variable_name@
                == natural_text(device_id@ as nat),
        },
{
    let key = render_natural(device_id.get() as u64);
    match listing.get(key.as_str()) {
        Some(entry) => match entry {
            Some(info) => Ok(info),
            None => Err(FetchError::Lookup(OptionEmptyError { variable_name: key })),
        },
        None => Err(FetchError::Lookup(OptionEmptyError { variable_name: key })),
    }
}

/// The inverter record of what the device client returned, stamped with the
/// clock. The client's error is passed on unchanged.
pub fn get_inverter_data<V>(fetched: Result<CommonInverterData<V>, FetchError>) -> (made: Result<
    InverterData<V>,
    FetchError,
>)
    ensures
        match fetched {
            Err(error) => made == Err::<InverterData<V>, FetchError>(error),
            Ok(response) => match made {
                Ok(record) => record.mirrors(response, record.time),
                Err(error) => error == FetchError::Timestamp,
            },
        },
{
    match fetched {
        Err(error) => Err(error),
        Ok(response) => stamp_inverter(response, utc_now_nanos()),
    }
}

/// The phase record of what the device client returned, stamped with the
/// clock. The client's error is passed on unchanged.
pub fn get_inverter_phase_data<V>(fetched: Result<ThreePhaseInverterData<V>, FetchError>) -> (made:
    Result<InverterPhaseData<V>, FetchError>)
    ensures
        match fetched {
            Err(error) => made == Err::<InverterPhaseData<V>, FetchError>(error),
            Ok(response) => match made {
                Ok(record) => record.mirrors(response, record.time),
                Err(error) => error == FetchError::Timestamp,
            },
        },
{
    match fetched {
        Err(error) => Err(error),
        Ok(response) => stamp_inverter_phase(response, utc_now_nanos()),
    }
}

/// The information record of one inverter, from the table that the device
/// client returned, stamped with the clock. The client's error is passed on
/// unchanged, and a table without information on the inverter is an error
/// of the lookup.
pub fn get_inverter_info(fetched: Result<InverterInfoListing, FetchError>, device_id: DeviceId) -> (made:
    Result<InverterInfo, FetchError>)
    ensures
        match fetched {
            Err(error) => made == Err::<InverterInfo, FetchError>(error),
            Ok(listing) => match listing.lookup(natural_text(device_id@ as nat)) {
                Some(info) => match made {
                    Ok(record) => record.mirrors(info, record.time),
                    Err(error) => error == FetchError::Timestamp,
                },
                None => made matches Err(FetchError::Lookup(missing)) && missing.variable_name@
                    == natural_text(device_id@ as nat),
            },
        },
{
    match fetched {
        Err(error) => Err(error),
        Ok(listing) => match select_inverter(&listing, device_id) {
            Err(error) => Err(error),
            Ok(info) => stamp_inverter_info(info, utc_now_nanos()),
        },
    }
}

/// The meter record of what the device client returned, stamped with the
/// clock. The client's error is passed on unchanged.
pub fn get_meter_data<V>(fetched: Result<MeterResponse<V>, FetchError>) -> (made: Result<
    MeterData<V>,
    FetchError,
>)
    ensures
        match fetched {
            Err(error) => made == Err::<MeterData<V>, FetchError>(error),
            Ok(response) => match made {
                Ok(record) => record.mirrors(response, record.time),
                Err(error) => error == FetchError::Timestamp,
            },
        },
{
    match fetched {
        Err(error) => Err(error),
        Ok(response) => stamp_meter(response, utc_now_nanos()),
    }
}

/// The storage record of what the device client returned, stamped with the
/// clock. The client's error is passed on unchanged.
pub fn get_storage_data<V>(fetched: Result<StorageResponse<V>, FetchError>) -> (made: Result<
    StorageData<V>,
    FetchError,
>)
    ensures
        match fetched {
            Err(error) => made == Err::<StorageData<V>, FetchError>(error),
            Ok(response) => match made {
                Ok(record) => record.mirrors(response, record.time),
                Err(error) => error == FetchError::Timestamp,
            },
        },
{
    match fetched {
        Err(error) => Err(error),
        Ok(response) => stamp_storage(response, utc_now_nanos()),
    }
}

/// The heater record of what the device client returned, stamped with the
/// clock. The client's error is passed on unchanged.
pub fn get_ohm_pilot_data<V>(fetched: Result<OhmPilotResponse<V>, FetchError>) -> (made: Result<
    OhmPilotData<V>,
    FetchError,
>)
    ensures
        match fetched {
            Err(error) => made == Err::<OhmPilotData<V>, FetchError>(error),
            Ok(response) => match made {
                Ok(record) => record.mirrors(response, record.time),
                Err(error) => error == FetchError::Timestamp,
            },
        },
{
    match fetched {
        Err(error) => Err(error),
        Ok(response) => stamp_ohm_pilot(response, utc_now_nanos()),
    }
}

/// The power flow record of what the device client returned, stamped with
/// the clock. The client's error is passed on unchanged.
pub fn get_power_flow_data<V>(fetched: Result<PowerFlowResponse<V>, FetchError>) -> (made: Result<
    PowerFlowData<V>,
    FetchError,
>)
    ensures
        match fetched {
            Err(error) => made == Err::<PowerFlowData<V>, FetchError>(error),
            Ok(response) => match made {
                Ok(record) => record.mirrors(response, record.time),
                Err(error) => error == FetchError::Timestamp,
            },
        },
{
    match fetched {
        Err(error) => Err(error),
        Ok(response) => stamp_power_flow(response, utc_now_nanos()),
    }
}

} // verus!
