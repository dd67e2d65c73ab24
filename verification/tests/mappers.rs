use solar_telemetry::category::Category;
use solar_telemetry::mapper::{
    map_inverter, map_inverter_info, map_inverter_phase, map_meter, map_ohm_pilot,
    map_power_flow, map_storage,
};
use solar_telemetry::record::{
    InverterData, InverterInfo, InverterPhaseData, MeterData, OhmPilotData, PowerFlowData,
    StorageData,
};
use solar_telemetry::response::{
    CommonInverterData, InverterInfoResponse, MeterResponse, OhmPilotResponse,
    PowerFlowResponse, Quantity, Site, StorageController, StorageResponse,
    ThreePhaseInverterData,
};

fn quantity(unit: &str, value: Option<f64>) -> Quantity<f64> {
    Quantity { unit: unit.to_owned(), value }
}

fn empty_inverter_response() -> CommonInverterData<f64> {
    CommonInverterData {
        pac: quantity("W", None),
        sac: quantity("VA", None),
        iac: quantity("A", None),
        uac: quantity("V", None),
        fac: None,
        idc: quantity("A", None),
        udc: quantity("V", None),
        total_energy: quantity("Wh", None),
    }
}

fn heater(code_of_state: i64, code_of_error: Option<i64>) -> OhmPilotResponse<f64> {
    OhmPilotResponse {
        code_of_state,
        code_of_error,
        power_real_pac_sum: 1480.0,
        temperature_channel_1: 38.9,
    }
}

fn storage(enable: i64) -> StorageResponse<f64> {
    StorageResponse {
        controller: StorageController {
            enable,
            state_of_charge_relative: 64.5,
            capacity_maximum: 11059.0,
            current_dc: 1.2,
            voltage_dc: 412.3,
            temperature_cell: 27.5,
        },
    }
}

fn info(show: i64, status_code: i64) -> InverterInfoResponse {
    InverterInfoResponse {
        dt: 1,
        pv_power: 5400,
        custom_name: "Roof south".to_owned(),
        show,
        unique_id: "29301000987160033".to_owned(),
        error_code: -1,
        status_code,
        inverter_state: "Running".to_owned(),
    }
}

#[test]
fn inverter_with_only_ac_power() {
    let mut response = empty_inverter_response();
    response.pac = quantity("W", Some(540.2));
    let record = map_inverter(response, 1_700_000_000_000_000_000);
    assert_eq!(
        record,
        InverterData {
            device: "Inverter".to_owned(),
            ac_power: Some(540.2),
            ac_power_abs: None,
            ac_current: None,
            ac_voltage: None,
            ac_frequency: None,
            dc_current: None,
            dc_voltage: None,
            total_energy: None,
            time: 1_700_000_000_000_000_000,
        }
    );
}

#[test]
fn inverter_with_every_reading() {
    let response = CommonInverterData {
        pac: quantity("W", Some(540.2)),
        sac: quantity("VA", Some(541.0)),
        iac: quantity("A", Some(2.31)),
        uac: quantity("V", Some(233.9)),
        fac: Some(quantity("Hz", Some(49.98))),
        idc: quantity("A", Some(1.52)),
        udc: quantity("V", Some(371.4)),
        total_energy: quantity("Wh", Some(12_345_678.0)),
    };
    let record = map_inverter(response, -5);
    assert_eq!(
        record,
        InverterData {
            device: "Inverter".to_owned(),
            ac_power: Some(540.2),
            ac_power_abs: Some(541.0),
            ac_current: Some(2.31),
            ac_voltage: Some(233.9),
            ac_frequency: Some(49.98),
            dc_current: Some(1.52),
            dc_voltage: Some(371.4),
            total_energy: Some(12_345_678.0),
            time: -5,
        }
    );
}

#[test]
fn inverter_frequency_without_value_is_absent() {
    let mut response = empty_inverter_response();
    response.fac = Some(quantity("Hz", None));
    let record = map_inverter(response, 0);
    assert_eq!(record.ac_frequency, None);
}

#[test]
fn inverter_zero_reading_is_not_a_gap() {
    let mut response = empty_inverter_response();
    response.idc = quantity("A", Some(0.0));
    let record = map_inverter(response, 0);
    assert_eq!(record.dc_current, Some(0.0));
    assert_eq!(record.dc_voltage, None);
}

#[test]
fn inverter_phase_readings_keep_their_places() {
    let response = ThreePhaseInverterData {
        iac_l1: quantity("A", Some(1.1)),
        iac_l2: quantity("A", None),
        iac_l3: quantity("A", Some(3.3)),
        uac_l1: quantity("V", Some(231.0)),
        uac_l2: quantity("V", Some(232.0)),
        uac_l3: quantity("V", None),
    };
    let record = map_inverter_phase(response, 42);
    assert_eq!(
        record,
        InverterPhaseData {
            device: "Inverter".to_owned(),
            ac_l1_current: Some(1.1),
            ac_l2_current: None,
            ac_l3_current: Some(3.3),
            dc_l1_voltage: Some(231.0),
            dc_l2_voltage: Some(232.0),
            dc_l3_voltage: None,
            time: 42,
        }
    );
}

#[test]
fn inverter_info_is_transcribed() {
    let record = map_inverter_info(&info(1, 7), 99);
    assert_eq!(
        record,
        InverterInfo {
            device: "Inverter".to_owned(),
            device_type: 1,
            pv_power: 5400,
            name: "Roof south".to_owned(),
            is_visualized: true,
            id: "29301000987160033".to_owned(),
            error_code: -1,
            status_code: "7".to_owned(),
            state: "Running".to_owned(),
            time: 99,
        }
    );
}

#[test]
fn inverter_info_flag_is_set_above_zero_only() {
    assert!(!map_inverter_info(&info(0, 7), 0).is_visualized);
    assert!(!map_inverter_info(&info(-1, 7), 0).is_visualized);
    assert!(map_inverter_info(&info(1, 7), 0).is_visualized);
    assert!(map_inverter_info(&info(2, 7), 0).is_visualized);
}

#[test]
fn inverter_info_status_code_is_in_decimal() {
    assert_eq!(map_inverter_info(&info(1, 0), 0).status_code, "0");
    assert_eq!(map_inverter_info(&info(1, 10), 0).status_code, "10");
    assert_eq!(map_inverter_info(&info(1, -3), 0).status_code, "-3");
}

#[test]
fn meter_readings_keep_their_places() {
    let response = MeterResponse {
        current_ac_phase_1: Some(1.0),
        current_ac_phase_2: Some(2.0),
        current_ac_phase_3: Some(3.0),
        current_ac_sum: Some(6.0),
        voltage_ac_phase_1: Some(231.0),
        voltage_ac_phase_2: Some(232.0),
        voltage_ac_phase_3: Some(233.0),
        voltage_ac_phase_to_phase_12: Some(401.0),
        voltage_ac_phase_to_phase_23: Some(402.0),
        voltage_ac_phase_to_phase_31: Some(403.0),
        power_real_p_phase_1: Some(-11.0),
        power_real_p_phase_2: Some(-12.0),
        power_real_p_phase_3: Some(-13.0),
        power_real_p_sum: -36.0,
        frequency_phase_average: 50.01,
    };
    let record = map_meter(response, 1234);
    assert_eq!(
        record,
        MeterData {
            device: "Meter".to_owned(),
            l1_current: Some(1.0),
            l2_current: Some(2.0),
            l3_current: Some(3.0),
            current: Some(6.0),
            l1_voltage: Some(231.0),
            l2_voltage: Some(232.0),
            l3_voltage: Some(233.0),
            l12_voltage: Some(401.0),
            l23_voltage: Some(402.0),
            l31_voltage: Some(403.0),
            l1_power: Some(-11.0),
            l2_power: Some(-12.0),
            l3_power: Some(-13.0),
            power: -36.0,
            frequency_average: 50.01,
            time: 1234,
        }
    );
}

#[test]
fn meter_gaps_stay_gaps() {
    let response = MeterResponse {
        current_ac_phase_1: None,
        current_ac_phase_2: None,
        current_ac_phase_3: None,
        current_ac_sum: None,
        voltage_ac_phase_1: None,
        voltage_ac_phase_2: None,
        voltage_ac_phase_3: None,
        voltage_ac_phase_to_phase_12: None,
        voltage_ac_phase_to_phase_23: None,
        voltage_ac_phase_to_phase_31: None,
        power_real_p_phase_1: None,
        power_real_p_phase_2: None,
        power_real_p_phase_3: None,
        power_real_p_sum: 0.0,
        frequency_phase_average: 50.0,
    };
    let record = map_meter(response, 1);
    assert_eq!(
        record,
        MeterData {
            device: "Meter".to_owned(),
            l1_current: None,
            l2_current: None,
            l3_current: None,
            current: None,
            l1_voltage: None,
            l2_voltage: None,
            l3_voltage: None,
            l12_voltage: None,
            l23_voltage: None,
            l31_voltage: None,
            l1_power: None,
            l2_power: None,
            l3_power: None,
            power: 0.0,
            frequency_average: 50.0,
            time: 1,
        }
    );
}

#[test]
fn storage_controller_is_lifted() {
    let record = map_storage(storage(1), 77);
    assert_eq!(
        record,
        StorageData {
            device: "Storage".to_owned(),
            enabled: true,
            charge_percentage: 64.5,
            capacity: 11059.0,
            dc_current: 1.2,
            dc_voltage: 412.3,
            temperature_cell: 27.5,
            time: 77,
        }
    );
}

#[test]
fn storage_flag_is_set_above_zero_only() {
    assert!(!map_storage(storage(0), 0).enabled);
    assert!(!map_storage(storage(-7), 0).enabled);
    assert!(map_storage(storage(1), 0).enabled);
    assert!(map_storage(storage(i64::MAX), 0).enabled);
}

#[test]
fn ohm_pilot_is_transcribed() {
    let record = map_ohm_pilot(heater(4, Some(906)), 5);
    assert_eq!(
        record,
        OhmPilotData {
            device: "OhmPilot".to_owned(),
            state: "4".to_owned(),
            error_code: 906,
            power: 1480.0,
            temperature: 38.9,
            time: 5,
        }
    );
}

#[test]
fn ohm_pilot_missing_error_code_is_zero() {
    let record = map_ohm_pilot(heater(0, None), 5);
    assert_eq!(record.error_code, 0);
    assert_eq!(record.state, "0");
}

#[test]
fn ohm_pilot_negative_codes_are_kept() {
    let record = map_ohm_pilot(heater(-12, Some(-1)), 5);
    assert_eq!(record.error_code, -1);
    assert_eq!(record.state, "-12");
}

#[test]
fn power_flow_site_is_lifted() {
    let response = PowerFlowResponse {
        site: Site {
            p_akku: Some(-250.5),
            p_grid: None,
            p_load: Some(-811.0),
            p_pv: 1061.5,
            rel_autonomy: Some(100.0),
            rel_self_consumption: None,
        },
    };
    let record = map_power_flow(response, 8);
    assert_eq!(
        record,
        PowerFlowData {
            device: "Unknown".to_owned(),
            akku: Some(-250.5),
            grid: None,
            load: Some(-811.0),
            photovoltaik: 1061.5,
            relative_autonomy: Some(100.0),
            relative_self_consumption: None,
            time: 8,
        }
    );
}

#[test]
fn readings_of_any_type_are_carried() {
    let response = PowerFlowResponse {
        site: Site {
            p_akku: Some("a"),
            p_grid: Some("b"),
            p_load: None,
            p_pv: "c",
            rel_autonomy: None,
            rel_self_consumption: Some("d"),
        },
    };
    let record = map_power_flow(response, 8);
    assert_eq!(record.akku, Some("a"));
    assert_eq!(record.grid, Some("b"));
    assert_eq!(record.load, None);
    assert_eq!(record.photovoltaik, "c");
    assert_eq!(record.relative_autonomy, None);
    assert_eq!(record.relative_self_consumption, Some("d"));
}

#[test]
fn device_tags_of_the_records() {
    assert_eq!(map_inverter(empty_inverter_response(), 0).device, Category::Inverter.device_tag());
    assert_eq!(map_storage(storage(0), 0).device, Category::Storage.device_tag());
    assert_eq!(map_ohm_pilot(heater(0, None), 0).device, Category::OhmPilot.device_tag());
}
