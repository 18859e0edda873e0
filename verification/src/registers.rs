//! The register table of the inverter: for each register id, its address,
//! data type and presentation details.

use vstd::prelude::*;
use crate::text::{chars_equal};

verus! {

/// Scale factor applied to a raw register value: a power of ten.
#[derive(Debug, Clone, Copy, PartialEq, Eq, Structural)]
pub enum Scale {
    /// 1.0
    One,
    /// 0.1
    Tenth,
    /// 0.01
    Hundredth,
    /// 0.001
    Thousandth,
}

/// Metadata of one Modbus register.
#[derive(Debug, Clone, Copy, PartialEq, Eq)]
pub struct RegisterInfo {
    /// Friendly name for display.
    pub name: &'static str,
    /// Starting Modbus register address.
    pub address: u16,
    /// Data type ("uint16", "uint32", "int32", "string").
    pub data_type: &'static str,
    /// Whether it is an input register.
    pub input_type: Option<&'static str>,
    /// Number of registers for this entry (required for strings).
    pub count: Option<u16>,
    /// Device class (e.g. "voltage", "current").
    pub device_class: Option<&'static str>,
    /// Unit of measurement (e.g. "V", "A", "kWh").
    pub unit_of_measurement: Option<&'static str>,
    /// Scale factor for the raw register value.
    pub scale: Option<Scale>,
    /// Number of decimals to show.
    pub precision: Option<u8>,
    /// Home Assistant style state class (e.g. "measurement", "total").
    pub state_class: Option<&'static str>,
}

/// One row of the register table.
#[derive(Debug, Clone, Copy, PartialEq, Eq)]
pub struct RegisterEntry {
    /// The unique identifier of the register.
    pub id: &'static str,
    /// Its metadata.
    pub info: RegisterInfo,
}

/// The register table.
pub open spec fn register_table() -> Seq<RegisterEntry> {
    seq![
        RegisterEntry { id: "inverter_model", info: RegisterInfo { name: "Inverter Model", address: 30000, data_type: "string", input_type: None, count: Some(16), device_class: None, unit_of_measurement: None, scale: None, precision: None, state_class: None } },
        RegisterEntry { id: "master_version_code", info: RegisterInfo { name: "Master Version Code", address: 30016, data_type: "uint16", input_type: None, count: None, device_class: None, unit_of_measurement: None, scale: None, precision: None, state_class: Some("measurement") } },
        RegisterEntry { id: "slave_version_code", info: RegisterInfo { name: "Slave Version Code", address: 30017, data_type: "uint16", input_type: None, count: None, device_class: None, unit_of_measurement: None, scale: None, precision: None, state_class: Some("measurement") } },
        RegisterEntry { id: "manager_version_code", info: RegisterInfo { name: "Manager Version Code", address: 30018, data_type: "uint16", input_type: None, count: None, device_class: None, unit_of_measurement: None, scale: None, precision: None, state_class: Some("measurement") } },
        RegisterEntry { id: "bms_version_code", info: RegisterInfo { name: "BMS Version code", address: 30019, data_type: "uint16", input_type: None, count: None, device_class: None, unit_of_measurement: None, scale: None, precision: None, state_class: Some("measurement") } },
        RegisterEntry { id: "battery_1_version_code", info: RegisterInfo { name: "Battery 1 Version code", address: 30020, data_type: "uint16", input_type: None, count: None, device_class: None, unit_of_measurement: None, scale: None, precision: None, state_class: Some("measurement") } },
        RegisterEntry { id: "battery_2_version_code", info: RegisterInfo { name: "Battery 2 Version code", address: 30021, data_type: "uint16", input_type: None, count: None, device_class: None, unit_of_measurement: None, scale: None, precision: None, state_class: Some("measurement") } },
        RegisterEntry { id: "battery_3_version_code", info: RegisterInfo { name: "Battery 3 Version code", address: 30022, data_type: "uint16", input_type: None, count: None, device_class: None, unit_of_measurement: None, scale: None, precision: None, state_class: Some("measurement") } },
        RegisterEntry { id: "battery_4_version_code", info: RegisterInfo { name: "Battery 4 Version code", address: 30023, data_type: "uint16", input_type: None, count: None, device_class: None, unit_of_measurement: None, scale: None, precision: None, state_class: Some("measurement") } },
        RegisterEntry { id: "battery_5_version_code", info: RegisterInfo { name: "Battery 5 Version code", address: 30024, data_type: "uint16", input_type: None, count: None, device_class: None, unit_of_measurement: None, scale: None, precision: None, state_class: Some("measurement") } },
        RegisterEntry { id: "battery_6_version_code", info: RegisterInfo { name: "Battery 6 Version code", address: 30025, data_type: "uint16", input_type: None, count: None, device_class: None, unit_of_measurement: None, scale: None, precision: None, state_class: Some("measurement") } },
        RegisterEntry { id: "battery_7_version_code", info: RegisterInfo { name: "Battery 7 Version code", address: 30026, data_type: "uint16", input_type: None, count: None, device_class: None, unit_of_measurement: None, scale: None, precision: None, state_class: Some("measurement") } },
        RegisterEntry { id: "battery_8_version_code", info: RegisterInfo { name: "Battery 8 Version code", address: 30027, data_type: "uint16", input_type: None, count: None, device_class: None, unit_of_measurement: None, scale: None, precision: None, state_class: Some("measurement") } },
        RegisterEntry { id: "battery_9_version_code", info: RegisterInfo { name: "Battery 9 Version code", address: 30028, data_type: "uint16", input_type: None, count: None, device_class: None, unit_of_measurement: None, scale: None, precision: None, state_class: Some("measurement") } },
        RegisterEntry { id: "protocol_version_code", info: RegisterInfo { name: "Protocol Version Code", address: 30100, data_type: "uint16", input_type: None, count: None, device_class: None, unit_of_measurement: None, scale: None, precision: None, state_class: Some("measurement") } },
        RegisterEntry { id: "pv1_voltage", info: RegisterInfo { name: "PV1 Voltage", address: 31000, data_type: "uint16", input_type: None, count: None, device_class: Some("voltage"), unit_of_measurement: Some("V"), scale: Some(Scale::Tenth), precision: Some(1), state_class: Some("measurement") } },
        RegisterEntry { id: "pv1_current", info: RegisterInfo { name: "PV1 Current", address: 31001, data_type: "uint16", input_type: None, count: None, device_class: Some("current"), unit_of_measurement: Some("A"), scale: Some(Scale::Tenth), precision: Some(1), state_class: Some("measurement") } },
        RegisterEntry { id: "pv1_power", info: RegisterInfo { name: "PV1 Power", address: 31002, data_type: "uint16", input_type: None, count: None, device_class: Some("power"), unit_of_measurement: Some("kW"), scale: Some(Scale::Thousandth), precision: Some(3), state_class: Some("measurement") } },
        RegisterEntry { id: "pv2_voltage", info: RegisterInfo { name: "PV2 Voltage", address: 31003, data_type: "uint16", input_type: None, count: None, device_class: Some("voltage"), unit_of_measurement: Some("V"), scale: Some(Scale::Tenth), precision: Some(1), state_class: Some("measurement") } },
        RegisterEntry { id: "pv2_current", info: RegisterInfo { name: "PV2 Current", address: 31004, data_type: "uint16", input_type: None, count: None, device_class: Some("current"), unit_of_measurement: Some("A"), scale: Some(Scale::Tenth), precision: Some(1), state_class: Some("measurement") } },
        RegisterEntry { id: "pv2_power", info: RegisterInfo { name: "PV2 Power", address: 31005, data_type: "uint16", input_type: None, count: None, device_class: Some("power"), unit_of_measurement: Some("kW"), scale: Some(Scale::Thousandth), precision: Some(3), state_class: Some("measurement") } },
        RegisterEntry { id: "grid_voltage_R", info: RegisterInfo { name: "RVolt", address: 31006, data_type: "uint16", input_type: None, count: None, device_class: Some("voltage"), unit_of_measurement: Some("V"), scale: Some(Scale::Tenth), precision: Some(1), state_class: Some("measurement") } },
        RegisterEntry { id: "grid_voltage_S", info: RegisterInfo { name: "SVolt", address: 31007, data_type: "uint16", input_type: None, count: None, device_class: Some("voltage"), unit_of_measurement: Some("V"), scale: Some(Scale::Tenth), precision: Some(1), state_class: Some("measurement") } },
        RegisterEntry { id: "grid_voltage_T", info: RegisterInfo { name: "TVolt", address: 31008, data_type: "uint16", input_type: None, count: None, device_class: Some("voltage"), unit_of_measurement: Some("V"), scale: Some(Scale::Tenth), precision: Some(1), state_class: Some("measurement") } },
        RegisterEntry { id: "inv_current_R", info: RegisterInfo { name: "RCurrent", address: 31009, data_type: "uint16", input_type: None, count: None, device_class: Some("current"), unit_of_measurement: Some("A"), scale: Some(Scale::Tenth), precision: Some(1), state_class: Some("measurement") } },
        RegisterEntry { id: "inv_current_S", info: RegisterInfo { name: "SCurrent", address: 31010, data_type: "uint16", input_type: None, count: None, device_class: Some("current"), unit_of_measurement: Some("A"), scale: Some(Scale::Tenth), precision: Some(1), state_class: Some("measurement") } },
        RegisterEntry { id: "inv_current_T", info: RegisterInfo { name: "TCurrent", address: 31011, data_type: "uint16", input_type: None, count: None, device_class: Some("current"), unit_of_measurement: Some("A"), scale: Some(Scale::Tenth), precision: Some(1), state_class: Some("measurement") } },
        RegisterEntry { id: "inv_power_R", info: RegisterInfo { name: "RPower", address: 31012, data_type: "uint16", input_type: None, count: None, device_class: Some("power"), unit_of_measurement: Some("kW"), scale: Some(Scale::Thousandth), precision: Some(3), state_class: Some("measurement") } },
        RegisterEntry { id: "inv_power_S", info: RegisterInfo { name: "SPower", address: 31013, data_type: "uint16", input_type: None, count: None, device_class: Some("power"), unit_of_measurement: Some("kW"), scale: Some(Scale::Thousandth), precision: Some(3), state_class: Some("measurement") } },
        RegisterEntry { id: "inv_power_T", info: RegisterInfo { name: "TPower", address: 31014, data_type: "uint16", input_type: None, count: None, device_class: Some("power"), unit_of_measurement: Some("kW"), scale: Some(Scale::Thousandth), precision: Some(3), state_class: Some("measurement") } },
        RegisterEntry { id: "grid_frequency", info: RegisterInfo { name: "Grid Frequency", address: 31015, data_type: "uint16", input_type: None, count: None, device_class: Some("frequency"), unit_of_measurement: Some("Hz"), scale: Some(Scale::Hundredth), precision: Some(3), state_class: Some("measurement") } },
        RegisterEntry { id: "eps_voltage_R", info: RegisterInfo { name: "EPS RVolt", address: 31016, data_type: "uint16", input_type: None, count: None, device_class: Some("voltage"), unit_of_measurement: Some("V"), scale: Some(Scale::Tenth), precision: Some(1), state_class: Some("measurement") } },
        RegisterEntry { id: "eps_voltage_S", info: RegisterInfo { name: "EPS SVolt", address: 31017, data_type: "uint16", input_type: None, count: None, device_class: Some("voltage"), unit_of_measurement: Some("V"), scale: Some(Scale::Tenth), precision: Some(1), state_class: Some("measurement") } },
        RegisterEntry { id: "eps_voltage_T", info: RegisterInfo { name: "EPS TVolt", address: 31018, data_type: "uint16", input_type: None, count: None, device_class: Some("voltage"), unit_of_measurement: Some("V"), scale: Some(Scale::Tenth), precision: Some(1), state_class: Some("measurement") } },
        RegisterEntry { id: "eps_current_R", info: RegisterInfo { name: "EPS RCurrent", address: 31019, data_type: "uint16", input_type: None, count: None, device_class: Some("current"), unit_of_measurement: Some("A"), scale: Some(Scale::Tenth), precision: Some(1), state_class: Some("measurement") } },
        RegisterEntry { id: "eps_current_S", info: RegisterInfo { name: "EPS SCurrent", address: 31020, data_type: "uint16", input_type: None, count: None, device_class: Some("current"), unit_of_measurement: Some("A"), scale: Some(Scale::Tenth), precision: Some(1), state_class: Some("measurement") } },
        RegisterEntry { id: "eps_current_T", info: RegisterInfo { name: "EPS TCurrent", address: 31021, data_type: "uint16", input_type: None, count: None, device_class: Some("current"), unit_of_measurement: Some("A"), scale: Some(Scale::Tenth), precision: Some(1), state_class: Some("measurement") } },
        RegisterEntry { id: "eps_power_R", info: RegisterInfo { name: "EPS RPower", address: 31022, data_type: "uint16", input_type: None, count: None, device_class: Some("power"), unit_of_measurement: Some("kW"), scale: Some(Scale::Thousandth), precision: Some(3), state_class: Some("measurement") } },
        RegisterEntry { id: "eps_power_S", info: RegisterInfo { name: "EPS SPower", address: 31023, data_type: "uint16", input_type: None, count: None, device_class: Some("power"), unit_of_measurement: Some("kW"), scale: Some(Scale::Thousandth), precision: Some(3), state_class: Some("measurement") } },
        RegisterEntry { id: "eps_power_T", info: RegisterInfo { name: "EPS TPower", address: 31024, data_type: "uint16", input_type: None, count: None, device_class: Some("power"), unit_of_measurement: Some("kW"), scale: Some(Scale::Thousandth), precision: Some(3), state_class: Some("measurement") } },
        RegisterEntry { id: "eps_frequency", info: RegisterInfo { name: "EPS Frequency", address: 31025, data_type: "uint16", input_type: None, count: None, device_class: Some("frequency"), unit_of_measurement: Some("Hz"), scale: Some(Scale::Hundredth), precision: Some(1), state_class: Some("measurement") } },
        RegisterEntry { id: "meter1_power_R", info: RegisterInfo { name: "Meter RPower", address: 31026, data_type: "uint16", input_type: None, count: None, device_class: Some("power"), unit_of_measurement: Some("kW"), scale: Some(Scale::Thousandth), precision: Some(3), state_class: Some("measurement") } },
        RegisterEntry { id: "meter1_power_S", info: RegisterInfo { name: "Meter SPower", address: 31027, data_type: "uint16", input_type: None, count: None, device_class: Some("power"), unit_of_measurement: Some("kW"), scale: Some(Scale::Thousandth), precision: Some(3), state_class: Some("measurement") } },
        RegisterEntry { id: "meter1_power_T", info: RegisterInfo { name: "Meter TPower", address: 31028, data_type: "uint16", input_type: None, count: None, device_class: Some("power"), unit_of_measurement: Some("kW"), scale: Some(Scale::Thousandth), precision: Some(3), state_class: Some("measurement") } },
        RegisterEntry { id: "load_power_R", info: RegisterInfo { name: "Load RPower", address: 31029, data_type: "uint16", input_type: None, count: None, device_class: Some("power"), unit_of_measurement: Some("kW"), scale: Some(Scale::Thousandth), precision: Some(3), state_class: Some("measurement") } },
        RegisterEntry { id: "load_power_S", info: RegisterInfo { name: "Load SPower", address: 31030, data_type: "uint16", input_type: None, count: None, device_class: Some("power"), unit_of_measurement: Some("kW"), scale: Some(Scale::Thousandth), precision: Some(3), state_class: Some("measurement") } },
        RegisterEntry { id: "load_power_T", info: RegisterInfo { name: "Load TPower", address: 31031, data_type: "uint16", input_type: None, count: None, device_class: Some("power"), unit_of_measurement: Some("kW"), scale: Some(Scale::Thousandth), precision: Some(3), state_class: Some("measurement") } },
        RegisterEntry { id: "inverter_temperature", info: RegisterInfo { name: "Inverter Temperature", address: 31032, data_type: "uint16", input_type: None, count: None, device_class: Some("temperature"), unit_of_measurement: Some("°C"), scale: Some(Scale::Tenth), precision: Some(1), state_class: Some("measurement") } },
        RegisterEntry { id: "ambient_temperature", info: RegisterInfo { name: "Inner Temperature", address: 31033, data_type: "uint16", input_type: None, count: None, device_class: Some("temperature"), unit_of_measurement: Some("°C"), scale: Some(Scale::Tenth), precision: Some(1), state_class: Some("measurement") } },
        RegisterEntry { id: "battery_voltage", info: RegisterInfo { name: "InvBatVolt", address: 31034, data_type: "uint16", input_type: None, count: None, device_class: Some("voltage"), unit_of_measurement: Some("V"), scale: Some(Scale::Tenth), precision: Some(1), state_class: Some("measurement") } },
        RegisterEntry { id: "battery_current", info: RegisterInfo { name: "InvBatCurrent", address: 31035, data_type: "uint16", input_type: None, count: None, device_class: Some("current"), unit_of_measurement: Some("A"), scale: Some(Scale::Tenth), precision: Some(1), state_class: Some("measurement") } },
        RegisterEntry { id: "battery_power", info: RegisterInfo { name: "Battery Discharge Power", address: 31036, data_type: "uint16", input_type: None, count: None, device_class: Some("power"), unit_of_measurement: Some("kW"), scale: Some(Scale::Thousandth), precision: Some(3), state_class: Some("measurement") } },
        RegisterEntry { id: "battery_temperature", info: RegisterInfo { name: "Battery Temperature", address: 31037, data_type: "uint16", input_type: None, count: None, device_class: Some("temperature"), unit_of_measurement: Some("°C"), scale: Some(Scale::Tenth), precision: Some(1), state_class: Some("measurement") } },
        RegisterEntry { id: "battery_soc", info: RegisterInfo { name: "Battery SoC", address: 31038, data_type: "uint16", input_type: None, count: None, device_class: Some("battery"), unit_of_measurement: Some("%"), scale: None, precision: None, state_class: Some("measurement") } },
        RegisterEntry { id: "bms_charge_rate", info: RegisterInfo { name: "BMS Max Charge Current", address: 31039, data_type: "uint16", input_type: None, count: None, device_class: Some("current"), unit_of_measurement: Some("A"), scale: Some(Scale::Tenth), precision: Some(1), state_class: Some("measurement") } },
        RegisterEntry { id: "bms_discharge_rate", info: RegisterInfo { name: "BMS Max Discharge Current", address: 31040, data_type: "uint16", input_type: None, count: None, device_class: Some("current"), unit_of_measurement: Some("A"), scale: Some(Scale::Tenth), precision: Some(1), state_class: Some("measurement") } },
        RegisterEntry { id: "inverter_state_code", info: RegisterInfo { name: "Inverter State Code", address: 31041, data_type: "uint16", input_type: None, count: None, device_class: None, unit_of_measurement: None, scale: None, precision: None, state_class: Some("measurement") } },
        RegisterEntry { id: "bms_connection_code", info: RegisterInfo { name: "BMS Connection Code", address: 31042, data_type: "uint16", input_type: None, count: None, device_class: None, unit_of_measurement: None, scale: None, precision: None, state_class: Some("measurement") } },
        RegisterEntry { id: "meter_1_connection_code", info: RegisterInfo { name: "Meter 1 Connection Code", address: 31043, data_type: "uint16", input_type: None, count: None, device_class: None, unit_of_measurement: None, scale: None, precision: None, state_class: Some("measurement") } },
        RegisterEntry { id: "fault_1_code", info: RegisterInfo { name: "Fault 1 Code", address: 31044, data_type: "uint16", input_type: None, count: None, device_class: None, unit_of_measurement: None, scale: None, precision: None, state_class: Some("measurement") } },
        RegisterEntry { id: "fault_2_code", info: RegisterInfo { name: "Fault 2 Code", address: 31045, data_type: "uint16", input_type: None, count: None, device_class: None, unit_of_measurement: None, scale: None, precision: None, state_class: Some("measurement") } },
        RegisterEntry { id: "fault_3_code", info: RegisterInfo { name: "Fault 3 Code", address: 31046, data_type: "uint16", input_type: None, count: None, device_class: None, unit_of_measurement: None, scale: None, precision: None, state_class: Some("measurement") } },
        RegisterEntry { id: "fault_4_code", info: RegisterInfo { name: "Fault 4 Code", address: 31047, data_type: "uint16", input_type: None, count: None, device_class: None, unit_of_measurement: None, scale: None, precision: None, state_class: Some("measurement") } },
        RegisterEntry { id: "fault_5_code", info: RegisterInfo { name: "Fault 5 Code", address: 31048, data_type: "uint16", input_type: None, count: None, device_class: None, unit_of_measurement: None, scale: None, precision: None, state_class: Some("measurement") } },
        RegisterEntry { id: "fault_6_code", info: RegisterInfo { name: "Fault 6 Code", address: 31049, data_type: "uint16", input_type: None, count: None, device_class: None, unit_of_measurement: None, scale: None, precision: None, state_class: Some("measurement") } },
        RegisterEntry { id: "fault_7_code", info: RegisterInfo { name: "Fault 7 Code", address: 31050, data_type: "uint16", input_type: None, count: None, device_class: None, unit_of_measurement: None, scale: None, precision: None, state_class: Some("measurement") } },
        RegisterEntry { id: "fault_8_code", info: RegisterInfo { name: "Fault 8 Code", address: 31051, data_type: "uint16", input_type: None, count: None, device_class: None, unit_of_measurement: None, scale: None, precision: None, state_class: Some("measurement") } },
        RegisterEntry { id: "pv_energy_total", info: RegisterInfo { name: "PV Energy Total", address: 32000, data_type: "uint32", input_type: None, count: None, device_class: Some("energy"), unit_of_measurement: Some("kWh"), scale: Some(Scale::Tenth), precision: Some(1), state_class: Some("total") } },
        RegisterEntry { id: "pv_energy_today", info: RegisterInfo { name: "PV Energy Today", address: 32002, data_type: "uint16", input_type: None, count: None, device_class: Some("energy"), unit_of_measurement: Some("kWh"), scale: Some(Scale::Tenth), precision: Some(1), state_class: Some("total") } },
        RegisterEntry { id: "charge_energy_total", info: RegisterInfo { name: "Charge Energy Total", address: 32003, data_type: "uint32", input_type: None, count: None, device_class: Some("energy"), unit_of_measurement: Some("kWh"), scale: Some(Scale::Tenth), precision: Some(1), state_class: Some("total") } },
        RegisterEntry { id: "charge_energy_today", info: RegisterInfo { name: "Charge Energy Today", address: 32005, data_type: "uint16", input_type: None, count: None, device_class: Some("energy"), unit_of_measurement: Some("kWh"), scale: Some(Scale::Tenth), precision: Some(1), state_class: Some("total") } },
        RegisterEntry { id: "discharge_energy_total", info: RegisterInfo { name: "Discharge Energy Total", address: 32006, data_type: "uint32", input_type: None, count: None, device_class: Some("energy"), unit_of_measurement: Some("kWh"), scale: Some(Scale::Tenth), precision: Some(1), state_class: Some("total") } },
        RegisterEntry { id: "discharge_energy_today", info: RegisterInfo { name: "Discharge Energy Today", address: 32008, data_type: "uint16", input_type: None, count: None, device_class: Some("energy"), unit_of_measurement: Some("kWh"), scale: Some(Scale::Tenth), precision: Some(1), state_class: Some("total") } },
        RegisterEntry { id: "feed_in_energy_total", info: RegisterInfo { name: "Feed In Energy Total", address: 32009, data_type: "uint32", input_type: None, count: None, device_class: Some("energy"), unit_of_measurement: Some("kWh"), scale: Some(Scale::Tenth), precision: Some(1), state_class: Some("total") } },
        RegisterEntry { id: "feed_in_energy_today", info: RegisterInfo { name: "Feed In Energy Today", address: 32011, data_type: "uint16", input_type: None, count: None, device_class: Some("energy"), unit_of_measurement: Some("kWh"), scale: Some(Scale::Tenth), precision: Some(1), state_class: Some("total") } },
        RegisterEntry { id: "grid_consumption_energy_total", info: RegisterInfo { name: "Grid Consumption Energy Total", address: 32012, data_type: "uint32", input_type: None, count: None, device_class: Some("energy"), unit_of_measurement: Some("kWh"), scale: Some(Scale::Tenth), precision: Some(1), state_class: Some("total") } },
        RegisterEntry { id: "grid_consumption_energy_today", info: RegisterInfo { name: "Grid Consumption Energy Today", address: 32014, data_type: "uint16", input_type: None, count: None, device_class: Some("energy"), unit_of_measurement: Some("kWh"), scale: Some(Scale::Tenth), precision: Some(1), state_class: Some("total") } },
        RegisterEntry { id: "output_energy_total", info: RegisterInfo { name: "Output Energy Total", address: 32015, data_type: "uint32", input_type: None, count: None, device_class: Some("energy"), unit_of_measurement: Some("kWh"), scale: Some(Scale::Tenth), precision: Some(1), state_class: Some("total") } },
        RegisterEntry { id: "output_energy_today", info: RegisterInfo { name: "Output Energy Today", address: 32017, data_type: "uint16", input_type: None, count: None, device_class: Some("energy"), unit_of_measurement: Some("kWh"), scale: Some(Scale::Tenth), precision: Some(1), state_class: Some("total") } },
        RegisterEntry { id: "input_energy_total", info: RegisterInfo { name: "Input Energy Total", address: 32018, data_type: "uint32", input_type: None, count: None, device_class: Some("energy"), unit_of_measurement: Some("kWh"), scale: Some(Scale::Tenth), precision: Some(1), state_class: Some("total") } },
        RegisterEntry { id: "input_energy_today", info: RegisterInfo { name: "Input Energy Today", address: 32020, data_type: "uint16", input_type: None, count: None, device_class: Some("energy"), unit_of_measurement: Some("kWh"), scale: Some(Scale::Tenth), precision: Some(1), state_class: Some("total") } },
        RegisterEntry { id: "load_energy_total", info: RegisterInfo { name: "Load Energy Total", address: 32021, data_type: "uint32", input_type: None, count: None, device_class: Some("energy"), unit_of_measurement: Some("kWh"), scale: Some(Scale::Tenth), precision: Some(1), state_class: Some("total") } },
        RegisterEntry { id: "load_energy_today", info: RegisterInfo { name: "Load Energy Today", address: 32023, data_type: "uint16", input_type: None, count: None, device_class: Some("energy"), unit_of_measurement: Some("kWh"), scale: Some(Scale::Tenth), precision: Some(1), state_class: Some("total") } },
        RegisterEntry { id: "rtc_hour", info: RegisterInfo { name: "RTC Hour", address: 40003, data_type: "uint16", input_type: None, count: None, device_class: None, unit_of_measurement: None, scale: None, precision: None, state_class: Some("measurement") } },
        RegisterEntry { id: "work_mode_code", info: RegisterInfo { name: "Work Mode Code", address: 41000, data_type: "uint16", input_type: None, count: None, device_class: None, unit_of_measurement: None, scale: None, precision: None, state_class: Some("measurement") } },
        RegisterEntry { id: "time_period_1_enabled", info: RegisterInfo { name: "Time Period 1 Enabled", address: 41001, data_type: "uint16", input_type: None, count: None, device_class: None, unit_of_measurement: None, scale: None, precision: None, state_class: Some("measurement") } },
        RegisterEntry { id: "time_period_1_start", info: RegisterInfo { name: "Time Period 1 Start", address: 41002, data_type: "uint16", input_type: None, count: None, device_class: None, unit_of_measurement: None, scale: None, precision: None, state_class: Some("measurement") } },
        RegisterEntry { id: "time_period_1_end", info: RegisterInfo { name: "Time Period 1 End", address: 41003, data_type: "uint16", input_type: None, count: None, device_class: None, unit_of_measurement: None, scale: None, precision: None, state_class: Some("measurement") } },
        RegisterEntry { id: "time_period_2_enabled", info: RegisterInfo { name: "Time Period 2 Enabled", address: 41004, data_type: "uint16", input_type: None, count: None, device_class: None, unit_of_measurement: None, scale: None, precision: None, state_class: Some("measurement") } },
        RegisterEntry { id: "time_period_2_start", info: RegisterInfo { name: "Time Period 2 Start", address: 41005, data_type: "uint16", input_type: None, count: None, device_class: None, unit_of_measurement: None, scale: None, precision: None, state_class: Some("measurement") } },
        RegisterEntry { id: "time_period_2_end", info: RegisterInfo { name: "Time Period 2 End", address: 41006, data_type: "uint16", input_type: None, count: None, device_class: None, unit_of_measurement: None, scale: None, precision: None, state_class: Some("measurement") } },
        RegisterEntry { id: "max_charge_current", info: RegisterInfo { name: "Max Charge Current", address: 41007, data_type: "uint16", input_type: None, count: None, device_class: Some("current"), unit_of_measurement: Some("A"), scale: Some(Scale::Tenth), precision: Some(1), state_class: Some("measurement") } },
        RegisterEntry { id: "max_discharge_current", info: RegisterInfo { name: "Max Discharge Current", address: 41008, data_type: "uint16", input_type: None, count: None, device_class: Some("current"), unit_of_measurement: Some("A"), scale: Some(Scale::Tenth), precision: Some(1), state_class: Some("measurement") } },
        RegisterEntry { id: "min_soc", info: RegisterInfo { name: "Min SoC", address: 41009, data_type: "uint16", input_type: None, count: None, device_class: Some("battery"), unit_of_measurement: Some("%"), scale: None, precision: None, state_class: Some("measurement") } },
        RegisterEntry { id: "max_soc", info: RegisterInfo { name: "Max SoC", address: 41010, data_type: "uint16", input_type: None, count: None, device_class: Some("battery"), unit_of_measurement: Some("%"), scale: None, precision: None, state_class: Some("measurement") } },
        RegisterEntry { id: "min_soc_on_grid", info: RegisterInfo { name: "Min SoC On Grid", address: 41011, data_type: "uint16", input_type: None, count: None, device_class: Some("battery"), unit_of_measurement: Some("%"), scale: None, precision: None, state_class: Some("measurement") } },
        RegisterEntry { id: "export_limit", info: RegisterInfo { name: "Export Limit", address: 41012, data_type: "uint16", input_type: None, count: None, device_class: Some("power"), unit_of_measurement: Some("kW"), scale: Some(Scale::Thousandth), precision: Some(3), state_class: Some("measurement") } },
        RegisterEntry { id: "system_enable", info: RegisterInfo { name: "System Enable", address: 41014, data_type: "uint16", input_type: None, count: None, device_class: None, unit_of_measurement: None, scale: None, precision: None, state_class: Some("measurement") } },
        RegisterEntry { id: "eps_enable_code", info: RegisterInfo { name: "EPS Enable Code", address: 41015, data_type: "uint16", input_type: None, count: None, device_class: None, unit_of_measurement: None, scale: None, precision: None, state_class: Some("measurement") } },
        RegisterEntry { id: "remote_control_code", info: RegisterInfo { name: "Remote Control Code", address: 44000, data_type: "uint16", input_type: Some("input"), count: None, device_class: None, unit_of_measurement: None, scale: None, precision: None, state_class: Some("measurement") } },
        RegisterEntry { id: "remote_timeout_set", info: RegisterInfo { name: "Remote Timeout Set", address: 44001, data_type: "uint16", input_type: Some("input"), count: None, device_class: None, unit_of_measurement: None, scale: None, precision: None, state_class: Some("measurement") } },
        RegisterEntry { id: "remote_control_active_power_command", info: RegisterInfo { name: "Remote Control Active Power Command", address: 44002, data_type: "int32", input_type: Some("input"), count: None, device_class: Some("power"), unit_of_measurement: Some("W"), scale: Some(Scale::One), precision: Some(0), state_class: Some("measurement") } },
        RegisterEntry { id: "remote_control_reactive_power_command", info: RegisterInfo { name: "Remote Control Reactive Power Command", address: 44004, data_type: "int32", input_type: Some("input"), count: None, device_class: Some("power"), unit_of_measurement: Some("VAR"), scale: Some(Scale::One), precision: Some(0), state_class: Some("measurement") } },
        RegisterEntry { id: "remote_timeout_countdown", info: RegisterInfo { name: "Remote Timeout Countdown", address: 44006, data_type: "uint16", input_type: Some("input"), count: None, device_class: None, unit_of_measurement: None, scale: None, precision: None, state_class: Some("measurement") } },
        RegisterEntry { id: "remote_take_effect", info: RegisterInfo { name: "Remote Take Effect", address: 44007, data_type: "uint16", input_type: Some("input"), count: None, device_class: None, unit_of_measurement: None, scale: None, precision: None, state_class: Some("measurement") } },
        RegisterEntry { id: "remote_not_active_reason_code", info: RegisterInfo { name: "Remote Not Active Reason Code", address: 44008, data_type: "uint16", input_type: Some("input"), count: None, device_class: None, unit_of_measurement: None, scale: None, precision: None, state_class: Some("measurement") } },
        RegisterEntry { id: "remote_pwr_limit_bat_up", info: RegisterInfo { name: "Remote Pwr_Limit Bat_Up", address: 44012, data_type: "uint16", input_type: Some("input"), count: None, device_class: Some("power"), unit_of_measurement: Some("W"), scale: Some(Scale::One), precision: Some(0), state_class: Some("measurement") } },
        RegisterEntry { id: "remote_pwr_limit_bat_dn", info: RegisterInfo { name: "Remote Pwr_Limit Bat_Dn", address: 44013, data_type: "uint16", input_type: Some("input"), count: None, device_class: Some("power"), unit_of_measurement: Some("W"), scale: Some(Scale::One), precision: Some(0), state_class: Some("measurement") } }
    ]
}

/// The metadata of the first row of `table` with the given id.
pub open spec fn find_register(table: Seq<RegisterEntry>, id: Seq<char>) -> Option<RegisterInfo>
    decreases table.len(),
{
    if table.len() == 0 {
        None
    } else if table[0].id@ == id {
        Some(table[0].info)
    } else {
        find_register(table.drop_first(), id)
    }
}

/// The register table.
pub fn register_db() -> (db: Vec<RegisterEntry>)
    ensures
        db@ == register_table(),
{
    let db: Vec<RegisterEntry> = vec![
        RegisterEntry { id: "inverter_model", info: RegisterInfo { name: "Inverter Model", address: 30000, data_type: "string", input_type: None, count: Some(16), device_class: None, unit_of_measurement: None, scale: None, precision: None, state_class: None } },
        RegisterEntry { id: "master_version_code", info: RegisterInfo { name: "Master Version Code", address: 30016, data_type: "uint16", input_type: None, count: None, device_class: None, unit_of_measurement: None, scale: None, precision: None, state_class: Some("measurement") } },
        RegisterEntry { id: "slave_version_code", info: RegisterInfo { name: "Slave Version Code", address: 30017, data_type: "uint16", input_type: None, count: None, device_class: None, unit_of_measurement: None, scale: None, precision: None, state_class: Some("measurement") } },
        RegisterEntry { id: "manager_version_code", info: RegisterInfo { name: "Manager Version Code", address: 30018, data_type: "uint16", input_type: None, count: None, device_class: None, unit_of_measurement: None, scale: None, precision: None, state_class: Some("measurement") } },
        RegisterEntry { id: "bms_version_code", info: RegisterInfo { name: "BMS Version code", address: 30019, data_type: "uint16", input_type: None, count: None, device_class: None, unit_of_measurement: None, scale: None, precision: None, state_class: Some("measurement") } },
        RegisterEntry { id: "battery_1_version_code", info: RegisterInfo { name: "Battery 1 Version code", address: 30020, data_type: "uint16", input_type: None, count: None, device_class: None, unit_of_measurement: None, scale: None, precision: None, state_class: Some("measurement") } },
        RegisterEntry { id: "battery_2_version_code", info: RegisterInfo { name: "Battery 2 Version code", address: 30021, data_type: "uint16", input_type: None, count: None, device_class: None, unit_of_measurement: None, scale: None, precision: None, state_class: Some("measurement") } },
        RegisterEntry { id: "battery_3_version_code", info: RegisterInfo { name: "Battery 3 Version code", address: 30022, data_type: "uint16", input_type: None, count: None, device_class: None, unit_of_measurement: None, scale: None, precision: None, state_class: Some("measurement") } },
        RegisterEntry { id: "battery_4_version_code", info: RegisterInfo { name: "Battery 4 Version code", address: 30023, data_type: "uint16", input_type: None, count: None, device_class: None, unit_of_measurement: None, scale: None, precision: None, state_class: Some("measurement") } },
        RegisterEntry { id: "battery_5_version_code", info: RegisterInfo { name: "Battery 5 Version code", address: 30024, data_type: "uint16", input_type: None, count: None, device_class: None, unit_of_measurement: None, scale: None, precision: None, state_class: Some("measurement") } },
        RegisterEntry { id: "battery_6_version_code", info: RegisterInfo { name: "Battery 6 Version code", address: 30025, data_type: "uint16", input_type: None, count: None, device_class: None, unit_of_measurement: None, scale: None, precision: None, state_class: Some("measurement") } },
        RegisterEntry { id: "battery_7_version_code", info: RegisterInfo { name: "Battery 7 Version code", address: 30026, data_type: "uint16", input_type: None, count: None, device_class: None, unit_of_measurement: None, scale: None, precision: None, state_class: Some("measurement") } },
        RegisterEntry { id: "battery_8_version_code", info: RegisterInfo { name: "Battery 8 Version code", address: 30027, data_type: "uint16", input_type: None, count: None, device_class: None, unit_of_measurement: None, scale: None, precision: None, state_class: Some("measurement") } },
        RegisterEntry { id: "battery_9_version_code", info: RegisterInfo { name: "Battery 9 Version code", address: 30028, data_type: "uint16", input_type: None, count: None, device_class: None, unit_of_measurement: None, scale: None, precision: None, state_class: Some("measurement") } },
        RegisterEntry { id: "protocol_version_code", info: RegisterInfo { name: "Protocol Version Code", address: 30100, data_type: "uint16", input_type: None, count: None, device_class: None, unit_of_measurement: None, scale: None, precision: None, state_class: Some("measurement") } },
        RegisterEntry { id: "pv1_voltage", info: RegisterInfo { name: "PV1 Voltage", address: 31000, data_type: "uint16", input_type: None, count: None, device_class: Some("voltage"), unit_of_measurement: Some("V"), scale: Some(Scale::Tenth), precision: Some(1), state_class: Some("measurement") } },
        RegisterEntry { id: "pv1_current", info: RegisterInfo { name: "PV1 Current", address: 31001, data_type: "uint16", input_type: None, count: None, device_class: Some("current"), unit_of_measurement: Some("A"), scale: Some(Scale::Tenth), precision: Some(1), state_class: Some("measurement") } },
        RegisterEntry { id: "pv1_power", info: RegisterInfo { name: "PV1 Power", address: 31002, data_type: "uint16", input_type: None, count: None, device_class: Some("power"), unit_of_measurement: Some("kW"), scale: Some(Scale::Thousandth), precision: Some(3), state_class: Some("measurement") } },
        RegisterEntry { id: "pv2_voltage", info: RegisterInfo { name: "PV2 Voltage", address: 31003, data_type: "uint16", input_type: None, count: None, device_class: Some("voltage"), unit_of_measurement: Some("V"), scale: Some(Scale::Tenth), precision: Some(1), state_class: Some("measurement") } },
        RegisterEntry { id: "pv2_current", info: RegisterInfo { name: "PV2 Current", address: 31004, data_type: "uint16", input_type: None, count: None, device_class: Some("current"), unit_of_measurement: Some("A"), scale: Some(Scale::Tenth), precision: Some(1), state_class: Some("measurement") } },
        RegisterEntry { id: "pv2_power", info: RegisterInfo { name: "PV2 Power", address: 31005, data_type: "uint16", input_type: None, count: None, device_class: Some("power"), unit_of_measurement: Some("kW"), scale: Some(Scale::Thousandth), precision: Some(3), state_class: Some("measurement") } },
        RegisterEntry { id: "grid_voltage_R", info: RegisterInfo { name: "RVolt", address: 31006, data_type: "uint16", input_type: None, count: None, device_class: Some("voltage"), unit_of_measurement: Some("V"), scale: Some(Scale::Tenth), precision: Some(1), state_class: Some("measurement") } },
        RegisterEntry { id: "grid_voltage_S", info: RegisterInfo { name: "SVolt", address: 31007, data_type: "uint16", input_type: None, count: None, device_class: Some("voltage"), unit_of_measurement: Some("V"), scale: Some(Scale::Tenth), precision: Some(1), state_class: Some("measurement") } },
        RegisterEntry { id: "grid_voltage_T", info: RegisterInfo { name: "TVolt", address: 31008, data_type: "uint16", input_type: None, count: None, device_class: Some("voltage"), unit_of_measurement: Some("V"), scale: Some(Scale::Tenth), precision: Some(1), state_class: Some("measurement") } },
        RegisterEntry { id: "inv_current_R", info: RegisterInfo { name: "RCurrent", address: 31009, data_type: "uint16", input_type: None, count: None, device_class: Some("current"), unit_of_measurement: Some("A"), scale: Some(Scale::Tenth), precision: Some(1), state_class: Some("measurement") } },
        RegisterEntry { id: "inv_current_S", info: RegisterInfo { name: "SCurrent", address: 31010, data_type: "uint16", input_type: None, count: None, device_class: Some("current"), unit_of_measurement: Some("A"), scale: Some(Scale::Tenth), precision: Some(1), state_class: Some("measurement") } },
        RegisterEntry { id: "inv_current_T", info: RegisterInfo { name: "TCurrent", address: 31011, data_type: "uint16", input_type: None, count: None, device_class: Some("current"), unit_of_measurement: Some("A"), scale: Some(Scale::Tenth), precision: Some(1), state_class: Some("measurement") } },
        RegisterEntry { id: "inv_power_R", info: RegisterInfo { name: "RPower", address: 31012, data_type: "uint16", input_type: None, count: None, device_class: Some("power"), unit_of_measurement: Some("kW"), scale: Some(Scale::Thousandth), precision: Some(3), state_class: Some("measurement") } },
        RegisterEntry { id: "inv_power_S", info: RegisterInfo { name: "SPower", address: 31013, data_type: "uint16", input_type: None, count: None, device_class: Some("power"), unit_of_measurement: Some("kW"), scale: Some(Scale::Thousandth), precision: Some(3), state_class: Some("measurement") } },
        RegisterEntry { id: "inv_power_T", info: RegisterInfo { name: "TPower", address: 31014, data_type: "uint16", input_type: None, count: None, device_class: Some("power"), unit_of_measurement: Some("kW"), scale: Some(Scale::Thousandth), precision: Some(3), state_class: Some("measurement") } },
        RegisterEntry { id: "grid_frequency", info: RegisterInfo { name: "Grid Frequency", address: 31015, data_type: "uint16", input_type: None, count: None, device_class: Some("frequency"), unit_of_measurement: Some("Hz"), scale: Some(Scale::Hundredth), precision: Some(3), state_class: Some("measurement") } },
        RegisterEntry { id: "eps_voltage_R", info: RegisterInfo { name: "EPS RVolt", address: 31016, data_type: "uint16", input_type: None, count: None, device_class: Some("voltage"), unit_of_measurement: Some("V"), scale: Some(Scale::Tenth), precision: Some(1), state_class: Some("measurement") } },
        RegisterEntry { id: "eps_voltage_S", info: RegisterInfo { name: "EPS SVolt", address: 31017, data_type: "uint16", input_type: None, count: None, device_class: Some("voltage"), unit_of_measurement: Some("V"), scale: Some(Scale::Tenth), precision: Some(1), state_class: Some("measurement") } },
        RegisterEntry { id: "eps_voltage_T", info: RegisterInfo { name: "EPS TVolt", address: 31018, data_type: "uint16", input_type: None, count: None, device_class: Some("voltage"), unit_of_measurement: Some("V"), scale: Some(Scale::Tenth), precision: Some(1), state_class: Some("measurement") } },
        RegisterEntry { id: "eps_current_R", info: RegisterInfo { name: "EPS RCurrent", address: 31019, data_type: "uint16", input_type: None, count: None, device_class: Some("current"), unit_of_measurement: Some("A"), scale: Some(Scale::Tenth), precision: Some(1), state_class: Some("measurement") } },
        RegisterEntry { id: "eps_current_S", info: RegisterInfo { name: "EPS SCurrent", address: 31020, data_type: "uint16", input_type: None, count: None, device_class: Some("current"), unit_of_measurement: Some("A"), scale: Some(Scale::Tenth), precision: Some(1), state_class: Some("measurement") } },
        RegisterEntry { id: "eps_current_T", info: RegisterInfo { name: "EPS TCurrent", address: 31021, data_type: "uint16", input_type: None, count: None, device_class: Some("current"), unit_of_measurement: Some("A"), scale: Some(Scale::Tenth), precision: Some(1), state_class: Some("measurement") } },
        RegisterEntry { id: "eps_power_R", info: RegisterInfo { name: "EPS RPower", address: 31022, data_type: "uint16", input_type: None, count: None, device_class: Some("power"), unit_of_measurement: Some("kW"), scale: Some(Scale::Thousandth), precision: Some(3), state_class: Some("measurement") } },
        RegisterEntry { id: "eps_power_S", info: RegisterInfo { name: "EPS SPower", address: 31023, data_type: "uint16", input_type: None, count: None, device_class: Some("power"), unit_of_measurement: Some("kW"), scale: Some(Scale::Thousandth), precision: Some(3), state_class: Some("measurement") } },
        RegisterEntry { id: "eps_power_T", info: RegisterInfo { name: "EPS TPower", address: 31024, data_type: "uint16", input_type: None, count: None, device_class: Some("power"), unit_of_measurement: Some("kW"), scale: Some(Scale::Thousandth), precision: Some(3), state_class: Some("measurement") } },
        RegisterEntry { id: "eps_frequency", info: RegisterInfo { name: "EPS Frequency", address: 31025, data_type: "uint16", input_type: None, count: None, device_class: Some("frequency"), unit_of_measurement: Some("Hz"), scale: Some(Scale::Hundredth), precision: Some(1), state_class: Some("measurement") } },
        RegisterEntry { id: "meter1_power_R", info: RegisterInfo { name: "Meter RPower", address: 31026, data_type: "uint16", input_type: None, count: None, device_class: Some("power"), unit_of_measurement: Some("kW"), scale: Some(Scale::Thousandth), precision: Some(3), state_class: Some("measurement") } },
        RegisterEntry { id: "meter1_power_S", info: RegisterInfo { name: "Meter SPower", address: 31027, data_type: "uint16", input_type: None, count: None, device_class: Some("power"), unit_of_measurement: Some("kW"), scale: Some(Scale::Thousandth), precision: Some(3), state_class: Some("measurement") } },
        RegisterEntry { id: "meter1_power_T", info: RegisterInfo { name: "Meter TPower", address: 31028, data_type: "uint16", input_type: None, count: None, device_class: Some("power"), unit_of_measurement: Some("kW"), scale: Some(Scale::Thousandth), precision: Some(3), state_class: Some("measurement") } },
        RegisterEntry { id: "load_power_R", info: RegisterInfo { name: "Load RPower", address: 31029, data_type: "uint16", input_type: None, count: None, device_class: Some("power"), unit_of_measurement: Some("kW"), scale: Some(Scale::Thousandth), precision: Some(3), state_class: Some("measurement") } },
        RegisterEntry { id: "load_power_S", info: RegisterInfo { name: "Load SPower", address: 31030, data_type: "uint16", input_type: None, count: None, device_class: Some("power"), unit_of_measurement: Some("kW"), scale: Some(Scale::Thousandth), precision: Some(3), state_class: Some("measurement") } },
        RegisterEntry { id: "load_power_T", info: RegisterInfo { name: "Load TPower", address: 31031, data_type: "uint16", input_type: None, count: None, device_class: Some("power"), unit_of_measurement: Some("kW"), scale: Some(Scale::Thousandth), precision: Some(3), state_class: Some("measurement") } },
        RegisterEntry { id: "inverter_temperature", info: RegisterInfo { name: "Inverter Temperature", address: 31032, data_type: "uint16", input_type: None, count: None, device_class: Some("temperature"), unit_of_measurement: Some("°C"), scale: Some(Scale::Tenth), precision: Some(1), state_class: Some("measurement") } },
        RegisterEntry { id: "ambient_temperature", info: RegisterInfo { name: "Inner Temperature", address: 31033, data_type: "uint16", input_type: None, count: None, device_class: Some("temperature"), unit_of_measurement: Some("°C"), scale: Some(Scale::Tenth), precision: Some(1), state_class: Some("measurement") } },
        RegisterEntry { id: "battery_voltage", info: RegisterInfo { name: "InvBatVolt", address: 31034, data_type: "uint16", input_type: None, count: None, device_class: Some("voltage"), unit_of_measurement: Some("V"), scale: Some(Scale::Tenth), precision: Some(1), state_class: Some("measurement") } },
        RegisterEntry { id: "battery_current", info: RegisterInfo { name: "InvBatCurrent", address: 31035, data_type: "uint16", input_type: None, count: None, device_class: Some("current"), unit_of_measurement: Some("A"), scale: Some(Scale::Tenth), precision: Some(1), state_class: Some("measurement") } },
        RegisterEntry { id: "battery_power", info: RegisterInfo { name: "Battery Discharge Power", address: 31036, data_type: "uint16", input_type: None, count: None, device_class: Some("power"), unit_of_measurement: Some("kW"), scale: Some(Scale::Thousandth), precision: Some(3), state_class: Some("measurement") } },
        RegisterEntry { id: "battery_temperature", info: RegisterInfo { name: "Battery Temperature", address: 31037, data_type: "uint16", input_type: None, count: None, device_class: Some("temperature"), unit_of_measurement: Some("°C"), scale: Some(Scale::Tenth), precision: Some(1), state_class: Some("measurement") } },
        RegisterEntry { id: "battery_soc", info: RegisterInfo { name: "Battery SoC", address: 31038, data_type: "uint16", input_type: None, count: None, device_class: Some("battery"), unit_of_measurement: Some("%"), scale: None, precision: None, state_class: Some("measurement") } },
        RegisterEntry { id: "bms_charge_rate", info: RegisterInfo { name: "BMS Max Charge Current", address: 31039, data_type: "uint16", input_type: None, count: None, device_class: Some("current"), unit_of_measurement: Some("A"), scale: Some(Scale::Tenth), precision: Some(1), state_class: Some("measurement") } },
        RegisterEntry { id: "bms_discharge_rate", info: RegisterInfo { name: "BMS Max Discharge Current", address: 31040, data_type: "uint16", input_type: None, count: None, device_class: Some("current"), unit_of_measurement: Some("A"), scale: Some(Scale::Tenth), precision: Some(1), state_class: Some("measurement") } },
        RegisterEntry { id: "inverter_state_code", info: RegisterInfo { name: "Inverter State Code", address: 31041, data_type: "uint16", input_type: None, count: None, device_class: None, unit_of_measurement: None, scale: None, precision: None, state_class: Some("measurement") } },
        RegisterEntry { id: "bms_connection_code", info: RegisterInfo { name: "BMS Connection Code", address: 31042, data_type: "uint16", input_type: None, count: None, device_class: None, unit_of_measurement: None, scale: None, precision: None, state_class: Some("measurement") } },
        RegisterEntry { id: "meter_1_connection_code", info: RegisterInfo { name: "Meter 1 Connection Code", address: 31043, data_type: "uint16", input_type: None, count: None, device_class: None, unit_of_measurement: None, scale: None, precision: None, state_class: Some("measurement") } },
        RegisterEntry { id: "fault_1_code", info: RegisterInfo { name: "Fault 1 Code", address: 31044, data_type: "uint16", input_type: None, count: None, device_class: None, unit_of_measurement: None, scale: None, precision: None, state_class: Some("measurement") } },
        RegisterEntry { id: "fault_2_code", info: RegisterInfo { name: "Fault 2 Code", address: 31045, data_type: "uint16", input_type: None, count: None, device_class: None, unit_of_measurement: None, scale: None, precision: None, state_class: Some("measurement") } },
        RegisterEntry { id: "fault_3_code", info: RegisterInfo { name: "Fault 3 Code", address: 31046, data_type: "uint16", input_type: None, count: None, device_class: None, unit_of_measurement: None, scale: None, precision: None, state_class: Some("measurement") } },
        RegisterEntry { id: "fault_4_code", info: RegisterInfo { name: "Fault 4 Code", address: 31047, data_type: "uint16", input_type: None, count: None, device_class: None, unit_of_measurement: None, scale: None, precision: None, state_class: Some("measurement") } },
        RegisterEntry { id: "fault_5_code", info: RegisterInfo { name: "Fault 5 Code", address: 31048, data_type: "uint16", input_type: None, count: None, device_class: None, unit_of_measurement: None, scale: None, precision: None, state_class: Some("measurement") } },
        RegisterEntry { id: "fault_6_code", info: RegisterInfo { name: "Fault 6 Code", address: 31049, data_type: "uint16", input_type: None, count: None, device_class: None, unit_of_measurement: None, scale: None, precision: None, state_class: Some("measurement") } },
        RegisterEntry { id: "fault_7_code", info: RegisterInfo { name: "Fault 7 Code", address: 31050, data_type: "uint16", input_type: None, count: None, device_class: None, unit_of_measurement: None, scale: None, precision: None, state_class: Some("measurement") } },
        RegisterEntry { id: "fault_8_code", info: RegisterInfo { name: "Fault 8 Code", address: 31051, data_type: "uint16", input_type: None, count: None, device_class: None, unit_of_measurement: None, scale: None, precision: None, state_class: Some("measurement") } },
        RegisterEntry { id: "pv_energy_total", info: RegisterInfo { name: "PV Energy Total", address: 32000, data_type: "uint32", input_type: None, count: None, device_class: Some("energy"), unit_of_measurement: Some("kWh"), scale: Some(Scale::Tenth), precision: Some(1), state_class: Some("total") } },
        RegisterEntry { id: "pv_energy_today", info: RegisterInfo { name: "PV Energy Today", address: 32002, data_type: "uint16", input_type: None, count: None, device_class: Some("energy"), unit_of_measurement: Some("kWh"), scale: Some(Scale::Tenth), precision: Some(1), state_class: Some("total") } },
        RegisterEntry { id: "charge_energy_total", info: RegisterInfo { name: "Charge Energy Total", address: 32003, data_type: "uint32", input_type: None, count: None, device_class: Some("energy"), unit_of_measurement: Some("kWh"), scale: Some(Scale::Tenth), precision: Some(1), state_class: Some("total") } },
        RegisterEntry { id: "charge_energy_today", info: RegisterInfo { name: "Charge Energy Today", address: 32005, data_type: "uint16", input_type: None, count: None, device_class: Some("energy"), unit_of_measurement: Some("kWh"), scale: Some(Scale::Tenth), precision: Some(1), state_class: Some("total") } },
        RegisterEntry { id: "discharge_energy_total", info: RegisterInfo { name: "Discharge Energy Total", address: 32006, data_type: "uint32", input_type: None, count: None, device_class: Some("energy"), unit_of_measurement: Some("kWh"), scale: Some(Scale::Tenth), precision: Some(1), state_class: Some("total") } },
        RegisterEntry { id: "discharge_energy_today", info: RegisterInfo { name: "Discharge Energy Today", address: 32008, data_type: "uint16", input_type: None, count: None, device_class: Some("energy"), unit_of_measurement: Some("kWh"), scale: Some(Scale::Tenth), precision: Some(1), state_class: Some("total") } },
        RegisterEntry { id: "feed_in_energy_total", info: RegisterInfo { name: "Feed In Energy Total", address: 32009, data_type: "uint32", input_type: None, count: None, device_class: Some("energy"), unit_of_measurement: Some("kWh"), scale: Some(Scale::Tenth), precision: Some(1), state_class: Some("total") } },
        RegisterEntry { id: "feed_in_energy_today", info: RegisterInfo { name: "Feed In Energy Today", address: 32011, data_type: "uint16", input_type: None, count: None, device_class: Some("energy"), unit_of_measurement: Some("kWh"), scale: Some(Scale::Tenth), precision: Some(1), state_class: Some("total") } },
        RegisterEntry { id: "grid_consumption_energy_total", info: RegisterInfo { name: "Grid Consumption Energy Total", address: 32012, data_type: "uint32", input_type: None, count: None, device_class: Some("energy"), unit_of_measurement: Some("kWh"), scale: Some(Scale::Tenth), precision: Some(1), state_class: Some("total") } },
        RegisterEntry { id: "grid_consumption_energy_today", info: RegisterInfo { name: "Grid Consumption Energy Today", address: 32014, data_type: "uint16", input_type: None, count: None, device_class: Some("energy"), unit_of_measurement: Some("kWh"), scale: Some(Scale::Tenth), precision: Some(1), state_class: Some("total") } },
        RegisterEntry { id: "output_energy_total", info: RegisterInfo { name: "Output Energy Total", address: 32015, data_type: "uint32", input_type: None, count: None, device_class: Some("energy"), unit_of_measurement: Some("kWh"), scale: Some(Scale::Tenth), precision: Some(1), state_class: Some("total") } },
        RegisterEntry { id: "output_energy_today", info: RegisterInfo { name: "Output Energy Today", address: 32017, data_type: "uint16", input_type: None, count: None, device_class: Some("energy"), unit_of_measurement: Some("kWh"), scale: Some(Scale::Tenth), precision: Some(1), state_class: Some("total") } },
        RegisterEntry { id: "input_energy_total", info: RegisterInfo { name: "Input Energy Total", address: 32018, data_type: "uint32", input_type: None, count: None, device_class: Some("energy"), unit_of_measurement: Some("kWh"), scale: Some(Scale::Tenth), precision: Some(1), state_class: Some("total") } },
        RegisterEntry { id: "input_energy_today", info: RegisterInfo { name: "Input Energy Today", address: 32020, data_type: "uint16", input_type: None, count: None, device_class: Some("energy"), unit_of_measurement: Some("kWh"), scale: Some(Scale::Tenth), precision: Some(1), state_class: Some("total") } },
        RegisterEntry { id: "load_energy_total", info: RegisterInfo { name: "Load Energy Total", address: 32021, data_type: "uint32", input_type: None, count: None, device_class: Some("energy"), unit_of_measurement: Some("kWh"), scale: Some(Scale::Tenth), precision: Some(1), state_class: Some("total") } },
        RegisterEntry { id: "load_energy_today", info: RegisterInfo { name: "Load Energy Today", address: 32023, data_type: "uint16", input_type: None, count: None, device_class: Some("energy"), unit_of_measurement: Some("kWh"), scale: Some(Scale::Tenth), precision: Some(1), state_class: Some("total") } },
        RegisterEntry { id: "rtc_hour", info: RegisterInfo { name: "RTC Hour", address: 40003, data_type: "uint16", input_type: None, count: None, device_class: None, unit_of_measurement: None, scale: None, precision: None, state_class: Some("measurement") } },
        RegisterEntry { id: "work_mode_code", info: RegisterInfo { name: "Work Mode Code", address: 41000, data_type: "uint16", input_type: None, count: None, device_class: None, unit_of_measurement: None, scale: None, precision: None, state_class: Some("measurement") } },
        RegisterEntry { id: "time_period_1_enabled", info: RegisterInfo { name: "Time Period 1 Enabled", address: 41001, data_type: "uint16", input_type: None, count: None, device_class: None, unit_of_measurement: None, scale: None, precision: None, state_class: Some("measurement") } },
        RegisterEntry { id: "time_period_1_start", info: RegisterInfo { name: "Time Period 1 Start", address: 41002, data_type: "uint16", input_type: None, count: None, device_class: None, unit_of_measurement: None, scale: None, precision: None, state_class: Some("measurement") } },
        RegisterEntry { id: "time_period_1_end", info: RegisterInfo { name: "Time Period 1 End", address: 41003, data_type: "uint16", input_type: None, count: None, device_class: None, unit_of_measurement: None, scale: None, precision: None, state_class: Some("measurement") } },
        RegisterEntry { id: "time_period_2_enabled", info: RegisterInfo { name: "Time Period 2 Enabled", address: 41004, data_type: "uint16", input_type: None, count: None, device_class: None, unit_of_measurement: None, scale: None, precision: None, state_class: Some("measurement") } },
        RegisterEntry { id: "time_period_2_start", info: RegisterInfo { name: "Time Period 2 Start", address: 41005, data_type: "uint16", input_type: None, count: None, device_class: None, unit_of_measurement: None, scale: None, precision: None, state_class: Some("measurement") } },
        RegisterEntry { id: "time_period_2_end", info: RegisterInfo { name: "Time Period 2 End", address: 41006, data_type: "uint16", input_type: None, count: None, device_class: None, unit_of_measurement: None, scale: None, precision: None, state_class: Some("measurement") } },
        RegisterEntry { id: "max_charge_current", info: RegisterInfo { name: "Max Charge Current", address: 41007, data_type: "uint16", input_type: None, count: None, device_class: Some("current"), unit_of_measurement: Some("A"), scale: Some(Scale::Tenth), precision: Some(1), state_class: Some("measurement") } },
        RegisterEntry { id: "max_discharge_current", info: RegisterInfo { name: "Max Discharge Current", address: 41008, data_type: "uint16", input_type: None, count: None, device_class: Some("current"), unit_of_measurement: Some("A"), scale: Some(Scale::Tenth), precision: Some(1), state_class: Some("measurement") } },
        RegisterEntry { id: "min_soc", info: RegisterInfo { name: "Min SoC", address: 41009, data_type: "uint16", input_type: None, count: None, device_class: Some("battery"), unit_of_measurement: Some("%"), scale: None, precision: None, state_class: Some("measurement") } },
        RegisterEntry { id: "max_soc", info: RegisterInfo { name: "Max SoC", address: 41010, data_type: "uint16", input_type: None, count: None, device_class: Some("battery"), unit_of_measurement: Some("%"), scale: None, precision: None, state_class: Some("measurement") } },
        RegisterEntry { id: "min_soc_on_grid", info: RegisterInfo { name: "Min SoC On Grid", address: 41011, data_type: "uint16", input_type: None, count: None, device_class: Some("battery"), unit_of_measurement: Some("%"), scale: None, precision: None, state_class: Some("measurement") } },
        RegisterEntry { id: "export_limit", info: RegisterInfo { name: "Export Limit", address: 41012, data_type: "uint16", input_type: None, count: None, device_class: Some("power"), unit_of_measurement: Some("kW"), scale: Some(Scale::Thousandth), precision: Some(3), state_class: Some("measurement") } },
        RegisterEntry { id: "system_enable", info: RegisterInfo { name: "System Enable", address: 41014, data_type: "uint16", input_type: None, count: None, device_class: None, unit_of_measurement: None, scale: None, precision: None, state_class: Some("measurement") } },
        RegisterEntry { id: "eps_enable_code", info: RegisterInfo { name: "EPS Enable Code", address: 41015, data_type: "uint16", input_type: None, count: None, device_class: None, unit_of_measurement: None, scale: None, precision: None, state_class: Some("measurement") } },
        RegisterEntry { id: "remote_control_code", info: RegisterInfo { name: "Remote Control Code", address: 44000, data_type: "uint16", input_type: Some("input"), count: None, device_class: None, unit_of_measurement: None, scale: None, precision: None, state_class: Some("measurement") } },
        RegisterEntry { id: "remote_timeout_set", info: RegisterInfo { name: "Remote Timeout Set", address: 44001, data_type: "uint16", input_type: Some("input"), count: None, device_class: None, unit_of_measurement: None, scale: None, precision: None, state_class: Some("measurement") } },
        RegisterEntry { id: "remote_control_active_power_command", info: RegisterInfo { name: "Remote Control Active Power Command", address: 44002, data_type: "int32", input_type: Some("input"), count: None, device_class: Some("power"), unit_of_measurement: Some("W"), scale: Some(Scale::One), precision: Some(0), state_class: Some("measurement") } },
        RegisterEntry { id: "remote_control_reactive_power_command", info: RegisterInfo { name: "Remote Control Reactive Power Command", address: 44004, data_type: "int32", input_type: Some("input"), count: None, device_class: Some("power"), unit_of_measurement: Some("VAR"), scale: Some(Scale::One), precision: Some(0), state_class: Some("measurement") } },
        RegisterEntry { id: "remote_timeout_countdown", info: RegisterInfo { name: "Remote Timeout Countdown", address: 44006, data_type: "uint16", input_type: Some("input"), count: None, device_class: None, unit_of_measurement: None, scale: None, precision: None, state_class: Some("measurement") } },
        RegisterEntry { id: "remote_take_effect", info: RegisterInfo { name: "Remote Take Effect", address: 44007, data_type: "uint16", input_type: Some("input"), count: None, device_class: None, unit_of_measurement: None, scale: None, precision: None, state_class: Some("measurement") } },
        RegisterEntry { id: "remote_not_active_reason_code", info: RegisterInfo { name: "Remote Not Active Reason Code", address: 44008, data_type: "uint16", input_type: Some("input"), count: None, device_class: None, unit_of_measurement: None, scale: None, precision: None, state_class: Some("measurement") } },
        RegisterEntry { id: "remote_pwr_limit_bat_up", info: RegisterInfo { name: "Remote Pwr_Limit Bat_Up", address: 44012, data_type: "uint16", input_type: Some("input"), count: None, device_class: Some("power"), unit_of_measurement: Some("W"), scale: Some(Scale::One), precision: Some(0), state_class: Some("measurement") } },
        RegisterEntry { id: "remote_pwr_limit_bat_dn", info: RegisterInfo { name: "Remote Pwr_Limit Bat_Dn", address: 44013, data_type: "uint16", input_type: Some("input"), count: None, device_class: Some("power"), unit_of_measurement: Some("W"), scale: Some(Scale::One), precision: Some(0), state_class: Some("measurement") } }
    ];
    assert(db@ =~= register_table());
    db
}

/// The number of registers a value of this register spans.
pub open spec fn register_width(info: RegisterInfo) -> int {
    if info.data_type@ == "string"@ {
        match info.count {
            Some(c) => c as int,
            None => 0,
        }
    } else if info.data_type@ == "uint32"@ || info.data_type@ == "int32"@ {
        2
    } else {
        1
    }
}

/// Whether a register has a data type the reader handles: an unsigned or
/// signed integer, or a text with a register count.
pub open spec fn known_layout(info: RegisterInfo) -> bool {
    ||| info.data_type@ == "uint16"@
    ||| info.data_type@ == "uint32"@
    ||| info.data_type@ == "int32"@
    ||| info.data_type@ == "string"@ && info.count is Some
}

/// Whether, from entry `k` on, every entry has a known layout and its
/// registers end before the next entry's begin.
pub open spec fn laid_out_from(t: Seq<RegisterEntry>, k: int) -> bool
    decreases t.len() - k,
{
    if k < 0 || k >= t.len() {
        true
    } else {
        &&& known_layout(t[k].info)
        &&& k + 1 < t.len() ==> t[k].info.address + register_width(t[k].info) <= t[k + 1].info.address
        &&& laid_out_from(t, k + 1)
    }
}

#[verifier::rlimit(100)]
#[verifier::spinoff_prover]
proof fn lemma_table_laid_out()
    ensures
        laid_out_from(register_table(), 0),
{
    reveal_strlit("string");
    reveal_strlit("uint32");
    reveal_strlit("int32");
    reveal_strlit("uint16");
    let t = register_table();
    assert(t.len() == 108);
    assert("uint16"@ != "string"@ && "uint32"@ != "string"@ && "int32"@ != "string"@) by {
        assert("uint16"@[0] != "string"@[0]);
        assert("uint32"@[0] != "string"@[0]);
    }
    assert("uint16"@ != "uint32"@ && "uint16"@ != "int32"@) by {
        assert("uint16"@[4] != "uint32"@[4]);
    }
    assert(laid_out_from(t, 108));
    assert(laid_out_from(t, 107));
    assert(laid_out_from(t, 106));
    assert(laid_out_from(t, 105));
    assert(laid_out_from(t, 104));
    assert(laid_out_from(t, 103));
    assert(laid_out_from(t, 102));
    assert(laid_out_from(t, 101));
    assert(laid_out_from(t, 100));
    assert(laid_out_from(t, 99));
    assert(laid_out_from(t, 98));
    assert(laid_out_from(t, 97));
    assert(laid_out_from(t, 96));
    assert(laid_out_from(t, 95));
    assert(laid_out_from(t, 94));
    assert(laid_out_from(t, 93));
    assert(laid_out_from(t, 92));
    assert(laid_out_from(t, 91));
    assert(laid_out_from(t, 90));
    assert(laid_out_from(t, 89));
    assert(laid_out_from(t, 88));
    assert(laid_out_from(t, 87));
    assert(laid_out_from(t, 86));
    assert(laid_out_from(t, 85));
    assert(laid_out_from(t, 84));
    assert(laid_out_from(t, 83));
    assert(laid_out_from(t, 82));
    assert(laid_out_from(t, 81));
    assert(laid_out_from(t, 80));
    assert(laid_out_from(t, 79));
    assert(laid_out_from(t, 78));
    assert(laid_out_from(t, 77));
    assert(laid_out_from(t, 76));
    assert(laid_out_from(t, 75));
    assert(laid_out_from(t, 74));
    assert(laid_out_from(t, 73));
    assert(laid_out_from(t, 72));
    assert(laid_out_from(t, 71));
    assert(laid_out_from(t, 70));
    assert(laid_out_from(t, 69));
    assert(laid_out_from(t, 68));
    assert(laid_out_from(t, 67));
    assert(laid_out_from(t, 66));
    assert(laid_out_from(t, 65));
    assert(laid_out_from(t, 64));
    assert(laid_out_from(t, 63));
    assert(laid_out_from(t, 62));
    assert(laid_out_from(t, 61));
    assert(laid_out_from(t, 60));
    assert(laid_out_from(t, 59));
    assert(laid_out_from(t, 58));
    assert(laid_out_from(t, 57));
    assert(laid_out_from(t, 56));
    assert(laid_out_from(t, 55));
    assert(laid_out_from(t, 54));
    assert(laid_out_from(t, 53));
    assert(laid_out_from(t, 52));
    assert(laid_out_from(t, 51));
    assert(laid_out_from(t, 50));
    assert(laid_out_from(t, 49));
    assert(laid_out_from(t, 48));
    assert(laid_out_from(t, 47));
    assert(laid_out_from(t, 46));
    assert(laid_out_from(t, 45));
    assert(laid_out_from(t, 44));
    assert(laid_out_from(t, 43));
    assert(laid_out_from(t, 42));
    assert(laid_out_from(t, 41));
    assert(laid_out_from(t, 40));
    assert(laid_out_from(t, 39));
    assert(laid_out_from(t, 38));
    assert(laid_out_from(t, 37));
    assert(laid_out_from(t, 36));
    assert(laid_out_from(t, 35));
    assert(laid_out_from(t, 34));
    assert(laid_out_from(t, 33));
    assert(laid_out_from(t, 32));
    assert(laid_out_from(t, 31));
    assert(laid_out_from(t, 30));
    assert(laid_out_from(t, 29));
    assert(laid_out_from(t, 28));
    assert(laid_out_from(t, 27));
    assert(laid_out_from(t, 26));
    assert(laid_out_from(t, 25));
    assert(laid_out_from(t, 24));
    assert(laid_out_from(t, 23));
    assert(laid_out_from(t, 22));
    assert(laid_out_from(t, 21));
    assert(laid_out_from(t, 20));
    assert(laid_out_from(t, 19));
    assert(laid_out_from(t, 18));
    assert(laid_out_from(t, 17));
    assert(laid_out_from(t, 16));
    assert(laid_out_from(t, 15));
    assert(laid_out_from(t, 14));
    assert(laid_out_from(t, 13));
    assert(laid_out_from(t, 12));
    assert(laid_out_from(t, 11));
    assert(laid_out_from(t, 10));
    assert(laid_out_from(t, 9));
    assert(laid_out_from(t, 8));
    assert(laid_out_from(t, 7));
    assert(laid_out_from(t, 6));
    assert(laid_out_from(t, 5));
    assert(laid_out_from(t, 4));
    assert(laid_out_from(t, 3));
    assert(laid_out_from(t, 2));
    assert(laid_out_from(t, 1));
    assert(laid_out_from(t, 0));
}

proof fn lemma_laid_out_pairs(t: Seq<RegisterEntry>, k: int)
    requires
        0 <= k,
        laid_out_from(t, k),
    ensures
        forall|i: int| k <= i < t.len() ==> known_layout(#[trigger] t[i].info),
        forall|i: int, j: int|
            k <= i < j < t.len() ==> #[trigger] t[i].info.address + register_width(t[i].info)
                <= #[trigger] t[j].info.address,
    decreases t.len() - k,
{
    if k < t.len() {
        lemma_laid_out_pairs(t, k + 1);
        assert forall|i: int, j: int| k <= i < j < t.len() implies #[trigger] t[i].info.address
            + register_width(t[i].info) <= #[trigger] t[j].info.address by {
            if i == k && j > k + 1 {
                assert(t[k + 1].info.address + register_width(t[k + 1].info) <= t[j].info.address);
                assert(register_width(t[k + 1].info) >= 0);
            }
        }
    }
}

/// The register table is well laid out: every register has a data type the
/// reader handles, so a read plan exists for it, and the registers of two
/// different entries never overlap (the table lists them in address order).
pub proof fn lemma_register_table_laid_out()
    ensures
        forall|i: int|
            0 <= i < register_table().len() ==> known_layout(#[trigger] register_table()[i].info)
                && plan_of(register_table()[i].info) is Ok,
        forall|i: int, j: int|
            0 <= i < j < register_table().len() ==> #[trigger] register_table()[i].info.address
                + register_width(register_table()[i].info) <= #[trigger] register_table()[j].info.address,
{
    lemma_table_laid_out();
    lemma_laid_out_pairs(register_table(), 0);
}

/// Looks up a register by its unique identifier.
pub fn get_register(unique_id: &str) -> (r: Option<RegisterInfo>)
    ensures
        r == find_register(register_table(), unique_id@),
{
    let db = register_db();
    let mut i: usize = 0;
    assert(db@.skip(0) =~= db@);
    while i < db.len()
        invariant
            i <= db@.len(),
            db@ == register_table(),
            find_register(register_table(), unique_id@) == find_register(db@.skip(i as int), unique_id@),
        decreases db@.len() - i,
    {
        assert(db@.skip(i as int)[0] == db@[i as int]);
        assert(db@.skip(i as int).drop_first() =~= db@.skip(i + 1));
        if chars_equal(crate::text::chars_of(db[i].id).as_slice(), unique_id) {
            return Some(db[i].info);
        }
        i = i + 1;
    }
    None
}

} // verus!

verus! {

/// How to read a register: the value type decides how many registers are
/// read and how they are combined.
#[derive(Debug, Clone, Copy, PartialEq, Eq, Structural)]
pub enum ReadPlan {
    /// One register, unsigned.
    U16 { address: u16 },
    /// Two registers, unsigned, high word first.
    U32 { address: u16 },
    /// Two registers, signed, high word first.
    I32 { address: u16 },
    /// `count` registers holding a text.
    Text { address: u16, count: u16 },
}

/// Why a register cannot be read.
#[derive(Debug, Clone, Copy, PartialEq, Eq)]
pub enum PlanError {
    /// No register has this id.
    UnknownRegister,
    /// A text register without a register count.
    MissingCount,
    /// A data type the reader does not handle.
    UnsupportedType(&'static str),
}

/// How a register with the given metadata is read.
pub open spec fn plan_of(info: RegisterInfo) -> Result<ReadPlan, PlanError> {
    let t = info.data_type@;
    if t == "u16"@ || t == "uint16"@ {
        Ok(ReadPlan::U16 { address: info.address })
    } else if t == "u32"@ || t == "uint32"@ {
        Ok(ReadPlan::U32 { address: info.address })
    } else if t == "i32"@ || t == "int32"@ {
        Ok(ReadPlan::I32 { address: info.address })
    } else if t == "string"@ {
        match info.count {
            Some(count) => Ok(ReadPlan::Text { address: info.address, count }),
            None => Err(PlanError::MissingCount),
        }
    } else {
        Err(PlanError::UnsupportedType(info.data_type))
    }
}

/// Decides how a register with the given metadata is read.
pub fn read_plan(info: &RegisterInfo) -> (r: Result<ReadPlan, PlanError>)
    ensures
        r == plan_of(*info),
{
    let t = crate::text::chars_of(info.data_type);
    if chars_equal(t.as_slice(), "u16") || chars_equal(t.as_slice(), "uint16") {
        Ok(ReadPlan::U16 { address: info.address })
    } else if chars_equal(t.as_slice(), "u32") || chars_equal(t.as_slice(), "uint32") {
        Ok(ReadPlan::U32 { address: info.address })
    } else if chars_equal(t.as_slice(), "i32") || chars_equal(t.as_slice(), "int32") {
        Ok(ReadPlan::I32 { address: info.address })
    } else if chars_equal(t.as_slice(), "string") {
        match info.count {
            Some(count) => Ok(ReadPlan::Text { address: info.address, count }),
            None => Err(PlanError::MissingCount),
        }
    } else {
        Err(PlanError::UnsupportedType(info.data_type))
    }
}

/// Decides how the register with the given id is read.
pub fn plan_for_id(unique_id: &str) -> (r: Result<ReadPlan, PlanError>)
    ensures
        match find_register(register_table(), unique_id@) {
            Some(info) => r == plan_of(info),
            None => r == Err::<ReadPlan, PlanError>(PlanError::UnknownRegister),
        },
{
    match get_register(unique_id) {
        Some(info) => read_plan(&info),
        None => Err(PlanError::UnknownRegister),
    }
}

} // verus!
