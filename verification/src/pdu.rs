//! The typed records of the input module (PDU / PEM): settings, hardware
//! description, per-condition alarm states, and the unit-checked raw
//! magnitudes of the live-measurements table.

use vstd::prelude::*;

use crate::enums::EventLevel;
use crate::enums::PEMModel;
use crate::enums::WiringType;
use crate::error::ErrorView;
use crate::error::MPXError;
use crate::fields::field_event_level;
use crate::fields::field_fw_version;
use crate::fields::field_magnitude;
use crate::fields::field_pem_model;
use crate::fields::field_str;
use crate::fields::field_tag;
use crate::fields::field_u32;
use crate::fields::field_wiring_type;
use crate::fields::tbl_event_level;
use crate::fields::tbl_fw_version;
use crate::fields::tbl_magnitude;
use crate::fields::tbl_pem_model;
use crate::fields::tbl_str;
use crate::fields::tbl_tag;
use crate::fields::tbl_u32;
use crate::fields::tbl_wiring_type;
use crate::table::RawTable;
use crate::table::TableMap;
use crate::version::FWVersion;

verus! {

/// Settings of the input module.
#[derive(Clone, Debug, PartialEq)]
pub struct PDUSettings {
    /// User-assigned label.
    pub label: String,
    /// First asset tag.
    pub asset_tag_1: String,
    /// Second asset tag.
    pub asset_tag_2: String,
    /// Neutral over-current alarm threshold in percent.
    pub n_over_current_alarm_threshold: u32,
    /// Neutral over-current warning threshold in percent.
    pub n_over_current_warning_threshold: u32,
    /// L1 low-current alarm threshold in percent.
    pub l1_low_current_alarm_threshold: u32,
    /// L1 over-current alarm threshold in percent.
    pub l1_over_current_alarm_threshold: u32,
    /// L1 over-current warning threshold in percent.
    pub l1_over_current_warning_threshold: u32,
    /// L2 low-current alarm threshold in percent.
    pub l2_low_current_alarm_threshold: u32,
    /// L2 over-current alarm threshold in percent.
    pub l2_over_current_alarm_threshold: u32,
    /// L2 over-current warning threshold in percent.
    pub l2_over_current_warning_threshold: u32,
    /// L3 low-current alarm threshold in percent.
    pub l3_low_current_alarm_threshold: u32,
    /// L3 over-current alarm threshold in percent.
    pub l3_over_current_alarm_threshold: u32,
    /// L3 over-current warning threshold in percent.
    pub l3_over_current_warning_threshold: u32,
}

/// Mathematical image of a `PDUSettings`.
#[verifier::ext_equal]
pub struct PDUSettingsView {
    /// User-assigned label.
    pub label: Seq<char>,
    /// First asset tag.
    pub asset_tag_1: Seq<char>,
    /// Second asset tag.
    pub asset_tag_2: Seq<char>,
    /// Neutral over-current alarm threshold in percent.
    pub n_over_current_alarm_threshold: u32,
    /// Neutral over-current warning threshold in percent.
    pub n_over_current_warning_threshold: u32,
    /// L1 low-current alarm threshold in percent.
    pub l1_low_current_alarm_threshold: u32,
    /// L1 over-current alarm threshold in percent.
    pub l1_over_current_alarm_threshold: u32,
    /// L1 over-current warning threshold in percent.
    pub l1_over_current_warning_threshold: u32,
    /// L2 low-current alarm threshold in percent.
    pub l2_low_current_alarm_threshold: u32,
    /// L2 over-current alarm threshold in percent.
    pub l2_over_current_alarm_threshold: u32,
    /// L2 over-current warning threshold in percent.
    pub l2_over_current_warning_threshold: u32,
    /// L3 low-current alarm threshold in percent.
    pub l3_low_current_alarm_threshold: u32,
    /// L3 over-current alarm threshold in percent.
    pub l3_over_current_alarm_threshold: u32,
    /// L3 over-current warning threshold in percent.
    pub l3_over_current_warning_threshold: u32,
}

impl View for PDUSettings {
    type V = PDUSettingsView;

    open spec fn view(&self) -> PDUSettingsView {
        PDUSettingsView {
            label: self.label@,
            asset_tag_1: self.asset_tag_1@,
            asset_tag_2: self.asset_tag_2@,
            n_over_current_alarm_threshold: self.n_over_current_alarm_threshold,
            n_over_current_warning_threshold: self.n_over_current_warning_threshold,
            l1_low_current_alarm_threshold: self.l1_low_current_alarm_threshold,
            l1_over_current_alarm_threshold: self.l1_over_current_alarm_threshold,
            l1_over_current_warning_threshold: self.l1_over_current_warning_threshold,
            l2_low_current_alarm_threshold: self.l2_low_current_alarm_threshold,
            l2_over_current_alarm_threshold: self.l2_over_current_alarm_threshold,
            l2_over_current_warning_threshold: self.l2_over_current_warning_threshold,
            l3_low_current_alarm_threshold: self.l3_low_current_alarm_threshold,
            l3_over_current_alarm_threshold: self.l3_over_current_alarm_threshold,
            l3_over_current_warning_threshold: self.l3_over_current_warning_threshold,
        }
    }
}

impl PDUSettings {
    /// What building the record from the settings table returns: each
    /// field read under its fixed label in a fixed order, the first
    /// failing field aborting the build.
    pub open spec fn spec_from_table(m: TableMap) -> Result<PDUSettingsView, ErrorView> {
        match field_str(m, "PDU User Assigned Label"@) {
            Err(e) => Err(e),
            Ok(label) =>
            match field_tag(m, "PDU Asset Tag 01"@) {
                Err(e) => Err(e),
                Ok(asset_tag_1) =>
                match field_tag(m, "PDU Asset Tag 02"@) {
                    Err(e) => Err(e),
                    Ok(asset_tag_2) =>
                    match field_u32(m, "Neutral Over Current Alarm Threshold"@, "%"@) {
                        Err(e) => Err(e),
                        Ok(n_over_current_alarm_threshold) =>
                        match field_u32(m, "Neutral Over Current Warning Threshold"@, "%"@) {
                            Err(e) => Err(e),
                            Ok(n_over_current_warning_threshold) =>
                            match field_u32(m, "Over Current Warn Threshold L1"@, "%"@) {
                                Err(e) => Err(e),
                                Ok(l1_over_current_warning_threshold) =>
                                match field_u32(m, "Over Current Warn Threshold L2"@, "%"@) {
                                    Err(e) => Err(e),
                                    Ok(l2_over_current_warning_threshold) =>
                                    match field_u32(m, "Over Current Warn Threshold L3"@, "%"@) {
                                        Err(e) => Err(e),
                                        Ok(l3_over_current_warning_threshold) =>
                                        match field_u32(m, "Over Current Alarm Threshold L1"@, "%"@) {
                                            Err(e) => Err(e),
                                            Ok(l1_over_current_alarm_threshold) =>
                                            match field_u32(m, "Over Current Alarm Threshold L2"@, "%"@) {
                                                Err(e) => Err(e),
                                                Ok(l2_over_current_alarm_threshold) =>
                                                match field_u32(m, "Over Current Alarm Threshold L3"@, "%"@) {
                                                    Err(e) => Err(e),
                                                    Ok(l3_over_current_alarm_threshold) =>
                                                    match field_u32(m, "Low Current Alarm Threshold L1"@, "%"@) {
                                                        Err(e) => Err(e),
                                                        Ok(l1_low_current_alarm_threshold) =>
                                                        match field_u32(m, "Low Current Alarm Threshold L2"@, "%"@) {
                                                            Err(e) => Err(e),
                                                            Ok(l2_low_current_alarm_threshold) =>
                                                            match field_u32(m, "Low Current Alarm Threshold L3"@, "%"@) {
                                                                Err(e) => Err(e),
                                                                Ok(l3_low_current_alarm_threshold) =>
                                                                Ok(PDUSettingsView {
                                                                    label,
                                                                    asset_tag_1,
                                                                    asset_tag_2,
                                                                    n_over_current_alarm_threshold,
                                                                    n_over_current_warning_threshold,
                                                                    l1_low_current_alarm_threshold,
                                                                    l1_over_current_alarm_threshold,
                                                                    l1_over_current_warning_threshold,
                                                                    l2_low_current_alarm_threshold,
                                                                    l2_over_current_alarm_threshold,
                                                                    l2_over_current_warning_threshold,
                                                                    l3_low_current_alarm_threshold,
                                                                    l3_over_current_alarm_threshold,
                                                                    l3_over_current_warning_threshold,
                                                                }),
                                                            },
                                                        },
                                                    },
                                                },
                                            },
                                        },
                                    },
                                },
                            },
                        },
                    },
                },
            },
        }
    }

    /// Builds the record, failing on the first missing or malformed
    /// field; no partial record is ever returned.
    pub fn from_table(table: &RawTable) -> (r: Result<PDUSettings, MPXError>)
        ensures
            match r {
                Ok(rec) => Self::spec_from_table(table@) == Ok::<PDUSettingsView, ErrorView>(rec@),
                Err(e) => Self::spec_from_table(table@) == Err::<PDUSettingsView, ErrorView>(e@),
            },
    {
        let label = match tbl_str(table, "PDU User Assigned Label") {
            Ok(v) => v,
            Err(e) => {
                return Err(e);
            },
        };
        let asset_tag_1 = match tbl_tag(table, "PDU Asset Tag 01") {
            Ok(v) => v,
            Err(e) => {
                return Err(e);
            },
        };
        let asset_tag_2 = match tbl_tag(table, "PDU Asset Tag 02") {
            Ok(v) => v,
            Err(e) => {
                return Err(e);
            },
        };
        let n_over_current_alarm_threshold = match tbl_u32(table, "Neutral Over Current Alarm Threshold", "%") {
            Ok(v) => v,
            Err(e) => {
                return Err(e);
            },
        };
        let n_over_current_warning_threshold = match tbl_u32(table, "Neutral Over Current Warning Threshold", "%") {
            Ok(v) => v,
            Err(e) => {
                return Err(e);
            },
        };
        let l1_over_current_warning_threshold = match tbl_u32(table, "Over Current Warn Threshold L1", "%") {
            Ok(v) => v,
            Err(e) => {
                return Err(e);
            },
        };
        let l2_over_current_warning_threshold = match tbl_u32(table, "Over Current Warn Threshold L2", "%") {
            Ok(v) => v,
            Err(e) => {
                return Err(e);
            },
        };
        let l3_over_current_warning_threshold = match tbl_u32(table, "Over Current Warn Threshold L3", "%") {
            Ok(v) => v,
            Err(e) => {
                return Err(e);
            },
        };
        let l1_over_current_alarm_threshold = match tbl_u32(table, "Over Current Alarm Threshold L1", "%") {
            Ok(v) => v,
            Err(e) => {
                return Err(e);
            },
        };
        let l2_over_current_alarm_threshold = match tbl_u32(table, "Over Current Alarm Threshold L2", "%") {
            Ok(v) => v,
            Err(e) => {
                return Err(e);
            },
        };
        let l3_over_current_alarm_threshold = match tbl_u32(table, "Over Current Alarm Threshold L3", "%") {
            Ok(v) => v,
            Err(e) => {
                return Err(e);
            },
        };
        let l1_low_current_alarm_threshold = match tbl_u32(table, "Low Current Alarm Threshold L1", "%") {
            Ok(v) => v,
            Err(e) => {
                return Err(e);
            },
        };
        let l2_low_current_alarm_threshold = match tbl_u32(table, "Low Current Alarm Threshold L2", "%") {
            Ok(v) => v,
            Err(e) => {
                return Err(e);
            },
        };
        let l3_low_current_alarm_threshold = match tbl_u32(table, "Low Current Alarm Threshold L3", "%") {
            Ok(v) => v,
            Err(e) => {
                return Err(e);
            },
        };
        Ok(PDUSettings {
            label,
            asset_tag_1,
            asset_tag_2,
            n_over_current_alarm_threshold,
            n_over_current_warning_threshold,
            l1_low_current_alarm_threshold,
            l1_over_current_alarm_threshold,
            l1_over_current_warning_threshold,
            l2_low_current_alarm_threshold,
            l2_over_current_alarm_threshold,
            l2_over_current_warning_threshold,
            l3_low_current_alarm_threshold,
            l3_over_current_alarm_threshold,
            l3_over_current_warning_threshold,
        })
    }
}

/// Hardware description of the input module.
#[derive(Clone, Debug, PartialEq)]
pub struct PDUHardware {
    /// Input-module model.
    pub pem_model: PEMModel,
    /// Firmware version.
    pub fw_version: FWVersion,
    /// Serial number.
    pub serial_number: String,
    /// Input wiring type.
    pub wiring_type: WiringType,
    /// Rated input voltage in V AC.
    pub rated_input_voltage: u32,
    /// Rated input current in A AC.
    pub rated_input_current: u32,
    /// Rated input line frequency in Hz.
    pub rated_input_line_frequency: u32,
}

/// Mathematical image of a `PDUHardware`.
#[verifier::ext_equal]
pub struct PDUHardwareView {
    /// Input-module model.
    pub pem_model: PEMModel,
    /// Firmware version.
    pub fw_version: FWVersion,
    /// Serial number.
    pub serial_number: Seq<char>,
    /// Input wiring type.
    pub wiring_type: WiringType,
    /// Rated input voltage in V AC.
    pub rated_input_voltage: u32,
    /// Rated input current in A AC.
    pub rated_input_current: u32,
    /// Rated input line frequency in Hz.
    pub rated_input_line_frequency: u32,
}

impl View for PDUHardware {
    type V = PDUHardwareView;

    open spec fn view(&self) -> PDUHardwareView {
        PDUHardwareView {
            pem_model: self.pem_model,
            fw_version: self.fw_version,
            serial_number: self.serial_number@,
            wiring_type: self.wiring_type,
            rated_input_voltage: self.rated_input_voltage,
            rated_input_current: self.rated_input_current,
            rated_input_line_frequency: self.rated_input_line_frequency,
        }
    }
}

impl PDUHardware {
    /// What building the record from the hardware table returns: each
    /// field read under its fixed label in a fixed order, the first
    /// failing field aborting the build.
    pub open spec fn spec_from_table(m: TableMap) -> Result<PDUHardwareView, ErrorView> {
        match field_pem_model(m, "PEM Model"@) {
            Err(e) => Err(e),
            Ok(pem_model) =>
            match field_wiring_type(m, "The PDU input wiring type"@) {
                Err(e) => Err(e),
                Ok(wiring_type) =>
                match field_u32(m, "Rated Input Line Voltage"@, "VAC"@) {
                    Err(e) => Err(e),
                    Ok(rated_input_voltage) =>
                    match field_u32(m, "Rated Input Line Current"@, "A AC"@) {
                        Err(e) => Err(e),
                        Ok(rated_input_current) =>
                        match field_u32(m, "Rated Input Line Frequency"@, "Hz"@) {
                            Err(e) => Err(e),
                            Ok(rated_input_line_frequency) =>
                            match field_fw_version(m, "Firmware Version"@) {
                                Err(e) => Err(e),
                                Ok(fw_version) =>
                                match field_str(m, "PEM Serial Number"@) {
                                    Err(e) => Err(e),
                                    Ok(serial_number) =>
                                    Ok(PDUHardwareView {
                                        pem_model,
                                        fw_version,
                                        serial_number,
                                        wiring_type,
                                        rated_input_voltage,
                                        rated_input_current,
                                        rated_input_line_frequency,
                                    }),
                                },
                            },
                        },
                    },
                },
            },
        }
    }

    /// Builds the record, failing on the first missing or malformed
    /// field; no partial record is ever returned.
    pub fn from_table(table: &RawTable) -> (r: Result<PDUHardware, MPXError>)
        ensures
            match r {
                Ok(rec) => Self::spec_from_table(table@) == Ok::<PDUHardwareView, ErrorView>(rec@),
                Err(e) => Self::spec_from_table(table@) == Err::<PDUHardwareView, ErrorView>(e@),
            },
    {
        let pem_model = match tbl_pem_model(table, "PEM Model") {
            Ok(v) => v,
            Err(e) => {
                return Err(e);
            },
        };
        let wiring_type = match tbl_wiring_type(table, "The PDU input wiring type") {
            Ok(v) => v,
            Err(e) => {
                return Err(e);
            },
        };
        let rated_input_voltage = match tbl_u32(table, "Rated Input Line Voltage", "VAC") {
            Ok(v) => v,
            Err(e) => {
                return Err(e);
            },
        };
        let rated_input_current = match tbl_u32(table, "Rated Input Line Current", "A AC") {
            Ok(v) => v,
            Err(e) => {
                return Err(e);
            },
        };
        let rated_input_line_frequency = match tbl_u32(table, "Rated Input Line Frequency", "Hz") {
            Ok(v) => v,
            Err(e) => {
                return Err(e);
            },
        };
        let fw_version = match tbl_fw_version(table, "Firmware Version") {
            Ok(v) => v,
            Err(e) => {
                return Err(e);
            },
        };
        let serial_number = match tbl_str(table, "PEM Serial Number") {
            Ok(v) => v,
            Err(e) => {
                return Err(e);
            },
        };
        Ok(PDUHardware {
            pem_model,
            fw_version,
            serial_number,
            wiring_type,
            rated_input_voltage,
            rated_input_current,
            rated_input_line_frequency,
        })
    }
}

/// Per-condition alarm states of the input module.
#[derive(Copy, Clone, Debug, PartialEq, Eq, Structural)]
pub struct PDUEvents {
    /// Low voltage on L1.
    pub low_voltage_l1: EventLevel,
    /// Low voltage on L2.
    pub low_voltage_l2: EventLevel,
    /// Low voltage on L3.
    pub low_voltage_l3: EventLevel,
    /// Over-current on L1.
    pub over_current_l1: EventLevel,
    /// Over-current on L2.
    pub over_current_l2: EventLevel,
    /// Over-current on L3.
    pub over_current_l3: EventLevel,
    /// Low current on L1.
    pub low_current_l1: EventLevel,
    /// Low current on L2.
    pub low_current_l2: EventLevel,
    /// Low current on L3.
    pub low_current_l3: EventLevel,
    /// Failure of the input module.
    pub failure: EventLevel,
    /// Lost communication.
    pub communication_fail: EventLevel,
    /// Over-current on the neutral line.
    pub over_current_n: EventLevel,
}

impl View for PDUEvents {
    type V = PDUEvents;

    open spec fn view(&self) -> PDUEvents {
        *self
    }
}

impl PDUEvents {
    /// What building the record from the events table returns: each
    /// field read under its fixed label in a fixed order, the first
    /// failing field aborting the build.
    pub open spec fn spec_from_table(m: TableMap) -> Result<PDUEvents, ErrorView> {
        match field_event_level(m, "PDU Low Voltage L1-N"@) {
            Err(e) => Err(e),
            Ok(low_voltage_l1) =>
            match field_event_level(m, "PDU Low Voltage L2-N"@) {
                Err(e) => Err(e),
                Ok(low_voltage_l2) =>
                match field_event_level(m, "PDU Low Voltage L3-N"@) {
                    Err(e) => Err(e),
                    Ok(low_voltage_l3) =>
                    match field_event_level(m, "PDU Over Current L1"@) {
                        Err(e) => Err(e),
                        Ok(over_current_l1) =>
                        match field_event_level(m, "PDU Over Current L2"@) {
                            Err(e) => Err(e),
                            Ok(over_current_l2) =>
                            match field_event_level(m, "PDU Over Current L3"@) {
                                Err(e) => Err(e),
                                Ok(over_current_l3) =>
                                match field_event_level(m, "PDU Low Current L1"@) {
                                    Err(e) => Err(e),
                                    Ok(low_current_l1) =>
                                    match field_event_level(m, "PDU Low Current L2"@) {
                                        Err(e) => Err(e),
                                        Ok(low_current_l2) =>
                                        match field_event_level(m, "PDU Low Current L3"@) {
                                            Err(e) => Err(e),
                                            Ok(low_current_l3) =>
                                            match field_event_level(m, "PDU Failure"@) {
                                                Err(e) => Err(e),
                                                Ok(failure) =>
                                                match field_event_level(m, "PDU Communication Fail"@) {
                                                    Err(e) => Err(e),
                                                    Ok(communication_fail) =>
                                                    match field_event_level(m, "PDU Neutral Over Current"@) {
                                                        Err(e) => Err(e),
                                                        Ok(over_current_n) =>
                                                        Ok(PDUEvents {
                                                            low_voltage_l1,
                                                            low_voltage_l2,
                                                            low_voltage_l3,
                                                            over_current_l1,
                                                            over_current_l2,
                                                            over_current_l3,
                                                            low_current_l1,
                                                            low_current_l2,
                                                            low_current_l3,
                                                            failure,
                                                            communication_fail,
                                                            over_current_n,
                                                        }),
                                                    },
                                                },
                                            },
                                        },
                                    },
                                },
                            },
                        },
                    },
                },
            },
        }
    }

    /// Builds the record, failing on the first missing or malformed
    /// field; no partial record is ever returned.
    pub fn from_table(table: &RawTable) -> (r: Result<PDUEvents, MPXError>)
        ensures
            match r {
                Ok(rec) => Self::spec_from_table(table@) == Ok::<PDUEvents, ErrorView>(rec@),
                Err(e) => Self::spec_from_table(table@) == Err::<PDUEvents, ErrorView>(e@),
            },
    {
        let low_voltage_l1 = match tbl_event_level(table, "PDU Low Voltage L1-N") {
            Ok(v) => v,
            Err(e) => {
                return Err(e);
            },
        };
        let low_voltage_l2 = match tbl_event_level(table, "PDU Low Voltage L2-N") {
            Ok(v) => v,
            Err(e) => {
                return Err(e);
            },
        };
        let low_voltage_l3 = match tbl_event_level(table, "PDU Low Voltage L3-N") {
            Ok(v) => v,
            Err(e) => {
                return Err(e);
            },
        };
        let over_current_l1 = match tbl_event_level(table, "PDU Over Current L1") {
            Ok(v) => v,
            Err(e) => {
                return Err(e);
            },
        };
        let over_current_l2 = match tbl_event_level(table, "PDU Over Current L2") {
            Ok(v) => v,
            Err(e) => {
                return Err(e);
            },
        };
        let over_current_l3 = match tbl_event_level(table, "PDU Over Current L3") {
            Ok(v) => v,
            Err(e) => {
                return Err(e);
            },
        };
        let low_current_l1 = match tbl_event_level(table, "PDU Low Current L1") {
            Ok(v) => v,
            Err(e) => {
                return Err(e);
            },
        };
        let low_current_l2 = match tbl_event_level(table, "PDU Low Current L2") {
            Ok(v) => v,
            Err(e) => {
                return Err(e);
            },
        };
        let low_current_l3 = match tbl_event_level(table, "PDU Low Current L3") {
            Ok(v) => v,
            Err(e) => {
                return Err(e);
            },
        };
        let failure = match tbl_event_level(table, "PDU Failure") {
            Ok(v) => v,
            Err(e) => {
                return Err(e);
            },
        };
        let communication_fail = match tbl_event_level(table, "PDU Communication Fail") {
            Ok(v) => v,
            Err(e) => {
                return Err(e);
            },
        };
        let over_current_n = match tbl_event_level(table, "PDU Neutral Over Current") {
            Ok(v) => v,
            Err(e) => {
                return Err(e);
            },
        };
        Ok(PDUEvents {
            low_voltage_l1,
            low_voltage_l2,
            low_voltage_l3,
            over_current_l1,
            over_current_l2,
            over_current_l3,
            low_current_l1,
            low_current_l2,
            low_current_l3,
            failure,
            communication_fail,
            over_current_n,
        })
    }
}

/// Unit-checked raw magnitudes of the input module's live measurements; each field holds the decimal text read under the named label, with its unit validated.  Turning the texts into numbers is the caller's.
#[derive(Clone, Debug, PartialEq)]
pub struct PDUStatusRaw {
    /// Accumulated energy in kWh.
    pub accumulated_energy: String,
    /// Input power in W.
    pub input_power: String,
    /// Voltage L1-N in V AC.
    pub voltage_l1_n: String,
    /// Voltage L2-N in V AC.
    pub voltage_l2_n: String,
    /// Voltage L3-N in V AC.
    pub voltage_l3_n: String,
    /// Current L1 in A AC.
    pub current_l1: String,
    /// Current L2 in A AC.
    pub current_l2: String,
    /// Current L3 in A AC.
    pub current_l3: String,
    /// Neutral current in A AC.
    pub current_n: String,
    /// Current available before alarm on L1 in A AC.
    pub current_available_to_alarm_l1: String,
    /// Current available before alarm on L2 in A AC.
    pub current_available_to_alarm_l2: String,
    /// Current available before alarm on L3 in A AC.
    pub current_available_to_alarm_l3: String,
    /// Line utilization L1 in percent.
    pub current_utilization_l1: String,
    /// Line utilization L2 in percent.
    pub current_utilization_l2: String,
    /// Line utilization L3 in percent.
    pub current_utilization_l3: String,
    /// Line frequency in Hz.
    pub line_frequency: String,
}

/// Mathematical image of a `PDUStatusRaw`.
#[verifier::ext_equal]
pub struct PDUStatusRawView {
    /// Accumulated energy in kWh.
    pub accumulated_energy: Seq<char>,
    /// Input power in W.
    pub input_power: Seq<char>,
    /// Voltage L1-N in V AC.
    pub voltage_l1_n: Seq<char>,
    /// Voltage L2-N in V AC.
    pub voltage_l2_n: Seq<char>,
    /// Voltage L3-N in V AC.
    pub voltage_l3_n: Seq<char>,
    /// Current L1 in A AC.
    pub current_l1: Seq<char>,
    /// Current L2 in A AC.
    pub current_l2: Seq<char>,
    /// Current L3 in A AC.
    pub current_l3: Seq<char>,
    /// Neutral current in A AC.
    pub current_n: Seq<char>,
    /// Current available before alarm on L1 in A AC.
    pub current_available_to_alarm_l1: Seq<char>,
    /// Current available before alarm on L2 in A AC.
    pub current_available_to_alarm_l2: Seq<char>,
    /// Current available before alarm on L3 in A AC.
    pub current_available_to_alarm_l3: Seq<char>,
    /// Line utilization L1 in percent.
    pub current_utilization_l1: Seq<char>,
    /// Line utilization L2 in percent.
    pub current_utilization_l2: Seq<char>,
    /// Line utilization L3 in percent.
    pub current_utilization_l3: Seq<char>,
    /// Line frequency in Hz.
    pub line_frequency: Seq<char>,
}

impl View for PDUStatusRaw {
    type V = PDUStatusRawView;

    open spec fn view(&self) -> PDUStatusRawView {
        PDUStatusRawView {
            accumulated_energy: self.accumulated_energy@,
            input_power: self.input_power@,
            voltage_l1_n: self.voltage_l1_n@,
            voltage_l2_n: self.voltage_l2_n@,
            voltage_l3_n: self.voltage_l3_n@,
            current_l1: self.current_l1@,
            current_l2: self.current_l2@,
            current_l3: self.current_l3@,
            current_n: self.current_n@,
            current_available_to_alarm_l1: self.current_available_to_alarm_l1@,
            current_available_to_alarm_l2: self.current_available_to_alarm_l2@,
            current_available_to_alarm_l3: self.current_available_to_alarm_l3@,
            current_utilization_l1: self.current_utilization_l1@,
            current_utilization_l2: self.current_utilization_l2@,
            current_utilization_l3: self.current_utilization_l3@,
            line_frequency: self.line_frequency@,
        }
    }
}

impl PDUStatusRaw {
    /// What building the record from the status table returns: each
    /// field read under its fixed label in a fixed order, the first
    /// failing field aborting the build.
    pub open spec fn spec_from_table(m: TableMap) -> Result<PDUStatusRawView, ErrorView> {
        match field_magnitude(m, "PDU Accumulated Energy"@, "kWH"@) {
            Err(e) => Err(e),
            Ok(accumulated_energy) =>
            match field_magnitude(m, "PDU Total Input Power"@, "W"@) {
                Err(e) => Err(e),
                Ok(input_power) =>
                match field_magnitude(m, "PDU Voltage L1-N"@, "VAC"@) {
                    Err(e) => Err(e),
                    Ok(voltage_l1_n) =>
                    match field_magnitude(m, "PDU Voltage L2-N"@, "VAC"@) {
                        Err(e) => Err(e),
                        Ok(voltage_l2_n) =>
                        match field_magnitude(m, "PDU Voltage L3-N"@, "VAC"@) {
                            Err(e) => Err(e),
                            Ok(voltage_l3_n) =>
                            match field_magnitude(m, "PDU Current L1"@, "A AC"@) {
                                Err(e) => Err(e),
                                Ok(current_l1) =>
                                match field_magnitude(m, "PDU Current L2"@, "A AC"@) {
                                    Err(e) => Err(e),
                                    Ok(current_l2) =>
                                    match field_magnitude(m, "PDU Current L3"@, "A AC"@) {
                                        Err(e) => Err(e),
                                        Ok(current_l3) =>
                                        match field_magnitude(m, "PDU Neutral Current Measurement"@, "A AC"@) {
                                            Err(e) => Err(e),
                                            Ok(current_n) =>
                                            match field_magnitude(m, "PDU Available L1 Current Until Alarm"@, "A AC"@) {
                                                Err(e) => Err(e),
                                                Ok(current_available_to_alarm_l1) =>
                                                match field_magnitude(m, "PDU Available L2 Current Until Alarm"@, "A AC"@) {
                                                    Err(e) => Err(e),
                                                    Ok(current_available_to_alarm_l2) =>
                                                    match field_magnitude(m, "PDU Available L3 Current Until Alarm"@, "A AC"@) {
                                                        Err(e) => Err(e),
                                                        Ok(current_available_to_alarm_l3) =>
                                                        match field_magnitude(m, "PDU Percent L1 Current Utilization"@, "%"@) {
                                                            Err(e) => Err(e),
                                                            Ok(current_utilization_l1) =>
                                                            match field_magnitude(m, "PDU Percent L2 Current Utilization"@, "%"@) {
                                                                Err(e) => Err(e),
                                                                Ok(current_utilization_l2) =>
                                                                match field_magnitude(m, "PDU Percent L3 Current Utilization"@, "%"@) {
                                                                    Err(e) => Err(e),
                                                                    Ok(current_utilization_l3) =>
                                                                    match field_magnitude(m, "PEM Line Frequency"@, "Hz"@) {
                                                                        Err(e) => Err(e),
                                                                        Ok(line_frequency) =>
                                                                        Ok(PDUStatusRawView {
                                                                            accumulated_energy,
                                                                            input_power,
                                                                            voltage_l1_n,
                                                                            voltage_l2_n,
                                                                            voltage_l3_n,
                                                                            current_l1,
                                                                            current_l2,
                                                                            current_l3,
                                                                            current_n,
                                                                            current_available_to_alarm_l1,
                                                                            current_available_to_alarm_l2,
                                                                            current_available_to_alarm_l3,
                                                                            current_utilization_l1,
                                                                            current_utilization_l2,
                                                                            current_utilization_l3,
                                                                            line_frequency,
                                                                        }),
                                                                    },
                                                                },
                                                            },
                                                        },
                                                    },
                                                },
                                            },
                                        },
                                    },
                                },
                            },
                        },
                    },
                },
            },
        }
    }

    /// Builds the record, failing on the first missing or malformed
    /// field; no partial record is ever returned.
    pub fn from_table(table: &RawTable) -> (r: Result<PDUStatusRaw, MPXError>)
        ensures
            match r {
                Ok(rec) => Self::spec_from_table(table@) == Ok::<PDUStatusRawView, ErrorView>(rec@),
                Err(e) => Self::spec_from_table(table@) == Err::<PDUStatusRawView, ErrorView>(e@),
            },
    {
        let accumulated_energy = match tbl_magnitude(table, "PDU Accumulated Energy", "kWH") {
            Ok(v) => v,
            Err(e) => {
                return Err(e);
            },
        };
        let input_power = match tbl_magnitude(table, "PDU Total Input Power", "W") {
            Ok(v) => v,
            Err(e) => {
                return Err(e);
            },
        };
        let voltage_l1_n = match tbl_magnitude(table, "PDU Voltage L1-N", "VAC") {
            Ok(v) => v,
            Err(e) => {
                return Err(e);
            },
        };
        let voltage_l2_n = match tbl_magnitude(table, "PDU Voltage L2-N", "VAC") {
            Ok(v) => v,
            Err(e) => {
                return Err(e);
            },
        };
        let voltage_l3_n = match tbl_magnitude(table, "PDU Voltage L3-N", "VAC") {
            Ok(v) => v,
            Err(e) => {
                return Err(e);
            },
        };
        let current_l1 = match tbl_magnitude(table, "PDU Current L1", "A AC") {
            Ok(v) => v,
            Err(e) => {
                return Err(e);
            },
        };
        let current_l2 = match tbl_magnitude(table, "PDU Current L2", "A AC") {
            Ok(v) => v,
            Err(e) => {
                return Err(e);
            },
        };
        let current_l3 = match tbl_magnitude(table, "PDU Current L3", "A AC") {
            Ok(v) => v,
            Err(e) => {
                return Err(e);
            },
        };
        let current_n = match tbl_magnitude(table, "PDU Neutral Current Measurement", "A AC") {
            Ok(v) => v,
            Err(e) => {
                return Err(e);
            },
        };
        let current_available_to_alarm_l1 = match tbl_magnitude(table, "PDU Available L1 Current Until Alarm", "A AC") {
            Ok(v) => v,
            Err(e) => {
                return Err(e);
            },
        };
        let current_available_to_alarm_l2 = match tbl_magnitude(table, "PDU Available L2 Current Until Alarm", "A AC") {
            Ok(v) => v,
            Err(e) => {
                return Err(e);
            },
        };
        let current_available_to_alarm_l3 = match tbl_magnitude(table, "PDU Available L3 Current Until Alarm", "A AC") {
            Ok(v) => v,
            Err(e) => {
                return Err(e);
            },
        };
        let current_utilization_l1 = match tbl_magnitude(table, "PDU Percent L1 Current Utilization", "%") {
            Ok(v) => v,
            Err(e) => {
                return Err(e);
            },
        };
        let current_utilization_l2 = match tbl_magnitude(table, "PDU Percent L2 Current Utilization", "%") {
            Ok(v) => v,
            Err(e) => {
                return Err(e);
            },
        };
        let current_utilization_l3 = match tbl_magnitude(table, "PDU Percent L3 Current Utilization", "%") {
            Ok(v) => v,
            Err(e) => {
                return Err(e);
            },
        };
        let line_frequency = match tbl_magnitude(table, "PEM Line Frequency", "Hz") {
            Ok(v) => v,
            Err(e) => {
                return Err(e);
            },
        };
        Ok(PDUStatusRaw {
            accumulated_energy,
            input_power,
            voltage_l1_n,
            voltage_l2_n,
            voltage_l3_n,
            current_l1,
            current_l2,
            current_l3,
            current_n,
            current_available_to_alarm_l1,
            current_available_to_alarm_l2,
            current_available_to_alarm_l3,
            current_utilization_l1,
            current_utilization_l2,
            current_utilization_l3,
            line_frequency,
        })
    }
}

/// The full extraction of one input module page: all four sub-records, each
/// built from its own table; the build fails unless every sub-build
/// succeeds, in the order status, alarms, settings, hardware.
#[derive(Clone, Debug, PartialEq)]
pub struct PDUInfoRaw {
    /// The unit-checked raw magnitudes of the live measurements.
    pub status: PDUStatusRaw,
    /// The per-condition alarm states.
    pub events: PDUEvents,
    /// The settings.
    pub settings: PDUSettings,
    /// The hardware description.
    pub hardware: PDUHardware,
}

/// Mathematical image of a `PDUInfoRaw`.
#[verifier::ext_equal]
pub struct PDUInfoRawView {
    /// The image of the raw measurements.
    pub status: PDUStatusRawView,
    /// The alarm states.
    pub events: PDUEvents,
    /// The image of the settings.
    pub settings: PDUSettingsView,
    /// The image of the hardware description.
    pub hardware: PDUHardwareView,
}

impl View for PDUInfoRaw {
    type V = PDUInfoRawView;

    open spec fn view(&self) -> PDUInfoRawView {
        PDUInfoRawView {
            status: self.status@,
            events: self.events@,
            settings: self.settings@,
            hardware: self.hardware@,
        }
    }
}

impl PDUInfoRaw {
    /// What composing the four sub-records returns: every sub-build must
    /// succeed, the first failure aborting the composition.
    pub open spec fn spec_from_tables(t: crate::table::InfoTablesView) -> Result<
        PDUInfoRawView,
        ErrorView,
    > {
        match PDUStatusRaw::spec_from_table(t.status) {
            Err(e) => Err(e),
            Ok(status) => match PDUEvents::spec_from_table(t.events) {
                Err(e) => Err(e),
                Ok(events) => match PDUSettings::spec_from_table(t.settings) {
                    Err(e) => Err(e),
                    Ok(settings) => match PDUHardware::spec_from_table(t.hardware) {
                        Err(e) => Err(e),
                        Ok(hardware) => Ok(PDUInfoRawView { status, events, settings, hardware }),
                    },
                },
            },
        }
    }

    /// Builds the full record from the four extracted tables; no partial
    /// record is ever returned.
    pub fn from_tables(tables: &crate::table::InfoTables) -> (r: Result<PDUInfoRaw, MPXError>)
        ensures
            match r {
                Ok(rec) => Self::spec_from_tables(tables@) == Ok::<PDUInfoRawView, ErrorView>(rec@),
                Err(e) => Self::spec_from_tables(tables@) == Err::<PDUInfoRawView, ErrorView>(e@),
            },
    {
        let status = match PDUStatusRaw::from_table(&tables.status) {
            Ok(v) => v,
            Err(e) => {
                return Err(e);
            },
        };
        let events = match PDUEvents::from_table(&tables.events) {
            Ok(v) => v,
            Err(e) => {
                return Err(e);
            },
        };
        let settings = match PDUSettings::from_table(&tables.settings) {
            Ok(v) => v,
            Err(e) => {
                return Err(e);
            },
        };
        let hardware = match PDUHardware::from_table(&tables.hardware) {
            Ok(v) => v,
            Err(e) => {
                return Err(e);
            },
        };
        Ok(PDUInfoRaw { status, events, settings, hardware })
    }
}

} // verus!
