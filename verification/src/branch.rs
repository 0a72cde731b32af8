//! The typed records of a branch module (BRM): settings, hardware
//! description, per-condition alarm states, and the unit-checked raw
//! magnitudes of the live-measurements table.

use vstd::prelude::*;

use crate::enums::BRMModel;
use crate::enums::Capability;
use crate::enums::EventLevel;
use crate::enums::LineSource;
use crate::enums::ReceptacleType;
use crate::error::ErrorView;
use crate::error::MPXError;
use crate::fields::field_brm_model;
use crate::fields::field_capability;
use crate::fields::field_event_level;
use crate::fields::field_fw_version;
use crate::fields::field_line_source;
use crate::fields::field_magnitude;
use crate::fields::field_receptacle_type;
use crate::fields::field_str;
use crate::fields::field_tag;
use crate::fields::field_u32;
use crate::fields::tbl_brm_model;
use crate::fields::tbl_capability;
use crate::fields::tbl_event_level;
use crate::fields::tbl_fw_version;
use crate::fields::tbl_line_source;
use crate::fields::tbl_magnitude;
use crate::fields::tbl_receptacle_type;
use crate::fields::tbl_str;
use crate::fields::tbl_tag;
use crate::fields::tbl_u32;
use crate::table::RawTable;
use crate::table::TableMap;
use crate::version::FWVersion;

verus! {

/// Settings of a branch module.
#[derive(Clone, Debug, PartialEq)]
pub struct BranchSettings {
    /// User-assigned label.
    pub label: String,
    /// First asset tag.
    pub asset_tag_1: String,
    /// Second asset tag.
    pub asset_tag_2: String,
    /// Over-current alarm threshold in percent.
    pub over_current_alarm_threshold: u32,
    /// Over-current warning threshold in percent.
    pub over_current_warning_threshold: u32,
    /// Low-current alarm threshold in percent.
    pub low_current_alarm_threshold: u32,
}

/// Mathematical image of a `BranchSettings`.
#[verifier::ext_equal]
pub struct BranchSettingsView {
    /// User-assigned label.
    pub label: Seq<char>,
    /// First asset tag.
    pub asset_tag_1: Seq<char>,
    /// Second asset tag.
    pub asset_tag_2: Seq<char>,
    /// Over-current alarm threshold in percent.
    pub over_current_alarm_threshold: u32,
    /// Over-current warning threshold in percent.
    pub over_current_warning_threshold: u32,
    /// Low-current alarm threshold in percent.
    pub low_current_alarm_threshold: u32,
}

impl View for BranchSettings {
    type V = BranchSettingsView;

    open spec fn view(&self) -> BranchSettingsView {
        BranchSettingsView {
            label: self.label@,
            asset_tag_1: self.asset_tag_1@,
            asset_tag_2: self.asset_tag_2@,
            over_current_alarm_threshold: self.over_current_alarm_threshold,
            over_current_warning_threshold: self.over_current_warning_threshold,
            low_current_alarm_threshold: self.low_current_alarm_threshold,
        }
    }
}

impl BranchSettings {
    /// What building the record from the settings table returns: each
    /// field read under its fixed label in a fixed order, the first
    /// failing field aborting the build.
    pub open spec fn spec_from_table(m: TableMap) -> Result<BranchSettingsView, ErrorView> {
        match field_str(m, "Branch User Assigned Label"@) {
            Err(e) => Err(e),
            Ok(label) =>
            match field_tag(m, "Branch Asset Tag 01"@) {
                Err(e) => Err(e),
                Ok(asset_tag_1) =>
                match field_tag(m, "Branch Asset Tag 02"@) {
                    Err(e) => Err(e),
                    Ok(asset_tag_2) =>
                    match field_u32(m, "Over Current Alarm Threshold"@, "%"@) {
                        Err(e) => Err(e),
                        Ok(over_current_alarm_threshold) =>
                        match field_u32(m, "Over Current Warning Threshold"@, "%"@) {
                            Err(e) => Err(e),
                            Ok(over_current_warning_threshold) =>
                            match field_u32(m, "Low Current Alarm Threshold"@, "%"@) {
                                Err(e) => Err(e),
                                Ok(low_current_alarm_threshold) =>
                                Ok(BranchSettingsView {
                                    label,
                                    asset_tag_1,
                                    asset_tag_2,
                                    over_current_alarm_threshold,
                                    over_current_warning_threshold,
                                    low_current_alarm_threshold,
                                }),
                            },
                        },
                    },
                },
            },
        }
    }

    /// Builds the record, failing on the first missing or malformed
    /// field; no partial record is ever returned.
    pub fn from_table(table: &RawTable) -> (r: Result<BranchSettings, MPXError>)
        ensures
            match r {
                Ok(rec) => Self::spec_from_table(table@) == Ok::<BranchSettingsView, ErrorView>(rec@),
                Err(e) => Self::spec_from_table(table@) == Err::<BranchSettingsView, ErrorView>(e@),
            },
    {
        let label = match tbl_str(table, "Branch User Assigned Label") {
            Ok(v) => v,
            Err(e) => {
                return Err(e);
            },
        };
        let asset_tag_1 = match tbl_tag(table, "Branch Asset Tag 01") {
            Ok(v) => v,
            Err(e) => {
                return Err(e);
            },
        };
        let asset_tag_2 = match tbl_tag(table, "Branch Asset Tag 02") {
            Ok(v) => v,
            Err(e) => {
                return Err(e);
            },
        };
        let over_current_alarm_threshold = match tbl_u32(table, "Over Current Alarm Threshold", "%") {
            Ok(v) => v,
            Err(e) => {
                return Err(e);
            },
        };
        let over_current_warning_threshold = match tbl_u32(table, "Over Current Warning Threshold", "%") {
            Ok(v) => v,
            Err(e) => {
                return Err(e);
            },
        };
        let low_current_alarm_threshold = match tbl_u32(table, "Low Current Alarm Threshold", "%") {
            Ok(v) => v,
            Err(e) => {
                return Err(e);
            },
        };
        Ok(BranchSettings {
            label,
            asset_tag_1,
            asset_tag_2,
            over_current_alarm_threshold,
            over_current_warning_threshold,
            low_current_alarm_threshold,
        })
    }
}

/// Hardware description of a branch module.
#[derive(Clone, Debug, PartialEq)]
pub struct BranchHardware {
    /// Branch-module model.
    pub brm_model: BRMModel,
    /// Firmware version.
    pub fw_version: FWVersion,
    /// Serial number.
    pub serial_number: String,
    /// Receptacle type of this branch.
    pub receptacle_type: ReceptacleType,
    /// Measurement and control capabilities.
    pub capabilities: Capability,
    /// Supply line.
    pub line_source: LineSource,
    /// Rated line voltage in V AC.
    pub rated_line_voltage: u32,
    /// Rated line current in A AC.
    pub rated_line_current: u32,
    /// Rated line frequency in Hz.
    pub rated_line_frequency: u32,
}

/// Mathematical image of a `BranchHardware`.
#[verifier::ext_equal]
pub struct BranchHardwareView {
    /// Branch-module model.
    pub brm_model: BRMModel,
    /// Firmware version.
    pub fw_version: FWVersion,
    /// Serial number.
    pub serial_number: Seq<char>,
    /// Receptacle type of this branch.
    pub receptacle_type: ReceptacleType,
    /// Measurement and control capabilities.
    pub capabilities: Capability,
    /// Supply line.
    pub line_source: LineSource,
    /// Rated line voltage in V AC.
    pub rated_line_voltage: u32,
    /// Rated line current in A AC.
    pub rated_line_current: u32,
    /// Rated line frequency in Hz.
    pub rated_line_frequency: u32,
}

impl View for BranchHardware {
    type V = BranchHardwareView;

    open spec fn view(&self) -> BranchHardwareView {
        BranchHardwareView {
            brm_model: self.brm_model,
            fw_version: self.fw_version,
            serial_number: self.serial_number@,
            receptacle_type: self.receptacle_type,
            capabilities: self.capabilities,
            line_source: self.line_source,
            rated_line_voltage: self.rated_line_voltage,
            rated_line_current: self.rated_line_current,
            rated_line_frequency: self.rated_line_frequency,
        }
    }
}

impl BranchHardware {
    /// What building the record from the hardware table returns: each
    /// field read under its fixed label in a fixed order, the first
    /// failing field aborting the build.
    pub open spec fn spec_from_table(m: TableMap) -> Result<BranchHardwareView, ErrorView> {
        match field_brm_model(m, "BRM Model"@) {
            Err(e) => Err(e),
            Ok(brm_model) =>
            match field_receptacle_type(m, "Branch Receptacle Type"@) {
                Err(e) => Err(e),
                Ok(receptacle_type) =>
                match field_capability(m, "Branch Capabilities"@) {
                    Err(e) => Err(e),
                    Ok(capabilities) =>
                    match field_line_source(m, "Branch Line Source"@) {
                        Err(e) => Err(e),
                        Ok(line_source) =>
                        match field_u32(m, "Branch Rated Line Voltage"@, "VAC"@) {
                            Err(e) => Err(e),
                            Ok(rated_line_voltage) =>
                            match field_u32(m, "Branch Rated Line Current"@, "A AC"@) {
                                Err(e) => Err(e),
                                Ok(rated_line_current) =>
                                match field_u32(m, "Branch Rated Line Frequency"@, "Hz"@) {
                                    Err(e) => Err(e),
                                    Ok(rated_line_frequency) =>
                                    match field_fw_version(m, "Firmware Version"@) {
                                        Err(e) => Err(e),
                                        Ok(fw_version) =>
                                        match field_str(m, "Branch Serial Number"@) {
                                            Err(e) => Err(e),
                                            Ok(serial_number) =>
                                            Ok(BranchHardwareView {
                                                brm_model,
                                                fw_version,
                                                serial_number,
                                                receptacle_type,
                                                capabilities,
                                                line_source,
                                                rated_line_voltage,
                                                rated_line_current,
                                                rated_line_frequency,
                                            }),
                                        },
                                    },
                                },
                            },
                        },
                    },
                },
            },
        }
    }

    /// Builds the record, failing on the first missing or malformed
    /// field; no partial record is ever returned.
    pub fn from_table(table: &RawTable) -> (r: Result<BranchHardware, MPXError>)
        ensures
            match r {
                Ok(rec) => Self::spec_from_table(table@) == Ok::<BranchHardwareView, ErrorView>(rec@),
                Err(e) => Self::spec_from_table(table@) == Err::<BranchHardwareView, ErrorView>(e@),
            },
    {
        let brm_model = match tbl_brm_model(table, "BRM Model") {
            Ok(v) => v,
            Err(e) => {
                return Err(e);
            },
        };
        let receptacle_type = match tbl_receptacle_type(table, "Branch Receptacle Type") {
            Ok(v) => v,
            Err(e) => {
                return Err(e);
            },
        };
        let capabilities = match tbl_capability(table, "Branch Capabilities") {
            Ok(v) => v,
            Err(e) => {
                return Err(e);
            },
        };
        let line_source = match tbl_line_source(table, "Branch Line Source") {
            Ok(v) => v,
            Err(e) => {
                return Err(e);
            },
        };
        let rated_line_voltage = match tbl_u32(table, "Branch Rated Line Voltage", "VAC") {
            Ok(v) => v,
            Err(e) => {
                return Err(e);
            },
        };
        let rated_line_current = match tbl_u32(table, "Branch Rated Line Current", "A AC") {
            Ok(v) => v,
            Err(e) => {
                return Err(e);
            },
        };
        let rated_line_frequency = match tbl_u32(table, "Branch Rated Line Frequency", "Hz") {
            Ok(v) => v,
            Err(e) => {
                return Err(e);
            },
        };
        let fw_version = match tbl_fw_version(table, "Firmware Version") {
            Ok(v) => v,
            Err(e) => {
                return Err(e);
            },
        };
        let serial_number = match tbl_str(table, "Branch Serial Number") {
            Ok(v) => v,
            Err(e) => {
                return Err(e);
            },
        };
        Ok(BranchHardware {
            brm_model,
            fw_version,
            serial_number,
            receptacle_type,
            capabilities,
            line_source,
            rated_line_voltage,
            rated_line_current,
            rated_line_frequency,
        })
    }
}

/// Per-condition alarm states of a branch module.
#[derive(Copy, Clone, Debug, PartialEq, Eq, Structural)]
pub struct BranchEvents {
    /// Low voltage.
    pub low_voltage: EventLevel,
    /// Over-current.
    pub over_current: EventLevel,
    /// Low current.
    pub low_current: EventLevel,
    /// Failure of the module.
    pub failure: EventLevel,
    /// Open breaker.
    pub breaker_open: EventLevel,
}

impl View for BranchEvents {
    type V = BranchEvents;

    open spec fn view(&self) -> BranchEvents {
        *self
    }
}

impl BranchEvents {
    /// What building the record from the events table returns: each
    /// field read under its fixed label in a fixed order, the first
    /// failing field aborting the build.
    pub open spec fn spec_from_table(m: TableMap) -> Result<BranchEvents, ErrorView> {
        match field_event_level(m, "Branch Low Voltage (LN)"@) {
            Err(e) => Err(e),
            Ok(low_voltage) =>
            match field_event_level(m, "Branch Over Current"@) {
                Err(e) => Err(e),
                Ok(over_current) =>
                match field_event_level(m, "Branch Low Current"@) {
                    Err(e) => Err(e),
                    Ok(low_current) =>
                    match field_event_level(m, "Branch Failure"@) {
                        Err(e) => Err(e),
                        Ok(failure) =>
                        match field_event_level(m, "Branch Breaker Open"@) {
                            Err(e) => Err(e),
                            Ok(breaker_open) =>
                            Ok(BranchEvents {
                                low_voltage,
                                over_current,
                                low_current,
                                failure,
                                breaker_open,
                            }),
                        },
                    },
                },
            },
        }
    }

    /// Builds the record, failing on the first missing or malformed
    /// field; no partial record is ever returned.
    pub fn from_table(table: &RawTable) -> (r: Result<BranchEvents, MPXError>)
        ensures
            match r {
                Ok(rec) => Self::spec_from_table(table@) == Ok::<BranchEvents, ErrorView>(rec@),
                Err(e) => Self::spec_from_table(table@) == Err::<BranchEvents, ErrorView>(e@),
            },
    {
        let low_voltage = match tbl_event_level(table, "Branch Low Voltage (LN)") {
            Ok(v) => v,
            Err(e) => {
                return Err(e);
            },
        };
        let over_current = match tbl_event_level(table, "Branch Over Current") {
            Ok(v) => v,
            Err(e) => {
                return Err(e);
            },
        };
        let low_current = match tbl_event_level(table, "Branch Low Current") {
            Ok(v) => v,
            Err(e) => {
                return Err(e);
            },
        };
        let failure = match tbl_event_level(table, "Branch Failure") {
            Ok(v) => v,
            Err(e) => {
                return Err(e);
            },
        };
        let breaker_open = match tbl_event_level(table, "Branch Breaker Open") {
            Ok(v) => v,
            Err(e) => {
                return Err(e);
            },
        };
        Ok(BranchEvents {
            low_voltage,
            over_current,
            low_current,
            failure,
            breaker_open,
        })
    }
}

/// Unit-checked raw magnitudes of a branch module's live measurements; each field holds the decimal text read under the named label, with its unit validated.
#[derive(Clone, Debug, PartialEq)]
pub struct BranchStatusRaw {
    /// Accumulated energy in kWh.
    pub accumulated_energy: String,
    /// Voltage in V AC.
    pub voltage: String,
    /// Current in A AC.
    pub current: String,
    /// Current available before alarm in A AC.
    pub current_available_to_alarm: String,
    /// Line utilization in percent.
    pub current_utilization: String,
    /// Power in W.
    pub power: String,
    /// Apparent power in VA.
    pub apparent_power: String,
    /// Power factor (unitless).
    pub power_factor: String,
}

/// Mathematical image of a `BranchStatusRaw`.
#[verifier::ext_equal]
pub struct BranchStatusRawView {
    /// Accumulated energy in kWh.
    pub accumulated_energy: Seq<char>,
    /// Voltage in V AC.
    pub voltage: Seq<char>,
    /// Current in A AC.
    pub current: Seq<char>,
    /// Current available before alarm in A AC.
    pub current_available_to_alarm: Seq<char>,
    /// Line utilization in percent.
    pub current_utilization: Seq<char>,
    /// Power in W.
    pub power: Seq<char>,
    /// Apparent power in VA.
    pub apparent_power: Seq<char>,
    /// Power factor (unitless).
    pub power_factor: Seq<char>,
}

impl View for BranchStatusRaw {
    type V = BranchStatusRawView;

    open spec fn view(&self) -> BranchStatusRawView {
        BranchStatusRawView {
            accumulated_energy: self.accumulated_energy@,
            voltage: self.voltage@,
            current: self.current@,
            current_available_to_alarm: self.current_available_to_alarm@,
            current_utilization: self.current_utilization@,
            power: self.power@,
            apparent_power: self.apparent_power@,
            power_factor: self.power_factor@,
        }
    }
}

impl BranchStatusRaw {
    /// What building the record from the status table returns: each
    /// field read under its fixed label in a fixed order, the first
    /// failing field aborting the build.
    pub open spec fn spec_from_table(m: TableMap) -> Result<BranchStatusRawView, ErrorView> {
        match field_magnitude(m, "Branch Accumulated Energy"@, "kWH"@) {
            Err(e) => Err(e),
            Ok(accumulated_energy) =>
            match field_magnitude(m, "Branch Voltage"@, "VAC"@) {
                Err(e) => Err(e),
                Ok(voltage) =>
                match field_magnitude(m, "Branch Current"@, "A AC"@) {
                    Err(e) => Err(e),
                    Ok(current) =>
                    match field_magnitude(m, "Branch Available Current Until Alarm"@, "A AC"@) {
                        Err(e) => Err(e),
                        Ok(current_available_to_alarm) =>
                        match field_magnitude(m, "Branch Percent Current Utilization"@, "%"@) {
                            Err(e) => Err(e),
                            Ok(current_utilization) =>
                            match field_magnitude(m, "Branch Power"@, "W"@) {
                                Err(e) => Err(e),
                                Ok(power) =>
                                match field_magnitude(m, "Branch Apparent Power"@, "VA"@) {
                                    Err(e) => Err(e),
                                    Ok(apparent_power) =>
                                    match field_magnitude(m, "Branch Power Factor"@, "&nbsp;"@) {
                                        Err(e) => Err(e),
                                        Ok(power_factor) =>
                                        Ok(BranchStatusRawView {
                                            accumulated_energy,
                                            voltage,
                                            current,
                                            current_available_to_alarm,
                                            current_utilization,
                                            power,
                                            apparent_power,
                                            power_factor,
                                        }),
                                    },
                                },
                            },
                        },
                    },
                },
            },
        }
    }

    /// Builds the record, failing on the first missing or malformed
    /// field; no partial record is ever returned.
    pub fn from_table(table: &RawTable) -> (r: Result<BranchStatusRaw, MPXError>)
        ensures
            match r {
                Ok(rec) => Self::spec_from_table(table@) == Ok::<BranchStatusRawView, ErrorView>(rec@),
                Err(e) => Self::spec_from_table(table@) == Err::<BranchStatusRawView, ErrorView>(e@),
            },
    {
        let accumulated_energy = match tbl_magnitude(table, "Branch Accumulated Energy", "kWH") {
            Ok(v) => v,
            Err(e) => {
                return Err(e);
            },
        };
        let voltage = match tbl_magnitude(table, "Branch Voltage", "VAC") {
            Ok(v) => v,
            Err(e) => {
                return Err(e);
            },
        };
        let current = match tbl_magnitude(table, "Branch Current", "A AC") {
            Ok(v) => v,
            Err(e) => {
                return Err(e);
            },
        };
        let current_available_to_alarm = match tbl_magnitude(table, "Branch Available Current Until Alarm", "A AC") {
            Ok(v) => v,
            Err(e) => {
                return Err(e);
            },
        };
        let current_utilization = match tbl_magnitude(table, "Branch Percent Current Utilization", "%") {
            Ok(v) => v,
            Err(e) => {
                return Err(e);
            },
        };
        let power = match tbl_magnitude(table, "Branch Power", "W") {
            Ok(v) => v,
            Err(e) => {
                return Err(e);
            },
        };
        let apparent_power = match tbl_magnitude(table, "Branch Apparent Power", "VA") {
            Ok(v) => v,
            Err(e) => {
                return Err(e);
            },
        };
        let power_factor = match tbl_magnitude(table, "Branch Power Factor", "&nbsp;") {
            Ok(v) => v,
            Err(e) => {
                return Err(e);
            },
        };
        Ok(BranchStatusRaw {
            accumulated_energy,
            voltage,
            current,
            current_available_to_alarm,
            current_utilization,
            power,
            apparent_power,
            power_factor,
        })
    }
}

/// The full extraction of one branch module page: all four sub-records, each
/// built from its own table; the build fails unless every sub-build
/// succeeds, in the order status, alarms, settings, hardware.
#[derive(Clone, Debug, PartialEq)]
pub struct BranchInfoRaw {
    /// The unit-checked raw magnitudes of the live measurements.
    pub status: BranchStatusRaw,
    /// The per-condition alarm states.
    pub events: BranchEvents,
    /// The settings.
    pub settings: BranchSettings,
    /// The hardware description.
    pub hardware: BranchHardware,
}

/// Mathematical image of a `BranchInfoRaw`.
#[verifier::ext_equal]
pub struct BranchInfoRawView {
    /// The image of the raw measurements.
    pub status: BranchStatusRawView,
    /// The alarm states.
    pub events: BranchEvents,
    /// The image of the settings.
    pub settings: BranchSettingsView,
    /// The image of the hardware description.
    pub hardware: BranchHardwareView,
}

impl View for BranchInfoRaw {
    type V = BranchInfoRawView;

    open spec fn view(&self) -> BranchInfoRawView {
        BranchInfoRawView {
            status: self.status@,
            events: self.events@,
            settings: self.settings@,
            hardware: self.hardware@,
        }
    }
}

impl BranchInfoRaw {
    /// What composing the four sub-records returns: every sub-build must
    /// succeed, the first failure aborting the composition.
    pub open spec fn spec_from_tables(t: crate::table::InfoTablesView) -> Result<
        BranchInfoRawView,
        ErrorView,
    > {
        match BranchStatusRaw::spec_from_table(t.status) {
            Err(e) => Err(e),
            Ok(status) => match BranchEvents::spec_from_table(t.events) {
                Err(e) => Err(e),
                Ok(events) => match BranchSettings::spec_from_table(t.settings) {
                    Err(e) => Err(e),
                    Ok(settings) => match BranchHardware::spec_from_table(t.hardware) {
                        Err(e) => Err(e),
                        Ok(hardware) => Ok(BranchInfoRawView { status, events, settings, hardware }),
                    },
                },
            },
        }
    }

    /// Builds the full record from the four extracted tables; no partial
    /// record is ever returned.
    pub fn from_tables(tables: &crate::table::InfoTables) -> (r: Result<BranchInfoRaw, MPXError>)
        ensures
            match r {
                Ok(rec) => Self::spec_from_tables(tables@) == Ok::<BranchInfoRawView, ErrorView>(rec@),
                Err(e) => Self::spec_from_tables(tables@) == Err::<BranchInfoRawView, ErrorView>(e@),
            },
    {
        let status = match BranchStatusRaw::from_table(&tables.status) {
            Ok(v) => v,
            Err(e) => {
                return Err(e);
            },
        };
        let events = match BranchEvents::from_table(&tables.events) {
            Ok(v) => v,
            Err(e) => {
                return Err(e);
            },
        };
        let settings = match BranchSettings::from_table(&tables.settings) {
            Ok(v) => v,
            Err(e) => {
                return Err(e);
            },
        };
        let hardware = match BranchHardware::from_table(&tables.hardware) {
            Ok(v) => v,
            Err(e) => {
                return Err(e);
            },
        };
        Ok(BranchInfoRaw { status, events, settings, hardware })
    }
}

} // verus!
