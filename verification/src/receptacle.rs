//! The typed records of one receptacle: settings, hardware description,
//! per-condition alarm states, and the unit-checked raw magnitudes of the
//! live-measurements table.

use vstd::prelude::*;

use crate::enums::Capability;
use crate::enums::EventLevel;
use crate::enums::LineSource;
use crate::enums::ReceptacleType;
use crate::error::ErrorView;
use crate::error::MPXError;
use crate::fields::field_capability;
use crate::fields::field_event_level;
use crate::fields::field_flag;
use crate::fields::field_line_source;
use crate::fields::field_magnitude;
use crate::fields::field_receptacle_type;
use crate::fields::field_str;
use crate::fields::field_tag;
use crate::fields::field_u32;
use crate::fields::tbl_capability;
use crate::fields::tbl_event_level;
use crate::fields::tbl_flag;
use crate::fields::tbl_line_source;
use crate::fields::tbl_magnitude;
use crate::fields::tbl_receptacle_type;
use crate::fields::tbl_str;
use crate::fields::tbl_tag;
use crate::fields::tbl_u32;
use crate::table::RawTable;
use crate::table::TableMap;

verus! {

/// Settings of one receptacle.
#[derive(Clone, Debug, PartialEq)]
pub struct ReceptacleSettings {
    /// User-assigned label.
    pub label: String,
    /// First asset tag.
    pub asset_tag_1: String,
    /// Second asset tag.
    pub asset_tag_2: String,
    /// Over-current alarm threshold in percent.
    pub over_current_alarm_threshold: u32,
    /// Over-current warning threshold in percent.
    pub over_current_warning_threshold: u32,
    /// Low-current alarm threshold in percent.
    pub low_current_alarm_threshold: u32,
    /// Current power state (true when on).
    pub power_state: bool,
    /// Requested power state (true when on).
    pub power_control: bool,
    /// Lock state (true when locked).
    pub control_lock_state: bool,
    /// Power-on delay in seconds.
    pub power_on_delay: u32,
}

/// Mathematical image of a `ReceptacleSettings`.
#[verifier::ext_equal]
pub struct ReceptacleSettingsView {
    /// User-assigned label.
    pub label: Seq<char>,
    /// First asset tag.
    pub asset_tag_1: Seq<char>,
    /// Second asset tag.
    pub asset_tag_2: Seq<char>,
    /// Over-current alarm threshold in percent.
    pub over_current_alarm_threshold: u32,
    /// Over-current warning threshold in percent.
    pub over_current_warning_threshold: u32,
    /// Low-current alarm threshold in percent.
    pub low_current_alarm_threshold: u32,
    /// Current power state (true when on).
    pub power_state: bool,
    /// Requested power state (true when on).
    pub power_control: bool,
    /// Lock state (true when locked).
    pub control_lock_state: bool,
    /// Power-on delay in seconds.
    pub power_on_delay: u32,
}

impl View for ReceptacleSettings {
    type V = ReceptacleSettingsView;

    open spec fn view(&self) -> ReceptacleSettingsView {
        ReceptacleSettingsView {
            label: self.label@,
            asset_tag_1: self.asset_tag_1@,
            asset_tag_2: self.asset_tag_2@,
            over_current_alarm_threshold: self.over_current_alarm_threshold,
            over_current_warning_threshold: self.over_current_warning_threshold,
            low_current_alarm_threshold: self.low_current_alarm_threshold,
            power_state: self.power_state,
            power_control: self.power_control,
            control_lock_state: self.control_lock_state,
            power_on_delay: self.power_on_delay,
        }
    }
}

impl ReceptacleSettings {
    /// What building the record from the settings table returns: each
    /// field read under its fixed label in a fixed order, the first
    /// failing field aborting the build.
    pub open spec fn spec_from_table(m: TableMap) -> Result<ReceptacleSettingsView, ErrorView> {
        match field_str(m, "Receptacle User Assigned Label"@) {
            Err(e) => Err(e),
            Ok(label) =>
            match field_tag(m, "Receptacle Asset Tag 01"@) {
                Err(e) => Err(e),
                Ok(asset_tag_1) =>
                match field_tag(m, "Receptacle Asset Tag 02"@) {
                    Err(e) => Err(e),
                    Ok(asset_tag_2) =>
                    match field_u32(m, "Over Current Alarm Threshold"@, "%"@) {
                        Err(e) => Err(e),
                        Ok(over_current_alarm_threshold) =>
                        match field_u32(m, "Over Current Warning Threshold"@, "%"@) {
                            Err(e) => Err(e),
                            Ok(over_current_warning_threshold) =>
                            match field_u32(m, "Low Current Alarm Threshold"@, "%"@) {
                                Err(e) => Err(e),
                                Ok(low_current_alarm_threshold) =>
                                match field_flag(m, "Receptacle Power State"@, "On"@) {
                                    Err(e) => Err(e),
                                    Ok(power_state) =>
                                    match field_flag(m, "Receptacle Power Control"@, "On"@) {
                                        Err(e) => Err(e),
                                        Ok(power_control) =>
                                        match field_flag(m, "Receptacle Control Lock State"@, "Locked"@) {
                                            Err(e) => Err(e),
                                            Ok(control_lock_state) =>
                                            match field_u32(m, "Receptacle Power On Delay"@, "sec"@) {
                                                Err(e) => Err(e),
                                                Ok(power_on_delay) =>
                                                Ok(ReceptacleSettingsView {
                                                    label,
                                                    asset_tag_1,
                                                    asset_tag_2,
                                                    over_current_alarm_threshold,
                                                    over_current_warning_threshold,
                                                    low_current_alarm_threshold,
                                                    power_state,
                                                    power_control,
                                                    control_lock_state,
                                                    power_on_delay,
                                                }),
                                            },
                                        },
                                    },
                                },
                            },
                        },
                    },
                },
            },
        }
    }

    /// Builds the record, failing on the first missing or malformed
    /// field; no partial record is ever returned.
    pub fn from_table(table: &RawTable) -> (r: Result<ReceptacleSettings, MPXError>)
        ensures
            match r {
                Ok(rec) => Self::spec_from_table(table@) == Ok::<ReceptacleSettingsView, ErrorView>(rec@),
                Err(e) => Self::spec_from_table(table@) == Err::<ReceptacleSettingsView, ErrorView>(e@),
            },
    {
        let label = match tbl_str(table, "Receptacle User Assigned Label") {
            Ok(v) => v,
            Err(e) => {
                return Err(e);
            },
        };
        let asset_tag_1 = match tbl_tag(table, "Receptacle Asset Tag 01") {
            Ok(v) => v,
            Err(e) => {
                return Err(e);
            },
        };
        let asset_tag_2 = match tbl_tag(table, "Receptacle Asset Tag 02") {
            Ok(v) => v,
            Err(e) => {
                return Err(e);
            },
        };
        let over_current_alarm_threshold = match tbl_u32(table, "Over Current Alarm Threshold", "%") {
            Ok(v) => v,
            Err(e) => {
                return Err(e);
            },
        };
        let over_current_warning_threshold = match tbl_u32(table, "Over Current Warning Threshold", "%") {
            Ok(v) => v,
            Err(e) => {
                return Err(e);
            },
        };
        let low_current_alarm_threshold = match tbl_u32(table, "Low Current Alarm Threshold", "%") {
            Ok(v) => v,
            Err(e) => {
                return Err(e);
            },
        };
        let power_state = match tbl_flag(table, "Receptacle Power State", "On") {
            Ok(v) => v,
            Err(e) => {
                return Err(e);
            },
        };
        let power_control = match tbl_flag(table, "Receptacle Power Control", "On") {
            Ok(v) => v,
            Err(e) => {
                return Err(e);
            },
        };
        let control_lock_state = match tbl_flag(table, "Receptacle Control Lock State", "Locked") {
            Ok(v) => v,
            Err(e) => {
                return Err(e);
            },
        };
        let power_on_delay = match tbl_u32(table, "Receptacle Power On Delay", "sec") {
            Ok(v) => v,
            Err(e) => {
                return Err(e);
            },
        };
        Ok(ReceptacleSettings {
            label,
            asset_tag_1,
            asset_tag_2,
            over_current_alarm_threshold,
            over_current_warning_threshold,
            low_current_alarm_threshold,
            power_state,
            power_control,
            control_lock_state,
            power_on_delay,
        })
    }
}

/// Hardware description of one receptacle.
#[derive(Copy, Clone, Debug, PartialEq, Eq, Structural)]
pub struct ReceptacleHardware {
    /// Connector type.
    pub receptacle_type: ReceptacleType,
    /// Supply line.
    pub line_source: LineSource,
    /// Measurement and control capabilities.
    pub capabilities: Capability,
}

impl View for ReceptacleHardware {
    type V = ReceptacleHardware;

    open spec fn view(&self) -> ReceptacleHardware {
        *self
    }
}

impl ReceptacleHardware {
    /// What building the record from the hardware table returns: each
    /// field read under its fixed label in a fixed order, the first
    /// failing field aborting the build.
    pub open spec fn spec_from_table(m: TableMap) -> Result<ReceptacleHardware, ErrorView> {
        match field_receptacle_type(m, "Receptacle Type"@) {
            Err(e) => Err(e),
            Ok(receptacle_type) =>
            match field_line_source(m, "Receptacle Line Source"@) {
                Err(e) => Err(e),
                Ok(line_source) =>
                match field_capability(m, "Receptacle Capabilities"@) {
                    Err(e) => Err(e),
                    Ok(capabilities) =>
                    Ok(ReceptacleHardware {
                        receptacle_type,
                        line_source,
                        capabilities,
                    }),
                },
            },
        }
    }

    /// Builds the record, failing on the first missing or malformed
    /// field; no partial record is ever returned.
    pub fn from_table(table: &RawTable) -> (r: Result<ReceptacleHardware, MPXError>)
        ensures
            match r {
                Ok(rec) => Self::spec_from_table(table@) == Ok::<ReceptacleHardware, ErrorView>(rec@),
                Err(e) => Self::spec_from_table(table@) == Err::<ReceptacleHardware, ErrorView>(e@),
            },
    {
        let receptacle_type = match tbl_receptacle_type(table, "Receptacle Type") {
            Ok(v) => v,
            Err(e) => {
                return Err(e);
            },
        };
        let line_source = match tbl_line_source(table, "Receptacle Line Source") {
            Ok(v) => v,
            Err(e) => {
                return Err(e);
            },
        };
        let capabilities = match tbl_capability(table, "Receptacle Capabilities") {
            Ok(v) => v,
            Err(e) => {
                return Err(e);
            },
        };
        Ok(ReceptacleHardware {
            receptacle_type,
            line_source,
            capabilities,
        })
    }
}

/// Per-condition alarm states of one receptacle.
#[derive(Copy, Clone, Debug, PartialEq, Eq, Structural)]
pub struct ReceptacleEvents {
    /// Over-current.
    pub over_current: EventLevel,
    /// Low current.
    pub low_current: EventLevel,
}

impl View for ReceptacleEvents {
    type V = ReceptacleEvents;

    open spec fn view(&self) -> ReceptacleEvents {
        *self
    }
}

impl ReceptacleEvents {
    /// What building the record from the events table returns: each
    /// field read under its fixed label in a fixed order, the first
    /// failing field aborting the build.
    pub open spec fn spec_from_table(m: TableMap) -> Result<ReceptacleEvents, ErrorView> {
        match field_event_level(m, "Receptacle Over Current"@) {
            Err(e) => Err(e),
            Ok(over_current) =>
            match field_event_level(m, "Receptacle Low Current"@) {
                Err(e) => Err(e),
                Ok(low_current) =>
                Ok(ReceptacleEvents {
                    over_current,
                    low_current,
                }),
            },
        }
    }

    /// Builds the record, failing on the first missing or malformed
    /// field; no partial record is ever returned.
    pub fn from_table(table: &RawTable) -> (r: Result<ReceptacleEvents, MPXError>)
        ensures
            match r {
                Ok(rec) => Self::spec_from_table(table@) == Ok::<ReceptacleEvents, ErrorView>(rec@),
                Err(e) => Self::spec_from_table(table@) == Err::<ReceptacleEvents, ErrorView>(e@),
            },
    {
        let over_current = match tbl_event_level(table, "Receptacle Over Current") {
            Ok(v) => v,
            Err(e) => {
                return Err(e);
            },
        };
        let low_current = match tbl_event_level(table, "Receptacle Low Current") {
            Ok(v) => v,
            Err(e) => {
                return Err(e);
            },
        };
        Ok(ReceptacleEvents {
            over_current,
            low_current,
        })
    }
}

/// Unit-checked raw magnitudes of one receptacle's live measurements; each field holds the decimal text read under the named label, with its unit validated.
#[derive(Clone, Debug, PartialEq)]
pub struct ReceptacleStatusRaw {
    /// Accumulated energy in kWh.
    pub accumulated_energy: String,
    /// Voltage in V AC.
    pub voltage: String,
    /// Current in A AC.
    pub current: String,
    /// Current available before alarm in A AC.
    pub current_available_to_alarm: String,
    /// Line utilization in percent.
    pub current_utilization: String,
    /// Power in W.
    pub power: String,
    /// Apparent power in VA.
    pub apparent_power: String,
    /// Power factor (unitless).
    pub power_factor: String,
    /// Current crest factor (unitless).
    pub current_crest_factor: String,
}

/// Mathematical image of a `ReceptacleStatusRaw`.
#[verifier::ext_equal]
pub struct ReceptacleStatusRawView {
    /// Accumulated energy in kWh.
    pub accumulated_energy: Seq<char>,
    /// Voltage in V AC.
    pub voltage: Seq<char>,
    /// Current in A AC.
    pub current: Seq<char>,
    /// Current available before alarm in A AC.
    pub current_available_to_alarm: Seq<char>,
    /// Line utilization in percent.
    pub current_utilization: Seq<char>,
    /// Power in W.
    pub power: Seq<char>,
    /// Apparent power in VA.
    pub apparent_power: Seq<char>,
    /// Power factor (unitless).
    pub power_factor: Seq<char>,
    /// Current crest factor (unitless).
    pub current_crest_factor: Seq<char>,
}

impl View for ReceptacleStatusRaw {
    type V = ReceptacleStatusRawView;

    open spec fn view(&self) -> ReceptacleStatusRawView {
        ReceptacleStatusRawView {
            accumulated_energy: self.accumulated_energy@,
            voltage: self.voltage@,
            current: self.current@,
            current_available_to_alarm: self.current_available_to_alarm@,
            current_utilization: self.current_utilization@,
            power: self.power@,
            apparent_power: self.apparent_power@,
            power_factor: self.power_factor@,
            current_crest_factor: self.current_crest_factor@,
        }
    }
}

impl ReceptacleStatusRaw {
    /// What building the record from the status table returns: each
    /// field read under its fixed label in a fixed order, the first
    /// failing field aborting the build.
    pub open spec fn spec_from_table(m: TableMap) -> Result<ReceptacleStatusRawView, ErrorView> {
        match field_magnitude(m, "Receptacle Accumulated Energy"@, "kWH"@) {
            Err(e) => Err(e),
            Ok(accumulated_energy) =>
            match field_magnitude(m, "Receptacle Voltage"@, "VAC"@) {
                Err(e) => Err(e),
                Ok(voltage) =>
                match field_magnitude(m, "Receptacle Current"@, "A AC"@) {
                    Err(e) => Err(e),
                    Ok(current) =>
                    match field_magnitude(m, "Receptacle Available Current Until Alarm"@, "A AC"@) {
                        Err(e) => Err(e),
                        Ok(current_available_to_alarm) =>
                        match field_magnitude(m, "Receptacle Percent Current Utilization"@, "%"@) {
                            Err(e) => Err(e),
                            Ok(current_utilization) =>
                            match field_magnitude(m, "Receptacle Power"@, "W"@) {
                                Err(e) => Err(e),
                                Ok(power) =>
                                match field_magnitude(m, "Receptacle Apparent Power"@, "VA"@) {
                                    Err(e) => Err(e),
                                    Ok(apparent_power) =>
                                    match field_magnitude(m, "Receptacle Power Factor"@, "&nbsp;"@) {
                                        Err(e) => Err(e),
                                        Ok(power_factor) =>
                                        match field_magnitude(m, "Receptacle Current Crest Factor"@, "&nbsp;"@) {
                                            Err(e) => Err(e),
                                            Ok(current_crest_factor) =>
                                            Ok(ReceptacleStatusRawView {
                                                accumulated_energy,
                                                voltage,
                                                current,
                                                current_available_to_alarm,
                                                current_utilization,
                                                power,
                                                apparent_power,
                                                power_factor,
                                                current_crest_factor,
                                            }),
                                        },
                                    },
                                },
                            },
                        },
                    },
                },
            },
        }
    }

    /// Builds the record, failing on the first missing or malformed
    /// field; no partial record is ever returned.
    pub fn from_table(table: &RawTable) -> (r: Result<ReceptacleStatusRaw, MPXError>)
        ensures
            match r {
                Ok(rec) => Self::spec_from_table(table@) == Ok::<ReceptacleStatusRawView, ErrorView>(rec@),
                Err(e) => Self::spec_from_table(table@) == Err::<ReceptacleStatusRawView, ErrorView>(e@),
            },
    {
        let accumulated_energy = match tbl_magnitude(table, "Receptacle Accumulated Energy", "kWH") {
            Ok(v) => v,
            Err(e) => {
                return Err(e);
            },
        };
        let voltage = match tbl_magnitude(table, "Receptacle Voltage", "VAC") {
            Ok(v) => v,
            Err(e) => {
                return Err(e);
            },
        };
        let current = match tbl_magnitude(table, "Receptacle Current", "A AC") {
            Ok(v) => v,
            Err(e) => {
                return Err(e);
            },
        };
        let current_available_to_alarm = match tbl_magnitude(table, "Receptacle Available Current Until Alarm", "A AC") {
            Ok(v) => v,
            Err(e) => {
                return Err(e);
            },
        };
        let current_utilization = match tbl_magnitude(table, "Receptacle Percent Current Utilization", "%") {
            Ok(v) => v,
            Err(e) => {
                return Err(e);
            },
        };
        let power = match tbl_magnitude(table, "Receptacle Power", "W") {
            Ok(v) => v,
            Err(e) => {
                return Err(e);
            },
        };
        let apparent_power = match tbl_magnitude(table, "Receptacle Apparent Power", "VA") {
            Ok(v) => v,
            Err(e) => {
                return Err(e);
            },
        };
        let power_factor = match tbl_magnitude(table, "Receptacle Power Factor", "&nbsp;") {
            Ok(v) => v,
            Err(e) => {
                return Err(e);
            },
        };
        let current_crest_factor = match tbl_magnitude(table, "Receptacle Current Crest Factor", "&nbsp;") {
            Ok(v) => v,
            Err(e) => {
                return Err(e);
            },
        };
        Ok(ReceptacleStatusRaw {
            accumulated_energy,
            voltage,
            current,
            current_available_to_alarm,
            current_utilization,
            power,
            apparent_power,
            power_factor,
            current_crest_factor,
        })
    }
}

/// The full extraction of one receptacle page: all four sub-records, each
/// built from its own table; the build fails unless every sub-build
/// succeeds, in the order status, alarms, settings, hardware.
#[derive(Clone, Debug, PartialEq)]
pub struct ReceptacleInfoRaw {
    /// The unit-checked raw magnitudes of the live measurements.
    pub status: ReceptacleStatusRaw,
    /// The per-condition alarm states.
    pub events: ReceptacleEvents,
    /// The settings.
    pub settings: ReceptacleSettings,
    /// The hardware description.
    pub hardware: ReceptacleHardware,
}

/// Mathematical image of a `ReceptacleInfoRaw`.
#[verifier::ext_equal]
pub struct ReceptacleInfoRawView {
    /// The image of the raw measurements.
    pub status: ReceptacleStatusRawView,
    /// The alarm states.
    pub events: ReceptacleEvents,
    /// The image of the settings.
    pub settings: ReceptacleSettingsView,
    /// The image of the hardware description.
    pub hardware: ReceptacleHardware,
}

impl View for ReceptacleInfoRaw {
    type V = ReceptacleInfoRawView;

    open spec fn view(&self) -> ReceptacleInfoRawView {
        ReceptacleInfoRawView {
            status: self.status@,
            events: self.events@,
            settings: self.settings@,
            hardware: self.hardware@,
        }
    }
}

impl ReceptacleInfoRaw {
    /// What composing the four sub-records returns: every sub-build must
    /// succeed, the first failure aborting the composition.
    pub open spec fn spec_from_tables(t: crate::table::InfoTablesView) -> Result<
        ReceptacleInfoRawView,
        ErrorView,
    > {
        match ReceptacleStatusRaw::spec_from_table(t.status) {
            Err(e) => Err(e),
            Ok(status) => match ReceptacleEvents::spec_from_table(t.events) {
                Err(e) => Err(e),
                Ok(events) => match ReceptacleSettings::spec_from_table(t.settings) {
                    Err(e) => Err(e),
                    Ok(settings) => match ReceptacleHardware::spec_from_table(t.hardware) {
                        Err(e) => Err(e),
                        Ok(hardware) => Ok(ReceptacleInfoRawView { status, events, settings, hardware }),
                    },
                },
            },
        }
    }

    /// Builds the full record from the four extracted tables; no partial
    /// record is ever returned.
    pub fn from_tables(tables: &crate::table::InfoTables) -> (r: Result<ReceptacleInfoRaw, MPXError>)
        ensures
            match r {
                Ok(rec) => Self::spec_from_tables(tables@) == Ok::<ReceptacleInfoRawView, ErrorView>(rec@),
                Err(e) => Self::spec_from_tables(tables@) == Err::<ReceptacleInfoRawView, ErrorView>(e@),
            },
    {
        let status = match ReceptacleStatusRaw::from_table(&tables.status) {
            Ok(v) => v,
            Err(e) => {
                return Err(e);
            },
        };
        let events = match ReceptacleEvents::from_table(&tables.events) {
            Ok(v) => v,
            Err(e) => {
                return Err(e);
            },
        };
        let settings = match ReceptacleSettings::from_table(&tables.settings) {
            Ok(v) => v,
            Err(e) => {
                return Err(e);
            },
        };
        let hardware = match ReceptacleHardware::from_table(&tables.hardware) {
            Ok(v) => v,
            Err(e) => {
                return Err(e);
            },
        };
        Ok(ReceptacleInfoRaw { status, events, settings, hardware })
    }
}

} // verus!
