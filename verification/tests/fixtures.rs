//! Full-page fixtures in the vendor's layout, parsed through the real
//! markup parser: entity pages with all four regions, the active-alarm
//! page, and the receptacle overview page.
//!
//! The device's own captures are not at hand, so the pages here are built
//! to the layout the extractor documents: plain `[label, value, unit]`
//! rows, icon-coded alarm rows, and the fixed listing-row positions.

use liebert_mpx::BranchHardware;
use liebert_mpx::BranchInfoRaw;
use liebert_mpx::BRMModel;
use liebert_mpx::Capability;
use liebert_mpx::EventLevel;
use liebert_mpx::EventType;
use liebert_mpx::FWVersion;
use liebert_mpx::LineSource;
use liebert_mpx::MPXError;
use liebert_mpx::PEMModel;
use liebert_mpx::PDUInfoRaw;
use liebert_mpx::PDUSettings;
use liebert_mpx::PDUStatusRaw;
use liebert_mpx::ReceptacleInfoRaw;
use liebert_mpx::ReceptacleSettings;
use liebert_mpx::ReceptacleType;
use liebert_mpx::WiringType;
use liebert_mpx::get_info_tables;
use liebert_mpx::parse_events;
use liebert_mpx::parse_receptacles;

const OK_ICON: &str = "../../../images/accept.png";
const WARN_ICON: &str = "../../../images/warn.png";

fn plain_row(label: &str, value: &str, unit: &str) -> String {
    format!("<tr><td>{}</td><td>{}</td><td>{}</td></tr>", label, value, unit)
}

fn icon_row(src: &str, label: &str) -> String {
    format!(
        "<tr><td><img src=\"{}\"></td><td>{}</td><td></td></tr>",
        src, label
    )
}

fn rows(items: &[(&str, &str, &str)], skip: Option<&str>) -> String {
    let mut out = String::new();
    for (label, value, unit) in items {
        if Some(*label) != skip {
            out.push_str(&plain_row(label, value, unit));
        }
    }
    out
}

fn icon_rows(labels: &[&str], skip: Option<&str>) -> String {
    let mut out = String::from("<tr><th>Status</th><th>Event</th><th></th></tr>");
    for label in labels {
        if Some(*label) != skip {
            out.push_str(&icon_row(OK_ICON, label));
        }
    }
    out
}

fn info_page(status: &str, alarm: &str, settings: &str, hardware: &str) -> String {
    format!(
        "<html><head><title>t</title></head><body>\n\
         <div id=\"RpcStatusArea\"><table>{}</table></div>\n\
         <div id=\"RpcAlarmArea\"><table>{}</table></div>\n\
         <div id=\"RpcSettingArea\"><table>{}</table></div>\n\
         <div id=\"RpcInfoArea\"><table>{}</table></div>\n\
         </body></html>",
        status, alarm, settings, hardware
    )
}

const PDU_STATUS: &[(&str, &str, &str)] = &[
    ("PDU Accumulated Energy", "12.5", "kWH"),
    ("PDU Total Input Power", "230.0", "W"),
    ("PDU Voltage L1-N", "229.8", "VAC"),
    ("PDU Voltage L2-N", "230.1", "VAC"),
    ("PDU Voltage L3-N", "228.9", "VAC"),
    ("PDU Current L1", "1.5", "A AC"),
    ("PDU Current L2", "0.7", "A AC"),
    ("PDU Current L3", "0.0", "A AC"),
    ("PDU Neutral Current Measurement", "0.3", "A AC"),
    ("PDU Available L1 Current Until Alarm", "14.5", "A AC"),
    ("PDU Available L2 Current Until Alarm", "15.3", "A AC"),
    ("PDU Available L3 Current Until Alarm", "16.0", "A AC"),
    ("PDU Percent L1 Current Utilization", "9.4", "%"),
    ("PDU Percent L2 Current Utilization", "4.4", "%"),
    ("PDU Percent L3 Current Utilization", "0.0", "%"),
    ("PEM Line Frequency", "50.0", "Hz"),
];

const PDU_ALARM_LABELS: &[&str] = &[
    "PDU Low Voltage L1-N",
    "PDU Low Voltage L2-N",
    "PDU Low Voltage L3-N",
    "PDU Over Current L1",
    "PDU Over Current L2",
    "PDU Over Current L3",
    "PDU Low Current L1",
    "PDU Low Current L2",
    "PDU Low Current L3",
    "PDU Failure",
    "PDU Communication Fail",
    "PDU Neutral Over Current",
];

const PDU_SETTINGS: &[(&str, &str, &str)] = &[
    ("PDU User Assigned Label", "Rack 1 PDU", "&nbsp;"),
    ("PDU Asset Tag 01", "A-123&nbsp;", "&nbsp;"),
    ("PDU Asset Tag 02", "&nbsp;", "&nbsp;"),
    ("Neutral Over Current Alarm Threshold", "110", "%"),
    ("Neutral Over Current Warning Threshold", "90", "%"),
    ("Over Current Warn Threshold L1", "91", "%"),
    ("Over Current Warn Threshold L2", "92", "%"),
    ("Over Current Warn Threshold L3", "93", "%"),
    ("Over Current Alarm Threshold L1", "111", "%"),
    ("Over Current Alarm Threshold L2", "112", "%"),
    ("Over Current Alarm Threshold L3", "113", "%"),
    ("Low Current Alarm Threshold L1", "1", "%"),
    ("Low Current Alarm Threshold L2", "2", "%"),
    ("Low Current Alarm Threshold L3", "3", "%"),
];

const PDU_HARDWARE: &[(&str, &str, &str)] = &[
    ("PEM Model", "MPXPEM-EHAXXT30", "&nbsp;"),
    ("The PDU input wiring type", "3-Phase / 5-Wire (L1, L2, L3, N, PE)", "&nbsp;"),
    ("Rated Input Line Voltage", "230", "VAC"),
    ("Rated Input Line Current", "16", "A AC"),
    ("Rated Input Line Frequency", "50", "Hz"),
    ("Firmware Version", "1-2-3-4", "&nbsp;"),
    ("PEM Serial Number", "SN1234", "&nbsp;"),
];

fn pdu_page(skip: Option<&str>) -> String {
    info_page(
        &rows(PDU_STATUS, skip),
        &icon_rows(PDU_ALARM_LABELS, skip),
        &rows(PDU_SETTINGS, skip),
        &rows(PDU_HARDWARE, skip),
    )
}

const BRANCH_STATUS: &[(&str, &str, &str)] = &[
    ("Branch Accumulated Energy", "3.2", "kWH"),
    ("Branch Voltage", "230.0", "VAC"),
    ("Branch Current", "0.9", "A AC"),
    ("Branch Available Current Until Alarm", "9.1", "A AC"),
    ("Branch Percent Current Utilization", "9.0", "%"),
    ("Branch Power", "200.5", "W"),
    ("Branch Apparent Power", "207.0", "VA"),
    ("Branch Power Factor", "0.97", "&nbsp;"),
];

const BRANCH_ALARM_LABELS: &[&str] = &[
    "Branch Low Voltage (LN)",
    "Branch Over Current",
    "Branch Low Current",
    "Branch Failure",
    "Branch Breaker Open",
];

const BRANCH_SETTINGS: &[(&str, &str, &str)] = &[
    ("Branch User Assigned Label", "Branch 2", "&nbsp;"),
    ("Branch Asset Tag 01", "B-77&nbsp;", "&nbsp;"),
    ("Branch Asset Tag 02", "&nbsp;", "&nbsp;"),
    ("Over Current Alarm Threshold", "110", "%"),
    ("Over Current Warning Threshold", "90", "%"),
    ("Low Current Alarm Threshold", "5", "%"),
];

const BRANCH_HARDWARE: &[(&str, &str, &str)] = &[
    ("BRM Model", "MPXBRM-ERBC6N2N", "&nbsp;"),
    ("Branch Receptacle Type", "IEC 60320 Sheet F C13", "&nbsp;"),
    ("Branch Capabilities", "All Measurements/Control", "&nbsp;"),
    ("Branch Line Source", "Type L2-N", "&nbsp;"),
    ("Branch Rated Line Voltage", "230", "VAC"),
    ("Branch Rated Line Current", "10", "A AC"),
    ("Branch Rated Line Frequency", "50", "Hz"),
    ("Firmware Version", "2-0-1-9", "&nbsp;"),
    ("Branch Serial Number", "SN5678", "&nbsp;"),
];

fn branch_page(skip: Option<&str>) -> String {
    info_page(
        &rows(BRANCH_STATUS, skip),
        &icon_rows(BRANCH_ALARM_LABELS, skip),
        &rows(BRANCH_SETTINGS, skip),
        &rows(BRANCH_HARDWARE, skip),
    )
}

const RECEPTACLE_STATUS: &[(&str, &str, &str)] = &[
    ("Receptacle Accumulated Energy", "0.8", "kWH"),
    ("Receptacle Voltage", "230.2", "VAC"),
    ("Receptacle Current", "0.2", "A AC"),
    ("Receptacle Available Current Until Alarm", "9.8", "A AC"),
    ("Receptacle Percent Current Utilization", "2.0", "%"),
    ("Receptacle Power", "45.0", "W"),
    ("Receptacle Apparent Power", "46.0", "VA"),
    ("Receptacle Power Factor", "0.98", "&nbsp;"),
    ("Receptacle Current Crest Factor", "1.41", "&nbsp;"),
];

const RECEPTACLE_ALARM_LABELS: &[&str] = &["Receptacle Over Current", "Receptacle Low Current"];

const RECEPTACLE_SETTINGS: &[(&str, &str, &str)] = &[
    ("Receptacle User Assigned Label", "Low Power Light", "&nbsp;"),
    ("Receptacle Asset Tag 01", "R-9&nbsp;", "&nbsp;"),
    ("Receptacle Asset Tag 02", "&nbsp;", "&nbsp;"),
    ("Over Current Alarm Threshold", "110", "%"),
    ("Over Current Warning Threshold", "90", "%"),
    ("Low Current Alarm Threshold", "5", "%"),
    ("Receptacle Power State", "On", "&nbsp;"),
    ("Receptacle Power Control", "Off", "&nbsp;"),
    ("Receptacle Control Lock State", "Locked", "&nbsp;"),
    ("Receptacle Power On Delay", "30", "sec"),
];

const RECEPTACLE_HARDWARE: &[(&str, &str, &str)] = &[
    ("Receptacle Type", "IEC 60320 Sheet F C13", "&nbsp;"),
    ("Receptacle Line Source", "Type L3-N", "&nbsp;"),
    ("Receptacle Capabilities", "All Measurements/Control", "&nbsp;"),
];

fn receptacle_page(skip: Option<&str>) -> String {
    info_page(
        &rows(RECEPTACLE_STATUS, skip),
        &icon_rows(RECEPTACLE_ALARM_LABELS, skip),
        &rows(RECEPTACLE_SETTINGS, skip),
        &rows(RECEPTACLE_HARDWARE, skip),
    )
}

fn receptacle_list_page() -> String {
    "<table id=\"rcpTable\">\
     <tr><th>Receptacle</th><th>No</th><th>Power</th><th>Lock</th><th>Health</th></tr>\
     <tr id=\"1-1-1\"><td><a href=\"#\"><nobr>Lamp</nobr></a></td><td>1</td>\
     <td><span title=\"On\"></span></td><td><span title=\"Unlocked\"></span></td>\
     <td><img src=\"../../../images/accept.png\"></td></tr>\
     <tr id=\"1-1-2\"><td><a href=\"#\"><nobr>Server</nobr></a></td><td>2</td>\
     <td><span title=\"Off\"></span></td><td><span title=\"Locked\"></span></td>\
     <td><img src=\"../../../images/warn.png\"></td></tr>\
     </table>"
        .to_string()
}

fn events_page(rows: &str) -> String {
    format!(
        "<html><head><title>t</title></head><body>\
         <div id=\"DetailPanelArea\"><table>{}</table></div>\
         </body></html>",
        rows
    )
}

fn events_none_page() -> String {
    events_page(
        "<tr><th>Status</th><th>Location</th><th>Event</th></tr>\
         <tr><td>No Alarms Present</td></tr>",
    )
}

fn events_test_page() -> String {
    events_page(&format!(
        "<tr><th>Status</th><th>Location</th><th>Event</th></tr>\
         <tr><td><img src=\"{}\"></td><td>1-2-3</td><td>Receptacle Over Current</td></tr>\
         <tr><td><img src=\"{}\"></td><td>1</td><td>PDU Failure</td></tr>",
        WARN_ICON, OK_ICON
    ))
}

#[test]
fn test_01_parse_receptacles() {
    let html = receptacle_list_page();
    let parsed = parse_receptacles(html);

    assert!(parsed.is_ok())
}

#[test]
fn test_02_parse_events_empty() {
    let html = events_none_page();
    let parsed = parse_events(html);

    assert!(parsed.is_ok());
}

#[test]
fn test_03_parse_events_test() {
    let html = events_test_page();
    let parsed = parse_events(html);

    assert!(parsed.is_ok());
}

#[test]
fn test_04_parse_pdu_info() {
    let tables = get_info_tables(pdu_page(None));
    assert!(tables.is_ok(), "failed to get info tables");

    if tables.is_ok() {
        let info = PDUInfoRaw::from_tables(&tables.unwrap());
        assert!(info.is_ok(), "failed to get PDUInfo");
    }
}

#[test]
fn test_05_parse_branch_info() {
    let tables = get_info_tables(branch_page(None));
    assert!(tables.is_ok(), "failed to get info tables");

    if tables.is_ok() {
        let info = BranchInfoRaw::from_tables(&tables.unwrap());
        assert!(info.is_ok(), "failed to get BranchInfo");
    }
}

#[test]
fn test_06_parse_receptacle_info() {
    let tables = get_info_tables(receptacle_page(None));
    assert!(tables.is_ok(), "failed to get info tables");

    if tables.is_ok() {
        let info = ReceptacleInfoRaw::from_tables(&tables.unwrap());
        assert!(info.is_ok(), "failed to get ReceptacleInfo");
    }
}

#[test]
fn pdu_fixture_fields_match() {
    let tables = get_info_tables(pdu_page(None)).unwrap();
    let info = PDUInfoRaw::from_tables(&tables).unwrap();

    let status = info.status;
    assert_eq!(status.accumulated_energy, "12.5");
    assert_eq!(status.input_power, "230.0");
    assert_eq!(status.voltage_l1_n, "229.8");
    assert_eq!(status.voltage_l2_n, "230.1");
    assert_eq!(status.voltage_l3_n, "228.9");
    assert_eq!(status.current_l1, "1.5");
    assert_eq!(status.current_l2, "0.7");
    assert_eq!(status.current_l3, "0.0");
    assert_eq!(status.current_n, "0.3");
    assert_eq!(status.current_available_to_alarm_l1, "14.5");
    assert_eq!(status.current_available_to_alarm_l2, "15.3");
    assert_eq!(status.current_available_to_alarm_l3, "16.0");
    assert_eq!(status.current_utilization_l1, "9.4");
    assert_eq!(status.current_utilization_l2, "4.4");
    assert_eq!(status.current_utilization_l3, "0.0");
    assert_eq!(status.line_frequency, "50.0");

    let events = info.events;
    assert_eq!(events.low_voltage_l1, EventLevel::OK);
    assert_eq!(events.over_current_l3, EventLevel::OK);
    assert_eq!(events.communication_fail, EventLevel::OK);
    assert_eq!(events.over_current_n, EventLevel::OK);

    let settings = info.settings;
    assert_eq!(settings.label, "Rack 1 PDU");
    assert_eq!(settings.asset_tag_1, "A-123");
    assert_eq!(settings.asset_tag_2, "");
    assert_eq!(settings.n_over_current_alarm_threshold, 110);
    assert_eq!(settings.n_over_current_warning_threshold, 90);
    assert_eq!(settings.l1_over_current_warning_threshold, 91);
    assert_eq!(settings.l2_over_current_warning_threshold, 92);
    assert_eq!(settings.l3_over_current_warning_threshold, 93);
    assert_eq!(settings.l1_over_current_alarm_threshold, 111);
    assert_eq!(settings.l2_over_current_alarm_threshold, 112);
    assert_eq!(settings.l3_over_current_alarm_threshold, 113);
    assert_eq!(settings.l1_low_current_alarm_threshold, 1);
    assert_eq!(settings.l2_low_current_alarm_threshold, 2);
    assert_eq!(settings.l3_low_current_alarm_threshold, 3);

    let hardware = info.hardware;
    assert_eq!(hardware.pem_model, PEMModel::EHAXXT30);
    assert_eq!(hardware.wiring_type, WiringType::ThreePhase);
    assert_eq!(hardware.rated_input_voltage, 230);
    assert_eq!(hardware.rated_input_current, 16);
    assert_eq!(hardware.rated_input_line_frequency, 50);
    assert_eq!(hardware.fw_version, FWVersion { p0: 1, p1: 2, p2: 3, p3: 4 });
    assert_eq!(hardware.serial_number, "SN1234");
}

#[test]
fn branch_fixture_fields_match() {
    let tables = get_info_tables(branch_page(None)).unwrap();
    let info = BranchInfoRaw::from_tables(&tables).unwrap();

    let status = info.status;
    assert_eq!(status.accumulated_energy, "3.2");
    assert_eq!(status.voltage, "230.0");
    assert_eq!(status.current, "0.9");
    assert_eq!(status.current_available_to_alarm, "9.1");
    assert_eq!(status.current_utilization, "9.0");
    assert_eq!(status.power, "200.5");
    assert_eq!(status.apparent_power, "207.0");
    assert_eq!(status.power_factor, "0.97");

    let events = info.events;
    assert_eq!(events.low_voltage, EventLevel::OK);
    assert_eq!(events.breaker_open, EventLevel::OK);

    let settings = info.settings;
    assert_eq!(settings.label, "Branch 2");
    assert_eq!(settings.asset_tag_1, "B-77");
    assert_eq!(settings.asset_tag_2, "");
    assert_eq!(settings.over_current_alarm_threshold, 110);
    assert_eq!(settings.over_current_warning_threshold, 90);
    assert_eq!(settings.low_current_alarm_threshold, 5);

    let hardware = info.hardware;
    assert_eq!(hardware.brm_model, BRMModel::ERBC6N2N);
    assert_eq!(hardware.receptacle_type, ReceptacleType::C13);
    assert_eq!(hardware.capabilities, Capability::MeasureAndControl);
    assert_eq!(hardware.line_source, LineSource::L2toN);
    assert_eq!(hardware.rated_line_voltage, 230);
    assert_eq!(hardware.rated_line_current, 10);
    assert_eq!(hardware.rated_line_frequency, 50);
    assert_eq!(hardware.fw_version, FWVersion { p0: 2, p1: 0, p2: 1, p3: 9 });
    assert_eq!(hardware.serial_number, "SN5678");
}

#[test]
fn receptacle_fixture_fields_match() {
    let tables = get_info_tables(receptacle_page(None)).unwrap();
    let info = ReceptacleInfoRaw::from_tables(&tables).unwrap();

    let status = info.status;
    assert_eq!(status.accumulated_energy, "0.8");
    assert_eq!(status.voltage, "230.2");
    assert_eq!(status.current, "0.2");
    assert_eq!(status.current_available_to_alarm, "9.8");
    assert_eq!(status.current_utilization, "2.0");
    assert_eq!(status.power, "45.0");
    assert_eq!(status.apparent_power, "46.0");
    assert_eq!(status.power_factor, "0.98");
    assert_eq!(status.current_crest_factor, "1.41");

    let events = info.events;
    assert_eq!(events.over_current, EventLevel::OK);
    assert_eq!(events.low_current, EventLevel::OK);

    let settings = info.settings;
    assert_eq!(settings.label, "Low Power Light");
    assert_eq!(settings.asset_tag_1, "R-9");
    assert_eq!(settings.asset_tag_2, "");
    assert_eq!(settings.over_current_alarm_threshold, 110);
    assert_eq!(settings.over_current_warning_threshold, 90);
    assert_eq!(settings.low_current_alarm_threshold, 5);
    assert!(settings.power_state);
    assert!(!settings.power_control);
    assert!(settings.control_lock_state);
    assert_eq!(settings.power_on_delay, 30);

    let hardware = info.hardware;
    assert_eq!(hardware.receptacle_type, ReceptacleType::C13);
    assert_eq!(hardware.line_source, LineSource::L3toN);
    assert_eq!(hardware.capabilities, Capability::MeasureAndControl);
}

#[test]
fn missing_label_fails_naming_it() {
    let tables = get_info_tables(pdu_page(Some("PDU Total Input Power"))).unwrap();
    let status = PDUStatusRaw::from_table(&tables.status);
    assert!(matches!(
        status,
        Err(MPXError::MissingDataError(ref m)) if m.label == "PDU Total Input Power"
    ));

    let tables = get_info_tables(pdu_page(Some("PDU User Assigned Label"))).unwrap();
    let settings = PDUSettings::from_table(&tables.settings);
    assert!(matches!(
        settings,
        Err(MPXError::MissingDataError(ref m)) if m.label == "PDU User Assigned Label"
    ));

    let tables = get_info_tables(branch_page(Some("BRM Model"))).unwrap();
    let hardware = BranchHardware::from_table(&tables.hardware);
    assert!(matches!(
        hardware,
        Err(MPXError::MissingDataError(ref m)) if m.label == "BRM Model"
    ));

    let tables = get_info_tables(receptacle_page(Some("Receptacle Power State"))).unwrap();
    let settings = ReceptacleSettings::from_table(&tables.settings);
    assert!(matches!(
        settings,
        Err(MPXError::MissingDataError(ref m)) if m.label == "Receptacle Power State"
    ));

    let tables = get_info_tables(pdu_page(Some("PEM Model"))).unwrap();
    let info = PDUInfoRaw::from_tables(&tables);
    assert!(matches!(
        info,
        Err(MPXError::MissingDataError(ref m)) if m.label == "PEM Model"
    ));
}

#[test]
fn nested_severity_icon_is_found() {
    let html = events_page(&format!(
        "<tr><td><span><img src=\"{}\"></span></td><td>1-2-3</td><td>Receptacle Over Current</td></tr>",
        WARN_ICON
    ));
    let events = parse_events(html).unwrap();
    assert_eq!(events.len(), 1);
    assert_eq!(events[0].level, EventLevel::WARNING);
}

#[test]
fn events_none_yields_empty_sequence() {
    let events = parse_events(events_none_page()).unwrap();
    assert!(events.is_empty());
}

#[test]
fn events_rows_decode_fully() {
    let events = parse_events(events_test_page()).unwrap();
    assert_eq!(events.len(), 2);
    assert_eq!(events[0].level, EventLevel::WARNING);
    assert_eq!(events[0].pdu, 1);
    assert_eq!(events[0].branch, 2);
    assert_eq!(events[0].receptacle, 3);
    assert_eq!(events[0].event, EventType::ReceptacleOverCurrent);
    assert_eq!(events[1].level, EventLevel::OK);
    assert_eq!(events[1].pdu, 1);
    assert_eq!(events[1].branch, 0);
    assert_eq!(events[1].receptacle, 0);
    assert_eq!(events[1].event, EventType::PDUFailure);
}

#[test]
fn receptacle_listing_rows_decode_fully() {
    let list = parse_receptacles(receptacle_list_page()).unwrap();
    assert_eq!(list.len(), 2);
    assert_eq!(list[0].pdu, 1);
    assert_eq!(list[0].branch, 1);
    assert_eq!(list[0].receptacle, 1);
    assert!(list[0].enabled);
    assert!(!list[0].locked);
    assert_eq!(list[0].status, EventLevel::OK);
    assert_eq!(list[0].label, "Lamp");
    assert_eq!(list[1].pdu, 1);
    assert_eq!(list[1].branch, 1);
    assert_eq!(list[1].receptacle, 2);
    assert!(!list[1].enabled);
    assert!(list[1].locked);
    assert_eq!(list[1].status, EventLevel::WARNING);
    assert_eq!(list[1].label, "Server");
}

#[test]
fn unknown_event_kind_is_rejected() {
    let html = events_page(&format!(
        "<tr><td><img src=\"{}\"></td><td>1-2-3</td><td>Unheard Of Condition</td></tr>",
        WARN_ICON
    ));
    assert!(matches!(parse_events(html), Err(MPXError::EnumParseError(_))));
}

#[test]
fn malformed_markup_is_a_document_failure() {
    let html = "<!neither-doctype-nor-comment>".to_string();
    assert!(matches!(parse_events(html), Err(MPXError::HTMLParser(_))));
}

#[test]
fn page_without_regions_is_a_structure_failure() {
    let html = "<html><head></head><body><p>empty</p></body></html>".to_string();
    assert!(matches!(
        get_info_tables(html),
        Err(MPXError::InvalidDataError(_))
    ));
}

#[test]
fn nested_region_container_is_found() {
    let html = format!(
        "<html><head></head><body><div id=\"wrap\"><div><div id=\"RpcStatusArea\"><div><table>{}</table></div></div></div></div>\
         <div id=\"RpcAlarmArea\"><table>{}</table></div>\
         <div id=\"RpcSettingArea\"><table>{}</table></div>\
         <div id=\"RpcInfoArea\"><table>{}</table></div>\
         </body></html>",
        rows(PDU_STATUS, None),
        icon_rows(PDU_ALARM_LABELS, None),
        rows(PDU_SETTINGS, None),
        rows(PDU_HARDWARE, None)
    );
    let tables = get_info_tables(html).unwrap();
    let status = PDUStatusRaw::from_table(&tables.status).unwrap();
    assert_eq!(status.accumulated_energy, "12.5");
}
