//! Command and settings encoding: the exact form fields, in order, that
//! each command and each settings write-back produces.

use liebert_mpx::BranchCmd;
use liebert_mpx::BranchSettings;
use liebert_mpx::MPX;
use liebert_mpx::PDUCmd;
use liebert_mpx::PDUSettings;
use liebert_mpx::ReceptacleCmd;
use liebert_mpx::ReceptacleSettings;
use liebert_mpx::commands::branch_command_form;
use liebert_mpx::commands::branch_settings_form;
use liebert_mpx::commands::pdu_command_form;
use liebert_mpx::commands::pdu_settings_form;
use liebert_mpx::commands::receptacle_command_form;
use liebert_mpx::commands::receptacle_settings_form;

fn pairs(form: &[(String, String)]) -> Vec<(&str, &str)> {
    form.iter().map(|p| (p.0.as_str(), p.1.as_str())).collect()
}

#[test]
fn pdu_command_fields() {
    assert_eq!(pairs(&pdu_command_form(PDUCmd::TestEvent)), vec![("testEvent", "Send")]);
    assert_eq!(pairs(&pdu_command_form(PDUCmd::ResetEnergy)), vec![("energyControl", "Reset")]);
}

#[test]
fn branch_command_fields() {
    assert_eq!(pairs(&branch_command_form(BranchCmd::ResetEnergy)), vec![(
        "energyControl",
        "Reset",
    )]);
}

#[test]
fn receptacle_command_fields() {
    assert_eq!(pairs(&receptacle_command_form(ReceptacleCmd::Disable)), vec![
        ("receptacleStateGroup", "0"),
        ("Submit", "Save"),
    ]);
    assert_eq!(pairs(&receptacle_command_form(ReceptacleCmd::Enable)), vec![
        ("receptacleStateGroup", "1"),
        ("Submit", "Save"),
    ]);
    assert_eq!(pairs(&receptacle_command_form(ReceptacleCmd::Reboot)), vec![
        ("receptacleStateGroup", "2"),
        ("Submit", "Save"),
    ]);
    assert_eq!(pairs(&receptacle_command_form(ReceptacleCmd::Identify)), vec![(
        "rcpIdentControl",
        "Submit",
    )]);
    assert_eq!(pairs(&receptacle_command_form(ReceptacleCmd::ResetEnergy)), vec![(
        "energyControl",
        "Reset",
    )]);
}

#[test]
fn pdu_settings_fields() {
    let s = PDUSettings {
        label: "Rack 1 PDU".to_string(),
        asset_tag_1: "A-123".to_string(),
        asset_tag_2: "".to_string(),
        n_over_current_alarm_threshold: 110,
        n_over_current_warning_threshold: 90,
        l1_low_current_alarm_threshold: 1,
        l1_over_current_alarm_threshold: 111,
        l1_over_current_warning_threshold: 91,
        l2_low_current_alarm_threshold: 2,
        l2_over_current_alarm_threshold: 112,
        l2_over_current_warning_threshold: 92,
        l3_low_current_alarm_threshold: 3,
        l3_over_current_alarm_threshold: 113,
        l3_over_current_warning_threshold: 93,
    };
    assert_eq!(pairs(&pdu_settings_form(&s)), vec![
        ("Submit", "Save"),
        ("label", "Rack 1 PDU"),
        ("assetTag1", "A-123"),
        ("assetTag2", ""),
        ("ecNeutralThrshldOverAlarm", "110"),
        ("ecNeutralThrshldOverWarn", "90"),
        ("ecThresholdHiAlmL1", "111"),
        ("ecThresholdHiAlmL2", "112"),
        ("ecThresholdHiAlmL3", "113"),
        ("ecThresholdHiWrnL1", "91"),
        ("ecThresholdHiWrnL2", "92"),
        ("ecThresholdHiWrnL3", "93"),
        ("ecThresholdLoAlmL1", "1"),
        ("ecThresholdLoAlmL2", "2"),
        ("ecThresholdLoAlmL3", "3"),
    ]);
}

#[test]
fn branch_settings_fields() {
    let s = BranchSettings {
        label: "Branch 2".to_string(),
        asset_tag_1: "B-77".to_string(),
        asset_tag_2: "".to_string(),
        over_current_alarm_threshold: 110,
        over_current_warning_threshold: 90,
        low_current_alarm_threshold: 5,
    };
    assert_eq!(pairs(&branch_settings_form(&s)), vec![
        ("Submit", "Save"),
        ("label", "Branch 2"),
        ("assetTag1", "B-77"),
        ("assetTag2", ""),
        ("ecThresholdHiAlmLN", "110"),
        ("ecThresholdHiWrnLN", "90"),
        ("ecThresholdLoAlmLN", "5"),
    ]);
}

#[test]
fn receptacle_settings_fields() {
    let s = ReceptacleSettings {
        label: "Low Power Light".to_string(),
        asset_tag_1: "R-9".to_string(),
        asset_tag_2: "".to_string(),
        over_current_alarm_threshold: 110,
        over_current_warning_threshold: 90,
        low_current_alarm_threshold: 5,
        power_state: true,
        power_control: false,
        control_lock_state: true,
        power_on_delay: 30,
    };
    assert_eq!(pairs(&receptacle_settings_form(&s)), vec![
        ("Submit", "Save"),
        ("label", "Low Power Light"),
        ("assetTag1", "R-9"),
        ("assetTag2", ""),
        ("ecThresholdHiAlmL1", "110"),
        ("ecThresholdHiWrnL1", "90"),
        ("ecThresholdLoAlmL1", "5"),
        ("powerUpDelay", "30"),
        ("lockStateTypeGroup1", "1"),
    ]);
    let unlocked = ReceptacleSettings { control_lock_state: false, ..s };
    let form = receptacle_settings_form(&unlocked);
    assert_eq!(form[8].0, "lockStateTypeGroup1");
    assert_eq!(form[8].1, "0");
}

#[test]
fn mpx_handle_keeps_its_fields() {
    let pdu = MPX::new("192.168.23.42", "Liebert", "Liebert");
    assert_eq!(pdu.host, "192.168.23.42");
    assert_eq!(pdu.username, "Liebert");
    assert_eq!(pdu.password, "Liebert");
}
