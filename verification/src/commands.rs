//! Command and settings encoding: the closed command sets of each entity
//! level, and the exact form fields the vendor's controller expects for
//! each command and for a settings write-back.  Nothing here validates
//! settings values; the contract is syntactic fidelity to the vendor's
//! field names.

use vstd::prelude::*;

use crate::branch::BranchSettings;
use crate::pdu::PDUSettings;
use crate::receptacle::ReceptacleSettings;
use crate::text::dec_digits_of;
use crate::text::u32_to_string;

verus! {

/// A command addressed to one receptacle.
#[derive(Copy, Clone, Debug)]
pub enum ReceptacleCmd {
    /// Switch the receptacle off.
    Disable,
    /// Switch the receptacle on.
    Enable,
    /// Power-cycle the receptacle.
    Reboot,
    /// Blink the receptacle's indicator.
    Identify,
    /// Reset the accumulated-energy counter.
    ResetEnergy,
}

/// A command addressed to the input module.
#[derive(Copy, Clone, Debug)]
pub enum PDUCmd {
    /// Raise a test event.
    TestEvent,
    /// Reset the accumulated-energy counter.
    ResetEnergy,
}

/// A command addressed to one branch module.
#[derive(Copy, Clone, Debug)]
pub enum BranchCmd {
    /// Reset the accumulated-energy counter.
    ResetEnergy,
}

/// The views of a form-field list.
pub open spec fn form_view(v: Seq<(String, String)>) -> Seq<(Seq<char>, Seq<char>)> {
    v.map_values(|p: (String, String)| (p.0@, p.1@))
}

/// The form fields of an input-module command.
pub open spec fn spec_pdu_command_form(cmd: PDUCmd) -> Seq<(Seq<char>, Seq<char>)> {
    match cmd {
        PDUCmd::TestEvent => seq![("testEvent"@, "Send"@)],
        PDUCmd::ResetEnergy => seq![("energyControl"@, "Reset"@)],
    }
}

/// The form fields of a branch-module command.
pub open spec fn spec_branch_command_form(cmd: BranchCmd) -> Seq<(Seq<char>, Seq<char>)> {
    match cmd {
        BranchCmd::ResetEnergy => seq![("energyControl"@, "Reset"@)],
    }
}

/// The form fields of a receptacle command.
pub open spec fn spec_receptacle_command_form(cmd: ReceptacleCmd) -> Seq<(Seq<char>, Seq<char>)> {
    match cmd {
        ReceptacleCmd::Disable => seq![("receptacleStateGroup"@, "0"@), ("Submit"@, "Save"@)],
        ReceptacleCmd::Enable => seq![("receptacleStateGroup"@, "1"@), ("Submit"@, "Save"@)],
        ReceptacleCmd::Reboot => seq![("receptacleStateGroup"@, "2"@), ("Submit"@, "Save"@)],
        ReceptacleCmd::Identify => seq![("rcpIdentControl"@, "Submit"@)],
        ReceptacleCmd::ResetEnergy => seq![("energyControl"@, "Reset"@)],
    }
}

/// One owned form-field pair.
fn pair(k: &str, v: &str) -> (r: (String, String))
    ensures
        r.0@ == k@,
        r.1@ == v@,
{
    (k.to_owned(), v.to_owned())
}

/// Encodes an input-module command into its form fields.
pub fn pdu_command_form(cmd: PDUCmd) -> (r: Vec<(String, String)>)
    ensures
        form_view(r@) == spec_pdu_command_form(cmd),
{
    let mut v: Vec<(String, String)> = Vec::new();
    match cmd {
        PDUCmd::TestEvent => {
            v.push(pair("testEvent", "Send"));
        },
        PDUCmd::ResetEnergy => {
            v.push(pair("energyControl", "Reset"));
        },
    }
    proof {
        assert(form_view(v@) =~~= spec_pdu_command_form(cmd));
    }
    v
}

/// Encodes a branch-module command into its form fields.
pub fn branch_command_form(cmd: BranchCmd) -> (r: Vec<(String, String)>)
    ensures
        form_view(r@) == spec_branch_command_form(cmd),
{
    let mut v: Vec<(String, String)> = Vec::new();
    match cmd {
        BranchCmd::ResetEnergy => {
            v.push(pair("energyControl", "Reset"));
        },
    }
    proof {
        assert(form_view(v@) =~~= spec_branch_command_form(cmd));
    }
    v
}

/// Encodes a receptacle command into its form fields.
pub fn receptacle_command_form(cmd: ReceptacleCmd) -> (r: Vec<(String, String)>)
    ensures
        form_view(r@) == spec_receptacle_command_form(cmd),
{
    let mut v: Vec<(String, String)> = Vec::new();
    match cmd {
        ReceptacleCmd::Disable => {
            v.push(pair("receptacleStateGroup", "0"));
            v.push(pair("Submit", "Save"));
        },
        ReceptacleCmd::Enable => {
            v.push(pair("receptacleStateGroup", "1"));
            v.push(pair("Submit", "Save"));
        },
        ReceptacleCmd::Reboot => {
            v.push(pair("receptacleStateGroup", "2"));
            v.push(pair("Submit", "Save"));
        },
        ReceptacleCmd::Identify => {
            v.push(pair("rcpIdentControl", "Submit"));
        },
        ReceptacleCmd::ResetEnergy => {
            v.push(pair("energyControl", "Reset"));
        },
    }
    proof {
        assert(form_view(v@) =~~= spec_receptacle_command_form(cmd));
    }
    v
}

/// The form fields writing the input module's settings back, thresholds
/// rendered in decimal.
pub open spec fn spec_pdu_settings_form(s: crate::pdu::PDUSettingsView) -> Seq<
    (Seq<char>, Seq<char>),
> {
    seq![
        ("Submit"@, "Save"@),
        ("label"@, s.label),
        ("assetTag1"@, s.asset_tag_1),
        ("assetTag2"@, s.asset_tag_2),
        ("ecNeutralThrshldOverAlarm"@, dec_digits_of(s.n_over_current_alarm_threshold as nat)),
        ("ecNeutralThrshldOverWarn"@, dec_digits_of(s.n_over_current_warning_threshold as nat)),
        ("ecThresholdHiAlmL1"@, dec_digits_of(s.l1_over_current_alarm_threshold as nat)),
        ("ecThresholdHiAlmL2"@, dec_digits_of(s.l2_over_current_alarm_threshold as nat)),
        ("ecThresholdHiAlmL3"@, dec_digits_of(s.l3_over_current_alarm_threshold as nat)),
        ("ecThresholdHiWrnL1"@, dec_digits_of(s.l1_over_current_warning_threshold as nat)),
        ("ecThresholdHiWrnL2"@, dec_digits_of(s.l2_over_current_warning_threshold as nat)),
        ("ecThresholdHiWrnL3"@, dec_digits_of(s.l3_over_current_warning_threshold as nat)),
        ("ecThresholdLoAlmL1"@, dec_digits_of(s.l1_low_current_alarm_threshold as nat)),
        ("ecThresholdLoAlmL2"@, dec_digits_of(s.l2_low_current_alarm_threshold as nat)),
        ("ecThresholdLoAlmL3"@, dec_digits_of(s.l3_low_current_alarm_threshold as nat)),
    ]
}

/// Encodes the input module's settings into their form fields.
pub fn pdu_settings_form(s: &PDUSettings) -> (r: Vec<(String, String)>)
    ensures
        form_view(r@) == spec_pdu_settings_form(s@),
{
    let mut v: Vec<(String, String)> = Vec::new();
    v.push(pair("Submit", "Save"));
    v.push(("label".to_owned(), s.label.clone()));
    v.push(("assetTag1".to_owned(), s.asset_tag_1.clone()));
    v.push(("assetTag2".to_owned(), s.asset_tag_2.clone()));
    v.push(("ecNeutralThrshldOverAlarm".to_owned(), u32_to_string(
        s.n_over_current_alarm_threshold,
    )));
    v.push(("ecNeutralThrshldOverWarn".to_owned(), u32_to_string(
        s.n_over_current_warning_threshold,
    )));
    v.push(("ecThresholdHiAlmL1".to_owned(), u32_to_string(s.l1_over_current_alarm_threshold)));
    v.push(("ecThresholdHiAlmL2".to_owned(), u32_to_string(s.l2_over_current_alarm_threshold)));
    v.push(("ecThresholdHiAlmL3".to_owned(), u32_to_string(s.l3_over_current_alarm_threshold)));
    v.push(("ecThresholdHiWrnL1".to_owned(), u32_to_string(s.l1_over_current_warning_threshold)));
    v.push(("ecThresholdHiWrnL2".to_owned(), u32_to_string(s.l2_over_current_warning_threshold)));
    v.push(("ecThresholdHiWrnL3".to_owned(), u32_to_string(s.l3_over_current_warning_threshold)));
    v.push(("ecThresholdLoAlmL1".to_owned(), u32_to_string(s.l1_low_current_alarm_threshold)));
    v.push(("ecThresholdLoAlmL2".to_owned(), u32_to_string(s.l2_low_current_alarm_threshold)));
    v.push(("ecThresholdLoAlmL3".to_owned(), u32_to_string(s.l3_low_current_alarm_threshold)));
    proof {
        assert(form_view(v@) =~~= spec_pdu_settings_form(s@));
    }
    v
}

/// The form fields writing a branch module's settings back.
pub open spec fn spec_branch_settings_form(s: crate::branch::BranchSettingsView) -> Seq<
    (Seq<char>, Seq<char>),
> {
    seq![
        ("Submit"@, "Save"@),
        ("label"@, s.label),
        ("assetTag1"@, s.asset_tag_1),
        ("assetTag2"@, s.asset_tag_2),
        ("ecThresholdHiAlmLN"@, dec_digits_of(s.over_current_alarm_threshold as nat)),
        ("ecThresholdHiWrnLN"@, dec_digits_of(s.over_current_warning_threshold as nat)),
        ("ecThresholdLoAlmLN"@, dec_digits_of(s.low_current_alarm_threshold as nat)),
    ]
}

/// Encodes a branch module's settings into their form fields.
pub fn branch_settings_form(s: &BranchSettings) -> (r: Vec<(String, String)>)
    ensures
        form_view(r@) == spec_branch_settings_form(s@),
{
    let mut v: Vec<(String, String)> = Vec::new();
    v.push(pair("Submit", "Save"));
    v.push(("label".to_owned(), s.label.clone()));
    v.push(("assetTag1".to_owned(), s.asset_tag_1.clone()));
    v.push(("assetTag2".to_owned(), s.asset_tag_2.clone()));
    v.push(("ecThresholdHiAlmLN".to_owned(), u32_to_string(s.over_current_alarm_threshold)));
    v.push(("ecThresholdHiWrnLN".to_owned(), u32_to_string(s.over_current_warning_threshold)));
    v.push(("ecThresholdLoAlmLN".to_owned(), u32_to_string(s.low_current_alarm_threshold)));
    proof {
        assert(form_view(v@) =~~= spec_branch_settings_form(s@));
    }
    v
}

/// The form fields writing one receptacle's settings back; the lock state
/// is rendered as `1` or `0`.
pub open spec fn spec_receptacle_settings_form(s: crate::receptacle::ReceptacleSettingsView) -> Seq<
    (Seq<char>, Seq<char>),
> {
    seq![
        ("Submit"@, "Save"@),
        ("label"@, s.label),
        ("assetTag1"@, s.asset_tag_1),
        ("assetTag2"@, s.asset_tag_2),
        ("ecThresholdHiAlmL1"@, dec_digits_of(s.over_current_alarm_threshold as nat)),
        ("ecThresholdHiWrnL1"@, dec_digits_of(s.over_current_warning_threshold as nat)),
        ("ecThresholdLoAlmL1"@, dec_digits_of(s.low_current_alarm_threshold as nat)),
        ("powerUpDelay"@, dec_digits_of(s.power_on_delay as nat)),
        ("lockStateTypeGroup1"@, if s.control_lock_state { "1"@ } else { "0"@ }),
    ]
}

/// Encodes one receptacle's settings into their form fields.
pub fn receptacle_settings_form(s: &ReceptacleSettings) -> (r: Vec<(String, String)>)
    ensures
        form_view(r@) == spec_receptacle_settings_form(s@),
{
    let mut v: Vec<(String, String)> = Vec::new();
    v.push(pair("Submit", "Save"));
    v.push(("label".to_owned(), s.label.clone()));
    v.push(("assetTag1".to_owned(), s.asset_tag_1.clone()));
    v.push(("assetTag2".to_owned(), s.asset_tag_2.clone()));
    v.push(("ecThresholdHiAlmL1".to_owned(), u32_to_string(s.over_current_alarm_threshold)));
    v.push(("ecThresholdHiWrnL1".to_owned(), u32_to_string(s.over_current_warning_threshold)));
    v.push(("ecThresholdLoAlmL1".to_owned(), u32_to_string(s.low_current_alarm_threshold)));
    v.push(("powerUpDelay".to_owned(), u32_to_string(s.power_on_delay)));
    if s.control_lock_state {
        v.push(pair("lockStateTypeGroup1", "1"));
    } else {
        v.push(pair("lockStateTypeGroup1", "0"));
    }
    proof {
        assert(form_view(v@) =~~= spec_receptacle_settings_form(s@));
    }
    v
}

} // verus!
