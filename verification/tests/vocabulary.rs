//! Every word of each closed vocabulary decodes to its own variant, and
//! words outside a vocabulary are rejected.

use liebert_mpx::BRMModel;
use liebert_mpx::Capability;
use liebert_mpx::EventLevel;
use liebert_mpx::EventType;
use liebert_mpx::LineSource;
use liebert_mpx::PEMModel;
use liebert_mpx::ReceptacleType;
use liebert_mpx::WiringType;

#[test]
fn brm_model_vocabulary_round_trip() {
    assert_eq!(BRMModel::from_str("MPXBRM-EEBC7N1N"), Ok(BRMModel::EEBC7N1N));
    assert_eq!(BRMModel::from_str("MPXBRM-EEBC7N2N"), Ok(BRMModel::EEBC7N2N));
    assert_eq!(BRMModel::from_str("MPXBRM-EEBC7N3N"), Ok(BRMModel::EEBC7N3N));
    assert_eq!(BRMModel::from_str("MPXBRM-EEBC4O1N"), Ok(BRMModel::EEBC4O1N));
    assert_eq!(BRMModel::from_str("MPXBRM-EEBC4O2N"), Ok(BRMModel::EEBC4O2N));
    assert_eq!(BRMModel::from_str("MPXBRM-EEBC4O3N"), Ok(BRMModel::EEBC4O3N));
    assert_eq!(BRMModel::from_str("MPXBRM-EEBC3P1N"), Ok(BRMModel::EEBC3P1N));
    assert_eq!(BRMModel::from_str("MPXBRM-EEBC3P2N"), Ok(BRMModel::EEBC3P2N));
    assert_eq!(BRMModel::from_str("MPXBRM-EEBC3P3N"), Ok(BRMModel::EEBC3P3N));
    assert_eq!(BRMModel::from_str("MPXBRM-EBBC6N1N"), Ok(BRMModel::EBBC6N1N));
    assert_eq!(BRMModel::from_str("MPXBRM-EBBC6N2N"), Ok(BRMModel::EBBC6N2N));
    assert_eq!(BRMModel::from_str("MPXBRM-EBBC6N3N"), Ok(BRMModel::EBBC6N3N));
    assert_eq!(BRMModel::from_str("MPXBRM-EBBC4O1N"), Ok(BRMModel::EBBC4O1N));
    assert_eq!(BRMModel::from_str("MPXBRM-EBBC4O2N"), Ok(BRMModel::EBBC4O2N));
    assert_eq!(BRMModel::from_str("MPXBRM-EBBC4O3N"), Ok(BRMModel::EBBC4O3N));
    assert_eq!(BRMModel::from_str("MPXBRM-EBBC3P1N"), Ok(BRMModel::EBBC3P1N));
    assert_eq!(BRMModel::from_str("MPXBRM-EBBC3P2N"), Ok(BRMModel::EBBC3P2N));
    assert_eq!(BRMModel::from_str("MPXBRM-EBBC3P3N"), Ok(BRMModel::EBBC3P3N));
    assert_eq!(BRMModel::from_str("MPXBRM-ERBC6N1N"), Ok(BRMModel::ERBC6N1N));
    assert_eq!(BRMModel::from_str("MPXBRM-ERBC6N2N"), Ok(BRMModel::ERBC6N2N));
    assert_eq!(BRMModel::from_str("MPXBRM-ERBC6N3N"), Ok(BRMModel::ERBC6N3N));
    assert_eq!(BRMModel::from_str("MPXBRM-ERBC4O1N"), Ok(BRMModel::ERBC4O1N));
    assert_eq!(BRMModel::from_str("MPXBRM-ERBC4O2N"), Ok(BRMModel::ERBC4O2N));
    assert_eq!(BRMModel::from_str("MPXBRM-ERBC4O3N"), Ok(BRMModel::ERBC4O3N));
    assert_eq!(BRMModel::from_str("MPXBRM-ERBC3P1N"), Ok(BRMModel::ERBC3P1N));
    assert_eq!(BRMModel::from_str("MPXBRM-ERBC3P2N"), Ok(BRMModel::ERBC3P2N));
    assert_eq!(BRMModel::from_str("MPXBRM-ERBC3P3N"), Ok(BRMModel::ERBC3P3N));
}

#[test]
fn brm_model_rejects_unknown_words() {
    assert!(BRMModel::from_str("").is_err());
    assert!(BRMModel::from_str("unexpected word").is_err());
    assert!(BRMModel::from_str("MPXBRM-EEBC7N1N ").is_err());
    assert!(BRMModel::from_str("mpxbrm-eebc7n1nx").is_err());
}

#[test]
fn capability_vocabulary_round_trip() {
    assert_eq!(Capability::from_str("All Measurements/Control"), Ok(Capability::MeasureAndControl));
}

#[test]
fn capability_rejects_unknown_words() {
    assert!(Capability::from_str("").is_err());
    assert!(Capability::from_str("unexpected word").is_err());
    assert!(Capability::from_str("All Measurements/Control ").is_err());
    assert!(Capability::from_str("all measurements/controlx").is_err());
}

#[test]
fn event_level_vocabulary_round_trip() {
    assert_eq!(EventLevel::from_str("../../../images/accept.png"), Ok(EventLevel::OK));
    assert_eq!(EventLevel::from_str("../../../images/warn.png"), Ok(EventLevel::WARNING));
    assert_eq!(EventLevel::from_str("../../../images/information.png"), Ok(EventLevel::INFO));
    assert_eq!(EventLevel::from_str("../../../images/err.png"), Ok(EventLevel::ALARM));
}

#[test]
fn event_level_rejects_unknown_words() {
    assert!(EventLevel::from_str("").is_err());
    assert!(EventLevel::from_str("unexpected word").is_err());
    assert!(EventLevel::from_str("../../../images/accept.png ").is_err());
    assert!(EventLevel::from_str("../../../images/accept.pngx").is_err());
}

#[test]
fn event_type_vocabulary_round_trip() {
    assert_eq!(EventType::from_str("Receptacle Over Current"), Ok(EventType::ReceptacleOverCurrent));
    assert_eq!(EventType::from_str("Receptacle Low Current"), Ok(EventType::ReceptacleLowCurrent));
    assert_eq!(EventType::from_str("Branch Low Voltage (LN)"), Ok(EventType::BranchLowVoltage));
    assert_eq!(EventType::from_str("Branch Over Current"), Ok(EventType::BranchOverCurrent));
    assert_eq!(EventType::from_str("Branch Low Current"), Ok(EventType::BranchLowCurrent));
    assert_eq!(EventType::from_str("Branch Failure"), Ok(EventType::BranchFailure));
    assert_eq!(EventType::from_str("Branch Breaker Open"), Ok(EventType::BranchBreakerOpen));
    assert_eq!(EventType::from_str("PDU Low Voltage L1-N"), Ok(EventType::PDULowVoltageL1));
    assert_eq!(EventType::from_str("PDU Low Voltage L2-N"), Ok(EventType::PDULowVoltageL2));
    assert_eq!(EventType::from_str("PDU Low Voltage L3-N"), Ok(EventType::PDULowVoltageL3));
    assert_eq!(EventType::from_str("PDU Over Current L1"), Ok(EventType::PDUOverCurrentL1));
    assert_eq!(EventType::from_str("PDU Over Current L2"), Ok(EventType::PDUOverCurrentL2));
    assert_eq!(EventType::from_str("PDU Over Current L3"), Ok(EventType::PDUOverCurrentL3));
    assert_eq!(EventType::from_str("PDU Low Current L1"), Ok(EventType::PDULowCurrentL1));
    assert_eq!(EventType::from_str("PDU Low Current L2"), Ok(EventType::PDULowCurrentL2));
    assert_eq!(EventType::from_str("PDU Low Current L3"), Ok(EventType::PDULowCurrentL3));
    assert_eq!(EventType::from_str("PDU Failure"), Ok(EventType::PDUFailure));
    assert_eq!(EventType::from_str("PDU Communication Fail"), Ok(EventType::PDUCommunicationFail));
    assert_eq!(EventType::from_str("PDU Neutral Over Current"), Ok(EventType::PDUOverCurrentN));
}

#[test]
fn event_type_rejects_unknown_words() {
    assert!(EventType::from_str("").is_err());
    assert!(EventType::from_str("unexpected word").is_err());
    assert!(EventType::from_str("Receptacle Over Current ").is_err());
    assert!(EventType::from_str("receptacle over currentx").is_err());
}

#[test]
fn line_source_vocabulary_round_trip() {
    assert_eq!(LineSource::from_str("Type L1-N"), Ok(LineSource::L1toN));
    assert_eq!(LineSource::from_str("Type L2-N"), Ok(LineSource::L2toN));
    assert_eq!(LineSource::from_str("Type L3-N"), Ok(LineSource::L3toN));
}

#[test]
fn line_source_rejects_unknown_words() {
    assert!(LineSource::from_str("").is_err());
    assert!(LineSource::from_str("unexpected word").is_err());
    assert!(LineSource::from_str("Type L1-N ").is_err());
    assert!(LineSource::from_str("type l1-nx").is_err());
}

#[test]
fn pem_model_vocabulary_round_trip() {
    assert_eq!(PEMModel::from_str("MPXPEM-EHAEXQ30"), Ok(PEMModel::EHAEXQ30));
    assert_eq!(PEMModel::from_str("MPXPEM-EHAXXQ30"), Ok(PEMModel::EHAXXQ30));
    assert_eq!(PEMModel::from_str("MPXPEM-EHAEXT30"), Ok(PEMModel::EHAEXT30));
    assert_eq!(PEMModel::from_str("MPXPEM-EHAXXT30"), Ok(PEMModel::EHAXXT30));
    assert_eq!(PEMModel::from_str("MPXPEM-EHAEXR30"), Ok(PEMModel::EHAEXR30));
    assert_eq!(PEMModel::from_str("MPXPEM-EHAXXR30"), Ok(PEMModel::EHAXXR30));
    assert_eq!(PEMModel::from_str("MPXPEM-EHBEXZ30"), Ok(PEMModel::EHBEXZ30));
    assert_eq!(PEMModel::from_str("MPXPEM-EHBXXZ30"), Ok(PEMModel::EHBXXZ30));
}

#[test]
fn pem_model_rejects_unknown_words() {
    assert!(PEMModel::from_str("").is_err());
    assert!(PEMModel::from_str("unexpected word").is_err());
    assert!(PEMModel::from_str("MPXPEM-EHAEXQ30 ").is_err());
    assert!(PEMModel::from_str("mpxpem-ehaexq30x").is_err());
}

#[test]
fn receptacle_type_vocabulary_round_trip() {
    assert_eq!(ReceptacleType::from_str("IEC 60320 Sheet F C13"), Ok(ReceptacleType::C13));
    assert_eq!(ReceptacleType::from_str("C19"), Ok(ReceptacleType::C19));
    assert_eq!(ReceptacleType::from_str("Schuko"), Ok(ReceptacleType::Schuko));
}

#[test]
fn receptacle_type_rejects_unknown_words() {
    assert!(ReceptacleType::from_str("").is_err());
    assert!(ReceptacleType::from_str("unexpected word").is_err());
    assert!(ReceptacleType::from_str("IEC 60320 Sheet F C13 ").is_err());
    assert!(ReceptacleType::from_str("iec 60320 sheet f c13x").is_err());
}

#[test]
fn wiring_type_vocabulary_round_trip() {
    assert_eq!(WiringType::from_str("1-Phase / 3-Wire (L, N, PE)"), Ok(WiringType::OnePhase));
    assert_eq!(WiringType::from_str("3-Phase / 5-Wire (L1, L2, L3, N, PE)"), Ok(WiringType::ThreePhase));
}

#[test]
fn wiring_type_rejects_unknown_words() {
    assert!(WiringType::from_str("").is_err());
    assert!(WiringType::from_str("unexpected word").is_err());
    assert!(WiringType::from_str("1-Phase / 3-Wire (L, N, PE) ").is_err());
    assert!(WiringType::from_str("1-phase / 3-wire (l, n, pe)x").is_err());
}

#[test]
fn display_labels() {
    assert_eq!(WiringType::OnePhase.to_string(), "1-Phase");
    assert_eq!(WiringType::ThreePhase.to_string(), "3-Phase");
    assert_eq!(ReceptacleType::C13.to_string(), "C13");
    assert_eq!(ReceptacleType::Schuko.to_string(), "Schuko");
    assert_eq!(LineSource::L1toN.to_string(), "L1-N");
    assert_eq!(LineSource::L3toN.to_string(), "L3-N");
    assert_eq!(Capability::MeasureAndControl.to_string(), "Measure & Control");
}
