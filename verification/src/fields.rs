//! Field access for the record builders: looking one label up in an
//! extracted table and converting the value found there, with a
//! missing-field failure naming the absent label, an unrecognized-value
//! failure for words and units outside their vocabulary, and a malformed-
//! number failure for magnitudes that are no decimal numbers.

use vstd::prelude::*;

use crate::enums::BRMModel;
use crate::enums::Capability;
use crate::enums::EventLevel;
use crate::enums::LineSource;
use crate::enums::PEMModel;
use crate::enums::ReceptacleType;
use crate::enums::WiringType;
use crate::error::ErrorView;
use crate::error::MPXError;
use crate::table::RawTable;
use crate::table::TableMap;
use crate::table::TableValue;
use crate::table::TableValueView;
use crate::table::spec_get_magnitude;
use crate::table::spec_get_u32;
use crate::text::str_eq;
use crate::text::strip_nbsp;
use crate::text::strip_nbsp_spec;
use crate::version::FWVersion;

verus! {

/// The table value under a label, or a missing-field failure naming it.
pub open spec fn field_raw(m: TableMap, lbl: Seq<char>) -> Result<TableValueView, ErrorView> {
    if m.dom().contains(lbl) {
        Ok(m[lbl])
    } else {
        Err(ErrorView::Missing { label: lbl })
    }
}

/// The value text under a label, verbatim.
pub open spec fn field_str(m: TableMap, lbl: Seq<char>) -> Result<Seq<char>, ErrorView> {
    match field_raw(m, lbl) {
        Ok(tv) => Ok(tv.value),
        Err(e) => Err(e),
    }
}

/// The value text under a label with non-breaking-space padding removed,
/// as asset tags are read.
pub open spec fn field_tag(m: TableMap, lbl: Seq<char>) -> Result<Seq<char>, ErrorView> {
    match field_raw(m, lbl) {
        Ok(tv) => Ok(strip_nbsp_spec(tv.value)),
        Err(e) => Err(e),
    }
}

/// The 32-bit magnitude under a label, its unit word checked first.
pub open spec fn field_u32(m: TableMap, lbl: Seq<char>, unit: Seq<char>) -> Result<u32, ErrorView> {
    match field_raw(m, lbl) {
        Ok(tv) => spec_get_u32(tv, unit),
        Err(e) => Err(e),
    }
}

/// The magnitude text under a label, its unit word checked first.
pub open spec fn field_magnitude(m: TableMap, lbl: Seq<char>, unit: Seq<char>) -> Result<
    Seq<char>,
    ErrorView,
> {
    match field_raw(m, lbl) {
        Ok(tv) => spec_get_magnitude(tv, unit),
        Err(e) => Err(e),
    }
}

/// Whether the value under a label equals a sentinel word.
pub open spec fn field_flag(m: TableMap, lbl: Seq<char>, word: Seq<char>) -> Result<
    bool,
    ErrorView,
> {
    match field_raw(m, lbl) {
        Ok(tv) => Ok(tv.value == word),
        Err(e) => Err(e),
    }
}

/// The severity decoded from the icon reference under a label.
pub open spec fn field_event_level(m: TableMap, lbl: Seq<char>) -> Result<EventLevel, ErrorView> {
    match field_str(m, lbl) {
        Ok(s) => match EventLevel::spec_from_str(s) {
            Ok(v) => Ok(v),
            Err(_) => Err(ErrorView::Unrecognized),
        },
        Err(e) => Err(e),
    }
}

/// The wiring type decoded from the value under a label.
pub open spec fn field_wiring_type(m: TableMap, lbl: Seq<char>) -> Result<WiringType, ErrorView> {
    match field_str(m, lbl) {
        Ok(s) => match WiringType::spec_from_str(s) {
            Ok(v) => Ok(v),
            Err(_) => Err(ErrorView::Unrecognized),
        },
        Err(e) => Err(e),
    }
}

/// The input-module model decoded from the value under a label.
pub open spec fn field_pem_model(m: TableMap, lbl: Seq<char>) -> Result<PEMModel, ErrorView> {
    match field_str(m, lbl) {
        Ok(s) => match PEMModel::spec_from_str(s) {
            Ok(v) => Ok(v),
            Err(_) => Err(ErrorView::Unrecognized),
        },
        Err(e) => Err(e),
    }
}

/// The branch-module model decoded from the value under a label.
pub open spec fn field_brm_model(m: TableMap, lbl: Seq<char>) -> Result<BRMModel, ErrorView> {
    match field_str(m, lbl) {
        Ok(s) => match BRMModel::spec_from_str(s) {
            Ok(v) => Ok(v),
            Err(_) => Err(ErrorView::Unrecognized),
        },
        Err(e) => Err(e),
    }
}

/// The receptacle type decoded from the value under a label.
pub open spec fn field_receptacle_type(m: TableMap, lbl: Seq<char>) -> Result<
    ReceptacleType,
    ErrorView,
> {
    match field_str(m, lbl) {
        Ok(s) => match ReceptacleType::spec_from_str(s) {
            Ok(v) => Ok(v),
            Err(_) => Err(ErrorView::Unrecognized),
        },
        Err(e) => Err(e),
    }
}

/// The line source decoded from the value under a label.
pub open spec fn field_line_source(m: TableMap, lbl: Seq<char>) -> Result<LineSource, ErrorView> {
    match field_str(m, lbl) {
        Ok(s) => match LineSource::spec_from_str(s) {
            Ok(v) => Ok(v),
            Err(_) => Err(ErrorView::Unrecognized),
        },
        Err(e) => Err(e),
    }
}

/// The capability decoded from the value under a label.
pub open spec fn field_capability(m: TableMap, lbl: Seq<char>) -> Result<Capability, ErrorView> {
    match field_str(m, lbl) {
        Ok(s) => match Capability::spec_from_str(s) {
            Ok(v) => Ok(v),
            Err(_) => Err(ErrorView::Unrecognized),
        },
        Err(e) => Err(e),
    }
}

/// The firmware version parsed from the value under a label.
pub open spec fn field_fw_version(m: TableMap, lbl: Seq<char>) -> Result<FWVersion, ErrorView> {
    match field_str(m, lbl) {
        Ok(s) => FWVersion::spec_from_str(s),
        Err(e) => Err(e),
    }
}

/// Looks one label up.
pub fn tbl_raw<'a>(t: &'a RawTable, lbl: &str) -> (r: Result<&'a TableValue, MPXError>)
    ensures
        match r {
            Ok(tv) => field_raw(t@, lbl@) == Ok::<TableValueView, ErrorView>(tv@),
            Err(e) => field_raw(t@, lbl@) == Err::<TableValueView, ErrorView>(e@),
        },
{
    match t.get(lbl) {
        Some(tv) => Ok(tv),
        None => Err(MPXError::missing(lbl)),
    }
}

/// Reads the value text under a label, verbatim.
pub fn tbl_str(t: &RawTable, lbl: &str) -> (r: Result<String, MPXError>)
    ensures
        match r {
            Ok(v) => field_str(t@, lbl@) == Ok::<Seq<char>, ErrorView>(v@),
            Err(e) => field_str(t@, lbl@) == Err::<Seq<char>, ErrorView>(e@),
        },
{
    match tbl_raw(t, lbl) {
        Ok(tv) => Ok(tv.value.clone()),
        Err(e) => Err(e),
    }
}

/// Reads an asset tag under a label, stripping non-breaking-space padding.
pub fn tbl_tag(t: &RawTable, lbl: &str) -> (r: Result<String, MPXError>)
    ensures
        match r {
            Ok(v) => field_tag(t@, lbl@) == Ok::<Seq<char>, ErrorView>(v@),
            Err(e) => field_tag(t@, lbl@) == Err::<Seq<char>, ErrorView>(e@),
        },
{
    match tbl_raw(t, lbl) {
        Ok(tv) => Ok(strip_nbsp(tv.value.as_str())),
        Err(e) => Err(e),
    }
}

/// Reads a 32-bit magnitude under a label, checking its unit word.
pub fn tbl_u32(t: &RawTable, lbl: &str, unit: &str) -> (r: Result<u32, MPXError>)
    ensures
        match r {
            Ok(v) => field_u32(t@, lbl@, unit@) == Ok::<u32, ErrorView>(v),
            Err(e) => field_u32(t@, lbl@, unit@) == Err::<u32, ErrorView>(e@),
        },
{
    match tbl_raw(t, lbl) {
        Ok(tv) => tv.get_u32(unit),
        Err(e) => Err(e),
    }
}

/// Reads a magnitude text under a label, checking its unit word.
pub fn tbl_magnitude(t: &RawTable, lbl: &str, unit: &str) -> (r: Result<String, MPXError>)
    ensures
        match r {
            Ok(v) => field_magnitude(t@, lbl@, unit@) == Ok::<Seq<char>, ErrorView>(v@),
            Err(e) => field_magnitude(t@, lbl@, unit@) == Err::<Seq<char>, ErrorView>(e@),
        },
{
    match tbl_raw(t, lbl) {
        Ok(tv) => tv.get_magnitude(unit),
        Err(e) => Err(e),
    }
}

/// Reads whether the value under a label equals a sentinel word.
pub fn tbl_flag(t: &RawTable, lbl: &str, word: &str) -> (r: Result<bool, MPXError>)
    ensures
        match r {
            Ok(v) => field_flag(t@, lbl@, word@) == Ok::<bool, ErrorView>(v),
            Err(e) => field_flag(t@, lbl@, word@) == Err::<bool, ErrorView>(e@),
        },
{
    match tbl_raw(t, lbl) {
        Ok(tv) => Ok(str_eq(tv.value.as_str(), word)),
        Err(e) => Err(e),
    }
}

/// Reads a severity icon reference under a label.
pub fn tbl_event_level(t: &RawTable, lbl: &str) -> (r: Result<EventLevel, MPXError>)
    ensures
        match r {
            Ok(v) => field_event_level(t@, lbl@) == Ok::<EventLevel, ErrorView>(v),
            Err(e) => field_event_level(t@, lbl@) == Err::<EventLevel, ErrorView>(e@),
        },
{
    match tbl_raw(t, lbl) {
        Ok(tv) => match EventLevel::from_str(tv.value.as_str()) {
            Ok(v) => Ok(v),
            Err(_) => Err(MPXError::unrecognized()),
        },
        Err(e) => Err(e),
    }
}

/// Reads a wiring-type word under a label.
pub fn tbl_wiring_type(t: &RawTable, lbl: &str) -> (r: Result<WiringType, MPXError>)
    ensures
        match r {
            Ok(v) => field_wiring_type(t@, lbl@) == Ok::<WiringType, ErrorView>(v),
            Err(e) => field_wiring_type(t@, lbl@) == Err::<WiringType, ErrorView>(e@),
        },
{
    match tbl_raw(t, lbl) {
        Ok(tv) => match WiringType::from_str(tv.value.as_str()) {
            Ok(v) => Ok(v),
            Err(_) => Err(MPXError::unrecognized()),
        },
        Err(e) => Err(e),
    }
}

/// Reads an input-module model code under a label.
pub fn tbl_pem_model(t: &RawTable, lbl: &str) -> (r: Result<PEMModel, MPXError>)
    ensures
        match r {
            Ok(v) => field_pem_model(t@, lbl@) == Ok::<PEMModel, ErrorView>(v),
            Err(e) => field_pem_model(t@, lbl@) == Err::<PEMModel, ErrorView>(e@),
        },
{
    match tbl_raw(t, lbl) {
        Ok(tv) => match PEMModel::from_str(tv.value.as_str()) {
            Ok(v) => Ok(v),
            Err(_) => Err(MPXError::unrecognized()),
        },
        Err(e) => Err(e),
    }
}

/// Reads a branch-module model code under a label.
pub fn tbl_brm_model(t: &RawTable, lbl: &str) -> (r: Result<BRMModel, MPXError>)
    ensures
        match r {
            Ok(v) => field_brm_model(t@, lbl@) == Ok::<BRMModel, ErrorView>(v),
            Err(e) => field_brm_model(t@, lbl@) == Err::<BRMModel, ErrorView>(e@),
        },
{
    match tbl_raw(t, lbl) {
        Ok(tv) => match BRMModel::from_str(tv.value.as_str()) {
            Ok(v) => Ok(v),
            Err(_) => Err(MPXError::unrecognized()),
        },
        Err(e) => Err(e),
    }
}

/// Reads a receptacle-type word under a label.
pub fn tbl_receptacle_type(t: &RawTable, lbl: &str) -> (r: Result<ReceptacleType, MPXError>)
    ensures
        match r {
            Ok(v) => field_receptacle_type(t@, lbl@) == Ok::<ReceptacleType, ErrorView>(v),
            Err(e) => field_receptacle_type(t@, lbl@) == Err::<ReceptacleType, ErrorView>(e@),
        },
{
    match tbl_raw(t, lbl) {
        Ok(tv) => match ReceptacleType::from_str(tv.value.as_str()) {
            Ok(v) => Ok(v),
            Err(_) => Err(MPXError::unrecognized()),
        },
        Err(e) => Err(e),
    }
}

/// Reads a line-source word under a label.
pub fn tbl_line_source(t: &RawTable, lbl: &str) -> (r: Result<LineSource, MPXError>)
    ensures
        match r {
            Ok(v) => field_line_source(t@, lbl@) == Ok::<LineSource, ErrorView>(v),
            Err(e) => field_line_source(t@, lbl@) == Err::<LineSource, ErrorView>(e@),
        },
{
    match tbl_raw(t, lbl) {
        Ok(tv) => match LineSource::from_str(tv.value.as_str()) {
            Ok(v) => Ok(v),
            Err(_) => Err(MPXError::unrecognized()),
        },
        Err(e) => Err(e),
    }
}

/// Reads a capability word under a label.
pub fn tbl_capability(t: &RawTable, lbl: &str) -> (r: Result<Capability, MPXError>)
    ensures
        match r {
            Ok(v) => field_capability(t@, lbl@) == Ok::<Capability, ErrorView>(v),
            Err(e) => field_capability(t@, lbl@) == Err::<Capability, ErrorView>(e@),
        },
{
    match tbl_raw(t, lbl) {
        Ok(tv) => match Capability::from_str(tv.value.as_str()) {
            Ok(v) => Ok(v),
            Err(_) => Err(MPXError::unrecognized()),
        },
        Err(e) => Err(e),
    }
}

/// Reads a firmware-version text under a label.
pub fn tbl_fw_version(t: &RawTable, lbl: &str) -> (r: Result<FWVersion, MPXError>)
    ensures
        match r {
            Ok(v) => field_fw_version(t@, lbl@) == Ok::<FWVersion, ErrorView>(v),
            Err(e) => field_fw_version(t@, lbl@) == Err::<FWVersion, ErrorView>(e@),
        },
{
    match tbl_raw(t, lbl) {
        Ok(tv) => FWVersion::from_str(tv.value.as_str()),
        Err(e) => Err(e),
    }
}

} // verus!
