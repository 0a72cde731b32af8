//! The receptacle overview listing: one row per receptacle, read by fixed
//! child positions, with a dash-joined triplet identifier.

use vstd::prelude::*;

use crate::enums::EventLevel;
use crate::error::ErrorView;
use crate::error::MPXError;
use crate::table::icon_src;
use crate::text::dec_u8;
use crate::text::parse_u8_dec;
use crate::text::split_dash;
use crate::text::split_dash_str;
use crate::text::str_eq;
use crate::text::strings_view;
use crate::tree::DocElement;
use crate::tree::DocNode;
use crate::tree::attr_word;
use crate::tree::get_attr_word;
use crate::tree::views_of;

verus! {

/// One row of the receptacle overview listing: a transient snapshot.
#[derive(Clone, Debug, PartialEq)]
pub struct ReceptacleListEntry {
    /// Unit number (usually 1).
    pub pdu: u8,
    /// Branch number (usually 1 to 6).
    pub branch: u8,
    /// Receptacle number (usually 1 to 6).
    pub receptacle: u8,
    /// Power state (true when on).
    pub enabled: bool,
    /// Lock state (true when locked).
    pub locked: bool,
    /// Health severity, decoded from the row's icon.
    pub status: EventLevel,
    /// User-assigned label.
    pub label: String,
}

/// Mathematical image of a listing row.
#[verifier::ext_equal]
pub struct ReceptacleListEntryView {
    /// Unit number.
    pub pdu: u8,
    /// Branch number.
    pub branch: u8,
    /// Receptacle number.
    pub receptacle: u8,
    /// Power state.
    pub enabled: bool,
    /// Lock state.
    pub locked: bool,
    /// Health severity.
    pub status: EventLevel,
    /// User-assigned label.
    pub label: Seq<char>,
}

impl View for ReceptacleListEntry {
    type V = ReceptacleListEntryView;

    open spec fn view(&self) -> ReceptacleListEntryView {
        ReceptacleListEntryView {
            pdu: self.pdu,
            branch: self.branch,
            receptacle: self.receptacle,
            enabled: self.enabled,
            locked: self.locked,
            status: self.status,
            label: self.label@,
        }
    }
}

/// The label of a listing row: the text at the fixed nested position
/// cell, anchor, styling wrapper, text leaf.
pub open spec fn listing_label(row: DocElement) -> Option<Seq<char>> {
    if row.children@.len() < 1 {
        None
    } else {
        match row.children@[0] {
            DocNode::Element(td) => if td.children@.len() < 1 {
                None
            } else {
                match td.children@[0] {
                    DocNode::Element(a) => if a.children@.len() < 1 {
                        None
                    } else {
                        match a.children@[0] {
                            DocNode::Element(nobr) => if nobr.children@.len() < 1 {
                                None
                            } else {
                                match nobr.children@[0] {
                                    DocNode::Text(t) => Some(t@),
                                    _ => None,
                                }
                            },
                            _ => None,
                        }
                    },
                    _ => None,
                }
            },
            _ => None,
        }
    }
}

/// The `title` word of the marker element inside the cell at position
/// `idx`: the cell must be an element whose first child is an element; the
/// word is that child's `title` attribute, empty when absent.
pub open spec fn marker_word(row: DocElement, idx: int) -> Option<Seq<char>> {
    if row.children@.len() <= idx {
        None
    } else {
        match row.children@[idx] {
            DocNode::Element(td) => if td.children@.len() < 1 {
                None
            } else {
                match td.children@[0] {
                    DocNode::Element(marker) => Some(attr_word(marker.attributes@, "title"@)),
                    _ => None,
                }
            },
            _ => None,
        }
    }
}

/// The icon reference of the health cell at position `idx`: the cell must
/// be an element whose first child is an element; the reference is that
/// child's `src` attribute, empty when absent.
pub open spec fn health_icon(row: DocElement, idx: int) -> Option<Seq<char>> {
    if row.children@.len() <= idx {
        None
    } else {
        match row.children@[idx] {
            DocNode::Element(td) => if td.children@.len() < 1 {
                None
            } else {
                match td.children@[0] {
                    DocNode::Element(img) => Some(attr_word(img.attributes@, "src"@)),
                    _ => None,
                }
            },
            _ => None,
        }
    }
}

/// One dash-joined component read as an eight-bit number.
pub open spec fn triplet_u8(parts: Seq<Seq<char>>, i: int) -> Result<u8, ErrorView> {
    match dec_u8(parts[i]) {
        Ok(v) => Ok(v),
        Err(_) => Err(ErrorView::NumberFormat),
    }
}

/// What parsing one listing row returns.  The row identifier must split
/// into exactly three dash-joined eight-bit numbers; the label, the power
/// and lock markers and the health icon sit at fixed child positions; the
/// marker words and the icon reference must belong to their vocabularies.
pub open spec fn spec_parse_listing_row(row: DocElement) -> Result<
    ReceptacleListEntryView,
    ErrorView,
> {
    match row.id {
        None => Err(ErrorView::Structure),
        Some(id) => {
            let parts = split_dash(id@);
            if parts.len() != 3 {
                Err(ErrorView::Structure)
            } else {
                match (triplet_u8(parts, 0), triplet_u8(parts, 1), triplet_u8(parts, 2)) {
                    (Ok(pdu), Ok(branch), Ok(receptacle)) => match listing_label(row) {
                        None => Err(ErrorView::Structure),
                        Some(label) => match marker_word(row, 2) {
                            None => Err(ErrorView::Structure),
                            Some(pw) => {
                                let enabled = if pw == "On"@ {
                                    Ok(true)
                                } else if pw == "Off"@ {
                                    Ok(false)
                                } else {
                                    Err(ErrorView::Unrecognized)
                                };
                                match enabled {
                                    Err(e) => Err(e),
                                    Ok(enabled) => match marker_word(row, 3) {
                                        None => Err(ErrorView::Structure),
                                        Some(lw) => {
                                            let locked = if lw == "Unlocked"@ {
                                                Ok(false)
                                            } else if lw == "Locked"@ {
                                                Ok(true)
                                            } else {
                                                Err(ErrorView::Unrecognized)
                                            };
                                            match locked {
                                                Err(e) => Err(e),
                                                Ok(locked) => match health_icon(row, 4) {
                                                    None => Err(ErrorView::Structure),
                                                    Some(src) => match EventLevel::spec_from_str(
                                                        src,
                                                    ) {
                                                        Err(_) => Err(ErrorView::Unrecognized),
                                                        Ok(status) => Ok(
                                                            ReceptacleListEntryView {
                                                                pdu,
                                                                branch,
                                                                receptacle,
                                                                enabled,
                                                                locked,
                                                                status,
                                                                label,
                                                            },
                                                        ),
                                                    },
                                                },
                                            }
                                        },
                                    },
                                }
                            },
                        },
                    },
                    _ => Err(ErrorView::NumberFormat),
                }
            }
        },
    }
}

/// Reads the `title` word of the marker element in the cell at `idx`.
fn cell_marker_word(row: &DocElement, idx: usize) -> (r: Option<String>)
    ensures
        match r {
            Some(w) => marker_word(*row, idx as int) == Some(w@),
            None => marker_word(*row, idx as int) is None,
        },
{
    if row.children.len() <= idx {
        return None;
    }
    let td = match &row.children[idx] {
        DocNode::Element(td) => td,
        _ => {
            return None;
        },
    };
    if td.children.len() < 1 {
        return None;
    }
    match &td.children[0] {
        DocNode::Element(marker) => Some(get_attr_word(marker, "title")),
        _ => None,
    }
}

/// Reads the icon reference of the health cell at `idx`.
fn cell_health_icon(row: &DocElement, idx: usize) -> (r: Option<String>)
    ensures
        match r {
            Some(w) => health_icon(*row, idx as int) == Some(w@),
            None => health_icon(*row, idx as int) is None,
        },
{
    if row.children.len() <= idx {
        return None;
    }
    let td = match &row.children[idx] {
        DocNode::Element(td) => td,
        _ => {
            return None;
        },
    };
    if td.children.len() < 1 {
        return None;
    }
    match &td.children[0] {
        DocNode::Element(img) => Some(get_attr_word(img, "src")),
        _ => None,
    }
}

/// Reads the label at the row's fixed nested position.
fn cell_listing_label(row: &DocElement) -> (r: Option<String>)
    ensures
        match r {
            Some(t) => listing_label(*row) == Some(t@),
            None => listing_label(*row) is None,
        },
{
    if row.children.len() < 1 {
        return None;
    }
    let td = match &row.children[0] {
        DocNode::Element(td) => td,
        _ => {
            return None;
        },
    };
    if td.children.len() < 1 {
        return None;
    }
    let a = match &td.children[0] {
        DocNode::Element(a) => a,
        _ => {
            return None;
        },
    };
    if a.children.len() < 1 {
        return None;
    }
    let nobr = match &a.children[0] {
        DocNode::Element(nobr) => nobr,
        _ => {
            return None;
        },
    };
    if nobr.children.len() < 1 {
        return None;
    }
    match &nobr.children[0] {
        DocNode::Text(t) => Some(t.clone()),
        _ => None,
    }
}

/// Parses one row of the receptacle overview listing.  Rows without an
/// identifier (section headers) are skipped by the caller and never reach
/// this parser.
pub fn parse_receptacle_list_row(row: &DocElement) -> (r: Result<ReceptacleListEntry, MPXError>)
    requires
        row.id is Some,
    ensures
        match r {
            Ok(entry) => spec_parse_listing_row(*row) == Ok::<ReceptacleListEntryView, ErrorView>(
                entry@,
            ),
            Err(e) => spec_parse_listing_row(*row) == Err::<ReceptacleListEntryView, ErrorView>(e@),
        },
{
    let id = match &row.id {
        Some(id) => id,
        None => {
            return Err(MPXError::structure());
        },
    };
    let parts = split_dash_str(id.as_str());
    proof {
        assert(forall|k: int|
            0 <= k < parts@.len() ==> strings_view(parts@)[k] == #[trigger] parts@[k]@);
    }
    if parts.len() != 3 {
        return Err(MPXError::structure());
    }
    let pdu = match parse_u8_dec(parts[0].as_str()) {
        Ok(v) => v,
        Err(_) => {
            return Err(MPXError::number_format());
        },
    };
    let branch = match parse_u8_dec(parts[1].as_str()) {
        Ok(v) => v,
        Err(_) => {
            return Err(MPXError::number_format());
        },
    };
    let receptacle = match parse_u8_dec(parts[2].as_str()) {
        Ok(v) => v,
        Err(_) => {
            return Err(MPXError::number_format());
        },
    };
    let label = match cell_listing_label(row) {
        Some(t) => t,
        None => {
            return Err(MPXError::structure());
        },
    };
    let enabled = match cell_marker_word(row, 2) {
        Some(w) => {
            if str_eq(w.as_str(), "On") {
                true
            } else if str_eq(w.as_str(), "Off") {
                false
            } else {
                return Err(MPXError::unrecognized());
            }
        },
        None => {
            return Err(MPXError::structure());
        },
    };
    let locked = match cell_marker_word(row, 3) {
        Some(w) => {
            if str_eq(w.as_str(), "Unlocked") {
                false
            } else if str_eq(w.as_str(), "Locked") {
                true
            } else {
                return Err(MPXError::unrecognized());
            }
        },
        None => {
            return Err(MPXError::structure());
        },
    };
    let status = match cell_health_icon(row, 4) {
        Some(src) => match EventLevel::from_str(src.as_str()) {
            Ok(level) => level,
            Err(_) => {
                return Err(MPXError::unrecognized());
            },
        },
        None => {
            return Err(MPXError::structure());
        },
    };
    Ok(ReceptacleListEntry { pdu, branch, receptacle, enabled, locked, status, label })
}

/// The entries a listing table's rows build up: data rows are the `tr`
/// elements carrying an identifier; other elements are skipped; a text
/// node among the rows is a structure failure.
pub open spec fn listing_table_fold(
    rows: Seq<DocNode>,
    acc: Seq<ReceptacleListEntryView>,
) -> Result<Seq<ReceptacleListEntryView>, ErrorView>
    decreases rows.len(),
{
    if rows.len() == 0 {
        Ok(acc)
    } else {
        match rows[0] {
            DocNode::Element(row) => if row.name@ == "tr"@ && row.id is Some {
                match spec_parse_listing_row(row) {
                    Ok(entry) => listing_table_fold(rows.skip(1), acc.push(entry)),
                    Err(e) => Err(e),
                }
            } else {
                listing_table_fold(rows.skip(1), acc)
            },
            _ => Err(ErrorView::Structure),
        }
    }
}

/// What reading the whole receptacle listing from a document returns: every
/// root element whose identifier is `rcpTable` and whose name is `table`
/// contributes its rows in order; a text node among the roots or the rows
/// is a structure failure.
pub open spec fn receptacles_build(
    doc: Seq<DocNode>,
    acc: Seq<ReceptacleListEntryView>,
) -> Result<Seq<ReceptacleListEntryView>, ErrorView>
    decreases doc.len(),
{
    if doc.len() == 0 {
        Ok(acc)
    } else {
        match doc[0] {
            DocNode::Element(e) => if e.name@ == "table"@ && (e.id matches Some(i) && i@
                == "rcpTable"@) {
                match listing_table_fold(e.children@, acc) {
                    Ok(acc2) => receptacles_build(doc.skip(1), acc2),
                    Err(err) => Err(err),
                }
            } else {
                receptacles_build(doc.skip(1), acc)
            },
            _ => Err(ErrorView::Structure),
        }
    }
}

/// The views of a sequence of listing entries.
pub open spec fn entry_views(s: Seq<ReceptacleListEntry>) -> Seq<ReceptacleListEntryView> {
    s.map_values(|x: ReceptacleListEntry| x@)
}

/// Reads the receptacle overview listing out of a parsed document.
#[verifier::loop_isolation(false)]
pub fn receptacles_from_document(doc: &Vec<DocNode>) -> (r: Result<
    Vec<ReceptacleListEntry>,
    MPXError,
>)
    ensures
        match r {
            Ok(list) => receptacles_build(doc@, Seq::empty()) == Ok::<
                Seq<ReceptacleListEntryView>,
                ErrorView,
            >(entry_views(list@)),
            Err(e) => receptacles_build(doc@, Seq::empty()) == Err::<
                Seq<ReceptacleListEntryView>,
                ErrorView,
            >(e@),
        },
{
    let mut out: Vec<ReceptacleListEntry> = Vec::new();
    let n = doc.len();
    let mut i: usize = 0;
    proof {
        assert(doc@.skip(0) =~= doc@);
        assert(entry_views(out@) =~= Seq::<ReceptacleListEntryView>::empty());
    }
    while i < n
        invariant
            0 <= i <= n,
            n == doc@.len(),
            receptacles_build(doc@, Seq::empty()) == receptacles_build(
                doc@.skip(i as int),
                entry_views(out@),
            ),
        decreases n - i,
    {
        proof {
            assert(doc@.skip(i as int)[0] == doc@[i as int]);
            assert(doc@.skip(i as int).skip(1) =~= doc@.skip(i + 1));
        }
        let e = match &doc[i] {
            DocNode::Element(e) => e,
            _ => {
                return Err(MPXError::structure());
            },
        };
        let id_matches: bool = match &e.id {
            Some(id) => str_eq(id.as_str(), "rcpTable"),
            None => false,
        };
        if id_matches && str_eq(e.name.as_str(), "table") {
            let rows = e.children.len();
            let mut j: usize = 0;
            proof {
                assert(e.children@.skip(0) =~= e.children@);
            }
            while j < rows
                invariant
                    0 <= j <= rows,
                    rows == e.children@.len(),
                    receptacles_build(doc@, Seq::empty()) == match listing_table_fold(
                        e.children@.skip(j as int),
                        entry_views(out@),
                    ) {
                        Ok(acc2) => receptacles_build(doc@.skip(i + 1), acc2),
                        Err(err) => Err(err),
                    },
                decreases rows - j,
            {
                proof {
                    assert(e.children@.skip(j as int)[0] == e.children@[j as int]);
                    assert(e.children@.skip(j as int).skip(1) =~= e.children@.skip(j + 1));
                }
                let row = match &e.children[j] {
                    DocNode::Element(row) => row,
                    _ => {
                        return Err(MPXError::structure());
                    },
                };
                if str_eq(row.name.as_str(), "tr") && row.id.is_some() {
                    match parse_receptacle_list_row(row) {
                        Ok(entry) => {
                            let ghost prev = out@;
                            out.push(entry);
                            proof {
                                assert(entry_views(out@) =~= entry_views(prev).push(out@[
                                    out@.len() - 1]@));
                            }
                        },
                        Err(err) => {
                            return Err(err);
                        },
                    }
                }
                j = j + 1;
            }
            proof {
                assert(e.children@.skip(rows as int) =~= Seq::<DocNode>::empty());
            }
        }
        i = i + 1;
    }
    proof {
        assert(doc@.skip(n as int) =~= Seq::<DocNode>::empty());
    }
    Ok(out)
}

/// The receptacle overview listing, in document order.
pub type ReceptacleList = Vec<ReceptacleListEntry>;

/// Parses the receptacle overview page and reads its listing.  The parse
/// image of the text is named (`parsed_doc`); the result is exactly what
/// `receptacles_build` states for a tree bearing that image.
pub fn parse_receptacles(html: String) -> (r: Result<Vec<ReceptacleListEntry>, MPXError>)
    ensures
        r matches Ok(list) ==> (crate::html::parsed_doc(html@) matches Some(dv) && exists|
            doc: Seq<DocNode>,
        |
            #[trigger] views_of(doc) == dv && receptacles_build(doc, Seq::empty()) == Ok::<
                Seq<ReceptacleListEntryView>,
                ErrorView,
            >(entry_views(list@))),
        r matches Err(e) ==> match crate::html::parsed_doc(html@) {
            None => e@ == ErrorView::Document,
            Some(dv) => exists|doc: Seq<DocNode>|
                #[trigger] views_of(doc) == dv && receptacles_build(doc, Seq::empty()) == Err::<
                    Seq<ReceptacleListEntryView>,
                    ErrorView,
                >(e@),
        },
{
    let doc = match crate::html::parse_document(html.as_str()) {
        Ok(d) => d,
        Err(e) => {
            return Err(MPXError::HTMLParser(e));
        },
    };
    proof {
        assert(crate::html::parsed_doc(html@) == Some(views_of(doc@)));
    }
    let r = receptacles_from_document(&doc);
    proof {
        match r {
            Ok(ref list) => {
                assert(views_of(doc@) == views_of(doc@) && receptacles_build(doc@, Seq::empty())
                    == Ok::<Seq<ReceptacleListEntryView>, ErrorView>(entry_views(list@)));
            },
            Err(ref e) => {
                assert(views_of(doc@) == views_of(doc@) && receptacles_build(doc@, Seq::empty())
                    == Err::<Seq<ReceptacleListEntryView>, ErrorView>(e@));
            },
        }
    }
    r
}

/// A parsed listing row's flags come from the marker words alone: the
/// power-state word must be `On` or `Off` and the lock word `Locked` or
/// `Unlocked`, with the flags set accordingly; any other word never yields
/// an entry.
pub proof fn lemma_listing_row_marker_words(row: DocElement)
    ensures
        spec_parse_listing_row(row) matches Ok(e) ==> ((marker_word(row, 2) == Some("On"@)
            && e.enabled) || (marker_word(row, 2) == Some("Off"@) && !e.enabled)),
        spec_parse_listing_row(row) matches Ok(e) ==> ((marker_word(row, 3) == Some("Locked"@)
            && e.locked) || (marker_word(row, 3) == Some("Unlocked"@) && !e.locked)),
{
}

} // verus!
