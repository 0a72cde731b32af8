//! The active-alarm table: one event per data row, with a sentinel row and
//! header rows yielding no event.

use vstd::prelude::*;

use crate::enums::EventLevel;
use crate::enums::EventType;
use crate::error::ErrorView;
use crate::error::MPXError;
use crate::table::icon_src;
use crate::table::get_icon_src;
use crate::text::dec_u8;
use crate::text::parse_u8_dec;
use crate::text::split_dash;
use crate::text::split_dash_str;
use crate::text::str_eq;
use crate::text::strings_view;
use crate::tree::DocElement;
use crate::tree::DocNode;
use crate::tree::child_elem_named;
use crate::tree::child_elem_named_id;
use crate::tree::child_text;
use crate::tree::get_child_node;
use crate::tree::get_child_node_by_id;
use crate::tree::get_child_text;
use crate::tree::views_of;

verus! {

/// One reported event: severity, location triplet and kind.  Transient,
/// produced per poll; the caller decides what to keep.
#[derive(Copy, Clone, Debug, PartialEq, Eq, Structural)]
pub struct Event {
    /// Severity of the event.
    pub level: EventLevel,
    /// Unit number; 0 where not applicable.
    pub pdu: u8,
    /// Branch number; 0 for unit-level events.
    pub branch: u8,
    /// Receptacle number; 0 for unit- and branch-level events.
    pub receptacle: u8,
    /// The kind of event.
    pub event: EventType,
}

/// One dash-joined location component: a component beyond the end of the
/// split defaults to zero, tolerating unit-level events that omit branch
/// and receptacle; a present component must be an eight-bit number.
pub open spec fn location_u8(parts: Seq<Seq<char>>, i: int) -> Result<u8, ErrorView> {
    if i < parts.len() {
        match dec_u8(parts[i]) {
            Ok(v) => Ok(v),
            Err(_) => Err(ErrorView::NumberFormat),
        }
    } else {
        Ok(0u8)
    }
}

/// What parsing one alarm-table row returns: no event for a header row or
/// for the sentinel row that reports no alarms; otherwise a severity icon
/// in the first cell, a dash-joined location in the second, and the event
/// kind in the third.
pub open spec fn spec_parse_event_row(row: DocElement) -> Result<Option<Event>, ErrorView> {
    if row.children@.len() < 1 {
        Err(ErrorView::Structure)
    } else {
        let c0 = row.children@[0];
        match c0 {
            DocNode::Element(cell) => if cell.name@ == "th"@ {
                Ok(None)
            } else if child_text(c0) == Some("No Alarms Present"@) {
                Ok(None)
            } else {
                match icon_src(c0) {
                    None => Err(ErrorView::Structure),
                    Some(src) => match EventLevel::spec_from_str(src) {
                        Err(_) => Err(ErrorView::Unrecognized),
                        Ok(level) => if row.children@.len() < 3 {
                            Err(ErrorView::Structure)
                        } else {
                            match (child_text(row.children@[1]), child_text(row.children@[2])) {
                                (Some(id), Some(kind)) => {
                                    let parts = split_dash(id);
                                    match (
                                        location_u8(parts, 0),
                                        location_u8(parts, 1),
                                        location_u8(parts, 2),
                                    ) {
                                        (Ok(pdu), Ok(branch), Ok(receptacle)) => match EventType::spec_from_str(
                                            kind,
                                        ) {
                                            Ok(event) => Ok(
                                                Some(Event { level, pdu, branch, receptacle, event }),
                                            ),
                                            Err(_) => Err(ErrorView::Unrecognized),
                                        },
                                        _ => Err(ErrorView::NumberFormat),
                                    }
                                },
                                _ => Err(ErrorView::Structure),
                            }
                        },
                    },
                }
            },
            _ => Err(ErrorView::Structure),
        }
    }
}

/// Parses one row of the alarm table.
pub fn parse_event_row(row: &DocElement) -> (r: Result<Option<Event>, MPXError>)
    ensures
        match r {
            Ok(o) => spec_parse_event_row(*row) == Ok::<Option<Event>, ErrorView>(o),
            Err(e) => spec_parse_event_row(*row) == Err::<Option<Event>, ErrorView>(e@),
        },
{
    if row.children.len() < 1 {
        return Err(MPXError::structure());
    }
    let colnode0 = &row.children[0];
    let cell = match colnode0 {
        DocNode::Element(cell) => cell,
        _ => {
            return Err(MPXError::structure());
        },
    };
    if str_eq(cell.name.as_str(), "th") {
        return Ok(None);
    }
    match get_child_text(colnode0) {
        Some(text) => {
            if str_eq(text.as_str(), "No Alarms Present") {
                return Ok(None);
            }
        },
        None => {},
    }
    let level = match get_icon_src(colnode0) {
        Some(src) => match EventLevel::from_str(src.as_str()) {
            Ok(level) => level,
            Err(_) => {
                return Err(MPXError::unrecognized());
            },
        },
        None => {
            return Err(MPXError::structure());
        },
    };
    if row.children.len() < 3 {
        return Err(MPXError::structure());
    }
    let id = match get_child_text(&row.children[1]) {
        Some(t) => t,
        None => {
            return Err(MPXError::structure());
        },
    };
    let kind = match get_child_text(&row.children[2]) {
        Some(t) => t,
        None => {
            return Err(MPXError::structure());
        },
    };
    let parts = split_dash_str(id.as_str());
    proof {
        assert(forall|k: int|
            0 <= k < parts@.len() ==> strings_view(parts@)[k] == #[trigger] parts@[k]@);
    }
    let pdu = if 0 < parts.len() {
        match parse_u8_dec(parts[0].as_str()) {
            Ok(v) => v,
            Err(_) => {
                return Err(MPXError::number_format());
            },
        }
    } else {
        0
    };
    let branch = if 1 < parts.len() {
        match parse_u8_dec(parts[1].as_str()) {
            Ok(v) => v,
            Err(_) => {
                return Err(MPXError::number_format());
            },
        }
    } else {
        0
    };
    let receptacle = if 2 < parts.len() {
        match parse_u8_dec(parts[2].as_str()) {
            Ok(v) => v,
            Err(_) => {
                return Err(MPXError::number_format());
            },
        }
    } else {
        0
    };
    let event = match EventType::from_str(kind.as_str()) {
        Ok(v) => v,
        Err(_) => {
            return Err(MPXError::unrecognized());
        },
    };
    Ok(Some(Event { level, pdu, branch, receptacle, event }))
}

/// The events an alarm table's rows build up, in order: `tr` elements are
/// parsed, other elements are skipped, and a text node among the rows is a
/// structure failure.
pub open spec fn events_table_fold(rows: Seq<DocNode>, acc: Seq<Event>) -> Result<
    Seq<Event>,
    ErrorView,
>
    decreases rows.len(),
{
    if rows.len() == 0 {
        Ok(acc)
    } else {
        match rows[0] {
            DocNode::Element(row) => if row.name@ == "tr"@ {
                match spec_parse_event_row(row) {
                    Ok(Some(ev)) => events_table_fold(rows.skip(1), acc.push(ev)),
                    Ok(None) => events_table_fold(rows.skip(1), acc),
                    Err(e) => Err(e),
                }
            } else {
                events_table_fold(rows.skip(1), acc)
            },
            _ => Err(ErrorView::Structure),
        }
    }
}

/// What reading the active alarms from a document returns: the document's
/// first root node must hold a `body`, the body the labelled detail
/// container, the container a table; the table's rows are read in order.
pub open spec fn events_build(doc: Seq<DocNode>) -> Result<Seq<Event>, ErrorView> {
    if doc.len() == 0 {
        Err(ErrorView::Structure)
    } else {
        match child_elem_named(doc[0], "body"@) {
            None => Err(ErrorView::Structure),
            Some(body) => match child_elem_named_id(body, "div"@, "DetailPanelArea"@) {
                None => Err(ErrorView::Structure),
                Some(detail) => match child_elem_named(detail, "table"@) {
                    None => Err(ErrorView::Structure),
                    Some(tbl) => match tbl {
                        DocNode::Element(t) => events_table_fold(t.children@, Seq::empty()),
                        _ => Err(ErrorView::Structure),
                    },
                },
            },
        }
    }
}

/// Reads the active alarms out of a parsed document.
#[verifier::loop_isolation(false)]
pub fn events_from_document(doc: &Vec<DocNode>) -> (r: Result<Vec<Event>, MPXError>)
    ensures
        match r {
            Ok(list) => events_build(doc@) == Ok::<Seq<Event>, ErrorView>(list@),
            Err(e) => events_build(doc@) == Err::<Seq<Event>, ErrorView>(e@),
        },
{
    if doc.len() == 0 {
        return Err(MPXError::structure());
    }
    let html_node = &doc[0];
    let body_node = match get_child_node(html_node, "body") {
        Some(b) => b,
        None => {
            return Err(MPXError::structure());
        },
    };
    let detail_node = match get_child_node_by_id(body_node, "div", "DetailPanelArea") {
        Some(d) => d,
        None => {
            return Err(MPXError::structure());
        },
    };
    let table_node = match get_child_node(detail_node, "table") {
        Some(t) => t,
        None => {
            return Err(MPXError::structure());
        },
    };
    let t = match table_node {
        DocNode::Element(t) => t,
        _ => {
            return Err(MPXError::structure());
        },
    };
    let mut out: Vec<Event> = Vec::new();
    let n = t.children.len();
    let mut i: usize = 0;
    proof {
        assert(t.children@.skip(0) =~= t.children@);
    }
    while i < n
        invariant
            0 <= i <= n,
            n == t.children@.len(),
            events_build(doc@) == events_table_fold(t.children@.skip(i as int), out@),
        decreases n - i,
    {
        proof {
            assert(t.children@.skip(i as int)[0] == t.children@[i as int]);
            assert(t.children@.skip(i as int).skip(1) =~= t.children@.skip(i + 1));
        }
        let row = match &t.children[i] {
            DocNode::Element(row) => row,
            _ => {
                return Err(MPXError::structure());
            },
        };
        if str_eq(row.name.as_str(), "tr") {
            match parse_event_row(row) {
                Ok(Some(ev)) => {
                    out.push(ev);
                },
                Ok(None) => {},
                Err(e) => {
                    return Err(e);
                },
            }
        }
        i = i + 1;
    }
    proof {
        assert(t.children@.skip(n as int) =~= Seq::<DocNode>::empty());
    }
    Ok(out)
}

/// The events of one poll, in document order.
pub type EventList = Vec<Event>;

/// Parses the active-alarms page and reads its events.  The parse image of
/// the text is named (`parsed_doc`); the result is exactly what
/// `events_build` states for a tree bearing that image.
pub fn parse_events(html: String) -> (r: Result<Vec<Event>, MPXError>)
    ensures
        r matches Ok(list) ==> (crate::html::parsed_doc(html@) matches Some(dv) && exists|
            doc: Seq<DocNode>,
        |
            #[trigger] views_of(doc) == dv && events_build(doc) == Ok::<Seq<Event>, ErrorView>(
                list@,
            )),
        r matches Err(e) ==> match crate::html::parsed_doc(html@) {
            None => e@ == ErrorView::Document,
            Some(dv) => exists|doc: Seq<DocNode>|
                #[trigger] views_of(doc) == dv && events_build(doc) == Err::<
                    Seq<Event>,
                    ErrorView,
                >(e@),
        },
{
    let doc = match crate::html::parse_document(html.as_str()) {
        Ok(d) => d,
        Err(e) => {
            return Err(MPXError::HTMLParser(e));
        },
    };
    proof {
        assert(crate::html::parsed_doc(html@) == Some(views_of(doc@)));
    }
    let r = events_from_document(&doc);
    proof {
        match r {
            Ok(ref list) => {
                assert(views_of(doc@) == views_of(doc@) && events_build(doc@) == Ok::<
                    Seq<Event>,
                    ErrorView,
                >(list@));
            },
            Err(ref e) => {
                assert(views_of(doc@) == views_of(doc@) && events_build(doc@) == Err::<
                    Seq<Event>,
                    ErrorView,
                >(e@));
            },
        }
    }
    r
}

/// An alarm table holding only a header row and the sentinel row that
/// reports no alarms yields the empty event sequence without error.
pub proof fn lemma_no_alarms_is_empty(t: DocElement, header: DocElement, sentinel: DocElement)
    requires
        header.name@ == "tr"@,
        header.children@.len() >= 1,
        header.children@[0] matches DocNode::Element(hc) && hc.name@ == "th"@,
        sentinel.name@ == "tr"@,
        sentinel.children@.len() >= 1,
        !(sentinel.children@[0] matches DocNode::Element(sc) && sc.name@ == "th"@),
        sentinel.children@[0] is Element,
        child_text(sentinel.children@[0]) == Some("No Alarms Present"@),
        t.children@ == seq![DocNode::Element(header), DocNode::Element(sentinel)],
    ensures
        events_table_fold(t.children@, Seq::empty()) == Ok::<Seq<Event>, ErrorView>(Seq::empty()),
{
    let rows = t.children@;
    assert(spec_parse_event_row(header) == Ok::<Option<Event>, ErrorView>(None));
    assert(spec_parse_event_row(sentinel) == Ok::<Option<Event>, ErrorView>(None));
    assert(rows[0] == DocNode::Element(header));
    assert(rows.skip(1)[0] == DocNode::Element(sentinel));
    assert(rows.skip(1).skip(1) =~= Seq::<DocNode>::empty());
    assert(events_table_fold(rows.skip(1).skip(1), Seq::empty()) == Ok::<Seq<Event>, ErrorView>(
        Seq::empty(),
    ));
    assert(events_table_fold(rows.skip(1), Seq::empty()) == Ok::<Seq<Event>, ErrorView>(
        Seq::empty(),
    ));
}

} // verus!
