//! Table extraction: turning one table-shaped tree node into a mapping from
//! row label to (value, unit), and locating the four labelled regions of an
//! entity page that hold such tables.
//!
//! Two row layouts exist.  A plain row is `[label-cell, value-cell,
//! unit-cell]`, the text of each cell being its first text-bearing
//! descendant; the unit defaults to the empty string when the table carries
//! no unit column.  An icon-coded row (the alarm table) is `[value-cell,
//! label-cell]` with the value read from the `src` attribute of an icon
//! inside the first cell and an implicitly empty unit.  A row whose label cell is a header cell is
//! skipped; any other row lacking a required part is a structure failure.
//! A repeated label keeps the last row's value.

use vstd::prelude::*;
use vstd::string::StrSliceExecFns;

use crate::error::ErrorView;
use crate::error::MPXError;
use crate::text::dec_u32;
use crate::text::str_eq;
use crate::text::parse_u32_dec;
use crate::tree::DocElement;
use crate::tree::DocNode;
use crate::tree::attr_value;
use crate::tree::child_elem_named;
use crate::tree::descendant_named;
use crate::tree::descendant_named_id;
use crate::tree::child_text;
use crate::tree::get_attr_value;
use crate::tree::get_child_node;
use crate::tree::get_descendant_node;
use crate::tree::get_descendant_node_by_id;
use crate::tree::get_child_text;
use crate::tree::views_of;

verus! {

/// One table value with the unit word read beside it.
#[derive(Debug, Clone)]
pub struct TableValue {
    /// The magnitude or word, verbatim, e.g. `23.42` or `On`.
    pub value: String,
    /// The unit word, e.g. `kWH`, `VAC` or `sec`; empty when the table
    /// carries none.
    pub unit: String,
}

/// Mathematical image of a table value.
#[verifier::ext_equal]
pub struct TableValueView {
    /// The value text.
    pub value: Seq<char>,
    /// The unit text.
    pub unit: Seq<char>,
}

impl View for TableValue {
    type V = TableValueView;

    open spec fn view(&self) -> TableValueView {
        TableValueView { value: self.value@, unit: self.unit@ }
    }
}

/// The mapping a table denotes.
pub type TableMap = Map<Seq<char>, TableValueView>;

/// What reading a magnitude under a required unit returns: a differing unit
/// word is outside the expected vocabulary; the magnitude itself must be a
/// 32-bit decimal number.
pub open spec fn spec_get_u32(tv: TableValueView, unit: Seq<char>) -> Result<u32, ErrorView> {
    if tv.unit != unit {
        Err(ErrorView::Unrecognized)
    } else {
        match dec_u32(tv.value) {
            Ok(n) => Ok(n),
            Err(_) => Err(ErrorView::NumberFormat),
        }
    }
}

/// What checking the unit of a magnitude text returns.
pub open spec fn spec_get_magnitude(tv: TableValueView, unit: Seq<char>) -> Result<
    Seq<char>,
    ErrorView,
> {
    if tv.unit != unit {
        Err(ErrorView::Unrecognized)
    } else {
        Ok(tv.value)
    }
}

impl TableValue {
    /// Checks the unit word, then reads the decimal magnitude.
    pub fn get_u32(&self, unit: &str) -> (r: Result<u32, MPXError>)
        ensures
            match r {
                Ok(v) => spec_get_u32(self@, unit@) == Ok::<u32, ErrorView>(v),
                Err(e) => spec_get_u32(self@, unit@) == Err::<u32, ErrorView>(e@),
            },
    {
        if !str_eq(self.unit.as_str(), unit) {
            return Err(MPXError::unrecognized());
        }
        parse_u32_dec(self.value.as_str())
    }

    /// Checks the unit word and hands the magnitude text out verbatim, for
    /// magnitudes whose numeric type the caller owns.
    pub fn get_magnitude(&self, unit: &str) -> (r: Result<String, MPXError>)
        ensures
            match r {
                Ok(v) => spec_get_magnitude(self@, unit@) == Ok::<Seq<char>, ErrorView>(v@),
                Err(e) => spec_get_magnitude(self@, unit@) == Err::<Seq<char>, ErrorView>(e@),
            },
    {
        if !str_eq(self.unit.as_str(), unit) {
            return Err(MPXError::unrecognized());
        }
        Ok(self.value.clone())
    }
}

/// A label-keyed table of values, freshly built per extracted table.
#[derive(Debug)]
pub struct RawTable {
    entries: Vec<(String, TableValue)>,
}

/// The mapping an entry list denotes: later entries override earlier ones.
pub open spec fn entries_map(entries: Seq<(String, TableValue)>) -> TableMap
    decreases entries.len(),
{
    if entries.len() == 0 {
        Map::empty()
    } else {
        entries_map(entries.drop_last()).insert(entries.last().0@, entries.last().1@)
    }
}

impl View for RawTable {
    type V = TableMap;

    closed spec fn view(&self) -> TableMap {
        entries_map(self.entries@)
    }
}

/// A key no entry carries is not in the mapping.
proof fn lemma_entries_map_no_match(entries: Seq<(String, TableValue)>, key: Seq<char>)
    requires
        forall|j: int| 0 <= j < entries.len() ==> (#[trigger] entries[j]).0@ != key,
    ensures
        !entries_map(entries).dom().contains(key),
    decreases entries.len(),
{
    if entries.len() > 0 {
        lemma_entries_map_no_match(entries.drop_last(), key);
    }
}

/// The mapping carries, at a key, the value of the last entry with that key.
proof fn lemma_entries_map_match(entries: Seq<(String, TableValue)>, key: Seq<char>, i: int)
    requires
        0 <= i < entries.len(),
        entries[i].0@ == key,
        forall|j: int| i < j < entries.len() ==> (#[trigger] entries[j]).0@ != key,
    ensures
        entries_map(entries).dom().contains(key),
        entries_map(entries)[key] == entries[i].1@,
    decreases entries.len(),
{
    if i == entries.len() - 1 {
    } else {
        lemma_entries_map_match(entries.drop_last(), key, i);
    }
}

impl RawTable {
    /// An empty table.
    pub fn new() -> (r: RawTable)
        ensures
            r@ == Map::<Seq<char>, TableValueView>::empty(),
    {
        RawTable { entries: Vec::new() }
    }

    /// Inserts one labelled value; a repeated label is overridden, the last
    /// write winning.
    pub fn insert(&mut self, label: String, value: TableValue)
        ensures
            final(self)@ == old(self)@.insert(label@, value@),
    {
        let ghost prev = self.entries@;
        self.entries.push((label, value));
        proof {
            assert(self.entries@.drop_last() =~= prev);
        }
    }

    /// Looks one label up.
    #[verifier::loop_isolation(false)]
    pub fn get(&self, label: &str) -> (r: Option<&TableValue>)
        ensures
            match r {
                Some(tv) => self@.dom().contains(label@) && self@[label@] == tv@,
                None => !self@.dom().contains(label@),
            },
    {
        let n = self.entries.len();
        let mut i: usize = n;
        while i > 0
            invariant
                0 <= i <= n,
                forall|j: int| i <= j < n ==> (#[trigger] self.entries@[j]).0@ != label@,
            decreases i,
        {
            i = i - 1;
            if str_eq(self.entries[i].0.as_str(), label) {
                proof {
                    lemma_entries_map_match(self.entries@, label@, i as int);
                }
                return Some(&self.entries[i].1);
            }
        }
        proof {
            lemma_entries_map_no_match(self.entries@, label@);
        }
        None
    }
}

/// What one table row contributes.
#[verifier::ext_equal]
pub enum RowReading {
    /// No data row: not a `tr` element, or its label cell is a header cell.
    Skip,
    /// One labelled (value, unit) entry.
    Entry { label: Seq<char>, value: Seq<char>, unit: Seq<char> },
    /// A data row lacking a required part.
    Bad,
}

/// The icon value inside a cell: the `src` attribute of the first `img`
/// element anywhere inside the cell, in document order, if icon, attribute
/// and value are all present.
pub open spec fn icon_src(node: DocNode) -> Option<Seq<char>> {
    match descendant_named(node, "img"@) {
        Some(img) => match img {
            DocNode::Element(ie) => match attr_value(ie.attributes@, "src"@) {
                Some(Some(v)) => Some(v),
                _ => None,
            },
            _ => None,
        },
        None => None,
    }
}

/// What one row of a table contributes under the given layout.
pub open spec fn row_reading(row: DocNode, alarm: bool) -> RowReading {
    match row {
        DocNode::Element(tr) => {
            if tr.name@ != "tr"@ {
                RowReading::Skip
            } else {
                let kidx: int = if alarm {
                    1
                } else {
                    0
                };
                let vidx: int = if alarm {
                    0
                } else {
                    1
                };
                if tr.children@.len() <= kidx {
                    RowReading::Bad
                } else {
                    let keynode = tr.children@[kidx];
                    if (keynode matches DocNode::Element(ke) && ke.name@ == "th"@) {
                        RowReading::Skip
                    } else {
                        match child_text(keynode) {
                            None => RowReading::Bad,
                            Some(label) => if tr.children@.len() <= vidx {
                                RowReading::Bad
                            } else {
                                let valnode = tr.children@[vidx];
                                let value_opt = if alarm {
                                    icon_src(valnode)
                                } else {
                                    child_text(valnode)
                                };
                                match value_opt {
                                    None => RowReading::Bad,
                                    Some(value) => if alarm || tr.children@.len() <= 2 {
                                        RowReading::Entry { label, value, unit: Seq::empty() }
                                    } else {
                                        match child_text(tr.children@[2]) {
                                            None => RowReading::Bad,
                                            Some(unit) => RowReading::Entry { label, value, unit },
                                        }
                                    },
                                }
                            },
                        }
                    }
                }
            }
        },
        _ => RowReading::Skip,
    }
}

/// The mapping a table's rows build up, walked in order starting from
/// `acc`; the first bad row aborts the walk.
pub open spec fn table_fold(rows: Seq<DocNode>, alarm: bool, acc: TableMap) -> Result<
    TableMap,
    ErrorView,
>
    decreases rows.len(),
{
    if rows.len() == 0 {
        Ok(acc)
    } else {
        match row_reading(rows[0], alarm) {
            RowReading::Skip => table_fold(rows.skip(1), alarm, acc),
            RowReading::Entry { label, value, unit } => table_fold(
                rows.skip(1),
                alarm,
                acc.insert(label, TableValueView { value, unit }),
            ),
            RowReading::Bad => Err(ErrorView::Structure),
        }
    }
}

/// What extracting a table node returns: the node must be an element, and
/// its rows are folded in order.
pub open spec fn spec_parse_table(node: DocNode, alarm: bool) -> Result<TableMap, ErrorView> {
    match node {
        DocNode::Element(t) => table_fold(t.children@, alarm, Map::empty()),
        _ => Err(ErrorView::Structure),
    }
}


/// Reads the icon value of a cell.
pub(crate) fn get_icon_src(node: &DocNode) -> (r: Option<String>)
    ensures
        match r {
            Some(s) => icon_src(*node) == Some(s@),
            None => icon_src(*node) is None,
        },
{
    match get_descendant_node(node, "img") {
        Some(img) => match img {
            DocNode::Element(ie) => {
                match get_attr_value(ie, "src") {
                    Some(v) => match v {
                        Some(s) => Some(s.clone()),
                        None => None,
                    },
                    None => None,
                }
            },
            _ => None,
        },
        None => None,
    }
}

/// Reads one table row under the given layout.
fn read_row(row: &DocNode, alarm: bool) -> (r: Result<Option<(String, TableValue)>, MPXError>)
    ensures
        match r {
            Ok(None) => row_reading(*row, alarm) is Skip,
            Ok(Some(p)) => row_reading(*row, alarm) == (RowReading::Entry {
                label: p.0@,
                value: p.1.value@,
                unit: p.1.unit@,
            }),
            Err(e) => row_reading(*row, alarm) is Bad && e@ == ErrorView::Structure,
        },
{
    let tr = match row {
        DocNode::Element(tr) => tr,
        _ => {
            return Ok(None);
        },
    };
    if !str_eq(tr.name.as_str(), "tr") {
        return Ok(None);
    }
    let kidx: usize = if alarm {
        1
    } else {
        0
    };
    let vidx: usize = if alarm {
        0
    } else {
        1
    };
    if tr.children.len() <= kidx {
        return Err(MPXError::structure());
    }
    let keynode = &tr.children[kidx];
    match keynode {
        DocNode::Element(ke) => {
            if str_eq(ke.name.as_str(), "th") {
                return Ok(None);
            }
        },
        _ => {},
    }
    let label: String = match get_child_text(keynode) {
        Some(t) => t.clone(),
        None => {
            return Err(MPXError::structure());
        },
    };
    if tr.children.len() <= vidx {
        return Err(MPXError::structure());
    }
    let valnode = &tr.children[vidx];
    let value: String = if alarm {
        match get_icon_src(valnode) {
            Some(s) => s,
            None => {
                return Err(MPXError::structure());
            },
        }
    } else {
        match get_child_text(valnode) {
            Some(t) => t.clone(),
            None => {
                return Err(MPXError::structure());
            },
        }
    };
    let unit: String = if alarm {
        String::new()
    } else if tr.children.len() <= 2 {
        String::new()
    } else {
        match get_child_text(&tr.children[2]) {
            Some(t) => t.clone(),
            None => {
                return Err(MPXError::structure());
            },
        }
    };
    Ok(Some((label, TableValue { value, unit })))
}

/// Extracts one table node into a label-keyed mapping under the given
/// layout.
#[verifier::loop_isolation(false)]
pub fn parse_table(node: &DocNode, alarm: bool) -> (r: Result<RawTable, MPXError>)
    ensures
        match r {
            Ok(t) => spec_parse_table(*node, alarm) == Ok::<TableMap, ErrorView>(t@),
            Err(e) => spec_parse_table(*node, alarm) == Err::<TableMap, ErrorView>(e@),
        },
{
    let t = match node {
        DocNode::Element(t) => t,
        _ => {
            return Err(MPXError::structure());
        },
    };
    let n = t.children.len();
    let mut out = RawTable::new();
    let mut i: usize = 0;
    proof {
        assert(t.children@.skip(0) =~= t.children@);
    }
    while i < n
        invariant
            0 <= i <= n,
            n == t.children@.len(),
            table_fold(t.children@, alarm, Map::empty()) == table_fold(
                t.children@.skip(i as int),
                alarm,
                out@,
            ),
        decreases n - i,
    {
        proof {
            assert(t.children@.skip(i as int)[0] == t.children@[i as int]);
            assert(t.children@.skip(i as int).skip(1) =~= t.children@.skip(i + 1));
        }
        match read_row(&t.children[i], alarm) {
            Ok(None) => {},
            Ok(Some(p)) => {
                let (label, value) = p;
                out.insert(label, value);
            },
            Err(e) => {
                return Err(e);
            },
        }
        i = i + 1;
    }
    proof {
        assert(t.children@.skip(n as int) =~= Seq::<DocNode>::empty());
    }
    Ok(out)
}

/// The four label-keyed tables of one entity page.
#[derive(Debug)]
pub struct InfoTables {
    /// The live measurements table.
    pub status: RawTable,
    /// The per-condition alarm table (icon-coded).
    pub events: RawTable,
    /// The settings table.
    pub settings: RawTable,
    /// The hardware description table.
    pub hardware: RawTable,
}

/// Mathematical image of the four tables.
#[verifier::ext_equal]
pub struct InfoTablesView {
    /// The live measurements mapping.
    pub status: TableMap,
    /// The alarm mapping.
    pub events: TableMap,
    /// The settings mapping.
    pub settings: TableMap,
    /// The hardware mapping.
    pub hardware: TableMap,
}

impl View for InfoTables {
    type V = InfoTablesView;

    open spec fn view(&self) -> InfoTablesView {
        InfoTablesView {
            status: self.status@,
            events: self.events@,
            settings: self.settings@,
            hardware: self.hardware@,
        }
    }
}

/// The table inside the container element with the given identifier: the
/// first `div` with that identifier anywhere inside `body`, in document
/// order, then the first `table` anywhere inside that `div`.
pub open spec fn region_table(body: DocNode, id: Seq<char>) -> Option<DocNode> {
    match descendant_named_id(body, "div"@, id) {
        Some(div) => descendant_named(div, "table"@),
        None => None,
    }
}

/// What locating and extracting the four tables of an entity page returns.
/// The document's first root node must hold a `body` element; each of the
/// four labelled containers must be present with a table inside; the alarm
/// table is icon-coded, the rest are plain.
pub open spec fn info_tables_build(doc: Seq<DocNode>) -> Result<InfoTablesView, ErrorView> {
    if doc.len() == 0 {
        Err(ErrorView::Structure)
    } else {
        match child_elem_named(doc[0], "body"@) {
            None => Err(ErrorView::Structure),
            Some(body) => match (
                region_table(body, "RpcStatusArea"@),
                region_table(body, "RpcAlarmArea"@),
                region_table(body, "RpcSettingArea"@),
                region_table(body, "RpcInfoArea"@),
            ) {
                (Some(st), Some(al), Some(se), Some(hw)) => match spec_parse_table(st, false) {
                    Err(e) => Err(e),
                    Ok(status) => match spec_parse_table(al, true) {
                        Err(e) => Err(e),
                        Ok(events) => match spec_parse_table(se, false) {
                            Err(e) => Err(e),
                            Ok(settings) => match spec_parse_table(hw, false) {
                                Err(e) => Err(e),
                                Ok(hardware) => Ok(
                                    InfoTablesView { status, events, settings, hardware },
                                ),
                            },
                        },
                    },
                },
                _ => Err(ErrorView::Structure),
            },
        }
    }
}

/// Locates the four labelled regions of an entity page and extracts their
/// tables.
pub fn info_tables_from_document(doc: &Vec<DocNode>) -> (r: Result<InfoTables, MPXError>)
    ensures
        match r {
            Ok(t) => info_tables_build(doc@) == Ok::<InfoTablesView, ErrorView>(t@),
            Err(e) => info_tables_build(doc@) == Err::<InfoTablesView, ErrorView>(e@),
        },
{
    if doc.len() == 0 {
        return Err(MPXError::structure());
    }
    let html_node = &doc[0];
    let body_node = match get_child_node(html_node, "body") {
        Some(b) => b,
        None => {
            return Err(MPXError::structure());
        },
    };
    let status_node = match locate_region_table(body_node, "RpcStatusArea") {
        Some(t) => t,
        None => {
            return Err(MPXError::structure());
        },
    };
    let alarm_node = match locate_region_table(body_node, "RpcAlarmArea") {
        Some(t) => t,
        None => {
            return Err(MPXError::structure());
        },
    };
    let settings_node = match locate_region_table(body_node, "RpcSettingArea") {
        Some(t) => t,
        None => {
            return Err(MPXError::structure());
        },
    };
    let hardware_node = match locate_region_table(body_node, "RpcInfoArea") {
        Some(t) => t,
        None => {
            return Err(MPXError::structure());
        },
    };
    let status = match parse_table(status_node, false) {
        Ok(t) => t,
        Err(e) => {
            return Err(e);
        },
    };
    let events = match parse_table(alarm_node, true) {
        Ok(t) => t,
        Err(e) => {
            return Err(e);
        },
    };
    let settings = match parse_table(settings_node, false) {
        Ok(t) => t,
        Err(e) => {
            return Err(e);
        },
    };
    let hardware = match parse_table(hardware_node, false) {
        Ok(t) => t,
        Err(e) => {
            return Err(e);
        },
    };
    Ok(InfoTables { status, events, settings, hardware })
}

/// Descends from `body` to the table inside the container with identifier
/// `id`.
fn locate_region_table<'a>(body: &'a DocNode, id: &str) -> (r: Option<&'a DocNode>)
    ensures
        match r {
            Some(t) => region_table(*body, id@) == Some(*t),
            None => region_table(*body, id@) is None,
        },
{
    match get_descendant_node_by_id(body, "div", id) {
        Some(div) => get_descendant_node(div, "table"),
        None => None,
    }
}

/// Parses an entity page and extracts its four tables.  The parse image of
/// the text is named (`parsed_doc`); the result is exactly what
/// `info_tables_build` states for a tree bearing that image.
pub fn get_info_tables(html: String) -> (r: Result<InfoTables, MPXError>)
    ensures
        r matches Ok(t) ==> (crate::html::parsed_doc(html@) matches Some(dv) && exists|
            doc: Seq<DocNode>,
        |
            #[trigger] views_of(doc) == dv && info_tables_build(doc) == Ok::<
                InfoTablesView,
                ErrorView,
            >(t@)),
        r matches Err(e) ==> match crate::html::parsed_doc(html@) {
            None => e@ == ErrorView::Document,
            Some(dv) => exists|doc: Seq<DocNode>|
                #[trigger] views_of(doc) == dv && info_tables_build(doc) == Err::<
                    InfoTablesView,
                    ErrorView,
                >(e@),
        },
{
    let doc = match crate::html::parse_document(html.as_str()) {
        Ok(d) => d,
        Err(e) => {
            return Err(MPXError::HTMLParser(e));
        },
    };
    proof {
        assert(crate::html::parsed_doc(html@) == Some(views_of(doc@)));
    }
    match info_tables_from_document(&doc) {
        Ok(t) => {
            proof {
                assert(views_of(doc@) == views_of(doc@) && info_tables_build(doc@) == Ok::<
                    InfoTablesView,
                    ErrorView,
                >(t@));
            }
            Ok(t)
        },
        Err(e) => {
            proof {
                assert(views_of(doc@) == views_of(doc@) && info_tables_build(doc@) == Err::<
                    InfoTablesView,
                    ErrorView,
                >(e@));
            }
            Err(e)
        },
    }
}

/// A well-formed plain row contributes exactly its label mapped to its
/// value and unit: the row is a `tr` whose first cell is no header and
/// holds the label text, whose second cell holds the value text, and whose
/// third cell holds the unit text; and a table holding just that row
/// extracts to the one-entry mapping.
pub proof fn lemma_plain_row_extraction(
    t: DocElement,
    tr: DocElement,
    label: Seq<char>,
    value: Seq<char>,
    unit: Seq<char>,
)
    requires
        tr.name@ == "tr"@,
        tr.children@.len() == 3,
        !(tr.children@[0] matches DocNode::Element(ke) && ke.name@ == "th"@),
        child_text(tr.children@[0]) == Some(label),
        child_text(tr.children@[1]) == Some(value),
        child_text(tr.children@[2]) == Some(unit),
    ensures
        row_reading(DocNode::Element(tr), false) == (RowReading::Entry { label, value, unit }),
        t.children@ == seq![DocNode::Element(tr)] ==> spec_parse_table(DocNode::Element(t), false)
            == Ok::<TableMap, ErrorView>(
            Map::empty().insert(label, TableValueView { value, unit }),
        ),
{
    if t.children@ == seq![DocNode::Element(tr)] {
        let m1 = Map::empty().insert(label, TableValueView { value, unit });
        assert(t.children@[0] == DocNode::Element(tr));
        assert(t.children@.skip(1) =~= Seq::<DocNode>::empty());
        assert(table_fold(t.children@.skip(1), false, m1) == Ok::<TableMap, ErrorView>(m1));
        assert(table_fold(t.children@, false, Map::empty()) == Ok::<TableMap, ErrorView>(m1));
    }
}

/// A well-formed icon-coded row contributes exactly its label mapped to the
/// icon reference of its first cell, with an empty unit.
pub proof fn lemma_icon_row_extraction(
    t: DocElement,
    tr: DocElement,
    label: Seq<char>,
    src: Seq<char>,
)
    requires
        tr.name@ == "tr"@,
        tr.children@.len() >= 2,
        !(tr.children@[1] matches DocNode::Element(ke) && ke.name@ == "th"@),
        child_text(tr.children@[1]) == Some(label),
        icon_src(tr.children@[0]) == Some(src),
    ensures
        row_reading(DocNode::Element(tr), true) == (RowReading::Entry {
            label,
            value: src,
            unit: Seq::empty(),
        }),
        t.children@ == seq![DocNode::Element(tr)] ==> spec_parse_table(DocNode::Element(t), true)
            == Ok::<TableMap, ErrorView>(
            Map::empty().insert(label, TableValueView { value: src, unit: Seq::empty() }),
        ),
{
    if t.children@ == seq![DocNode::Element(tr)] {
        let m1 = Map::empty().insert(label, TableValueView { value: src, unit: Seq::empty() });
        assert(t.children@[0] == DocNode::Element(tr));
        assert(t.children@.skip(1) =~= Seq::<DocNode>::empty());
        assert(table_fold(t.children@.skip(1), true, m1) == Ok::<TableMap, ErrorView>(m1));
        assert(table_fold(t.children@, true, Map::empty()) == Ok::<TableMap, ErrorView>(m1));
    }
}

} // verus!
