//! Table extraction over hand-built trees: plain rows, icon-coded rows,
//! header skipping, unit defaulting and duplicate labels; and the listing
//! row parser's fixed positions, marker words and triplet identifiers.

use liebert_mpx::EventLevel;
use liebert_mpx::MPXError;
use liebert_mpx::listing::parse_receptacle_list_row;
use liebert_mpx::table::parse_table;
use liebert_mpx::tree::DocElement;
use liebert_mpx::tree::DocNode;

fn el(name: &str, children: Vec<DocNode>) -> DocElement {
    DocElement {
        name: name.to_string(),
        id: None,
        attributes: vec![],
        children,
    }
}

fn el_id(name: &str, id: &str, children: Vec<DocNode>) -> DocElement {
    DocElement {
        name: name.to_string(),
        id: Some(id.to_string()),
        attributes: vec![],
        children,
    }
}

fn el_attr(name: &str, key: &str, value: &str, children: Vec<DocNode>) -> DocElement {
    DocElement {
        name: name.to_string(),
        id: None,
        attributes: vec![(key.to_string(), Some(value.to_string()))],
        children,
    }
}

fn text(t: &str) -> DocNode {
    DocNode::Text(t.to_string())
}

fn node(e: DocElement) -> DocNode {
    DocNode::Element(e)
}

fn plain_row(label: &str, value: &str, unit: &str) -> DocNode {
    node(el("tr", vec![
        node(el("td", vec![text(label)])),
        node(el("td", vec![text(value)])),
        node(el("td", vec![text(unit)])),
    ]))
}

fn icon_row(src: &str, label: &str) -> DocNode {
    node(el("tr", vec![
        node(el("td", vec![node(el_attr("img", "src", src, vec![]))])),
        node(el("td", vec![text(label)])),
    ]))
}

#[test]
fn plain_row_yields_value_and_unit() {
    let table = node(el("table", vec![plain_row("PDU Voltage L1-N", "229.8", "VAC")]));
    let t = parse_table(&table, false).unwrap();
    let tv = t.get("PDU Voltage L1-N").unwrap();
    assert_eq!(tv.value, "229.8");
    assert_eq!(tv.unit, "VAC");
    assert!(t.get("PDU Voltage L2-N").is_none());
}

#[test]
fn icon_row_decodes_to_warning() {
    let table = node(el("table", vec![icon_row("../../../images/warn.png", "PDU Over Current L1")]));
    let t = parse_table(&table, true).unwrap();
    let tv = t.get("PDU Over Current L1").unwrap();
    assert_eq!(tv.value, "../../../images/warn.png");
    assert_eq!(tv.unit, "");
    assert_eq!(EventLevel::from_str(&tv.value), Ok(EventLevel::WARNING));
}

#[test]
fn header_rows_are_skipped() {
    let header = node(el("tr", vec![
        node(el("th", vec![text("Name")])),
        node(el("th", vec![text("Value")])),
        node(el("th", vec![text("Unit")])),
    ]));
    let table = node(el("table", vec![header, plain_row("A", "1", "W")]));
    let t = parse_table(&table, false).unwrap();
    assert_eq!(t.get("A").unwrap().value, "1");
    assert!(t.get("Name").is_none());
}

#[test]
fn missing_value_text_is_a_structure_failure() {
    let row = node(el("tr", vec![
        node(el("td", vec![text("A")])),
        node(el("td", vec![])),
        node(el("td", vec![text("W")])),
    ]));
    let table = node(el("table", vec![row]));
    assert!(matches!(parse_table(&table, false), Err(MPXError::InvalidDataError(_))));
}

#[test]
fn unit_defaults_to_empty_without_unit_column() {
    let row = node(el("tr", vec![
        node(el("td", vec![text("A")])),
        node(el("td", vec![text("x")])),
    ]));
    let table = node(el("table", vec![row]));
    let t = parse_table(&table, false).unwrap();
    let tv = t.get("A").unwrap();
    assert_eq!(tv.value, "x");
    assert_eq!(tv.unit, "");
}

#[test]
fn duplicate_labels_keep_the_last_row() {
    let table = node(el("table", vec![
        plain_row("A", "1", "W"),
        plain_row("A", "2", "W"),
    ]));
    let t = parse_table(&table, false).unwrap();
    assert_eq!(t.get("A").unwrap().value, "2");
}

fn listing_row(id: &str, power: &str, lock: &str, icon: &str) -> DocElement {
    el_id("tr", id, vec![
        node(el("td", vec![node(el("a", vec![node(el("nobr", vec![text("Lamp")]))]))])),
        node(el("td", vec![text("3")])),
        node(el("td", vec![node(el_attr("span", "title", power, vec![]))])),
        node(el("td", vec![node(el_attr("span", "title", lock, vec![]))])),
        node(el("td", vec![node(el_attr("img", "src", icon, vec![]))])),
    ])
}

#[test]
fn listing_row_on_unlocked() {
    let row = listing_row("1-2-3", "On", "Unlocked", "../../../images/accept.png");
    let entry = parse_receptacle_list_row(&row).unwrap();
    assert_eq!(entry.pdu, 1);
    assert_eq!(entry.branch, 2);
    assert_eq!(entry.receptacle, 3);
    assert!(entry.enabled);
    assert!(!entry.locked);
    assert_eq!(entry.status, EventLevel::OK);
    assert_eq!(entry.label, "Lamp");
}

#[test]
fn listing_row_off_locked() {
    let row = listing_row("2-6-1", "Off", "Locked", "../../../images/err.png");
    let entry = parse_receptacle_list_row(&row).unwrap();
    assert_eq!(entry.pdu, 2);
    assert_eq!(entry.branch, 6);
    assert_eq!(entry.receptacle, 1);
    assert!(!entry.enabled);
    assert!(entry.locked);
    assert_eq!(entry.status, EventLevel::ALARM);
}

#[test]
fn listing_row_unrecognized_title_fails() {
    let row = listing_row("1-2-3", "Maybe", "Unlocked", "../../../images/accept.png");
    assert!(matches!(
        parse_receptacle_list_row(&row),
        Err(MPXError::EnumParseError(_))
    ));
    let row = listing_row("1-2-3", "On", "Open", "../../../images/accept.png");
    assert!(matches!(
        parse_receptacle_list_row(&row),
        Err(MPXError::EnumParseError(_))
    ));
}

#[test]
fn listing_row_two_part_identifier_fails() {
    let row = listing_row("1-2", "On", "Unlocked", "../../../images/accept.png");
    assert!(matches!(
        parse_receptacle_list_row(&row),
        Err(MPXError::InvalidDataError(_))
    ));
}

#[test]
fn listing_row_non_numeric_identifier_fails() {
    let row = listing_row("a-b-c", "On", "Unlocked", "../../../images/accept.png");
    assert!(matches!(
        parse_receptacle_list_row(&row),
        Err(MPXError::ParseIntError)
    ));
}

#[test]
fn listing_row_unknown_icon_fails() {
    let row = listing_row("1-2-3", "On", "Unlocked", "../../../images/new.png");
    assert!(matches!(
        parse_receptacle_list_row(&row),
        Err(MPXError::EnumParseError(_))
    ));
}

#[test]
fn nested_cell_text_is_found() {
    let row = node(el("tr", vec![
        node(el("td", vec![node(el("b", vec![text("PDU Voltage L1-N")]))])),
        node(el("td", vec![node(el("span", vec![node(el("i", vec![text("229.8")]))]))])),
        node(el("td", vec![text("VAC")])),
    ]));
    let table = node(el("table", vec![row]));
    let t = parse_table(&table, false).unwrap();
    let tv = t.get("PDU Voltage L1-N").unwrap();
    assert_eq!(tv.value, "229.8");
    assert_eq!(tv.unit, "VAC");
}

#[test]
fn nested_icon_is_found() {
    let row = node(el("tr", vec![
        node(el("td", vec![node(el("div", vec![node(el_attr(
            "img",
            "src",
            "../../../images/warn.png",
            vec![],
        ))]))])),
        node(el("td", vec![text("PDU Over Current L1")])),
    ]));
    let table = node(el("table", vec![row]));
    let t = parse_table(&table, true).unwrap();
    assert_eq!(t.get("PDU Over Current L1").unwrap().value, "../../../images/warn.png");
}
