//! The boundary to the outside markup parser.
//!
//! Turning raw markup text into a tree is delegated to the `html_parser`
//! crate; everything after that point works on the library's own tree model
//! and is verified.  The items here are the only trusted ones: the outside
//! parser's types are declared opaquely, and small wrappers convert its
//! tree into [`crate::tree::DocNode`] values field by field.

use vstd::prelude::*;

verus! {

#[verifier::external_type_specification]
#[verifier::external_body]
/// Declares the outside parser's error type, so that results may carry it.
pub struct ExHtmlError(html_parser::Error);

#[verifier::external_type_specification]
#[verifier::external_body]
/// Declares the outside parser's node type.
pub struct ExHtmlNode(html_parser::Node);

#[verifier::external_type_specification]
#[verifier::external_body]
/// Declares the outside parser's element type.
pub struct ExHtmlElement(html_parser::Element);

/// Relies on the variants of `html_parser::Node`: converts one outside
/// node into the library's tree model, one arm per variant.
#[verifier::external_body]
fn convert_node(n: &html_parser::Node) -> crate::tree::DocNode {
    match n {
        html_parser::Node::Text(t) => crate::tree::DocNode::Text(t.clone()),
        html_parser::Node::Comment(t) => crate::tree::DocNode::Comment(t.clone()),
        html_parser::Node::Element(e) => crate::tree::DocNode::Element(convert_element(e)),
    }
}

/// Relies on the fields of `html_parser::Element`: moves name, identifier,
/// attributes and children into the library's tree model.
#[verifier::external_body]
fn convert_element(e: &html_parser::Element) -> crate::tree::DocElement {
    crate::tree::DocElement {
        name: e.name.clone(),
        id: e.id.clone(),
        attributes: e.attributes.iter().map(|(k, v)| (k.clone(), v.clone())).collect(),
        children: e.children.iter().map(convert_node).collect(),
    }
}

/// The image of the document tree that parsing a text yields: `None` when
/// the text does not parse, otherwise the root nodes' images in order.
/// `html_parser::Dom::parse` is a function of the text alone, and so is
/// this image: it abstracts each element's attribute list into the mapping
/// it denotes, because the outside parser keeps attributes in a hash-keyed
/// map whose iteration order — and hence the converted list's order — is
/// not a function of the text.
pub uninterp spec fn parsed_doc(html: Seq<char>) -> Option<Seq<crate::tree::DocNodeView>>;

/// Relies on `html_parser::Dom::parse`: turns markup text into a document
/// tree, whose root nodes are handed back converted into the library's
/// model.  Whether the parse succeeds, and the image of the tree it yields,
/// depend on the text alone and carry the name `parsed_doc`; everything a
/// consumer reads out of the tree is stated by its own contract over the
/// tree it is given.
#[verifier::external_body]
pub fn parse_document(html: &str) -> (r: Result<Vec<crate::tree::DocNode>, html_parser::Error>)
    ensures
        r matches Ok(v) ==> parsed_doc(html@) == Some(crate::tree::views_of(v@)),
        r matches Err(_) ==> parsed_doc(html@) is None,
{
    match html_parser::Dom::parse(html) {
        Ok(dom) => {
            let mut out: Vec<crate::tree::DocNode> = Vec::new();
            for child in dom.children.iter() {
                out.push(convert_node(child));
            }
            Ok(out)
        },
        Err(e) => Err(e),
    }
}

} // verus!
