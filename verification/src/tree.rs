//! The document-tree model that the extraction pipeline works on.
//!
//! A document is an ordered sequence of nodes; an element node carries a tag
//! name, an optional identifier, an attribute list and ordered children.
//! Every string is owned: no node holds a reference back into the source
//! text.  The accessors here mirror a fixed addressing discipline: the
//! first text leaf anywhere inside an element (a cell's text may sit one
//! wrapper deeper), and the first element with a given tag name (and,
//! optionally, identifier) among the direct children or, for the deep
//! variants, among all descendants in document order.

use vstd::prelude::*;

verus! {

/// One node of a parsed document.
#[derive(Debug)]
pub enum DocNode {
    /// An element with a name, optional identifier, attributes and children.
    Element(DocElement),
    /// A text leaf.
    Text(String),
    /// A comment leaf; never carries data the pipeline reads.
    Comment(String),
}

/// An element node.
#[derive(Debug)]
pub struct DocElement {
    /// Tag name, e.g. `table` or `tr`.
    pub name: String,
    /// The element's identifier attribute, if present.
    pub id: Option<String>,
    /// The remaining attributes, as (name, optional value) pairs.
    pub attributes: Vec<(String, Option<String>)>,
    /// Ordered child nodes.
    pub children: Vec<DocNode>,
}

/// The first text leaf in a preorder walk of `nodes` and all their
/// descendants, if any.
pub open spec fn first_text(nodes: Seq<DocNode>) -> Option<Seq<char>>
    decreases nodes,
{
    if nodes.len() == 0 {
        None
    } else {
        match nodes[0] {
            DocNode::Text(t) => Some(t@),
            DocNode::Element(e) => match first_text(e.children@) {
                Some(t) => Some(t),
                None => first_text(nodes.skip(1)),
            },
            _ => first_text(nodes.skip(1)),
        }
    }
}

/// The text a cell bears: the first text leaf in a preorder walk of the
/// element's descendants; `None` for any other node.
pub open spec fn child_text(node: DocNode) -> Option<Seq<char>> {
    match node {
        DocNode::Element(e) => first_text(e.children@),
        _ => None,
    }
}

/// The first element named `name` in `children`, if any.
pub open spec fn first_elem_named(children: Seq<DocNode>, name: Seq<char>) -> Option<DocNode>
    decreases children.len(),
{
    if children.len() == 0 {
        None
    } else {
        match children[0] {
            DocNode::Element(e) => if e.name@ == name {
                Some(children[0])
            } else {
                first_elem_named(children.skip(1), name)
            },
            _ => first_elem_named(children.skip(1), name),
        }
    }
}

/// The first child element of `node` named `name`; `None` when `node` is no
/// element or has no such child.
pub open spec fn child_elem_named(node: DocNode, name: Seq<char>) -> Option<DocNode> {
    match node {
        DocNode::Element(e) => first_elem_named(e.children@, name),
        _ => None,
    }
}

/// The first element named `name` whose identifier is `id`, if any.
pub open spec fn first_elem_named_id(children: Seq<DocNode>, name: Seq<char>, id: Seq<char>) -> Option<
    DocNode,
>
    decreases children.len(),
{
    if children.len() == 0 {
        None
    } else {
        match children[0] {
            DocNode::Element(e) => if e.name@ == name && (e.id matches Some(i) && i@ == id) {
                Some(children[0])
            } else {
                first_elem_named_id(children.skip(1), name, id)
            },
            _ => first_elem_named_id(children.skip(1), name, id),
        }
    }
}

/// The first child element of `node` named `name` with identifier `id`.
pub open spec fn child_elem_named_id(node: DocNode, name: Seq<char>, id: Seq<char>) -> Option<DocNode> {
    match node {
        DocNode::Element(e) => first_elem_named_id(e.children@, name, id),
        _ => None,
    }
}

/// The first element named `name` in a preorder walk of `nodes` and all
/// their descendants.
pub open spec fn find_elem_named_deep(nodes: Seq<DocNode>, name: Seq<char>) -> Option<DocNode>
    decreases nodes,
{
    if nodes.len() == 0 {
        None
    } else {
        match nodes[0] {
            DocNode::Element(e) => if e.name@ == name {
                Some(nodes[0])
            } else {
                match find_elem_named_deep(e.children@, name) {
                    Some(x) => Some(x),
                    None => find_elem_named_deep(nodes.skip(1), name),
                }
            },
            _ => find_elem_named_deep(nodes.skip(1), name),
        }
    }
}

/// The first element named `name` with identifier `id` in a preorder walk
/// of `nodes` and all their descendants.
pub open spec fn find_elem_named_id_deep(
    nodes: Seq<DocNode>,
    name: Seq<char>,
    id: Seq<char>,
) -> Option<DocNode>
    decreases nodes,
{
    if nodes.len() == 0 {
        None
    } else {
        match nodes[0] {
            DocNode::Element(e) => if e.name@ == name && (e.id matches Some(i) && i@ == id) {
                Some(nodes[0])
            } else {
                match find_elem_named_id_deep(e.children@, name, id) {
                    Some(x) => Some(x),
                    None => find_elem_named_id_deep(nodes.skip(1), name, id),
                }
            },
            _ => find_elem_named_id_deep(nodes.skip(1), name, id),
        }
    }
}

/// The first element named `name` among the descendants of `node`, in
/// preorder; `None` when `node` is no element.
pub open spec fn descendant_named(node: DocNode, name: Seq<char>) -> Option<DocNode> {
    match node {
        DocNode::Element(e) => find_elem_named_deep(e.children@, name),
        _ => None,
    }
}

/// The first element named `name` with identifier `id` among the
/// descendants of `node`, in preorder.
pub open spec fn descendant_named_id(node: DocNode, name: Seq<char>, id: Seq<char>) -> Option<
    DocNode,
> {
    match node {
        DocNode::Element(e) => find_elem_named_id_deep(e.children@, name, id),
        _ => None,
    }
}

/// Finds the first descendant element of `node` with tag name `name`, in
/// preorder.
#[verifier::loop_isolation(false)]
pub fn get_descendant_node<'a>(node: &'a DocNode, name: &str) -> (r: Option<&'a DocNode>)
    ensures
        match r {
            Some(c) => descendant_named(*node, name@) == Some(*c),
            None => descendant_named(*node, name@) is None,
        },
    decreases *node,
{
    match node {
        DocNode::Element(e) => {
            let n = e.children.len();
            let mut i: usize = 0;
            proof {
                assert(e.children@.skip(0) =~= e.children@);
            }
            while i < n
                invariant
                    0 <= i <= n,
                    n == e.children@.len(),
                    find_elem_named_deep(e.children@.skip(i as int), name@) == find_elem_named_deep(
                        e.children@,
                        name@,
                    ),
                decreases n - i,
            {
                proof {
                    assert(e.children@.skip(i as int)[0] == e.children@[i as int]);
                    assert(e.children@.skip(i as int).skip(1) =~= e.children@.skip(i + 1));
                }
                match &e.children[i] {
                    DocNode::Element(c) => {
                        if crate::text::str_eq(c.name.as_str(), name) {
                            proof {
                                assert(e.children@[i as int] == DocNode::Element(*c));
                                assert(find_elem_named_deep(e.children@.skip(i as int), name@)
                                    == Some(e.children@[i as int]));
                            }
                            return Some(&e.children[i]);
                        }
                        proof {
                            assert(decreases_to!(*node => e.children@[i as int]));
                        }
                        match get_descendant_node(&e.children[i], name) {
                            Some(x) => {
                                return Some(x);
                            },
                            None => {},
                        }
                    },
                    _ => {},
                }
                i = i + 1;
            }
            proof {
                assert(e.children@.skip(n as int) =~= Seq::<DocNode>::empty());
            }
            None
        },
        _ => None,
    }
}

/// Finds the first descendant element of `node` with tag name `name` and
/// identifier `id`, in preorder.
#[verifier::loop_isolation(false)]
pub fn get_descendant_node_by_id<'a>(node: &'a DocNode, name: &str, id: &str) -> (r: Option<
    &'a DocNode,
>)
    ensures
        match r {
            Some(c) => descendant_named_id(*node, name@, id@) == Some(*c),
            None => descendant_named_id(*node, name@, id@) is None,
        },
    decreases *node,
{
    match node {
        DocNode::Element(e) => {
            let n = e.children.len();
            let mut i: usize = 0;
            proof {
                assert(e.children@.skip(0) =~= e.children@);
            }
            while i < n
                invariant
                    0 <= i <= n,
                    n == e.children@.len(),
                    find_elem_named_id_deep(e.children@.skip(i as int), name@, id@)
                        == find_elem_named_id_deep(e.children@, name@, id@),
                decreases n - i,
            {
                proof {
                    assert(e.children@.skip(i as int)[0] == e.children@[i as int]);
                    assert(e.children@.skip(i as int).skip(1) =~= e.children@.skip(i + 1));
                }
                match &e.children[i] {
                    DocNode::Element(c) => {
                        let id_matches: bool = match &c.id {
                            Some(cid) => crate::text::str_eq(cid.as_str(), id),
                            None => false,
                        };
                        if id_matches && crate::text::str_eq(c.name.as_str(), name) {
                            proof {
                                assert(e.children@[i as int] == DocNode::Element(*c));
                                assert(find_elem_named_id_deep(
                                    e.children@.skip(i as int),
                                    name@,
                                    id@,
                                ) == Some(e.children@[i as int]));
                            }
                            return Some(&e.children[i]);
                        }
                        proof {
                            assert(decreases_to!(*node => e.children@[i as int]));
                        }
                        match get_descendant_node_by_id(&e.children[i], name, id) {
                            Some(x) => {
                                return Some(x);
                            },
                            None => {},
                        }
                    },
                    _ => {},
                }
                i = i + 1;
            }
            proof {
                assert(e.children@.skip(n as int) =~= Seq::<DocNode>::empty());
            }
            None
        },
        _ => None,
    }
}

/// Mathematical image of an attribute list: the mapping it denotes, a later
/// pair overriding an earlier one with the same name.  On lists with
/// distinct names — the only kind the outside parser produces — the image
/// does not depend on the list's order.
pub open spec fn attrs_map(attrs: Seq<(String, Option<String>)>) -> Map<
    Seq<char>,
    Option<Seq<char>>,
>
    decreases attrs.len(),
{
    if attrs.len() == 0 {
        Map::empty()
    } else {
        attrs_map(attrs.drop_last()).insert(
            attrs.last().0@,
            match attrs.last().1 {
                Some(v) => Some(v@),
                None => None,
            },
        )
    }
}

/// Mathematical image of one node: every string by its view, the attribute
/// list by the mapping it denotes.
#[verifier::ext_equal]
pub enum DocNodeView {
    /// An element.
    Element(DocElementView),
    /// A text leaf.
    Text(Seq<char>),
    /// A comment leaf.
    Comment(Seq<char>),
}

/// Mathematical image of one element.
#[verifier::ext_equal]
pub struct DocElementView {
    /// Tag name.
    pub name: Seq<char>,
    /// The identifier attribute, if present.
    pub id: Option<Seq<char>>,
    /// The mapping the attribute list denotes.
    pub attributes: Map<Seq<char>, Option<Seq<char>>>,
    /// The images of the child nodes, in order.
    pub children: Seq<DocNodeView>,
}

/// The image of one node.
pub open spec fn node_view(node: DocNode) -> DocNodeView
    decreases node,
{
    match node {
        DocNode::Text(t) => DocNodeView::Text(t@),
        DocNode::Comment(c) => DocNodeView::Comment(c@),
        DocNode::Element(e) => DocNodeView::Element(
            DocElementView {
                name: e.name@,
                id: match e.id {
                    Some(s) => Some(s@),
                    None => None,
                },
                attributes: attrs_map(e.attributes@),
                children: views_of(e.children@),
            },
        ),
    }
}

/// The images of a node sequence, in order.
pub open spec fn views_of(nodes: Seq<DocNode>) -> Seq<DocNodeView>
    decreases nodes,
{
    if nodes.len() == 0 {
        Seq::empty()
    } else {
        seq![node_view(nodes[0])] + views_of(nodes.skip(1))
    }
}

/// The value of the first attribute named `key`: `None` when the attribute
/// is absent, `Some(None)` when it carries no value.
pub open spec fn attr_value(attrs: Seq<(String, Option<String>)>, key: Seq<char>) -> Option<
    Option<Seq<char>>,
>
    decreases attrs.len(),
{
    if attrs.len() == 0 {
        None
    } else if attrs[0].0@ == key {
        match attrs[0].1 {
            Some(v) => Some(Some(v@)),
            None => Some(None),
        }
    } else {
        attr_value(attrs.skip(1), key)
    }
}

/// The attribute's value with absence collapsed to the empty string: the
/// word an attribute-bearing marker element effectively shows.
pub open spec fn attr_word(attrs: Seq<(String, Option<String>)>, key: Seq<char>) -> Seq<char> {
    match attr_value(attrs, key) {
        Some(Some(v)) => v,
        _ => Seq::empty(),
    }
}

/// Finds the first text leaf in a preorder walk of the descendants of
/// `node`.
#[verifier::loop_isolation(false)]
pub fn get_child_text<'a>(node: &'a DocNode) -> (r: Option<&'a String>)
    ensures
        match r {
            Some(t) => child_text(*node) == Some(t@),
            None => child_text(*node) is None,
        },
    decreases *node,
{
    match node {
        DocNode::Element(e) => {
            let n = e.children.len();
            let mut i: usize = 0;
            proof {
                assert(e.children@.skip(0) =~= e.children@);
            }
            while i < n
                invariant
                    0 <= i <= n,
                    n == e.children@.len(),
                    first_text(e.children@.skip(i as int)) == first_text(e.children@),
                decreases n - i,
            {
                proof {
                    assert(e.children@.skip(i as int)[0] == e.children@[i as int]);
                    assert(e.children@.skip(i as int).skip(1) =~= e.children@.skip(i + 1));
                }
                match &e.children[i] {
                    DocNode::Text(t) => {
                        proof {
                            assert(e.children@[i as int] == DocNode::Text(*t));
                            assert(first_text(e.children@.skip(i as int)) == Some(t@));
                        }
                        return Some(t);
                    },
                    DocNode::Element(_) => {
                        proof {
                            assert(decreases_to!(*node => e.children@[i as int]));
                        }
                        match get_child_text(&e.children[i]) {
                            Some(t) => {
                                return Some(t);
                            },
                            None => {},
                        }
                    },
                    _ => {},
                }
                i = i + 1;
            }
            proof {
                assert(e.children@.skip(n as int) =~= Seq::<DocNode>::empty());
            }
            None
        },
        _ => None,
    }
}

/// Finds the first child element of `node` with tag name `name`.
#[verifier::loop_isolation(false)]
pub fn get_child_node<'a>(node: &'a DocNode, name: &str) -> (r: Option<&'a DocNode>)
    ensures
        match r {
            Some(c) => child_elem_named(*node, name@) == Some(*c),
            None => child_elem_named(*node, name@) is None,
        },
{
    match node {
        DocNode::Element(e) => {
            let n = e.children.len();
            let mut i: usize = 0;
            proof {
                assert(e.children@.skip(0) =~= e.children@);
            }
            while i < n
                invariant
                    0 <= i <= n,
                    n == e.children@.len(),
                    first_elem_named(e.children@.skip(i as int), name@) == first_elem_named(
                        e.children@,
                        name@,
                    ),
                decreases n - i,
            {
                proof {
                    assert(e.children@.skip(i as int)[0] == e.children@[i as int]);
                    assert(e.children@.skip(i as int).skip(1) =~= e.children@.skip(i + 1));
                }
                match &e.children[i] {
                    DocNode::Element(c) => {
                        if crate::text::str_eq(c.name.as_str(), name) {
                            proof {
                                assert(e.children@[i as int] == DocNode::Element(*c));
                                assert(first_elem_named(e.children@.skip(i as int), name@)
                                    == Some(e.children@[i as int]));
                            }
                            return Some(&e.children[i]);
                        }
                    },
                    _ => {},
                }
                i = i + 1;
            }
            proof {
                assert(e.children@.skip(n as int) =~= Seq::<DocNode>::empty());
            }
            None
        },
        _ => None,
    }
}

/// Finds the first child element of `node` with tag name `name` and
/// identifier `id`.
#[verifier::loop_isolation(false)]
pub fn get_child_node_by_id<'a>(node: &'a DocNode, name: &str, id: &str) -> (r: Option<&'a DocNode>)
    ensures
        match r {
            Some(c) => child_elem_named_id(*node, name@, id@) == Some(*c),
            None => child_elem_named_id(*node, name@, id@) is None,
        },
{
    match node {
        DocNode::Element(e) => {
            let n = e.children.len();
            let mut i: usize = 0;
            proof {
                assert(e.children@.skip(0) =~= e.children@);
            }
            while i < n
                invariant
                    0 <= i <= n,
                    n == e.children@.len(),
                    first_elem_named_id(e.children@.skip(i as int), name@, id@)
                        == first_elem_named_id(e.children@, name@, id@),
                decreases n - i,
            {
                proof {
                    assert(e.children@.skip(i as int)[0] == e.children@[i as int]);
                    assert(e.children@.skip(i as int).skip(1) =~= e.children@.skip(i + 1));
                }
                match &e.children[i] {
                    DocNode::Element(c) => {
                        let id_matches: bool = match &c.id {
                            Some(cid) => crate::text::str_eq(cid.as_str(), id),
                            None => false,
                        };
                        if id_matches && crate::text::str_eq(c.name.as_str(), name) {
                            proof {
                                assert(e.children@[i as int] == DocNode::Element(*c));
                                assert(first_elem_named_id(e.children@.skip(i as int), name@, id@)
                                    == Some(e.children@[i as int]));
                            }
                            return Some(&e.children[i]);
                        }
                    },
                    _ => {},
                }
                i = i + 1;
            }
            proof {
                assert(e.children@.skip(n as int) =~= Seq::<DocNode>::empty());
            }
            None
        },
        _ => None,
    }
}

/// Reads the word that the attribute `key` of element `e` effectively
/// shows: the attribute's value, or the empty string when the attribute is
/// absent or carries no value.
#[verifier::loop_isolation(false)]
pub fn get_attr_word(e: &DocElement, key: &str) -> (r: String)
    ensures
        r@ == attr_word(e.attributes@, key@),
{
    let n = e.attributes.len();
    let mut i: usize = 0;
    proof {
        assert(e.attributes@.skip(0) =~= e.attributes@);
    }
    while i < n
        invariant
            0 <= i <= n,
            n == e.attributes@.len(),
            attr_value(e.attributes@.skip(i as int), key@) == attr_value(e.attributes@, key@),
        decreases n - i,
    {
        proof {
            assert(e.attributes@.skip(i as int)[0] == e.attributes@[i as int]);
            assert(e.attributes@.skip(i as int).skip(1) =~= e.attributes@.skip(i + 1));
        }
        if crate::text::str_eq(e.attributes[i].0.as_str(), key) {
            match &e.attributes[i].1 {
                Some(v) => {
                    return v.clone();
                },
                None => {
                    return String::new();
                },
            }
        }
        i = i + 1;
    }
    proof {
        assert(e.attributes@.skip(n as int) =~= Seq::<(String, Option<String>)>::empty());
    }
    String::new()
}

/// The value of the first attribute named `key`, mirroring `attr_value`.
#[verifier::loop_isolation(false)]
pub fn get_attr_value<'a>(e: &'a DocElement, key: &str) -> (r: Option<&'a Option<String>>)
    ensures
        match r {
            Some(v) => attr_value(e.attributes@, key@) == Some(
                match v {
                    Some(s) => Some(s@),
                    None => None::<Seq<char>>,
                },
            ),
            None => attr_value(e.attributes@, key@) is None,
        },
{
    let n = e.attributes.len();
    let mut i: usize = 0;
    proof {
        assert(e.attributes@.skip(0) =~= e.attributes@);
    }
    while i < n
        invariant
            0 <= i <= n,
            n == e.attributes@.len(),
            attr_value(e.attributes@.skip(i as int), key@) == attr_value(e.attributes@, key@),
        decreases n - i,
    {
        proof {
            assert(e.attributes@.skip(i as int)[0] == e.attributes@[i as int]);
            assert(e.attributes@.skip(i as int).skip(1) =~= e.attributes@.skip(i + 1));
        }
        if crate::text::str_eq(e.attributes[i].0.as_str(), key) {
            return Some(&e.attributes[i].1);
        }
        i = i + 1;
    }
    proof {
        assert(e.attributes@.skip(n as int) =~= Seq::<(String, Option<String>)>::empty());
    }
    None
}

} // verus!
