//! An owned, read-only XML tree.
//!
//! The tree is produced once per document by the tree provider
//! ([`parse_document`]) and then only read. Element nodes carry their tag
//! name, attributes, declared namespaces and children in document order; text
//! and comment nodes carry their character data. Node kinds the record
//! builders never look inside (processing instructions) are kept as
//! [`XmlNode::Unsupported`] placeholders so that sibling positions survive.

use vstd::prelude::*;

use roxmltree::Error as RoxmltreeError;

verus! {

/// One attribute of an element: its local name and its value.
pub struct XmlAttribute {
    pub name: String,
    pub value: String,
}

/// One namespace binding in scope of an element: an optional prefix (`None`
/// for the default namespace) and the namespace URI.
pub struct XmlNamespace {
    pub prefix: Option<String>,
    pub uri: String,
}

/// An element node: tag name, attributes, the namespace bindings in scope of
/// it (its own declarations and the inherited ones), and child nodes in
/// document order. What an element declares itself is what is in scope of it
/// but not of its parent.
pub struct XmlElement {
    pub tag: String,
    pub attributes: Vec<XmlAttribute>,
    pub namespaces: Vec<XmlNamespace>,
    pub children: Vec<XmlNode>,
}

/// A node of the document tree.
pub enum XmlNode {
    Element(XmlElement),
    Text(String),
    Comment(String),
    Unsupported,
}

/// Mathematical image of an [`XmlAttribute`].
pub struct XmlAttributeView {
    pub name: Seq<char>,
    pub value: Seq<char>,
}

/// Mathematical image of an [`XmlNamespace`].
pub struct XmlNamespaceView {
    pub prefix: Option<Seq<char>>,
    pub uri: Seq<char>,
}

/// Mathematical image of an [`XmlElement`].
pub struct XmlElementView {
    pub tag: Seq<char>,
    pub attributes: Seq<XmlAttributeView>,
    pub namespaces: Seq<XmlNamespaceView>,
    pub children: Seq<XmlNodeView>,
}

/// Mathematical image of an [`XmlNode`].
pub enum XmlNodeView {
    Element(XmlElementView),
    Text(Seq<char>),
    Comment(Seq<char>),
    Unsupported,
}

pub open spec fn attribute_view(a: XmlAttribute) -> XmlAttributeView {
    XmlAttributeView { name: a.name@, value: a.value@ }
}

pub open spec fn namespace_view(n: XmlNamespace) -> XmlNamespaceView {
    XmlNamespaceView {
        prefix: match n.prefix {
            Some(p) => Some(p@),
            None => None,
        },
        uri: n.uri@,
    }
}

pub open spec fn namespaces_view(s: Seq<XmlNamespace>) -> Seq<XmlNamespaceView> {
    s.map_values(|n: XmlNamespace| namespace_view(n))
}

pub open spec fn node_view(n: XmlNode) -> XmlNodeView
    decreases n,
{
    match n {
        XmlNode::Element(e) => XmlNodeView::Element(element_view(e)),
        XmlNode::Text(s) => XmlNodeView::Text(s@),
        XmlNode::Comment(s) => XmlNodeView::Comment(s@),
        XmlNode::Unsupported => XmlNodeView::Unsupported,
    }
}

pub open spec fn element_view(e: XmlElement) -> XmlElementView
    decreases e,
{
    XmlElementView {
        tag: e.tag@,
        attributes: e.attributes@.map_values(|a: XmlAttribute| attribute_view(a)),
        namespaces: namespaces_view(e.namespaces@),
        children: nodes_view(e.children@),
    }
}

pub open spec fn nodes_view(s: Seq<XmlNode>) -> Seq<XmlNodeView>
    decreases s,
{
    if s.len() == 0 {
        Seq::empty()
    } else {
        nodes_view(s.drop_last()).push(node_view(s.last()))
    }
}

impl View for XmlNode {
    type V = XmlNodeView;

    open spec fn view(&self) -> XmlNodeView {
        node_view(*self)
    }
}

impl View for XmlElement {
    type V = XmlElementView;

    open spec fn view(&self) -> XmlElementView {
        element_view(*self)
    }
}

pub broadcast proof fn lemma_nodes_view_len(s: Seq<XmlNode>)
    ensures
        (#[trigger] nodes_view(s)).len() == s.len(),
    decreases s,
{
    if s.len() > 0 {
        lemma_nodes_view_len(s.drop_last());
    }
}

pub broadcast proof fn lemma_nodes_view_index(s: Seq<XmlNode>, i: int)
    requires
        0 <= i < s.len(),
    ensures
        #[trigger] nodes_view(s)[i] == node_view(s[i]),
    decreases s,
{
    lemma_nodes_view_len(s.drop_last());
    if i < s.len() - 1 {
        lemma_nodes_view_index(s.drop_last(), i);
    }
}

/// The children of a node: an element's child list, nothing for other kinds.
pub open spec fn children_of(n: XmlNodeView) -> Seq<XmlNodeView> {
    match n {
        XmlNodeView::Element(e) => e.children,
        _ => Seq::empty(),
    }
}

/// The namespace bindings in scope of a node: an element's list, nothing for
/// other kinds.
pub open spec fn namespaces_of(n: XmlNodeView) -> Seq<XmlNamespaceView> {
    match n {
        XmlNodeView::Element(e) => e.namespaces,
        _ => Seq::empty(),
    }
}

/// A node's own text: a text or comment node's character data, an element's
/// first child's data when that child is a text node, nothing otherwise.
pub open spec fn text_of(n: XmlNodeView) -> Option<Seq<char>> {
    match n {
        XmlNodeView::Element(e) => {
            if e.children.len() > 0 && e.children[0] is Text {
                Some(e.children[0]->Text_0)
            } else {
                None
            }
        },
        XmlNodeView::Text(s) => Some(s),
        XmlNodeView::Comment(s) => Some(s),
        XmlNodeView::Unsupported => None,
    }
}

/// Whether a node is an element carrying the given tag name.
pub open spec fn is_tagged(n: XmlNodeView, tag: Seq<char>) -> bool {
    n matches XmlNodeView::Element(e) && e.tag == tag
}

/// The value of the first attribute with the given name, searching from
/// position `i`.
pub open spec fn attr_lookup_from(attrs: Seq<XmlAttributeView>, name: Seq<char>, i: int) -> Option<
    Seq<char>,
>
    decreases attrs.len() - i,
{
    if i < 0 || i >= attrs.len() {
        None
    } else if attrs[i].name == name {
        Some(attrs[i].value)
    } else {
        attr_lookup_from(attrs, name, i + 1)
    }
}

/// The value of the given attribute of a node, nothing when the node is no
/// element or carries no attribute of that name.
pub open spec fn attr_of(n: XmlNodeView, name: Seq<char>) -> Option<Seq<char>> {
    match n {
        XmlNodeView::Element(e) => attr_lookup_from(e.attributes, name, 0),
        _ => None,
    }
}

/// The last element among `children` carrying the given tag, if any.
pub open spec fn last_tagged(children: Seq<XmlNodeView>, tag: Seq<char>) -> Option<XmlNodeView>
    decreases children.len(),
{
    if children.len() == 0 {
        None
    } else if is_tagged(children.last(), tag) {
        Some(children.last())
    } else {
        last_tagged(children.drop_last(), tag)
    }
}

/// The text of the last element among `children` carrying the given tag.
pub open spec fn last_tagged_text(children: Seq<XmlNodeView>, tag: Seq<char>) -> Option<Seq<char>> {
    match last_tagged(children, tag) {
        Some(c) => text_of(c),
        None => None,
    }
}

/// All elements among `children` carrying the given tag, in document order.
pub open spec fn tagged_children(children: Seq<XmlNodeView>, tag: Seq<char>) -> Seq<XmlNodeView>
    decreases children.len(),
{
    if children.len() == 0 {
        Seq::empty()
    } else {
        let rest = tagged_children(children.drop_last(), tag);
        if is_tagged(children.last(), tag) {
            rest.push(children.last())
        } else {
            rest
        }
    }
}

/// How [`last_tagged`] grows at the back: the pushed node wins when it
/// carries the tag, otherwise nothing changes.
pub broadcast proof fn lemma_last_tagged_push(s: Seq<XmlNodeView>, x: XmlNodeView, tag: Seq<char>)
    ensures
        #[trigger] last_tagged(s.push(x), tag) == if is_tagged(x, tag) {
            Some(x)
        } else {
            last_tagged(s, tag)
        },
{
    assert(s.push(x).drop_last() =~= s);
}

/// How [`tagged_children`] grows at the back.
pub broadcast proof fn lemma_tagged_children_push(
    s: Seq<XmlNodeView>,
    x: XmlNodeView,
    tag: Seq<char>,
)
    ensures
        #[trigger] tagged_children(s.push(x), tag) == if is_tagged(x, tag) {
            tagged_children(s, tag).push(x)
        } else {
            tagged_children(s, tag)
        },
{
    assert(s.push(x).drop_last() =~= s);
}

/// A child list without any element of the given tag has no last one.
pub proof fn lemma_last_tagged_none(s: Seq<XmlNodeView>, tag: Seq<char>)
    requires
        forall|i: int| 0 <= i < s.len() ==> !is_tagged(#[trigger] s[i], tag),
    ensures
        last_tagged(s, tag) is None,
    decreases s.len(),
{
    if s.len() > 0 {
        lemma_last_tagged_none(s.drop_last(), tag);
    }
}

/// When every child is an element of the given tag, [`tagged_children`]
/// keeps them all.
pub proof fn lemma_tagged_children_all(s: Seq<XmlNodeView>, tag: Seq<char>)
    requires
        forall|i: int| 0 <= i < s.len() ==> is_tagged(#[trigger] s[i], tag),
    ensures
        tagged_children(s, tag) == s,
    decreases s.len(),
{
    if s.len() > 0 {
        lemma_tagged_children_all(s.drop_last(), tag);
        assert(tagged_children(s.drop_last(), tag).push(s.last()) =~= s);
    }
}

/// Inserting a node that does not carry the tag anywhere in a child list
/// leaves [`last_tagged`] unchanged.
pub proof fn lemma_last_tagged_insert_other(
    s: Seq<XmlNodeView>,
    k: int,
    x: XmlNodeView,
    tag: Seq<char>,
)
    requires
        0 <= k <= s.len(),
        !is_tagged(x, tag),
    ensures
        last_tagged(s.insert(k, x), tag) == last_tagged(s, tag),
    decreases s.len(),
{
    let s2 = s.insert(k, x);
    if k == s.len() {
        assert(s2 =~= s.push(x));
        lemma_last_tagged_push(s, x, tag);
    } else {
        assert(s2.last() == s.last());
        assert(s2.drop_last() =~= s.drop_last().insert(k, x));
        if !is_tagged(s.last(), tag) {
            lemma_last_tagged_insert_other(s.drop_last(), k, x, tag);
        }
    }
}

/// Inserting a node that does not carry the tag anywhere in a child list
/// leaves [`tagged_children`] unchanged.
pub proof fn lemma_tagged_children_insert_other(
    s: Seq<XmlNodeView>,
    k: int,
    x: XmlNodeView,
    tag: Seq<char>,
)
    requires
        0 <= k <= s.len(),
        !is_tagged(x, tag),
    ensures
        tagged_children(s.insert(k, x), tag) == tagged_children(s, tag),
    decreases s.len(),
{
    let s2 = s.insert(k, x);
    if k == s.len() {
        assert(s2 =~= s.push(x));
        lemma_tagged_children_push(s, x, tag);
    } else {
        assert(s2.last() == s.last());
        assert(s2.drop_last() =~= s.drop_last().insert(k, x));
        lemma_tagged_children_insert_other(s.drop_last(), k, x, tag);
    }
}

/// The node handle of the tree-based XML reader.
#[verifier::external_type_specification]
#[verifier::external_body]
pub struct ExRoxmltreeNode<'a, 'input: 'a>(roxmltree::Node<'a, 'input>);

/// What parsing a text as XML yields: the document's top-level nodes in
/// document order when the text is well-formed, nothing otherwise. The result
/// depends on the text alone.
pub uninterp spec fn xml_document_of(text: Seq<char>) -> Option<Seq<XmlNodeView>>;

/// Relies on roxmltree's element accessors (`tag_name`, `attributes`,
/// `namespaces` — the bindings in scope, parents' included — and `children`)
/// to copy one element of a parsed document, and its descendants, into the
/// library's own tree. Only [`convert_node`] calls it; together with
/// [`parse_document`] they realise [`xml_document_of`].
#[verifier::external_body]
fn convert_element(n: roxmltree::Node) -> XmlElement {
    XmlElement {
        tag: n.tag_name().name().to_string(),
        attributes: n.attributes().map(
            |a| XmlAttribute { name: a.name().to_string(), value: a.value().to_string() },
        ).collect(),
        namespaces: n.namespaces().map(
            |s| XmlNamespace { prefix: s.name().map(str::to_string), uri: s.uri().to_string() },
        ).collect(),
        children: n.children().map(convert_node).collect(),
    }
}

/// Relies on roxmltree's `node_type` and `text` to copy one node of a parsed
/// document, and its descendants, into the library's own tree. Only
/// [`parse_document`] and [`convert_element`] call it.
#[verifier::external_body]
fn convert_node(n: roxmltree::Node) -> XmlNode {
    match n.node_type() {
        roxmltree::NodeType::Element => XmlNode::Element(convert_element(n)),
        roxmltree::NodeType::Text => XmlNode::Text(n.text().unwrap_or("").to_string()),
        roxmltree::NodeType::Comment => XmlNode::Comment(n.text().unwrap_or("").to_string()),
        _ => XmlNode::Unsupported,
    }
}

/// Relies on roxmltree::Document::parse_with_options: it builds the document
/// tree exactly when the text is well-formed XML, reports an error otherwise,
/// and is a pure function of the text. A document type declaration is
/// allowed and not validated against, so a document that carries one is no
/// error; roxmltree's own guards against entity-expansion attacks stay on.
#[verifier::external_body]
pub fn parse_document(text: &str) -> (r: Result<Vec<XmlNode>, RoxmltreeError>)
    ensures
        match r {
            Ok(nodes) => xml_document_of(text@) == Some(nodes_view(nodes@)),
            Err(_) => xml_document_of(text@) is None,
        },
{
    let options = roxmltree::ParsingOptions { allow_dtd: true, ..Default::default() };
    match roxmltree::Document::parse_with_options(text, options) {
        Ok(doc) => Ok(doc.root().children().map(convert_node).collect()),
        Err(e) => Err(e),
    }
}

/// The first element with the given tag in a depth-first, document-order walk
/// of the nodes from position `i` on, if any.
pub open spec fn first_tagged_from(nodes: Seq<XmlNodeView>, i: int, tag: Seq<char>) -> Option<
    XmlNodeView,
>
    decreases nodes, nodes.len() - i,
{
    if i < 0 || i >= nodes.len() {
        None
    } else if is_tagged(nodes[i], tag) {
        Some(nodes[i])
    } else {
        let sub = if nodes[i] is Element {
            first_tagged_from(nodes[i]->Element_0.children, 0, tag)
        } else {
            None
        };
        if sub is Some {
            sub
        } else {
            first_tagged_from(nodes, i + 1, tag)
        }
    }
}

/// Depth-first search for the first element with the given tag, starting at
/// position `i` of the node list.
fn first_tagged_search<'x>(nodes: &'x Vec<XmlNode>, i: usize, tag: &str) -> (r: Option<
    &'x XmlNode,
>)
    ensures
        match r {
            Some(n) => first_tagged_from(nodes_view(nodes@), i as int, tag@) == Some(n@),
            None => first_tagged_from(nodes_view(nodes@), i as int, tag@) is None,
        },
    decreases nodes@, nodes@.len() - i,
{
    proof {
        lemma_nodes_view_len(nodes@);
    }
    if i >= nodes.len() {
        return None;
    }
    proof {
        lemma_nodes_view_index(nodes@, i as int);
    }
    let n = &nodes[i];
    if n.has_tag(tag) {
        return Some(n);
    }
    let sub: Option<&'x XmlNode> = match n {
        XmlNode::Element(e) => {
            proof {
                assert(decreases_to!(nodes@ => nodes@[i as int]));
                assert(decreases_to!(nodes@[i as int] => e.children@));
            }
            first_tagged_search(&e.children, 0, tag)
        },
        _ => None,
    };
    match sub {
        Some(x) => Some(x),
        None => first_tagged_search(nodes, i + 1, tag),
    }
}

/// The first element with the given tag in a depth-first, document-order walk
/// of the forest `nodes`, if any: the top-level reader's root lookup.
pub fn first_tagged<'x>(nodes: &'x Vec<XmlNode>, tag: &str) -> (r: Option<&'x XmlNode>)
    ensures
        match r {
            Some(n) => first_tagged_from(nodes_view(nodes@), 0, tag@) == Some(n@),
            None => first_tagged_from(nodes_view(nodes@), 0, tag@) is None,
        },
{
    first_tagged_search(nodes, 0, tag)
}

/// Character-for-character string equality.
pub fn str_eq(a: &str, b: &str) -> (r: bool)
    ensures
        r == (a@ == b@),
{
    let a_len = a.unicode_len();
    let b_len = b.unicode_len();
    if a_len != b_len {
        return false;
    }
    let mut i: usize = 0;
    while i < a_len
        invariant
            i <= a_len,
            a_len == a@.len(),
            a_len == b@.len(),
            forall|j: int| 0 <= j < i ==> a@[j] == b@[j],
        decreases a_len - i,
    {
        if a.get_char(i) != b.get_char(i) {
            return false;
        }
        i = i + 1;
    }
    proof {
        assert(a@ =~= b@);
    }
    true
}

impl XmlNode {
    /// Whether this node is an element.
    pub fn is_element(&self) -> (r: bool)
        ensures
            r == (self@ is Element),
    {
        match self {
            XmlNode::Element(_) => true,
            _ => false,
        }
    }

    /// Whether this node is an element carrying the given tag name.
    pub fn has_tag(&self, tag: &str) -> (r: bool)
        ensures
            r == is_tagged(self@, tag@),
    {
        match self {
            XmlNode::Element(e) => str_eq(e.tag.as_str(), tag),
            _ => false,
        }
    }

    /// How many child nodes this node has.
    pub fn num_children(&self) -> (n: usize)
        ensures
            n == children_of(self@).len(),
    {
        match self {
            XmlNode::Element(e) => {
                proof {
                    lemma_nodes_view_len(e.children@);
                }
                e.children.len()
            },
            _ => 0,
        }
    }

    /// The child node at position `i`.
    pub fn child(&self, i: usize) -> (r: &XmlNode)
        requires
            i < children_of(self@).len(),
        ensures
            r@ == children_of(self@)[i as int],
    {
        match self {
            XmlNode::Element(e) => {
                proof {
                    lemma_nodes_view_len(e.children@);
                    lemma_nodes_view_index(e.children@, i as int);
                }
                &e.children[i]
            },
            _ => {
                proof {
                    assert(false);
                }
                self
            },
        }
    }

    /// The node's own direct text, as [`text_of`] describes it.
    pub fn text(&self) -> (r: Option<String>)
        ensures
            r.deep_view() == text_of(self@),
    {
        match self {
            XmlNode::Element(e) => {
                proof {
                    lemma_nodes_view_len(e.children@);
                }
                if e.children.len() > 0 {
                    proof {
                        lemma_nodes_view_index(e.children@, 0);
                    }
                    match &e.children[0] {
                        XmlNode::Text(s) => Some(s.clone()),
                        _ => None,
                    }
                } else {
                    None
                }
            },
            XmlNode::Text(s) => Some(s.clone()),
            XmlNode::Comment(s) => Some(s.clone()),
            XmlNode::Unsupported => None,
        }
    }

    /// The value of the first attribute with the given name, if any.
    pub fn attribute(&self, name: &str) -> (r: Option<String>)
        ensures
            r.deep_view() == attr_of(self@, name@),
    {
        match self {
            XmlNode::Element(e) => {
                let ghost attrs = element_view(*e).attributes;
                let mut i: usize = 0;
                while i < e.attributes.len()
                    invariant
                        i <= e.attributes.len(),
                        attrs.len() == e.attributes@.len(),
                        attrs == e.attributes@.map_values(|a: XmlAttribute| attribute_view(a)),
                        attr_of(self@, name@) == attr_lookup_from(attrs, name@, i as int),
                    decreases e.attributes.len() - i,
                {
                    if str_eq(e.attributes[i].name.as_str(), name) {
                        proof {
                            assert(attrs[i as int] == attribute_view(e.attributes@[i as int]));
                            assert(attr_lookup_from(attrs, name@, i as int) == Some(
                                attrs[i as int].value,
                            ));
                        }
                        return Some(e.attributes[i].value.clone());
                    }
                    i = i + 1;
                }
                None
            },
            _ => None,
        }
    }
}

} // verus!
