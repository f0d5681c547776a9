use vstd::prelude::*;

use crate::text::text_eq;

verus! {

/// An attribute of an element: its local name and its value.
#[derive(Clone, Debug)]
pub struct XmlAttribute {
    pub name: String,
    pub value: String,
}

/// One node of a parsed XML document. Its position in
/// [`XmlDocument::nodes`] is its id; `parent` is the id of its parent node.
/// `name` and `namespace` are the expanded tag name (empty, without
/// namespace, for a node that is not an element); `text` is the node's text
/// (for an element, that of its first child when that child is text).
#[derive(Clone, Debug)]
pub struct XmlNode {
    pub parent: Option<usize>,
    pub name: String,
    pub namespace: Option<String>,
    pub text: Option<String>,
    pub attributes: Vec<XmlAttribute>,
}

/// A parsed XML document: the root node and all its descendants, in
/// document order.
#[derive(Clone, Debug)]
pub struct XmlDocument {
    pub nodes: Vec<XmlNode>,
}

/// What a node holds, as mathematical values.
pub struct XmlNodeView {
    pub parent: Option<usize>,
    pub name: Seq<char>,
    pub namespace: Option<Seq<char>>,
    pub text: Option<Seq<char>>,
    pub attributes: Seq<(Seq<char>, Seq<char>)>,
}

pub open spec fn option_text(s: Option<String>) -> Option<Seq<char>> {
    match s {
        Some(t) => Some(t@),
        None => None,
    }
}

impl View for XmlAttribute {
    type V = (Seq<char>, Seq<char>);

    open spec fn view(&self) -> (Seq<char>, Seq<char>) {
        (self.name@, self.value@)
    }
}

impl View for XmlNode {
    type V = XmlNodeView;

    open spec fn view(&self) -> XmlNodeView {
        XmlNodeView {
            parent: self.parent,
            name: self.name@,
            namespace: option_text(self.namespace),
            text: option_text(self.text),
            attributes: self.attributes@.map_values(|a: XmlAttribute| a@),
        }
    }
}

impl View for XmlDocument {
    type V = Seq<XmlNodeView>;

    open spec fn view(&self) -> Seq<XmlNodeView> {
        self.nodes@.map_values(|n: XmlNode| n@)
    }
}

/// The document that `roxmltree` parses from `text`, node by node in
/// document order, or `None` where it rejects the text.
pub uninterp spec fn parsed_xml(text: Seq<char>) -> Option<Seq<XmlNodeView>>;

#[verifier::external_type_specification]
#[verifier::external_body]
pub struct ExXmlError(roxmltree::Error);

/// Calls `roxmltree::Document::parse` and copies every node that
/// `Document::descendants` yields (the root and all its descendants, in
/// document order) into an [`XmlNode`]: the id of its parent, its tag name
/// and namespace, `Node::text`, and its attributes' local names and values.
/// The contract names the result and claims only that it is a function of the
/// text.
#[verifier::external_body]
pub(crate) fn parse_xml(text: &str) -> (res: Result<XmlDocument, roxmltree::Error>)
    ensures
        match res {
            Ok(doc) => parsed_xml(text@) == Some(doc@),
            Err(_) => parsed_xml(text@) is None,
        },
{
    let doc = roxmltree::Document::parse(text)?;
    let nodes = doc.descendants().map(|n| XmlNode {
        parent: n.parent().map(|p| p.id().get_usize()),
        name: n.tag_name().name().to_string(),
        namespace: n.tag_name().namespace().map(|s| s.to_string()),
        text: n.text().map(|s| s.to_string()),
        attributes: n.attributes().map(|a| XmlAttribute {
            name: a.name().to_string(),
            value: a.value().to_string(),
        }).collect(),
    }).collect();
    Ok(XmlDocument { nodes })
}

/// The least `i` with `lo <= i < hi` that satisfies `pred`.
pub open spec fn first_match(lo: int, hi: int, pred: spec_fn(int) -> bool) -> Option<int>
    decreases hi - lo,
{
    if lo >= hi {
        None
    } else if pred(lo) {
        Some(lo)
    } else {
        first_match(lo + 1, hi, pred)
    }
}

pub proof fn lemma_first_match_bounds(lo: int, hi: int, pred: spec_fn(int) -> bool)
    ensures
        first_match(lo, hi, pred) matches Some(i) ==> lo <= i < hi && pred(i) && forall|j: int|
            lo <= j < i ==> !#[trigger] pred(j),
        first_match(lo, hi, pred) is None ==> forall|j: int| lo <= j < hi ==> !#[trigger] pred(j),
    decreases hi - lo,
{
    if lo < hi {
        lemma_first_match_bounds(lo + 1, hi, pred);
    }
}

/// The first index in `lo..hi` that satisfies `pred` is `k` when `k`
/// satisfies it and no index before it does.
pub proof fn lemma_first_match_is(lo: int, hi: int, pred: spec_fn(int) -> bool, k: int)
    requires
        lo <= k < hi,
        pred(k),
        forall|j: int| lo <= j < k ==> !#[trigger] pred(j),
    ensures
        first_match(lo, hi, pred) == Some(k),
    decreases k - lo,
{
    if lo < k {
        assert(!pred(lo));
        lemma_first_match_is(lo + 1, hi, pred, k);
    }
}

/// Node `j` is node `i` or lies below it: following parents from `j` (each
/// parent preceding its child) reaches `i`.
pub open spec fn descends_from(nodes: Seq<XmlNodeView>, j: int, i: int) -> bool
    decreases j,
{
    if j == i {
        true
    } else if 0 <= j < nodes.len() {
        match nodes[j].parent {
            Some(p) => p < j && descends_from(nodes, p as int, i),
            None => false,
        }
    } else {
        false
    }
}

/// Node `node` is an element with local name `name` in namespace `ns`.
pub open spec fn has_tag(node: XmlNodeView, name: Seq<char>, ns: Seq<char>) -> bool {
    node.name == name && node.namespace == Some(ns)
}

/// The attribute at `k` is named `name`.
pub open spec fn attribute_named(attributes: Seq<(Seq<char>, Seq<char>)>, name: Seq<char>) -> spec_fn(int) -> bool {
    |k: int| attributes[k].0 == name
}

/// The value of the first attribute named `name`.
pub open spec fn attribute_value(attributes: Seq<(Seq<char>, Seq<char>)>, name: Seq<char>) -> Option<Seq<char>> {
    match first_match(0, attributes.len() as int, attribute_named(attributes, name)) {
        Some(k) => Some(attributes[k].1),
        None => None,
    }
}

/// Node `i` is an element `name` in namespace `ns`.
pub open spec fn tagged(nodes: Seq<XmlNodeView>, name: Seq<char>, ns: Seq<char>) -> spec_fn(int) -> bool {
    |i: int| has_tag(nodes[i], name, ns)
}

/// Node `j` is a child of node `parent` and an element `name` in namespace
/// `ns`.
pub open spec fn child_tagged(nodes: Seq<XmlNodeView>, parent: int, name: Seq<char>, ns: Seq<char>) -> spec_fn(int) -> bool {
    |j: int| nodes[j].parent == Some(parent as usize) && has_tag(nodes[j], name, ns)
}

/// Node `i` has the local name `name`, in any namespace.
pub open spec fn named(nodes: Seq<XmlNodeView>, name: Seq<char>) -> spec_fn(int) -> bool {
    |i: int| nodes[i].name == name
}

/// Node `k` is node `top` or a descendant of it, and has the local name
/// `name`.
pub open spec fn named_below(nodes: Seq<XmlNodeView>, top: int, name: Seq<char>) -> spec_fn(int) -> bool {
    |k: int| descends_from(nodes, k, top) && nodes[k].name == name
}

/// `found` is the first index in `lo..hi` whose node satisfies `pred`.
pub open spec fn is_first(found: Option<usize>, lo: int, hi: int, pred: spec_fn(int) -> bool) -> bool {
    match found {
        Some(i) => lo <= i < hi && first_match(lo, hi, pred) == Some(i as int),
        None => first_match(lo, hi, pred) is None,
    }
}

impl XmlDocument {
    /// Parses `text`.
    pub fn parse(text: &str) -> (res: Result<XmlDocument, roxmltree::Error>)
        ensures
            match res {
                Ok(doc) => parsed_xml(text@) == Some(doc@),
                Err(_) => parsed_xml(text@) is None,
            },
    {
        parse_xml(text)
    }

    /// Whether node `i` has the local name `name` (in any namespace).
    pub fn is_named(&self, i: usize, name: &str) -> (yes: bool)
        requires
            i < self@.len(),
        ensures
            yes == (self@[i as int].name == name@),
    {
        text_eq(self.nodes[i].name.as_str(), name)
    }

    /// Whether node `i` is an element `name` in namespace `ns`.
    pub fn is_tagged(&self, i: usize, name: &str, ns: &str) -> (yes: bool)
        requires
            i < self@.len(),
        ensures
            yes == has_tag(self@[i as int], name@, ns@),
    {
        let node = &self.nodes[i];
        if !text_eq(node.name.as_str(), name) {
            return false;
        }
        match &node.namespace {
            Some(uri) => text_eq(uri.as_str(), ns),
            None => false,
        }
    }

    /// Whether node `j` is node `i` or one of its descendants.
    pub fn descends_from(&self, j: usize, i: usize) -> (yes: bool)
        ensures
            yes == descends_from(self@, j as int, i as int),
    {
        let ghost nodes = self@;
        let mut cur = j;
        loop
            invariant
                nodes == self@,
                descends_from(nodes, j as int, i as int) == descends_from(nodes, cur as int, i as int),
            decreases cur,
        {
            if cur == i {
                return true;
            }
            if cur >= self.nodes.len() {
                return false;
            }
            match self.nodes[cur].parent {
                Some(p) => {
                    if p < cur {
                        cur = p;
                    } else {
                        return false;
                    }
                },
                None => {
                    return false;
                },
            }
        }
    }

    /// The first node, in document order, that is an element `name` in
    /// namespace `ns`.
    pub fn first_tagged(&self, name: &str, ns: &str) -> (found: Option<usize>)
        ensures
            is_first(found, 0, self@.len() as int, tagged(self@, name@, ns@)),
    {
        let n = self.nodes.len();
        let ghost pred = tagged(self@, name@, ns@);
        for i in 0..n
            invariant
                n == self@.len(),
                pred == tagged(self@, name@, ns@),
                first_match(0, n as int, pred) == first_match(i as int, n as int, pred),
        {
            if self.is_tagged(i, name, ns) {
                return Some(i);
            }
        }
        None
    }

    /// The first child of node `parent`, in document order, that is an
    /// element `name` in namespace `ns`.
    pub fn first_child_tagged(&self, parent: usize, name: &str, ns: &str) -> (found: Option<usize>)
        ensures
            is_first(found, 0, self@.len() as int, child_tagged(self@, parent as int, name@, ns@)),
    {
        let n = self.nodes.len();
        let ghost pred = child_tagged(self@, parent as int, name@, ns@);
        for j in 0..n
            invariant
                n == self@.len(),
                pred == child_tagged(self@, parent as int, name@, ns@),
                first_match(0, n as int, pred) == first_match(j as int, n as int, pred),
        {
            let is_child = match self.nodes[j].parent {
                Some(p) => p == parent,
                None => false,
            };
            if is_child && self.is_tagged(j, name, ns) {
                return Some(j);
            }
        }
        None
    }

    /// The first node, in document order, with the local name `name`.
    pub fn first_named(&self, name: &str) -> (found: Option<usize>)
        ensures
            is_first(found, 0, self@.len() as int, named(self@, name@)),
    {
        let n = self.nodes.len();
        let ghost pred = named(self@, name@);
        for i in 0..n
            invariant
                n == self@.len(),
                pred == named(self@, name@),
                first_match(0, n as int, pred) == first_match(i as int, n as int, pred),
        {
            if self.is_named(i, name) {
                return Some(i);
            }
        }
        None
    }

    /// The first node, in document order, that is `top` or lies below it and
    /// has the local name `name`.
    pub fn first_named_below(&self, top: usize, name: &str) -> (found: Option<usize>)
        ensures
            is_first(found, top as int, self@.len() as int, named_below(self@, top as int, name@)),
    {
        let n = self.nodes.len();
        let ghost pred = named_below(self@, top as int, name@);
        if top >= n {
            return None;
        }
        for k in top..n
            invariant
                n == self@.len(),
                pred == named_below(self@, top as int, name@),
                first_match(top as int, n as int, pred) == first_match(k as int, n as int, pred),
        {
            if self.descends_from(k, top) && self.is_named(k, name) {
                return Some(k);
            }
        }
        None
    }

    /// The text of node `i`.
    pub fn text_of(&self, i: usize) -> (text: Option<String>)
        requires
            i < self@.len(),
        ensures
            option_text(text) == self@[i as int].text,
    {
        self.nodes[i].text.clone()
    }

    /// The value of node `i`'s first attribute whose local name is `name`.
    pub fn attribute(&self, i: usize, name: &str) -> (value: Option<String>)
        requires
            i < self@.len(),
        ensures
            option_text(value) == attribute_value(self@[i as int].attributes, name@),
    {
        let attributes = &self.nodes[i].attributes;
        let ghost attrs = self@[i as int].attributes;
        let ghost pred = attribute_named(attrs, name@);
        let n = attributes.len();
        assert(attrs.len() == n);
        for k in 0..n
            invariant
                n == attributes@.len(),
                attrs == attributes@.map_values(|a: XmlAttribute| a@),
                pred == attribute_named(attrs, name@),
                attrs == self@[i as int].attributes,
                first_match(0, n as int, pred) == first_match(k as int, n as int, pred),
        {
            assert(attrs[k as int] == attributes@[k as int]@);
            if text_eq(attributes[k].name.as_str(), name) {
                return Some(attributes[k].value.clone());
            }
        }
        None
    }
}

} // verus!
