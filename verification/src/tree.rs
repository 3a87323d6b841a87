use crate::error::Error;
use vstd::prelude::*;

verus! {

// ---------------------------------------------------------------------------
// Trusted tree access.
//
// The XML tokenizer is an outside collaborator: the engine only requires a
// tree-access contract (children in document order, attribute lookup by
// name, an element's own text, and telling element nodes from other node
// kinds).  The items below carry that contract; everything past them is
// verified against the arena built here.
// ---------------------------------------------------------------------------
/// The borrowed tree that `roxmltree` produces from XML text.
#[verifier::external_type_specification]
#[verifier::external_body]
pub struct ExDocument<'input>(roxmltree::Document<'input>);

/// One node of a borrowed `roxmltree` tree.
#[verifier::external_type_specification]
#[verifier::external_body]
pub struct ExNode<'a, 'input: 'a>(roxmltree::Node<'a, 'input>);

/// Relies on roxmltree::Document::parse: tokenizes XML text into a
/// navigable tree, or nothing when the text is not well-formed XML.
#[verifier::external_body]
fn xml_parse(text: &str) -> Option<roxmltree::Document<'_>> {
    roxmltree::Document::parse(text).ok()
}

/// Relies on roxmltree::Document::root_element: the root element node,
/// which every well-formed document has.
#[verifier::external_body]
fn xml_root<'a, 'input>(doc: &'a roxmltree::Document<'input>) -> roxmltree::Node<'a, 'input> {
    doc.root_element()
}

/// Relies on roxmltree::Node::is_element: whether the node is an element,
/// as opposed to text, a comment, or a processing instruction.
#[verifier::external_body]
fn xml_is_element(n: &roxmltree::Node) -> bool {
    n.is_element()
}

/// Relies on roxmltree::Node::tag_name: the node's local tag name; empty
/// for non-element nodes.
#[verifier::external_body]
fn xml_tag_name(n: &roxmltree::Node) -> String {
    n.tag_name().name().to_string()
}

/// Relies on roxmltree::Node::text: an element's own text (the text of
/// its first child when that child is a text node), or a text or comment
/// node's own content.
#[verifier::external_body]
fn xml_text(n: &roxmltree::Node) -> Option<String> {
    n.text().map(|t| t.to_string())
}

/// Relies on roxmltree::Node::attributes: the node's attributes in document
/// order, each as its local name and value.  `roxmltree::Node::attribute`
/// resolves a plain name to the first attribute with that local name, which
/// is how the arena's `find_attr` reads this list.
#[verifier::external_body]
fn xml_attributes(n: &roxmltree::Node) -> Vec<(String, String)> {
    n.attributes().map(|a| (a.name().to_string(), a.value().to_string())).collect()
}

/// Relies on roxmltree::Node::children: all child nodes in document order.
#[verifier::external_body]
fn xml_children<'a, 'input>(n: &roxmltree::Node<'a, 'input>) -> Vec<roxmltree::Node<'a, 'input>> {
    n.children().collect()
}

// ---------------------------------------------------------------------------
// The arena.
// ---------------------------------------------------------------------------
/// One node of the arena: plain values carrying exactly what the engine
/// reads through the tree-access contract.
#[derive(Debug, Clone)]
pub struct XmlNode {
    /// Local tag name; empty for non-element nodes.
    pub tag: String,
    /// Attributes in document order, as (name, value) pairs.
    pub attrs: Vec<(String, String)>,
    /// The node's own text: an element's first text child, or a text or
    /// comment node's own content.
    pub text: Option<String>,
    /// Whether this is an element node.
    pub is_element: bool,
    /// Arena indices of the child nodes, in document order.
    pub children: Vec<usize>,
}

/// An immutable XML document, arena-owned: the document owns all node
/// storage, and nodes refer to their children by index.  Children always
/// sit at indices below their parent, so the root element is the last
/// node; `wf` captures both facts.
#[derive(Debug, Clone)]
pub struct XmlDocument {
    pub nodes: Vec<XmlNode>,
}

impl XmlDocument {
    /// Every child index is below its parent's own index (hence in
    /// bounds), and the arena is non-empty.
    pub open spec fn wf(&self) -> bool {
        &&& self.nodes.len() >= 1
        &&& nodes_wf(self.nodes@)
    }

    /// The arena index of the root element.
    pub open spec fn spec_root(&self) -> int {
        self.nodes.len() - 1
    }

    /// The arena index of the root element.
    pub fn root(&self) -> (r: usize)
        requires
            self.wf(),
        ensures
            r == self.spec_root(),
    {
        self.nodes.len() - 1
    }

    /// Decides well-formedness at run time, for callers outside the
    /// proof boundary that hold an arena of unknown provenance.
    pub fn check_wf(&self) -> (r: bool)
        ensures
            r == self.wf(),
    {
        let n = self.nodes.len();
        if n == 0 {
            return false;
        }
        let mut i: usize = 0;
        while i < n
            invariant
                n == self.nodes@.len(),
                i <= n,
                forall|a: int, k: int|
                    0 <= a < i && 0 <= k < self.nodes@[a].children.len() ==> (
                    #[trigger] self.nodes@[a].children[k]) < a,
            decreases n - i,
        {
            let cs = &self.nodes[i].children;
            let m = cs.len();
            let mut k: usize = 0;
            while k < m
                invariant
                    n == self.nodes@.len(),
                    i < n,
                    cs == self.nodes@[i as int].children,
                    m == cs@.len(),
                    k <= m,
                    forall|q: int| 0 <= q < k ==> (#[trigger] cs@[q]) < i,
                decreases m - k,
            {
                if cs[k] >= i {
                    return false;
                }
                k = k + 1;
            }
            i = i + 1;
        }
        true
    }
}

/// Children of every node stored strictly below the node itself.
pub open spec fn nodes_wf(nodes: Seq<XmlNode>) -> bool {
    forall|i: int, k: int|
        0 <= i < nodes.len() && 0 <= k < nodes[i].children.len() ==> (
        #[trigger] nodes[i].children[k]) < i
}

/// The first attribute with the given name, if any: attribute lookup by
/// plain name resolves to the first attribute whose local name matches.
pub open spec fn find_attr(attrs: Seq<(String, String)>, name: Seq<char>) -> Option<Seq<char>>
    decreases attrs.len(),
{
    if attrs.len() == 0 {
        None
    } else if attrs[0].0@ == name {
        Some(attrs[0].1@)
    } else {
        find_attr(attrs.drop_first(), name)
    }
}

/// Looks an attribute up by name on one arena node.
pub fn node_attr(n: &XmlNode, name: &str) -> (r: Option<String>)
    ensures
        match r {
            Some(v) => find_attr(n.attrs@, name@) == Some(v@),
            None => find_attr(n.attrs@, name@) is None,
        },
{
    let m = n.attrs.len();
    let mut i: usize = 0;
    proof {
        assert(n.attrs@.skip(0) =~= n.attrs@);
    }
    while i < m
        invariant
            m == n.attrs@.len(),
            i <= m,
            find_attr(n.attrs@, name@) == find_attr(n.attrs@.skip(i as int), name@),
        decreases m - i,
    {
        let pair = &n.attrs[i];
        proof {
            assert(n.attrs@.skip(i as int)[0] == n.attrs@[i as int]);
            assert(n.attrs@.skip(i as int).drop_first() =~= n.attrs@.skip(i + 1));
        }
        if crate::text::string_eq_str(&pair.0, name) {
            return Some(pair.1.clone());
        }
        i = i + 1;
    }
    proof {
        assert(n.attrs@.skip(m as int) =~= Seq::<(String, String)>::empty());
    }
    None
}

// ---------------------------------------------------------------------------
// Importing a borrowed tree into the arena.
// ---------------------------------------------------------------------------
/// Nesting deeper than this is rejected.  Real filings nest a handful of
/// levels; the bound only guards the importer's recursion.
pub const DEPTH_BUDGET: usize = 64;

/// Copies the subtree under `rn` into the arena, children before their
/// parent, and returns the parent's index.
fn import_subtree<'a, 'input>(
    rn: &roxmltree::Node<'a, 'input>,
    nodes: &mut Vec<XmlNode>,
    depth: usize,
) -> (r: Result<usize, Error>)
    requires
        nodes_wf(old(nodes)@),
    ensures
        nodes_wf(final(nodes)@),
        final(nodes)@.len() >= old(nodes)@.len(),
        final(nodes)@.subrange(0, old(nodes)@.len() as int) == old(nodes)@,
        r matches Ok(idx) ==> old(nodes)@.len() <= idx < final(nodes)@.len(),
        r matches Err(e) ==> e is DocumentTooLarge,
    decreases depth,
{
    if depth == 0 {
        proof {
            assert(final(nodes)@.subrange(0, old(nodes)@.len() as int) =~= old(nodes)@);
        }
        return Err(Error::DocumentTooLarge);
    }
    let rkids = xml_children(rn);
    let mut kids: Vec<usize> = Vec::new();
    let n = rkids.len();
    let mut i: usize = 0;
    while i < n
        invariant
            n == rkids.len(),
            i <= n,
            nodes_wf(nodes@),
            nodes@.len() >= old(nodes)@.len(),
            nodes@.subrange(0, old(nodes)@.len() as int) == old(nodes)@,
            depth >= 1,
            forall|k: int| 0 <= k < kids@.len() ==> (#[trigger] kids@[k]) < nodes@.len(),
        decreases n - i,
    {
        let ghost pre = nodes@;
        match import_subtree(&rkids[i], nodes, depth - 1) {
            Ok(ci) => {
                kids.push(ci);
            },
            Err(e) => {
                proof {
                    assert(nodes@.subrange(0, old(nodes)@.len() as int) =~= old(nodes)@);
                }
                return Err(e);
            },
        }
        proof {
            assert(nodes@.subrange(0, old(nodes)@.len() as int) =~= pre.subrange(
                0,
                old(nodes)@.len() as int,
            ));
        }
        i = i + 1;
    }
    let node = XmlNode {
        tag: xml_tag_name(rn),
        attrs: xml_attributes(rn),
        text: xml_text(rn),
        is_element: xml_is_element(rn),
        children: kids,
    };
    let idx = nodes.len();
    nodes.push(node);
    proof {
        assert(nodes@.subrange(0, old(nodes)@.len() as int) =~= old(nodes)@);
        assert forall|a: int, k: int|
            0 <= a < nodes@.len() && 0 <= k < nodes@[a].children.len() implies (
        #[trigger] nodes@[a].children[k]) < a by {
            if a < idx {
                assert(nodes@[a] == nodes@.subrange(0, idx as int)[a]);
            }
        }
    }
    Ok(idx)
}

/// Parses XML text and imports the resulting tree into an arena-owned
/// `XmlDocument`.  The returned arena is well-formed; malformed XML and
/// over-deep nesting are the only failures.
pub fn parse_document(text: &str) -> (r: Result<XmlDocument, Error>)
    ensures
        r matches Ok(doc) ==> doc.wf(),
        r matches Err(e) ==> e is MalformedXml || e is DocumentTooLarge,
{
    let rdoc = match xml_parse(text) {
        Some(d) => d,
        None => {
            return Err(Error::MalformedXml);
        },
    };
    let root = xml_root(&rdoc);
    let mut nodes: Vec<XmlNode> = Vec::new();
    match import_subtree(&root, &mut nodes, DEPTH_BUDGET) {
        Ok(_) => Ok(XmlDocument { nodes }),
        Err(e) => Err(e),
    }
}

} // verus!
