//! A parsed XML element tree and the generic search primitives over it.
//!
//! A [`XmlNode`] carries the namespace-free local tag name of an element,
//! its text content, and its child elements in document order. The two
//! search functions walk a tree in depth-first pre-order and match on the
//! local name only, mirroring how WebDAV and CalDAV responses are navigated
//! without a schema-aware parser.

use vstd::prelude::*;

verus! {

/// One element of a parsed XML document: local name, text content, and
/// child elements in document order.
pub struct XmlNode {
    /// The local tag name, without any namespace prefix.
    pub name: String,
    /// The text content of the element.
    pub text: String,
    /// The child elements, in document order.
    pub children: Vec<XmlNode>,
}

/// All nodes of the forest `ts` (a sequence of sibling trees, in document
/// order) whose local name equals `tag`, in depth-first pre-order: each
/// root before its descendants, siblings left to right. Traversal does not
/// stop at a match, so a matched node's own matching descendants are
/// included as well.
pub open spec fn matches_in_forest(ts: Seq<XmlNode>, tag: Seq<char>) -> Seq<XmlNode>
    decreases ts,
{
    if ts.len() == 0 {
        Seq::empty()
    } else {
        let last = ts.last();
        matches_in_forest(ts.drop_last(), tag) + (if last.name@ == tag {
            seq![last]
        } else {
            Seq::empty()
        }) + matches_in_forest(last.children@, tag)
    }
}

/// All nodes of the tree rooted at `t` (the root itself included) whose
/// local name equals `tag`, in depth-first pre-order.
pub open spec fn matches_in(t: XmlNode, tag: Seq<char>) -> Seq<XmlNode> {
    matches_in_forest(seq![t], tag)
}

/// The first node in pre-order whose local name equals `tag`, if any.
pub open spec fn first_match(t: XmlNode, tag: Seq<char>) -> Option<XmlNode> {
    if matches_in(t, tag).len() == 0 {
        None
    } else {
        Some(matches_in(t, tag)[0])
    }
}

/// The sequence of values behind a sequence of borrowed nodes.
pub open spec fn derefs(s: Seq<&XmlNode>) -> Seq<XmlNode> {
    s.map_values(|n: &XmlNode| *n)
}

/// Matching distributes over concatenation of forests.
pub proof fn lemma_forest_concat(s1: Seq<XmlNode>, s2: Seq<XmlNode>, tag: Seq<char>)
    ensures
        matches_in_forest(s1 + s2, tag) == matches_in_forest(s1, tag) + matches_in_forest(s2, tag),
    decreases s2,
{
    if s2.len() == 0 {
        assert(s1 + s2 =~= s1);
        assert(matches_in_forest(s2, tag) =~= Seq::empty());
        assert(matches_in_forest(s1, tag) + Seq::empty() =~= matches_in_forest(s1, tag));
    } else {
        lemma_forest_concat(s1, s2.drop_last(), tag);
        assert((s1 + s2).drop_last() =~= s1 + s2.drop_last());
        assert((s1 + s2).last() == s2.last());
        assert(matches_in_forest(s1, tag) + matches_in_forest(s2.drop_last(), tag)
            + (if s2.last().name@ == tag { seq![s2.last()] } else { Seq::empty() })
            + matches_in_forest(s2.last().children@, tag)
            =~= matches_in_forest(s1, tag) + matches_in_forest(s2, tag));
    }
}

/// A single tree's matches are the root (if it matches) followed by the
/// matches inside its children.
pub proof fn lemma_matches_in_unfold(t: XmlNode, tag: Seq<char>)
    ensures
        matches_in(t, tag) == (if t.name@ == tag {
            seq![t]
        } else {
            Seq::<XmlNode>::empty()
        }) + matches_in_forest(t.children@, tag),
{
    let s = seq![t];
    assert(s.drop_last() =~= Seq::<XmlNode>::empty());
    assert(matches_in_forest(s.drop_last(), tag) =~= Seq::empty());
    assert(Seq::empty() + (if t.name@ == tag { seq![t] } else { Seq::<XmlNode>::empty() })
        + matches_in_forest(t.children@, tag) =~= (if t.name@ == tag {
        seq![t]
    } else {
        Seq::<XmlNode>::empty()
    }) + matches_in_forest(t.children@, tag));
}

/// The node behind an optional borrowed node.
pub open spec fn deref_opt(o: Option<&XmlNode>) -> Option<XmlNode> {
    match o {
        Some(n) => Some(*n),
        None => None,
    }
}

/// Returns the first node in depth-first pre-order whose local name equals
/// `tag`: the root itself is checked first, then each child subtree in
/// document order. Returns `None` when the tree holds no such node.
pub fn find_elem<'a>(root: &'a XmlNode, tag: String) -> (r: Option<&'a XmlNode>)
    ensures
        deref_opt(r) == first_match(*root, tag@),
    decreases *root,
{
    proof {
        lemma_matches_in_unfold(*root, tag@);
    }
    if root.name == tag {
        return Some(root);
    }
    let n = root.children.len();
    let mut i: usize = 0;
    while i < n
        invariant
            n == root.children@.len(),
            i <= n,
            root.name@ != tag@,
            matches_in_forest(root.children@.take(i as int), tag@).len() == 0,
        decreases n - i,
    {
        let child = &root.children[i];
        proof {
            assert(decreases_to!(*root => root.children));
            assert(decreases_to!(root.children => root.children[i as int]));
        }
        let res = find_elem(child, tag.clone());
        proof {
            let taken = root.children@.take(i + 1 as int);
            assert(taken.drop_last() =~= root.children@.take(i as int));
            assert(taken.last() == root.children@[i as int]);
            lemma_matches_in_unfold(*child, tag@);
        }
        match res {
            Some(node) => {
                proof {
                    let cs = root.children@;
                    assert(cs =~= cs.take(i + 1 as int) + cs.skip(i + 1 as int));
                    lemma_forest_concat(cs.take(i + 1 as int), cs.skip(i + 1 as int), tag@);
                    lemma_matches_in_unfold(*root, tag@);
                }
                return Some(node);
            },
            None => {},
        }
        i = i + 1;
    }
    proof {
        assert(root.children@.take(n as int) =~= root.children@);
    }
    None
}

/// Returns every node of the tree rooted at `root` whose local name equals
/// `tag`, in depth-first pre-order; the root itself is considered first.
pub fn find_elems<'a>(root: &'a XmlNode, tag: String) -> (r: Vec<&'a XmlNode>)
    ensures
        derefs(r@) == matches_in(*root, tag@),
    decreases *root,
{
    let mut r: Vec<&'a XmlNode> = Vec::new();
    if root.name == tag {
        r.push(root);
    }
    proof {
        lemma_matches_in_unfold(*root, tag@);
        assert(root.children@.take(0) =~= Seq::empty());
        assert(derefs(r@) + matches_in_forest(root.children@.take(0), tag@) =~= derefs(r@));
    }
    let n = root.children.len();
    let mut i: usize = 0;
    while i < n
        invariant
            n == root.children@.len(),
            i <= n,
            derefs(r@) == (if root.name@ == tag@ {
                seq![*root]
            } else {
                Seq::<XmlNode>::empty()
            }) + matches_in_forest(root.children@.take(i as int), tag@),
        decreases n - i,
    {
        let child = &root.children[i];
        proof {
            assert(decreases_to!(*root => root.children));
            assert(decreases_to!(root.children => root.children[i as int]));
        }
        let mut sub = find_elems(child, tag.clone());
        let ghost r_old = r@;
        let ghost sub_old = sub@;
        r.append(&mut sub);
        proof {
            let taken = root.children@.take(i + 1 as int);
            assert(taken.drop_last() =~= root.children@.take(i as int));
            assert(taken.last() == root.children@[i as int]);
            lemma_matches_in_unfold(*child, tag@);
            assert(derefs(r@) =~= derefs(r_old) + derefs(sub_old)) by {
                assert forall|j: int| 0 <= j < derefs(r@).len() implies derefs(r@)[j] == (derefs(
                    r_old,
                ) + derefs(sub_old))[j] by {
                    if j < r_old.len() {
                        assert(r@[j] == r_old[j]);
                    } else {
                        assert(r@[j] == sub_old[j - r_old.len()]);
                    }
                }
            }
        }
        i = i + 1;
    }
    proof {
        assert(root.children@.take(n as int) =~= root.children@);
    }
    r
}

/// The two searches agree on every tree and tag: the first match exists
/// exactly when the sequence of all matches is non-empty, and it is then
/// the head of that sequence.
pub proof fn lemma_first_match_is_head(t: XmlNode, tag: Seq<char>)
    ensures
        first_match(t, tag) is Some <==> matches_in(t, tag).len() > 0,
        first_match(t, tag) matches Some(n) ==> n == matches_in(t, tag)[0],
{
}

/// The element tree that parsing extracts from `s`: `Some` exactly when
/// `s` is well-formed XML, and then the parsed tree.
pub uninterp spec fn xml_of(s: Seq<char>) -> Option<XmlNode>;

#[verifier::external_type_specification]
#[verifier::external_body]
pub struct ExXmlError(minidom::Error);

#[verifier::external_type_specification]
#[verifier::external_body]
pub struct ExElement(minidom::Element);

/// Relies on `minidom::Element`: `name` returns the local tag name without
/// its namespace prefix, `text` the text content, and `children` the child
/// elements in document order. This is the conversion that `parse_xml`
/// applies to the parsed document.
#[verifier::external_body]
fn node_of_element(e: &minidom::Element) -> XmlNode {
    XmlNode {
        name: e.name().to_string(),
        text: e.text(),
        children: e.children().map(node_of_element).collect(),
    }
}

/// Relies on `minidom`'s `FromStr for Element`: it parses well-formed XML
/// into an element tree and fails otherwise; the tree is a function of the
/// input string alone.
#[verifier::external_body]
fn parse_xml(s: &str) -> (r: Result<XmlNode, minidom::Error>)
    ensures
        r is Ok <==> xml_of(s@) is Some,
        r matches Ok(t) ==> Some(t) == xml_of(s@),
{
    match s.parse::<minidom::Element>() {
        Ok(root) => Ok(node_of_element(&root)),
        Err(e) => Err(e),
    }
}

/// Parses a response body into an element tree. Succeeds exactly when the
/// body is well-formed XML; fails with `InvalidXml` otherwise.
pub fn parse_response(s: &str) -> (r: Result<XmlNode, crate::error::DavError>)
    ensures
        r is Ok <==> xml_of(s@) is Some,
        r matches Ok(t) ==> Some(t) == xml_of(s@),
        r matches Err(e) ==> e == crate::error::DavError::InvalidXml,
{
    match parse_xml(s) {
        Ok(t) => Ok(t),
        Err(_) => Err(crate::error::DavError::InvalidXml),
    }
}

} // verus!
