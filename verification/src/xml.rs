//! The slice of an XML manifest that the engine's rules read: the direct
//! children of the document root, each either an element with a name and
//! attributes or some other node carried through unchanged. Parsing and
//! serializing the XML itself is boundary work and stays outside the
//! library; the rules over these children are verified here.

use vstd::prelude::*;

use crate::manifest::Manifest;
use crate::manifest::ManifestView;
use crate::manifest::revision_view;
use crate::strings::has_prefix;
use crate::strings::starts_with_str;
use crate::strings::str_eq;
use crate::table::KeyTable;
use crate::table::lookup;
use crate::table::unique_keys;

verus! {

/// An element among the root's children: its tag name and its attributes.
pub struct XmlElem {
    pub name: String,
    pub attributes: KeyTable<String>,
}

/// Mathematical view of an [`XmlElem`].
pub struct XmlElemView {
    pub name: Seq<char>,
    pub attributes: Seq<(Seq<char>, String)>,
}

impl View for XmlElem {
    type V = XmlElemView;

    open spec fn view(&self) -> XmlElemView {
        XmlElemView { name: self.name@, attributes: self.attributes@ }
    }
}

/// One direct child of the document root.
pub enum XmlNode {
    /// An element child.
    Elem(XmlElem),
    /// Any other node (text, comment, CDATA); the engine's rules never read
    /// into it.
    Other,
}

/// Mathematical view of an [`XmlNode`].
pub enum XmlNodeView {
    Elem(XmlElemView),
    Other,
}

impl View for XmlNode {
    type V = XmlNodeView;

    open spec fn view(&self) -> XmlNodeView {
        match self {
            XmlNode::Elem(e) => XmlNodeView::Elem(e@),
            XmlNode::Other => XmlNodeView::Other,
        }
    }
}

/// The views of a sequence of children.
pub open spec fn nodes_view(nodes: Seq<XmlNode>) -> Seq<XmlNodeView> {
    nodes.map_values(|n: XmlNode| n@)
}

/// An element's attribute table has unique keys.
pub open spec fn node_wf(n: XmlNodeView) -> bool {
    match n {
        XmlNodeView::Elem(e) => unique_keys(e.attributes),
        XmlNodeView::Other => true,
    }
}

/// The value of an attribute, by view.
pub open spec fn attr_of(attrs: Seq<(Seq<char>, String)>, key: Seq<char>) -> Option<Seq<char>> {
    match lookup(attrs, key) {
        Some(v) => Some(v@),
        None => None,
    }
}

/// The repository mapping entry an element contributes: its `path` and
/// `name` attributes, when it has both.
pub open spec fn repo_entry_of(node: XmlNodeView) -> Option<(Seq<char>, String)> {
    match node {
        XmlNodeView::Elem(e) => match lookup(e.attributes, "path"@) {
            Some(path) => match lookup(e.attributes, "name"@) {
                Some(name) => Some((path@, name)),
                None => None,
            },
            None => None,
        },
        XmlNodeView::Other => None,
    }
}

/// The upstream-side name mapped to `path` by the children, a later child
/// winning over an earlier one with the same path.
pub open spec fn spec_repo_lookup(children: Seq<XmlNodeView>, path: Seq<char>) -> Option<String>
    decreases children.len(),
{
    if children.len() == 0 {
        None
    } else {
        match repo_entry_of(children.last()) {
            Some(pair) => {
                if pair.0 == path {
                    Some(pair.1)
                } else {
                    spec_repo_lookup(children.drop_last(), path)
                }
            },
            None => spec_repo_lookup(children.drop_last(), path),
        }
    }
}

/// Collects the repository mapping of a manifest from the root's children:
/// each element child with both a `path` and a `name` attribute maps its
/// path to its upstream-side name, a later child overriding an earlier one
/// with the same path. Each path is mapped at most once.
pub fn get_repos(children: &Vec<XmlNode>) -> (repos: KeyTable<String>)
    requires
        forall|i: int| 0 <= i < children@.len() ==> node_wf(#[trigger] children@[i]@),
    ensures
        repos.wf(),
        forall|p: Seq<char>| #[trigger]
            lookup(repos@, p) == spec_repo_lookup(nodes_view(children@), p),
{
    let n = children.len();
    let mut repos: KeyTable<String> = KeyTable::new();
    proof {
        assert(nodes_view(children@).take(0) =~= Seq::<XmlNodeView>::empty());
    }
    let mut i: usize = 0;
    while i < n
        invariant
            i <= n,
            n == children@.len(),
            forall|j: int| 0 <= j < children@.len() ==> node_wf(#[trigger] children@[j]@),
            repos.wf(),
            forall|p: Seq<char>| #[trigger]
                lookup(repos@, p) == spec_repo_lookup(nodes_view(children@).take(i as int), p),
        decreases n - i,
    {
        proof {
            assert(nodes_view(children@).take(i as int + 1).drop_last() =~= nodes_view(
                children@,
            ).take(i as int));
            assert(nodes_view(children@).take(i as int + 1).last() == children@[i as int]@);
        }
        match &children[i] {
            XmlNode::Elem(e) => {
                let path_attr = e.attributes.get("path");
                let name_attr = e.attributes.get("name");
                match path_attr {
                    Some(path) => match name_attr {
                        Some(name) => {
                            repos.insert(path.clone(), name.clone());
                        },
                        None => (),
                    },
                    None => (),
                }
            },
            XmlNode::Other => (),
        }
        i = i + 1;
    }
    proof {
        assert(nodes_view(children@).take(n as int) =~= nodes_view(children@));
    }
    repos
}

/// What becomes of one child of a manifest being rewritten.
pub enum NodeDecision {
    /// The caller keeps the child exactly as it stands.
    Keep,
    /// The caller leaves the child out of the rewritten manifest.
    Drop,
    /// The caller replaces the child with this element.
    Replace(XmlElem),
}

/// Mathematical view of a [`NodeDecision`].
pub enum NodeDecisionView {
    Keep,
    Drop,
    Replace(XmlElemView),
}

impl View for NodeDecision {
    type V = NodeDecisionView;

    open spec fn view(&self) -> NodeDecisionView {
        match self {
            NodeDecision::Keep => NodeDecisionView::Keep,
            NodeDecision::Drop => NodeDecisionView::Drop,
            NodeDecision::Replace(e) => NodeDecisionView::Replace(e@),
        }
    }
}

/// Whether a project is shallow-cloned by default: its upstream name lies
/// under one of the large trees that are kept at depth one to save space.
pub open spec fn shallow_by_default(attrs: Seq<(Seq<char>, String)>) -> bool {
    match attr_of(attrs, "name"@) {
        Some(name) => has_prefix(name, "platform/external/"@) || has_prefix(
            name,
            "platform/prebuilts/"@,
        ),
        None => false,
    }
}

/// The attributes of a rewritten project element: only `name`, `path` and
/// `clone-depth` survive, any `clone-depth` is clamped to `1`, the target
/// remote is set, and projects that are shallow by default get
/// `clone-depth` `1` even when they declared none.
pub open spec fn transformed_attr(
    attrs: Seq<(Seq<char>, String)>,
    remote: Seq<char>,
    k: Seq<char>,
) -> Option<Seq<char>> {
    if k == "remote"@ {
        Some(remote)
    } else if k == "clone-depth"@ {
        if attr_of(attrs, k) is Some || shallow_by_default(attrs) {
            Some("1"@)
        } else {
            None
        }
    } else if k == "name"@ || k == "path"@ {
        attr_of(attrs, k)
    } else {
        None
    }
}

/// A manifest child's attribute tables are well formed, and a project
/// element names its repository.
pub open spec fn transformable(n: XmlNodeView) -> bool {
    match n {
        XmlNodeView::Elem(e) => unique_keys(e.attributes) && (e.name == "project"@ ==> lookup(
            e.attributes,
            "name"@,
        ) is Some),
        XmlNodeView::Other => true,
    }
}

/// What [`transform_node`] promises of its decision for one child.
pub open spec fn transform_decision_ok(
    n: XmlNodeView,
    remote: Seq<char>,
    d: NodeDecisionView,
) -> bool {
    match n {
        XmlNodeView::Other => d is Keep,
        XmlNodeView::Elem(e) => {
            if e.name == "project"@ {
                &&& d matches NodeDecisionView::Replace(out)
                &&& out.name == "project"@
                &&& unique_keys(out.attributes)
                &&& forall|k: Seq<char>| #[trigger] attr_of(out.attributes, k) == transformed_attr(
                    e.attributes,
                    remote,
                    k,
                )
            } else {
                d is Drop
            }
        },
    }
}

/// Rewrites one child of an upstream manifest for the tracked tree: only
/// project elements are kept, their attributes are rewritten as
/// [`transformed_attr`] says, and non-element nodes pass through unchanged.
pub fn transform_node(node: &XmlNode, remote_name: &str) -> (d: NodeDecision)
    requires
        transformable(node@),
    ensures
        transform_decision_ok(node@, remote_name@, d@),
{
    let elem = match node {
        XmlNode::Elem(e) => e,
        XmlNode::Other => {
            return NodeDecision::Keep;
        },
    };
    if !str_eq(elem.name.as_str(), "project") {
        return NodeDecision::Drop;
    }
    let name_value = elem.attributes.get("name").unwrap().clone();
    let shallow = starts_with_str(name_value.as_str(), "platform/external/")
        || starts_with_str(name_value.as_str(), "platform/prebuilts/");
    let had_depth = elem.attributes.contains_key("clone-depth");
    let mut attrs: KeyTable<String> = KeyTable::new();
    let ghost table_empty = attrs@;
    attrs.insert("name".to_owned(), name_value);
    let ghost table_name = attrs@;
    match elem.attributes.get("path") {
        Some(path_value) => {
            attrs.insert("path".to_owned(), path_value.clone());
        },
        None => (),
    }
    let ghost table_path = attrs@;
    if had_depth || shallow {
        attrs.insert("clone-depth".to_owned(), "1".to_owned());
    }
    let ghost table_depth = attrs@;
    attrs.insert("remote".to_owned(), remote_name.to_owned());
    let out = XmlElem { name: "project".to_owned(), attributes: attrs };
    proof {
        reveal_strlit("remote");
        reveal_strlit("clone-depth");
        reveal_strlit("name");
        reveal_strlit("path");
        assert("name"@ != "path"@) by {
            assert("name"@[0] == 'n');
            assert("path"@[0] == 'p');
        }
        let e = node@->Elem_0;
        assert forall|k: Seq<char>| #[trigger]
            attr_of(out@.attributes, k) == transformed_attr(e.attributes, remote_name@, k) by {
            if k != "remote"@ && k != "clone-depth"@ && k != "name"@ && k != "path"@ {
                assert(lookup(table_empty, k) is None);
            }
        }
    }
    NodeDecision::Replace(out)
}

/// Rewrites every child of an upstream manifest, one decision per child, in
/// order: project elements are rewritten, other elements dropped, and
/// non-element nodes kept.
pub fn transform_children(children: &Vec<XmlNode>, remote_name: &str) -> (decisions: Vec<
    NodeDecision,
>)
    requires
        forall|i: int| 0 <= i < children@.len() ==> transformable(#[trigger] children@[i]@),
    ensures
        decisions@.len() == children@.len(),
        forall|i: int|
            0 <= i < children@.len() ==> transform_decision_ok(
                children@[i]@,
                remote_name@,
                #[trigger] decisions@[i]@,
            ),
{
    let n = children.len();
    let mut decisions: Vec<NodeDecision> = Vec::new();
    let mut i: usize = 0;
    while i < n
        invariant
            i <= n,
            n == children@.len(),
            forall|j: int| 0 <= j < children@.len() ==> transformable(#[trigger] children@[j]@),
            decisions@.len() == i,
            forall|j: int|
                0 <= j < i ==> transform_decision_ok(
                    children@[j]@,
                    remote_name@,
                    #[trigger] decisions@[j]@,
                ),
        decreases n - i,
    {
        let decision = transform_node(&children[i], remote_name);
        decisions.push(decision);
        i = i + 1;
    }
    decisions
}

/// The view of an optional manifest argument.
pub open spec fn manifest_opt_view(m: Option<&Manifest>) -> Option<ManifestView> {
    match m {
        Some(manifest) => Some(manifest@),
        None => None,
    }
}

/// The revision a remote of the default manifest is moved to: the system
/// source's tag ref when the remote is the system source's and a system
/// source was merged; the vendor source is consulted only when no system
/// source was given at all.
pub open spec fn spec_updated_revision(
    remote_name: Seq<char>,
    system: Option<ManifestView>,
    vendor: Option<ManifestView>,
) -> Option<Seq<char>> {
    match system {
        Some(m) => {
            if remote_name == "clo_"@ + m.name {
                match m.tag {
                    Some(tag) => Some(revision_view(tag)),
                    None => None,
                }
            } else {
                None
            }
        },
        None => match vendor {
            Some(m) => {
                if remote_name == "clo_"@ + m.name {
                    match m.tag {
                        Some(tag) => Some(revision_view(tag)),
                        None => None,
                    }
                } else {
                    None
                }
            },
            None => None,
        },
    }
}

/// The new revision for the remote called `remote_name_value`, if the
/// merged sources give it one: exactly [`spec_updated_revision`].
pub fn updated_revision(
    remote_name_value: &str,
    system: Option<&Manifest>,
    vendor: Option<&Manifest>,
) -> (r: Option<String>)
    ensures
        (match r {
            Some(rev) => spec_updated_revision(
                remote_name_value@,
                manifest_opt_view(system),
                manifest_opt_view(vendor),
            ) == Some(rev@),
            None => spec_updated_revision(
                remote_name_value@,
                manifest_opt_view(system),
                manifest_opt_view(vendor),
            ) is None,
        }),
{
    let source = match system {
        Some(m) => m,
        None => match vendor {
            Some(m) => m,
            None => {
                return None;
            },
        },
    };
    let source_remote = source.get_remote_name();
    if str_eq(remote_name_value, source_remote.as_str()) {
        source.get_revision()
    } else {
        None
    }
}

/// What [`update_default_node`] promises of its decision for one child.
pub open spec fn update_decision_ok(
    n: XmlNodeView,
    system: Option<ManifestView>,
    vendor: Option<ManifestView>,
    d: NodeDecisionView,
) -> bool {
    match n {
        XmlNodeView::Other => d is Keep,
        XmlNodeView::Elem(e) => {
            if e.name == "remote"@ {
                match attr_of(e.attributes, "name"@) {
                    Some(remote_name) => match spec_updated_revision(remote_name, system, vendor) {
                        Some(new_rev) => {
                            if lookup(e.attributes, "revision"@) is Some {
                                &&& d matches NodeDecisionView::Replace(out)
                                &&& out.name == e.name
                                &&& unique_keys(out.attributes)
                                &&& forall|k: Seq<char>| #[trigger] attr_of(out.attributes, k)
                                    == (if k == "revision"@ {
                                        Some(new_rev)
                                    } else {
                                        attr_of(e.attributes, k)
                                    })
                            } else {
                                d is Keep
                            }
                        },
                        None => d is Keep,
                    },
                    None => d is Keep,
                }
            } else {
                d is Keep
            }
        },
    }
}

/// Rewrites one child of the default manifest after an upstream merge: a
/// `<remote>` element whose `revision` attribute exists and whose remote one
/// of the merged sources supplies gets that source's tag ref; every other
/// child is kept as it stands, including `<remote>` elements without a
/// `name` attribute, which the caller reports instead.
pub fn update_default_node(
    node: &XmlNode,
    system: Option<&Manifest>,
    vendor: Option<&Manifest>,
) -> (d: NodeDecision)
    requires
        (node@ matches XmlNodeView::Elem(e) ==> unique_keys(e.attributes)),
    ensures
        update_decision_ok(node@, manifest_opt_view(system), manifest_opt_view(vendor), d@),
{
    let elem = match node {
        XmlNode::Elem(e) => e,
        XmlNode::Other => {
            return NodeDecision::Keep;
        },
    };
    if !str_eq(elem.name.as_str(), "remote") {
        return NodeDecision::Keep;
    }
    let remote_name = match elem.attributes.get("name") {
        Some(value) => value,
        None => {
            return NodeDecision::Keep;
        },
    };
    let new_rev = match updated_revision(remote_name.as_str(), system, vendor) {
        Some(rev) => rev,
        None => {
            return NodeDecision::Keep;
        },
    };
    if !elem.attributes.contains_key("revision") {
        return NodeDecision::Keep;
    }
    let mut attrs = elem.attributes.duplicate();
    attrs.insert("revision".to_owned(), new_rev);
    NodeDecision::Replace(XmlElem { name: elem.name.clone(), attributes: attrs })
}

/// Rewrites every child of the default manifest after an upstream merge,
/// one decision per child, in order.
pub fn update_default_children(
    children: &Vec<XmlNode>,
    system: Option<&Manifest>,
    vendor: Option<&Manifest>,
) -> (decisions: Vec<NodeDecision>)
    requires
        forall|i: int|
            0 <= i < children@.len() ==> (#[trigger] children@[i]@ matches XmlNodeView::Elem(e)
                ==> unique_keys(e.attributes)),
    ensures
        decisions@.len() == children@.len(),
        forall|i: int|
            0 <= i < children@.len() ==> update_decision_ok(
                children@[i]@,
                manifest_opt_view(system),
                manifest_opt_view(vendor),
                #[trigger] decisions@[i]@,
            ),
{
    let n = children.len();
    let mut decisions: Vec<NodeDecision> = Vec::new();
    let mut i: usize = 0;
    while i < n
        invariant
            i <= n,
            n == children@.len(),
            forall|j: int|
                0 <= j < children@.len() ==> (#[trigger] children@[j]@ matches XmlNodeView::Elem(e)
                    ==> unique_keys(e.attributes)),
            decisions@.len() == i,
            forall|j: int|
                0 <= j < i ==> update_decision_ok(
                    children@[j]@,
                    manifest_opt_view(system),
                    manifest_opt_view(vendor),
                    #[trigger] decisions@[j]@,
                ),
        decreases n - i,
    {
        let decision = update_default_node(&children[i], system, vendor);
        decisions.push(decision);
        i = i + 1;
    }
    decisions
}

} // verus!
