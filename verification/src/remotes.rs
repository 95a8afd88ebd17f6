//! The remotes declared by the manifest tree: reading `<remote>` elements
//! out of a manifest's children, and folding the remotes of many manifests
//! into one table keyed by remote name, a later manifest overriding an
//! earlier one.

use vstd::prelude::*;

use crate::table::KeyTable;
use crate::table::lookup;
use crate::table::unique_keys;
use crate::xml::XmlElemView;
use crate::xml::XmlNode;
use crate::xml::XmlNodeView;
use crate::xml::node_wf;
use crate::xml::nodes_view;

verus! {

/// A remote of the manifest tree: its name, its fetch URL, and its default
/// revision, when one is declared.
#[derive(Debug, PartialEq, Eq)]
pub struct Remote {
    pub name: String,
    pub fetch: String,
    pub revision: Option<String>,
}

/// Mathematical view of a [`Remote`].
pub struct RemoteView {
    pub name: Seq<char>,
    pub fetch: Seq<char>,
    pub revision: Option<Seq<char>>,
}

impl View for Remote {
    type V = RemoteView;

    open spec fn view(&self) -> RemoteView {
        RemoteView {
            name: self.name@,
            fetch: self.fetch@,
            revision: match &self.revision {
                Some(rev) => Some(rev@),
                None => None,
            },
        }
    }
}

impl Clone for Remote {
    fn clone(&self) -> (r: Remote)
        ensures
            r == *self,
    {
        Remote {
            name: self.name.clone(),
            fetch: self.fetch.clone(),
            revision: match &self.revision {
                Some(rev) => Some(rev.clone()),
                None => None,
            },
        }
    }
}

/// Whether this child is a `<remote>` element.
pub open spec fn is_remote_elem(node: XmlNodeView) -> bool {
    match node {
        XmlNodeView::Elem(e) => e.name == "remote"@,
        XmlNodeView::Other => false,
    }
}

/// Every `<remote>` element among the children declares a name and a fetch
/// URL. A manifest that omits either is rejected before this module is
/// asked about it.
pub open spec fn remotes_declared(children: Seq<XmlNodeView>) -> bool {
    forall|i: int|
        0 <= i < children.len() && is_remote_elem(#[trigger] children[i])
            ==> (children[i] matches XmlNodeView::Elem(e) && lookup(e.attributes, "name"@) is Some
            && lookup(e.attributes, "fetch"@) is Some)
}

/// The remote a `<remote>` element declares.
pub open spec fn spec_remote_of(e: XmlElemView) -> RemoteView
    recommends
        lookup(e.attributes, "name"@) is Some,
        lookup(e.attributes, "fetch"@) is Some,
{
    RemoteView {
        name: match lookup(e.attributes, "name"@) {
            Some(v) => v@,
            None => Seq::empty(),
        },
        fetch: match lookup(e.attributes, "fetch"@) {
            Some(v) => v@,
            None => Seq::empty(),
        },
        revision: match lookup(e.attributes, "revision"@) {
            Some(v) => Some(v@),
            None => None,
        },
    }
}

/// The remotes declared by the children, in document order.
pub open spec fn spec_remotes(children: Seq<XmlNodeView>) -> Seq<RemoteView>
    decreases children.len(),
{
    if children.len() == 0 {
        Seq::empty()
    } else {
        let rest = spec_remotes(children.drop_first());
        if is_remote_elem(children.first()) {
            match children.first() {
                XmlNodeView::Elem(e) => seq![spec_remote_of(e)] + rest,
                XmlNodeView::Other => rest,
            }
        } else {
            rest
        }
    }
}

/// Extending the children by one extends their remotes by that child's
/// remote, if it declares one.
proof fn lemma_spec_remotes_snoc(children: Seq<XmlNodeView>, node: XmlNodeView)
    ensures
        spec_remotes(children.push(node)) == spec_remotes(children) + (if is_remote_elem(node) {
            match node {
                XmlNodeView::Elem(e) => seq![spec_remote_of(e)],
                XmlNodeView::Other => Seq::<RemoteView>::empty(),
            }
        } else {
            Seq::<RemoteView>::empty()
        }),
    decreases children.len(),
{
    let extended = children.push(node);
    let tail_extension = if is_remote_elem(node) {
        match node {
            XmlNodeView::Elem(e) => seq![spec_remote_of(e)],
            XmlNodeView::Other => Seq::<RemoteView>::empty(),
        }
    } else {
        Seq::<RemoteView>::empty()
    };
    if children.len() == 0 {
        assert(extended.drop_first() =~= Seq::<XmlNodeView>::empty());
        assert(extended.first() == node);
        assert(spec_remotes(extended.drop_first()) == Seq::<RemoteView>::empty());
        assert(spec_remotes(extended) =~= tail_extension);
        assert(spec_remotes(children) + tail_extension =~= tail_extension);
    } else {
        assert(extended.drop_first() =~= children.drop_first().push(node));
        assert(extended.first() == children.first());
        lemma_spec_remotes_snoc(children.drop_first(), node);
        assert(spec_remotes(extended) =~= spec_remotes(children) + tail_extension);
    }
}

/// Reads the remotes a manifest declares out of its root's children, in
/// document order.
pub fn get_remotes(children: &Vec<XmlNode>) -> (remotes: Vec<Remote>)
    requires
        forall|i: int| 0 <= i < children@.len() ==> node_wf(#[trigger] children@[i]@),
        remotes_declared(nodes_view(children@)),
    ensures
        remotes@.map_values(|r: Remote| r@) == spec_remotes(nodes_view(children@)),
{
    let n = children.len();
    let mut remotes: Vec<Remote> = Vec::new();
    proof {
        assert(nodes_view(children@).take(0) =~= Seq::<XmlNodeView>::empty());
        assert(remotes@.map_values(|r: Remote| r@) =~= Seq::<RemoteView>::empty());
    }
    let mut i: usize = 0;
    while i < n
        invariant
            i <= n,
            n == children@.len(),
            forall|j: int| 0 <= j < children@.len() ==> node_wf(#[trigger] children@[j]@),
            remotes_declared(nodes_view(children@)),
            remotes@.map_values(|r: Remote| r@) == spec_remotes(
                nodes_view(children@).take(i as int),
            ),
        decreases n - i,
    {
        proof {
            lemma_spec_remotes_snoc(
                nodes_view(children@).take(i as int),
                nodes_view(children@)[i as int],
            );
            assert(nodes_view(children@).take(i as int).push(nodes_view(children@)[i as int])
                =~= nodes_view(children@).take(i as int + 1));
        }
        let ghost prev = remotes@.map_values(|r: Remote| r@);
        match &children[i] {
            XmlNode::Elem(e) => {
                if crate::strings::str_eq(e.name.as_str(), "remote") {
                    proof {
                        assert(is_remote_elem(nodes_view(children@)[i as int]));
                    }
                    let name = e.attributes.get("name").unwrap().clone();
                    let fetch = e.attributes.get("fetch").unwrap().clone();
                    let revision = match e.attributes.get("revision") {
                        Some(rev) => Some(rev.clone()),
                        None => None,
                    };
                    let remote = Remote { name, fetch, revision };
                    let ghost remote_view = remote@;
                    remotes.push(remote);
                    proof {
                        assert(remotes@.map_values(|r: Remote| r@) =~= prev + seq![remote_view]);
                    }
                } else {
                    proof {
                        assert(prev + Seq::<RemoteView>::empty() =~= prev);
                    }
                }
            },
            XmlNode::Other => {
                proof {
                    assert(prev + Seq::<RemoteView>::empty() =~= prev);
                }
            },
        }
        i = i + 1;
    }
    proof {
        assert(nodes_view(children@).take(n as int) =~= nodes_view(children@));
    }
    remotes
}

/// The remote called `key` after the remotes of one manifest are folded in,
/// a later declaration winning over an earlier one.
pub open spec fn list_remote_lookup(remotes: Seq<Remote>, key: Seq<char>) -> Option<Remote>
    decreases remotes.len(),
{
    if remotes.len() == 0 {
        None
    } else if remotes.last().name@ == key {
        Some(remotes.last())
    } else {
        list_remote_lookup(remotes.drop_last(), key)
    }
}

/// The remote called `key` after the remotes of every manifest are folded
/// in, manifest by manifest: a later manifest's declaration wins.
pub open spec fn all_remotes_lookup(lists: Seq<Seq<Remote>>, key: Seq<char>) -> Option<Remote>
    decreases lists.len(),
{
    if lists.len() == 0 {
        None
    } else {
        match list_remote_lookup(lists.last(), key) {
            Some(remote) => Some(remote),
            None => all_remotes_lookup(lists.drop_last(), key),
        }
    }
}

/// Folds the remotes of every manifest of the tree (one inner list per
/// manifest, in directory-walk order) into one table keyed by remote name.
/// A remote declared again later, in the same or a later manifest, replaces
/// the earlier declaration.
pub fn get_all_remotes(manifest_remotes: &Vec<Vec<Remote>>) -> (all: KeyTable<Remote>)
    ensures
        all.wf(),
        forall|k: Seq<char>| #[trigger]
            lookup(all@, k) == all_remotes_lookup(
                manifest_remotes@.map_values(|v: Vec<Remote>| v@),
                k,
            ),
{
    let outer = manifest_remotes.len();
    let mut all: KeyTable<Remote> = KeyTable::new();
    let ghost lists = manifest_remotes@.map_values(|v: Vec<Remote>| v@);
    proof {
        assert(lists.take(0) =~= Seq::<Seq<Remote>>::empty());
    }
    let mut li: usize = 0;
    while li < outer
        invariant
            li <= outer,
            outer == manifest_remotes@.len(),
            lists == manifest_remotes@.map_values(|v: Vec<Remote>| v@),
            all.wf(),
            forall|k: Seq<char>| #[trigger] lookup(all@, k) == all_remotes_lookup(
                lists.take(li as int),
                k,
            ),
        decreases outer - li,
    {
        let current = &manifest_remotes[li];
        let inner = current.len();
        let mut ri: usize = 0;
        proof {
            assert(current@.take(0) =~= Seq::<Remote>::empty());
        }
        while ri < inner
            invariant
                ri <= inner,
                li < outer,
                outer == manifest_remotes@.len(),
                inner == current@.len(),
                current@ == manifest_remotes@[li as int]@,
                lists == manifest_remotes@.map_values(|v: Vec<Remote>| v@),
                all.wf(),
                forall|k: Seq<char>| #[trigger]
                    lookup(all@, k) == (match list_remote_lookup(current@.take(ri as int), k) {
                        Some(remote) => Some(remote),
                        None => all_remotes_lookup(lists.take(li as int), k),
                    }),
            decreases inner - ri,
        {
            let remote = &current[ri];
            proof {
                assert(current@.take(ri as int + 1).drop_last() =~= current@.take(ri as int));
                assert(current@.take(ri as int + 1).last() == current@[ri as int]);
            }
            all.insert(remote.name.clone(), remote.clone());
            ri = ri + 1;
        }
        proof {
            assert(current@.take(inner as int) =~= current@);
            assert(lists.take(li as int + 1).drop_last() =~= lists.take(li as int));
            assert(lists.take(li as int + 1).last() == lists[li as int]);
            assert(lists[li as int] == current@);
        }
        li = li + 1;
    }
    proof {
        assert(lists.take(outer as int) =~= lists);
    }
    all
}

} // verus!
