use crate::graph::{link_targets, Anchor, LinkEdge, LinkGraph};
use crate::types::{EntityId, EntryTypes, EntryTypesView, LinkTypes};
use vstd::prelude::*;

verus! {

/// The anchors a record is projected into when its entity is created:
/// the global collection of its kind, the collection of every founding
/// editor, and, for an application, its publisher's collection.
pub open spec fn is_membership_anchor(c: EntryTypesView, a: Anchor) -> bool {
    ||| a == Anchor::Global(c.kind())
    ||| (exists|i: int|
        0 <= i < c.editors().len() && a == Anchor::ByAgent(#[trigger] c.editors()[i], c.kind()))
    ||| match c {
        EntryTypesView::App(app) => a == Anchor::ByParent(app.publisher, LinkTypes::App),
        EntryTypesView::Publisher(_) => false,
    }
}

/// Writes one membership edge per derived anchor for a freshly created
/// entity.  Re-running it for the same creation adds nothing, since the
/// graph de-duplicates identical edges; partial runs write a strict
/// subset, so a crashed run is healed by a repeat, never rolled back.
pub fn index(graph: &mut LinkGraph, id: EntityId, content: &EntryTypes)
    requires
        old(graph).wf(),
    ensures
        final(graph).wf(),
        forall|e: LinkEdge| #[trigger]
            final(graph)@.contains(e) <==> (old(graph)@.contains(e) || (e.target == id
                && e.link_type == content@.kind() && is_membership_anchor(content@, e.base))),
{
    let ghost pre = graph@;
    let kind = content.kind();
    graph.link(Anchor::Global(kind), id, kind);
    let editors = content.editors();
    let mut i: usize = 0;
    while i < editors.len()
        invariant
            graph.wf(),
            i <= editors.len(),
            editors@ == content@.editors(),
            kind == content@.kind(),
            forall|e: LinkEdge| #[trigger]
                graph@.contains(e) <==> (pre.contains(e) || (e.target == id && e.link_type == kind
                    && (e.base == Anchor::Global(kind) || (exists|j: int|
                    0 <= j < i && e.base == Anchor::ByAgent(#[trigger] editors@[j], kind))))),
        decreases editors.len() - i,
    {
        let ghost mid = graph@;
        graph.link(Anchor::ByAgent(editors[i], kind), id, kind);
        proof {
            let fresh = LinkEdge { base: Anchor::ByAgent(editors@[i as int], kind), target: id, link_type: kind };
            assert forall|e: LinkEdge| #[trigger]
                graph@.contains(e) <==> (pre.contains(e) || (e.target == id && e.link_type == kind
                    && (e.base == Anchor::Global(kind) || (exists|j: int|
                    0 <= j < i + 1 && e.base == Anchor::ByAgent(editors@[j], kind))))) by {
                if graph@.contains(e) {
                    if e == fresh {
                        assert(e.base == Anchor::ByAgent(editors@[i as int], kind));
                    }
                } else {
                    assert(!mid.contains(e) && e != fresh);
                    if e.target == id && e.link_type == kind {
                        if exists|j: int| 0 <= j < i + 1 && e.base == Anchor::ByAgent(
                            editors@[j],
                            kind,
                        ) {
                            let j = choose|j: int|
                                0 <= j < i + 1 && e.base == Anchor::ByAgent(editors@[j], kind);
                            if j == i {
                                assert(e == fresh);
                            }
                        }
                    }
                }
            }
        }
        i += 1;
    }
    match content {
        EntryTypes::App(app) => {
            graph.link(Anchor::ByParent(app.publisher, LinkTypes::App), id, kind);
            proof {
                assert(kind == LinkTypes::App);
            }
        },
        EntryTypes::Publisher(_) => {},
    }
    proof {
        assert forall|e: LinkEdge| #[trigger]
            graph@.contains(e) <==> (pre.contains(e) || (e.target == id && e.link_type
                == content@.kind() && is_membership_anchor(content@, e.base))) by {}
    }
}

/// All entity ids attached to `anchor` by edges of `link_type`, in
/// store-defined order.  Callers wanting a sorted listing must sort by
/// a field of the materialized revisions afterwards.
pub fn collection(graph: &LinkGraph, anchor: Anchor, link_type: LinkTypes) -> (r: Vec<EntityId>)
    ensures
        r@ == link_targets(graph@, anchor, link_type),
{
    graph.links_from(anchor, link_type)
}

} // verus!
