use crate::types::{AgentPubKey, EntityId, LinkTypes};
use vstd::prelude::*;

verus! {

/// A well-known index key that collections of entities hang from.
///
/// Anchors are structured keys rather than concatenated path strings;
/// each maps deterministically to one node of the link graph, and
/// creating the same anchor twice yields the same node.
#[derive(Clone, Copy, Debug, PartialEq, Eq, Structural)]
pub enum Anchor {
    /// The global collection of one entity kind.
    Global(LinkTypes),
    /// The collection of entities a given agent takes part in.
    ByAgent(AgentPubKey, LinkTypes),
    /// The collection of entities owned by a parent entity.
    ByParent(EntityId, LinkTypes),
}

/// A directed, typed membership edge from an anchor to an entity.
#[derive(Clone, Copy, Debug, PartialEq, Eq, Structural)]
pub struct LinkEdge {
    pub base: Anchor,
    pub target: EntityId,
    pub link_type: LinkTypes,
}

/// The targets of all edges of one type leaving `base`, in store order.
pub open spec fn link_targets(edges: Seq<LinkEdge>, base: Anchor, link_type: LinkTypes) -> Seq<
    EntityId,
>
    decreases edges.len(),
{
    if edges.len() == 0 {
        Seq::empty()
    } else {
        let rest = link_targets(edges.drop_last(), base, link_type);
        let e = edges.last();
        if e.base == base && e.link_type == link_type {
            rest.push(e.target)
        } else {
            rest
        }
    }
}

/// How often `t` occurs in `s`.
pub open spec fn count_target(s: Seq<EntityId>, t: EntityId) -> nat
    decreases s.len(),
{
    if s.len() == 0 {
        0
    } else {
        count_target(s.drop_last(), t) + (if s.last() == t {
            1nat
        } else {
            0nat
        })
    }
}

/// No two stored edges are identical.
pub open spec fn no_dup(edges: Seq<LinkEdge>) -> bool {
    forall|i: int, j: int| 0 <= i < j < edges.len() ==> edges[i] != edges[j]
}

/// Every member of a collection got there through a stored edge.
pub proof fn lemma_link_targets_are_edges(edges: Seq<LinkEdge>, base: Anchor, link_type: LinkTypes)
    ensures
        forall|i: int|
            0 <= i < link_targets(edges, base, link_type).len() ==> edges.contains(
                LinkEdge {
                    base,
                    target: #[trigger] link_targets(edges, base, link_type)[i],
                    link_type,
                },
            ),
    decreases edges.len(),
{
    if edges.len() > 0 {
        let dl = edges.drop_last();
        let e = edges.last();
        lemma_link_targets_are_edges(dl, base, link_type);
        let rest = link_targets(dl, base, link_type);
        let full = link_targets(edges, base, link_type);
        assert forall|i: int|
            0 <= i < full.len() implies edges.contains(
            LinkEdge { base, target: #[trigger] full[i], link_type },
        ) by {
            if i < rest.len() {
                assert(full[i] == rest[i]);
                let probe = LinkEdge { base, target: rest[i], link_type };
                assert(dl.contains(probe));
                let k = choose|k: int| 0 <= k < dl.len() && dl[k] == probe;
                assert(edges[k] == probe);
            } else {
                assert(e.base == base && e.link_type == link_type);
                assert(full[i] == e.target);
                assert(edges[edges.len() - 1] == e);
            }
        }
    }
}

/// With duplicate edges ruled out, an entity occurs in a collection
/// exactly as often as the graph holds the corresponding edge: once or
/// not at all.
pub proof fn lemma_count_target_of_edges(
    edges: Seq<LinkEdge>,
    base: Anchor,
    link_type: LinkTypes,
    t: EntityId,
)
    requires
        no_dup(edges),
    ensures
        count_target(link_targets(edges, base, link_type), t) == (if edges.contains(
            LinkEdge { base, target: t, link_type },
        ) {
            1nat
        } else {
            0nat
        }),
    decreases edges.len(),
{
    let probe = LinkEdge { base, target: t, link_type };
    if edges.len() == 0 {
        assert(!edges.contains(probe));
    } else {
        let dl = edges.drop_last();
        let e = edges.last();
        assert(no_dup(dl)) by {
            assert(forall|i: int, j: int|
                0 <= i < j < dl.len() ==> dl[i] == edges[i] && dl[j] == edges[j]);
        }
        lemma_count_target_of_edges(dl, base, link_type, t);
        // Membership in `edges` splits into membership in `dl` or equality
        // with the last edge.
        assert(edges.contains(probe) <==> (dl.contains(probe) || e == probe)) by {
            if dl.contains(probe) {
                let i = choose|i: int| 0 <= i < dl.len() && dl[i] == probe;
                assert(edges[i] == probe);
            }
            if e == probe {
                assert(edges[edges.len() - 1] == probe);
            }
            if edges.contains(probe) {
                let i = choose|i: int| 0 <= i < edges.len() && edges[i] == probe;
                if i < edges.len() - 1 {
                    assert(dl[i] == probe);
                }
            }
        }
        if e == probe {
            // The last edge matches; no earlier identical edge can exist.
            assert(!dl.contains(probe)) by {
                if dl.contains(probe) {
                    let i = choose|i: int| 0 <= i < dl.len() && dl[i] == probe;
                    assert(edges[i] == edges[edges.len() - 1]);
                }
            }
        }
        let lt_rest = link_targets(dl, base, link_type);
        if e.base == base && e.link_type == link_type {
            let pushed = lt_rest.push(e.target);
            assert(link_targets(edges, base, link_type) == pushed);
            assert(pushed.drop_last() =~= lt_rest);
            assert(pushed.last() == e.target);
            assert(count_target(pushed, t) == count_target(lt_rest, t) + (if e.target == t {
                1nat
            } else {
                0nat
            }));
            assert((e == probe) <==> (e.target == t));
        } else {
            assert(link_targets(edges, base, link_type) == lt_rest);
            assert(e != probe);
        }
    }
}

/// Append-only store of directed, typed edges.  Writing an edge that is
/// already present has no visible effect, so indexing is idempotent.
pub struct LinkGraph {
    edges: Vec<LinkEdge>,
}

impl View for LinkGraph {
    type V = Seq<LinkEdge>;

    closed spec fn view(&self) -> Seq<LinkEdge> {
        self.edges@
    }
}

impl LinkGraph {
    pub open spec fn wf(self) -> bool {
        no_dup(self@)
    }

    pub fn new() -> (g: Self)
        ensures
            g@ == Seq::<LinkEdge>::empty(),
            g.wf(),
    {
        LinkGraph { edges: Vec::new() }
    }

    /// True iff the exact edge `(base, target, link_type)` is stored.
    pub fn has_edge(&self, base: Anchor, target: EntityId, link_type: LinkTypes) -> (r: bool)
        ensures
            r == self@.contains(LinkEdge { base, target, link_type }),
    {
        let probe = LinkEdge { base, target, link_type };
        let mut i: usize = 0;
        while i < self.edges.len()
            invariant
                i <= self.edges.len(),
                probe == (LinkEdge { base, target, link_type }),
                forall|j: int| 0 <= j < i ==> self.edges@[j] != probe,
            decreases self.edges.len() - i,
        {
            if self.edges[i] == probe {
                proof {
                    assert(self@[i as int] == probe);
                    assert(self@.contains(probe));
                }
                return true;
            }
            i += 1;
        }
        false
    }

    /// Writes one membership edge.  An identical edge is written at most
    /// once; re-linking is a visible no-op.
    pub fn link(&mut self, base: Anchor, target: EntityId, link_type: LinkTypes)
        requires
            old(self).wf(),
        ensures
            final(self).wf(),
            final(self)@ == (if old(self)@.contains(LinkEdge { base, target, link_type }) {
                old(self)@
            } else {
                old(self)@.push(LinkEdge { base, target, link_type })
            }),
            final(self)@.contains(LinkEdge { base, target, link_type }),
            forall|e: LinkEdge| #[trigger]
                final(self)@.contains(e) <==> (old(self)@.contains(e) || e == LinkEdge {
                    base,
                    target,
                    link_type,
                }),
    {
        let probe = LinkEdge { base, target, link_type };
        if !self.has_edge(base, target, link_type) {
            let ghost pre = self.edges@;
            self.edges.push(probe);
            proof {
                assert(self.edges@ == pre.push(probe));
                assert(self.edges@[pre.len() as int] == probe);
                assert(self.edges@.contains(probe));
                assert(no_dup(self.edges@)) by {
                    assert(forall|i: int| 0 <= i < pre.len() ==> self.edges@[i] == pre[i]);
                }
                assert forall|e: LinkEdge|
                    #[trigger] self.edges@.contains(e) <==> (pre.contains(e) || e == probe) by {
                    if pre.contains(e) {
                        let i = choose|i: int| 0 <= i < pre.len() && pre[i] == e;
                        assert(self.edges@[i] == e);
                        assert(self.edges@.contains(e));
                    }
                    if self.edges@.contains(e) && e != probe {
                        let i = choose|i: int| 0 <= i < self.edges@.len() && self.edges@[i] == e;
                        assert(i < pre.len());
                        assert(pre[i] == e);
                        assert(pre.contains(e));
                    }
                }
            }
        }
    }

    /// All current targets of `link_type` edges leaving `base`, in store
    /// order.
    pub fn links_from(&self, base: Anchor, link_type: LinkTypes) -> (r: Vec<EntityId>)
        ensures
            r@ == link_targets(self@, base, link_type),
    {
        let mut out: Vec<EntityId> = Vec::new();
        let mut i: usize = 0;
        while i < self.edges.len()
            invariant
                i <= self.edges.len(),
                out@ == link_targets(self.edges@.take(i as int), base, link_type),
            decreases self.edges.len() - i,
        {
            let ghost prefix = self.edges@.take(i as int);
            let ghost next_prefix = self.edges@.take(i as int + 1);
            proof {
                assert(next_prefix.drop_last() =~= prefix);
                assert(next_prefix.last() == self.edges@[i as int]);
            }
            let e = self.edges[i];
            if e.base == base && e.link_type == link_type {
                out.push(e.target);
            }
            i += 1;
        }
        proof {
            assert(self.edges@.take(self.edges@.len() as int) =~= self.edges@);
        }
        out
    }
}

} // verus!
