use crate::types::{AgentPubKey, EntryTypes, EntryTypesView};
use vstd::prelude::*;

verus! {

/// True iff `caller` appears in the editor set of `content`.
pub open spec fn is_editor(caller: AgentPubKey, content: EntryTypesView) -> bool {
    content.editors().contains(caller)
}

/// The editor set a creation settles on: the given editors with the
/// caller prepended when absent, or the caller alone when none were
/// given.  The result always holds the caller and is never empty.
pub open spec fn default_editors(editors: Option<Seq<AgentPubKey>>, caller: AgentPubKey) -> Seq<
    AgentPubKey,
> {
    match editors {
        None => seq![caller],
        Some(e) => if e.contains(caller) {
            e
        } else {
            seq![caller] + e
        },
    }
}

/// True iff `who` appears in `v`.
pub fn contains_agent(v: &Vec<AgentPubKey>, who: AgentPubKey) -> (r: bool)
    ensures
        r == v@.contains(who),
{
    let mut i: usize = 0;
    while i < v.len()
        invariant
            i <= v.len(),
            forall|j: int| 0 <= j < i ==> v@[j] != who,
        decreases v.len() - i,
    {
        if v[i] == who {
            return true;
        }
        i += 1;
    }
    false
}

/// Builds the editor set of a new entity from the optionally supplied
/// editors, guaranteeing the caller's membership.
pub fn make_editors(editors: Option<Vec<AgentPubKey>>, caller: AgentPubKey) -> (r: Vec<
    AgentPubKey,
>)
    ensures
        r@ == default_editors(
            match editors {
                Some(e) => Some(e@),
                None => None,
            },
            caller,
        ),
        r@.contains(caller),
        r@.len() > 0,
{
    match editors {
        None => {
            let mut v: Vec<AgentPubKey> = Vec::new();
            v.push(caller);
            proof {
                assert(v@ =~= seq![caller]);
                assert(v@[0] == caller);
            }
            v
        },
        Some(e) => {
            if contains_agent(&e, caller) {
                e
            } else {
                let mut v = e;
                let ghost pre = v@;
                v.insert(0, caller);
                proof {
                    assert(v@ =~= seq![caller] + pre);
                    assert(v@[0] == caller);
                }
                v
            }
        },
    }
}

/// Decides whether `caller` may mutate an entity whose current revision
/// is `content`: a pure membership test on the revision's editor set,
/// checked before every update or deprecation and never bypassed.
pub fn authorize(caller: AgentPubKey, content: &EntryTypes) -> (r: bool)
    ensures
        r == is_editor(caller, content@),
{
    let editors = content.editors();
    let mut i: usize = 0;
    while i < editors.len()
        invariant
            i <= editors.len(),
            editors@ == content@.editors(),
            forall|j: int| 0 <= j < i ==> editors@[j] != caller,
        decreases editors.len() - i,
    {
        if editors[i] == caller {
            return true;
        }
        i += 1;
    }
    false
}

} // verus!
