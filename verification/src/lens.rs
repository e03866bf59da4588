//! Multi-window lenses: a pane torn out of its window keeps its id and its
//! content and lands in the newest other lens window, or in a fresh one.

use vstd::prelude::*;

use crate::action::{Effect, SpaceRef};
use crate::frisket::{FrisketLayout, GraphId, InsertSide, PaneContent, PaneId, PaneNode, SplitAxis, SplitChoice};
use crate::pane::{
    first_path_to, last_leaf, lemma_lens_holding_live, lemma_path_leads_to_leaf, lens_layout, path_of, space_holding, space_of, subtree_at,
    with_leaf_beside, without_leaf, HALF_RATIO,
};
use crate::text::decimal;

verus! {

/// The pane spaces of the application's windows: the primary tree, the
/// lens slots (a closed lens leaves `None`), the maximized pane, and the
/// next pane id to mint (ids are unique across every window's tree).
pub struct Spaces {
    pub primary: FrisketLayout,
    pub lenses: Vec<Option<FrisketLayout>>,
    pub maximized: Option<PaneId>,
    pub next_pane_id: u64,
}

/// The tree of `space`.
pub open spec fn root_in(primary: FrisketLayout, lenses: Seq<Option<FrisketLayout>>, space: SpaceRef) -> PaneNode {
    match space {
        SpaceRef::Primary => primary.root,
        SpaceRef::Lens(i) => lenses[i as int]->Some_0.root,
    }
}

/// The newest live lens below ordinal `below` that is not `exclude`.
pub open spec fn newest_lens(lenses: Seq<Option<FrisketLayout>>, exclude: SpaceRef, below: int) -> Option<int>
    decreases below,
{
    if below <= 0 {
        None
    } else if lenses[below - 1] is Some && exclude != SpaceRef::Lens((below - 1) as usize) {
        Some(below - 1)
    } else {
        newest_lens(lenses, exclude, below - 1)
    }
}

proof fn lemma_newest_lens_live(lenses: Seq<Option<FrisketLayout>>, exclude: SpaceRef, below: int)
    requires
        below <= lenses.len(),
    ensures
        newest_lens(lenses, exclude, below) matches Some(i) ==> (0 <= i < below && lenses[i] is Some),
    decreases below,
{
    if below > 0 {
        lemma_newest_lens_live(lenses, exclude, below - 1);
    }
}

/// `root` with `leaf` landed to the right of its last leaf.
pub open spec fn landed(root: PaneNode, leaf: PaneNode) -> PaneNode {
    let path = match first_path_to(root, last_leaf(root)) {
        Some(p) => p,
        None => Seq::empty(),
    };
    match with_leaf_beside(root, path, InsertSide::Right, leaf) {
        Some(r) => r,
        None => root,
    }
}

/// A tear-out of pane `active`: the space holding it, the path to its leaf,
/// the leaf, and what its tree becomes without it. None when there is no
/// active pane, no space holds it, or it is its window's last leaf.
pub open spec fn tear_plan(primary: FrisketLayout, lenses: Seq<Option<FrisketLayout>>, active: Option<PaneId>)
    -> Option<(SpaceRef, PaneNode, PaneNode)>
{
    match active {
        None => None,
        Some(a) => match space_holding(primary.root, lenses, a) {
            None => None,
            Some(src) => {
                let root = root_in(primary, lenses, src);
                match first_path_to(root, a) {
                    None => None,
                    Some(path) => match (subtree_at(root, path), without_leaf(root, path)) {
                        (Some(leaf), Some(rest)) => Some((src, leaf, rest)),
                        _ => None,
                    },
                }
            },
        }
    }
}

/// The leaf a tear-out moves is the active pane's own leaf: same id.
pub proof fn lemma_torn_leaf_keeps_its_id(primary: FrisketLayout, lenses: Seq<Option<FrisketLayout>>, active: Option<PaneId>)
    ensures
        tear_plan(primary, lenses, active) matches Some((src, leaf, rest))
            ==> (leaf matches PaneNode::Leaf { pane_id, .. } && Some(pane_id) == active),
{
    if let Some((src, leaf, rest)) = tear_plan(primary, lenses, active) {
        let a = active->Some_0;
        lemma_path_leads_to_leaf(root_in(primary, lenses, src), a);
    }
}

/// The primary layout once its tree is `rest`, when the tear-out left it.
pub open spec fn primary_after(primary: FrisketLayout, src: SpaceRef, rest: PaneNode) -> FrisketLayout {
    if src == SpaceRef::Primary {
        FrisketLayout { root: rest, ..primary }
    } else {
        primary
    }
}

/// The lens slots once the source lens's tree is `rest`.
pub open spec fn lenses_after(lenses: Seq<Option<FrisketLayout>>, src: SpaceRef, rest: PaneNode) -> Seq<Option<FrisketLayout>> {
    match src {
        SpaceRef::Primary => lenses,
        SpaceRef::Lens(i) => lenses.update(i as int, Some(FrisketLayout { root: rest, ..lenses[i as int]->Some_0 })),
    }
}

fn set_lens_root(lenses: &mut Vec<Option<FrisketLayout>>, i: usize, root: PaneNode)
    requires
        i < old(lenses).len(),
        old(lenses)@[i as int] is Some,
    ensures
        final(lenses)@ == old(lenses)@.update(i as int, Some(FrisketLayout { root, ..old(lenses)@[i as int]->Some_0 })),
{
    let slot = lenses.remove(i);
    match slot {
        Some(mut l) => {
            l.root = root;
            lenses.insert(i, Some(l));
        },
        None => {
            lenses.insert(i, None);
        },
    }
    assert(lenses@ =~= old(lenses)@.update(i as int, Some(FrisketLayout { root, ..old(lenses)@[i as int]->Some_0 })));
}

fn newest_lens_of(lenses: &Vec<Option<FrisketLayout>>, exclude: SpaceRef) -> (r: Option<usize>)
    ensures
        match newest_lens(lenses@, exclude, lenses.len() as int) {
            Some(i) => r == Some(i as usize),
            None => r is None,
        },
{
    let mut k: usize = lenses.len();
    while k > 0
        invariant
            k <= lenses.len(),
            newest_lens(lenses@, exclude, lenses.len() as int) == newest_lens(lenses@, exclude, k as int),
        decreases k,
    {
        let live = match &lenses[k - 1] {
            Some(_) => true,
            None => false,
        };
        let other = match exclude {
            SpaceRef::Lens(j) => j != k - 1,
            SpaceRef::Primary => true,
        };
        if live && other {
            return Some(k - 1);
        }
        k = k - 1;
    }
    None
}

fn land_in(layout: &mut FrisketLayout, leaf: PaneNode)
    ensures
        final(layout).root == landed(old(layout).root, leaf),
        final(layout).id == old(layout).id,
        final(layout).label == old(layout).label,
{
    let last = layout.last_pane();
    let path = match path_of(layout, last) {
        Some(p) => p,
        None => Vec::new(),
    };
    assert(path@ == (match first_path_to(old(layout).root, last_leaf(old(layout).root)) {
        Some(p) => p,
        None => Seq::<SplitChoice>::empty(),
    }));
    layout.summon_leaf(&path, InsertSide::Right, leaf);
}

/// Take pane `a`'s leaf out of `layout`: the leaf, with the tree closed
/// around it; none (and no change) when no leaf carries `a` or it is the
/// last leaf.
fn detach(layout: &mut FrisketLayout, a: PaneId) -> (r: Option<PaneNode>)
    ensures
        final(layout).id == old(layout).id,
        final(layout).label == old(layout).label,
        match first_path_to(old(layout).root, a) {
            None => r is None && final(layout).root == old(layout).root,
            Some(path) => match (subtree_at(old(layout).root, path), without_leaf(old(layout).root, path)) {
                (Some(leaf), Some(rest)) => r == Some(leaf) && final(layout).root == rest,
                _ => r is None && final(layout).root == old(layout).root,
            },
        },
{
    let path = match path_of(layout, a) {
        Some(p) => p,
        None => return None,
    };
    let leaf = match layout.subtree(&path) {
        Some(l) => l,
        None => return None,
    };
    if layout.close_leaf(&path) {
        Some(leaf)
    } else {
        None
    }
}

/// Tear the active pane out of its window. Its leaf (same id, content and
/// graph binding) leaves the tree that holds it and lands to the right of
/// the last leaf of the newest other live lens; with none, a fresh lens is
/// seeded (a canvas leaf with a newly minted id) and its window opened. A
/// maximized pane that leaves is no longer maximized; the move persists.
/// With no active pane, or when it is its window's last leaf, nothing
/// changes and the frame only redraws.
pub fn tear_out_active_pane(s: &mut Spaces, active: Option<PaneId>) -> (fx: Vec<Effect>)
    requires
        old(s).next_pane_id < u64::MAX,
        old(s).lenses.len() < usize::MAX,
    ensures
        match tear_plan(old(s).primary, old(s).lenses@, active) {
            None => {
                &&& final(s).primary == old(s).primary
                &&& final(s).lenses@ == old(s).lenses@
                &&& final(s).maximized == old(s).maximized
                &&& final(s).next_pane_id == old(s).next_pane_id
                &&& fx@ == seq![Effect::Redraw]
            },
            Some((src, leaf, rest)) => {
                let lenses1 = lenses_after(old(s).lenses@, src, rest);
                let n = old(s).lenses.len();
                &&& final(s).primary == primary_after(old(s).primary, src, rest)
                &&& final(s).maximized == (if old(s).maximized == active { None } else { old(s).maximized })
                &&& match newest_lens(lenses1, src, n as int) {
                    Some(i) => {
                        &&& final(s).lenses@ == lenses1.update(i, Some(FrisketLayout {
                            root: landed(lenses1[i]->Some_0.root, leaf),
                            ..lenses1[i]->Some_0
                        }))
                        &&& final(s).next_pane_id == old(s).next_pane_id
                        &&& fx@ == seq![Effect::SaveSession, Effect::Redraw]
                    },
                    None => {
                        &&& final(s).lenses@.len() == n + 1
                        &&& final(s).lenses@.take(n as int) == lenses1
                        &&& final(s).lenses@[n as int] matches Some(l) && l.id.0@ == "lens-"@ + decimal(n as nat)
                            && l.label@ == "lens "@ + decimal(n as nat)
                            && l.root == (PaneNode::Split {
                                axis: SplitAxis::Horizontal,
                                ratio: HALF_RATIO,
                                first: Box::new(PaneNode::Leaf {
                                    pane_id: PaneId(old(s).next_pane_id),
                                    content: PaneContent::Orrery,
                                    graph_id: GraphId(0),
                                }),
                                second: Box::new(leaf),
                            })
                        &&& final(s).next_pane_id == old(s).next_pane_id + 1
                        &&& fx@ == seq![Effect::OpenWindow { ordinal: n }, Effect::SaveSession, Effect::Redraw]
                    },
                }
            },
        },
{
    let mut fx: Vec<Effect> = Vec::new();
    let a = match active {
        Some(a) => a,
        None => {
            fx.push(Effect::Redraw);
            return fx;
        },
    };
    let src = match space_of(&s.primary, &s.lenses, a) {
        Some(src) => src,
        None => {
            fx.push(Effect::Redraw);
            return fx;
        },
    };
    proof {
        lemma_lens_holding_live(s.lenses@, a, 0);
    }
    let leaf = match src {
        SpaceRef::Primary => match detach(&mut s.primary, a) {
            Some(l) => l,
            None => {
                fx.push(Effect::Redraw);
                return fx;
            },
        },
        SpaceRef::Lens(i) => {
            let slot = s.lenses.remove(i);
            match slot {
                Some(mut l) => {
                    let r = detach(&mut l, a);
                    s.lenses.insert(i, Some(l));
                    match r {
                        Some(x) => x,
                        None => {
                            assert(s.lenses@ =~= old(s).lenses@);
                            fx.push(Effect::Redraw);
                            return fx;
                        },
                    }
                },
                None => {
                    s.lenses.insert(i, None);
                    assert(s.lenses@ =~= old(s).lenses@);
                    fx.push(Effect::Redraw);
                    return fx;
                },
            }
        },
    };
    proof {
        if let SpaceRef::Lens(i) = src {
            assert(s.lenses@ =~= lenses_after(old(s).lenses@, src, root_in(s.primary, s.lenses@, src)));
        }
    }
    let ghost lenses1 = s.lenses@;
    if let Some(m) = s.maximized {
        if m.0 == a.0 {
            s.maximized = None;
        }
    }
    proof {
        lemma_newest_lens_live(s.lenses@, src, s.lenses.len() as int);
    }
    match newest_lens_of(&s.lenses, src) {
        Some(i) => {
            let slot = s.lenses.remove(i);
            match slot {
                Some(mut l) => {
                    land_in(&mut l, leaf);
                    s.lenses.insert(i, Some(l));
                },
                None => {
                    s.lenses.insert(i, None);
                },
            }
            assert(s.lenses@ =~= lenses1.update(i as int, Some(FrisketLayout {
                root: landed(lenses1[i as int]->Some_0.root, leaf),
                ..lenses1[i as int]->Some_0
            })));
            fx.push(Effect::SaveSession);
            fx.push(Effect::Redraw);
        },
        None => {
            let ordinal = s.lenses.len();
            let id = PaneId(s.next_pane_id);
            s.next_pane_id = s.next_pane_id + 1;
            let mut l = lens_layout(ordinal, id);
            land_in(&mut l, leaf);
            proof {
                let seed = PaneNode::Leaf { pane_id: id, content: PaneContent::Orrery, graph_id: GraphId(0) };
                assert(last_leaf(seed) == id);
                assert(first_path_to(seed, id) == Some(Seq::<SplitChoice>::empty()));
            }
            s.lenses.push(Some(l));
            assert(s.lenses@.take(ordinal as int) =~= lenses1);
            fx.push(Effect::OpenWindow { ordinal });
            fx.push(Effect::SaveSession);
            fx.push(Effect::Redraw);
        },
    }
    fx
}

} // verus!
