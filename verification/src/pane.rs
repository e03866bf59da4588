//! Reading the pane tree: locating a pane's leaf by id, and which leaves a
//! frame places, in what order, under which paths. Turning a path's split
//! ratios into pixel rects is the host's geometry.

use vstd::prelude::*;

use crate::action::SpaceRef;
use crate::frisket::{
    FrisketId, FrisketLayout, GraphId, InsertSide, PaneContent, PaneId, PaneNode, SplitAxis, SplitChoice,
};
use crate::text::{decimal, decimal_string};

verus! {

/// Whether some leaf of `node` carries pane `id`.
pub open spec fn has_leaf(node: PaneNode, id: PaneId) -> bool
    decreases node,
{
    match node {
        PaneNode::Leaf { pane_id, .. } => pane_id == id,
        PaneNode::Split { first, second, .. } => has_leaf(*first, id) || has_leaf(*second, id),
    }
}

/// The path to the first leaf (depth-first, `First` before `Second`) that
/// carries pane `id`; none when no leaf does.
pub open spec fn first_path_to(node: PaneNode, id: PaneId) -> Option<Seq<SplitChoice>>
    decreases node,
{
    match node {
        PaneNode::Leaf { pane_id, .. } => if pane_id == id {
            Some(Seq::empty())
        } else {
            None
        },
        PaneNode::Split { first, second, .. } => match first_path_to(*first, id) {
            Some(p) => Some(seq![SplitChoice::First] + p),
            None => match first_path_to(*second, id) {
                Some(p) => Some(seq![SplitChoice::Second] + p),
                None => None,
            },
        },
    }
}

/// The subtree reached by following `path` from `node`, if the path stays
/// inside the tree.
pub open spec fn subtree_at(node: PaneNode, path: Seq<SplitChoice>) -> Option<PaneNode>
    decreases path.len(),
{
    if path.len() == 0 {
        Some(node)
    } else {
        match node {
            PaneNode::Leaf { .. } => None,
            PaneNode::Split { first, second, .. } => if path[0] == SplitChoice::First {
                subtree_at(*first, path.drop_first())
            } else {
                subtree_at(*second, path.drop_first())
            },
        }
    }
}

fn find(node: &PaneNode, id: PaneId) -> (r: Option<Vec<SplitChoice>>)
    ensures
        match r {
            Some(v) => first_path_to(*node, id) == Some(v@),
            None => first_path_to(*node, id) is None,
        },
    decreases node,
{
    match node {
        PaneNode::Leaf { pane_id, .. } => {
            if pane_id.0 == id.0 {
                Some(Vec::new())
            } else {
                None
            }
        },
        PaneNode::Split { first, second, .. } => {
            match find(first, id) {
                Some(mut p) => {
                    p.insert(0, SplitChoice::First);
                    assert(p@ =~= seq![SplitChoice::First] + first_path_to(**first, id)->0);
                    Some(p)
                },
                None => match find(second, id) {
                    Some(mut p) => {
                        p.insert(0, SplitChoice::Second);
                        assert(p@ =~= seq![SplitChoice::Second] + first_path_to(**second, id)->0);
                        Some(p)
                    },
                    None => None,
                },
            }
        },
    }
}

/// The path from the root to the leaf carrying `id` (the first such leaf,
/// depth-first), or `None` if no leaf does. Empty path = the whole tree is
/// that leaf.
pub fn path_of(layout: &FrisketLayout, id: PaneId) -> (r: Option<Vec<SplitChoice>>)
    ensures
        match r {
            Some(v) => first_path_to(layout.root, id) == Some(v@),
            None => first_path_to(layout.root, id) is None,
        },
{
    find(&layout.root, id)
}

/// A path is found for pane `id` exactly when some leaf carries it.
pub proof fn lemma_path_found_iff_leaf(node: PaneNode, id: PaneId)
    ensures
        first_path_to(node, id) is Some <==> has_leaf(node, id),
    decreases node,
{
    match node {
        PaneNode::Leaf { .. } => {},
        PaneNode::Split { first, second, .. } => {
            lemma_path_found_iff_leaf(*first, id);
            lemma_path_found_iff_leaf(*second, id);
        },
    }
}

/// The path found for pane `id` leads, from the root, to a leaf carrying `id`.
pub proof fn lemma_path_leads_to_leaf(node: PaneNode, id: PaneId)
    requires
        first_path_to(node, id) is Some,
    ensures
        subtree_at(node, first_path_to(node, id)->0) matches Some(PaneNode::Leaf { pane_id, .. })
            && pane_id == id,
    decreases node,
{
    match node {
        PaneNode::Leaf { .. } => {},
        PaneNode::Split { first, second, .. } => {
            match first_path_to(*first, id) {
                Some(p) => {
                    lemma_path_leads_to_leaf(*first, id);
                    assert((seq![SplitChoice::First] + p).drop_first() =~= p);
                },
                None => {
                    lemma_path_leads_to_leaf(*second, id);
                    let p = first_path_to(*second, id)->0;
                    assert((seq![SplitChoice::Second] + p).drop_first() =~= p);
                },
            }
        },
    }
}

/// One placed leaf: its pane, its content, and the path that reaches it
/// from the root (the host derives its rect from the splits along it).
#[derive(Clone, Debug, PartialEq)]
pub struct PaneSlot {
    pub id: PaneId,
    pub content: PaneContent,
    pub path: Vec<SplitChoice>,
}

/// The leaves under `node` (reached by `prefix`), depth-first, `First`
/// before `Second`, each with its path.
pub open spec fn leaves(node: PaneNode, prefix: Seq<SplitChoice>) -> Seq<(PaneId, PaneContent, Seq<SplitChoice>)>
    decreases node,
{
    match node {
        PaneNode::Leaf { pane_id, content, .. } => seq![(pane_id, content, prefix)],
        PaneNode::Split { first, second, .. } => leaves(*first, prefix.push(SplitChoice::First))
            + leaves(*second, prefix.push(SplitChoice::Second)),
    }
}

/// The first leaf of `all` at or after `from` that carries pane `id`.
pub open spec fn first_slot(all: Seq<(PaneId, PaneContent, Seq<SplitChoice>)>, id: PaneId, from: int) -> Option<int>
    decreases all.len() - from,
{
    if from >= all.len() {
        None
    } else if all[from].0 == id {
        Some(from)
    } else {
        first_slot(all, id, from + 1)
    }
}

/// The leaves a frame places: every leaf in walk order, or, when
/// `maximized` names a pane in the tree, that pane alone (the rest are
/// dropped; maximize is a host view state).
pub open spec fn placed(root: PaneNode, maximized: Option<PaneId>) -> Seq<(PaneId, PaneContent, Seq<SplitChoice>)> {
    let all = leaves(root, Seq::empty());
    match maximized {
        Some(m) => match first_slot(all, m, 0) {
            Some(i) => seq![all[i]],
            None => all,
        },
        None => all,
    }
}

/// The view of a slot.
pub open spec fn slot_view(s: PaneSlot) -> (PaneId, PaneContent, Seq<SplitChoice>) {
    (s.id, s.content, s.path@)
}

fn copy_path(p: &Vec<SplitChoice>) -> (q: Vec<SplitChoice>)
    ensures
        q@ == p@,
{
    let mut q: Vec<SplitChoice> = Vec::new();
    let mut i: usize = 0;
    while i < p.len()
        invariant
            i <= p.len(),
            q@ == p@.take(i as int),
        decreases p.len() - i,
    {
        q.push(p[i]);
        assert(p@.take(i + 1) =~= p@.take(i as int).push(p@[i as int]));
        i = i + 1;
    }
    assert(p@.take(p.len() as int) =~= p@);
    q
}

fn walk(node: &PaneNode, path: &mut Vec<SplitChoice>, out: &mut Vec<PaneSlot>)
    ensures
        final(path)@ == old(path)@,
        final(out)@.map_values(|s: PaneSlot| slot_view(s)) == old(out)@.map_values(|s: PaneSlot| slot_view(s))
            + leaves(*node, old(path)@),
    decreases node,
{
    match node {
        PaneNode::Leaf { pane_id, content, .. } => {
            let ghost before = out@;
            out.push(PaneSlot { id: *pane_id, content: content.clone(), path: copy_path(path) });
            assert(out@.map_values(|s: PaneSlot| slot_view(s)) =~= before.map_values(|s: PaneSlot| slot_view(s))
                + leaves(*node, path@));
        },
        PaneNode::Split { first, second, .. } => {
            let ghost p0 = path@;
            let ghost o0 = out@.map_values(|s: PaneSlot| slot_view(s));
            path.push(SplitChoice::First);
            walk(first, path, out);
            let ghost o1 = out@.map_values(|s: PaneSlot| slot_view(s));
            path.pop();
            assert(path@ =~= p0);
            path.push(SplitChoice::Second);
            walk(second, path, out);
            path.pop();
            assert(path@ =~= p0);
            assert(out@.map_values(|s: PaneSlot| slot_view(s)) =~= o0 + leaves(*node, p0));
        },
    }
}

/// The leaves a frame places (see [`placed`]), with their paths.
pub fn pane_slots(layout: &FrisketLayout, maximized: Option<PaneId>) -> (slots: Vec<PaneSlot>)
    ensures
        slots@.map_values(|s: PaneSlot| slot_view(s)) == placed(layout.root, maximized),
{
    let mut all: Vec<PaneSlot> = Vec::new();
    let mut path: Vec<SplitChoice> = Vec::new();
    walk(&layout.root, &mut path, &mut all);
    assert(all@.map_values(|s: PaneSlot| slot_view(s)) =~= leaves(layout.root, Seq::empty()));
    match maximized {
        Some(m) => {
            let ghost view = all@.map_values(|s: PaneSlot| slot_view(s));
            let mut i: usize = 0;
            while i < all.len()
                invariant
                    i <= all.len(),
                    view == all@.map_values(|s: PaneSlot| slot_view(s)),
                    view == leaves(layout.root, Seq::empty()),
                    maximized == Some(m),
                    first_slot(view, m, 0) == first_slot(view, m, i as int),
                decreases all.len() - i,
            {
                if all[i].id.0 == m.0 {
                    assert(view[i as int].0 == m);
                    assert(first_slot(view, m, i as int) == Some(i as int));
                    let chosen = all.remove(i);
                    let mut one: Vec<PaneSlot> = Vec::new();
                    one.push(chosen);
                    assert(one@.map_values(|s: PaneSlot| slot_view(s)) =~= seq![view[i as int]]);
                    return one;
                }
                i = i + 1;
            }
            all
        },
        None => all,
    }
}

/// Whether `i` is the first index of `all` that carries pane `id`.
pub open spec fn is_first_match(all: Seq<(PaneId, PaneContent, Seq<SplitChoice>)>, id: PaneId, i: int) -> bool {
    &&& 0 <= i < all.len()
    &&& all[i].0 == id
    &&& forall|j: int| 0 <= j < i ==> (#[trigger] all[j]).0 != id
}

pub proof fn lemma_first_slot(all: Seq<(PaneId, PaneContent, Seq<SplitChoice>)>, id: PaneId, from: int)
    requires
        0 <= from <= all.len(),
        forall|j: int| 0 <= j < from ==> (#[trigger] all[j]).0 != id,
    ensures
        match first_slot(all, id, from) {
            Some(i) => is_first_match(all, id, i),
            None => forall|j: int| 0 <= j < all.len() ==> (#[trigger] all[j]).0 != id,
        },
    decreases all.len() - from,
{
    if from < all.len() && all[from].0 != id {
        lemma_first_slot(all, id, from + 1);
    }
}

proof fn lemma_leaves_match(node: PaneNode, prefix: Seq<SplitChoice>, id: PaneId)
    ensures
        has_leaf(node, id) ==> exists|i: int| #[trigger] is_first_match(leaves(node, prefix), id, i)
            && leaves(node, prefix)[i].2 == prefix + first_path_to(node, id)->Some_0,
        !has_leaf(node, id) ==> forall|j: int| 0 <= j < leaves(node, prefix).len()
            ==> (#[trigger] leaves(node, prefix)[j]).0 != id,
        has_leaf(node, id) <==> first_path_to(node, id) is Some,
    decreases node,
{
    match node {
        PaneNode::Leaf { pane_id, content, .. } => {
            if pane_id == id {
                assert(is_first_match(leaves(node, prefix), id, 0));
                assert(prefix + Seq::<SplitChoice>::empty() =~= prefix);
            }
        },
        PaneNode::Split { first, second, .. } => {
            let pf = prefix.push(SplitChoice::First);
            let ps = prefix.push(SplitChoice::Second);
            lemma_leaves_match(*first, pf, id);
            lemma_leaves_match(*second, ps, id);
            let l1 = leaves(*first, pf);
            let l2 = leaves(*second, ps);
            let all = leaves(node, prefix);
            assert(all == l1 + l2);
            if has_leaf(*first, id) {
                let i = choose|i: int| #[trigger] is_first_match(l1, id, i) && l1[i].2 == pf + first_path_to(*first, id)->Some_0;
                assert(all[i] == l1[i]);
                assert forall|j: int| 0 <= j < i implies (#[trigger] all[j]).0 != id by {
                    assert(all[j] == l1[j]);
                }
                assert(is_first_match(all, id, i));
                assert(pf + first_path_to(*first, id)->Some_0 =~= prefix + (seq![SplitChoice::First] + first_path_to(*first, id)->Some_0));
            } else if has_leaf(*second, id) {
                let k = choose|k: int| #[trigger] is_first_match(l2, id, k) && l2[k].2 == ps + first_path_to(*second, id)->Some_0;
                let i = l1.len() + k;
                assert(all[i] == l2[k]);
                assert forall|j: int| 0 <= j < i implies (#[trigger] all[j]).0 != id by {
                    if j < l1.len() {
                        assert(all[j] == l1[j]);
                    } else {
                        assert(all[j] == l2[j - l1.len()]);
                    }
                }
                assert(is_first_match(all, id, i));
                assert(ps + first_path_to(*second, id)->Some_0 =~= prefix + (seq![SplitChoice::Second] + first_path_to(*second, id)->Some_0));
            } else {
                assert forall|j: int| 0 <= j < all.len() implies (#[trigger] all[j]).0 != id by {
                    if j < l1.len() {
                        assert(all[j] == l1[j]);
                    } else {
                        assert(all[j] == l2[j - l1.len()]);
                    }
                }
            }
        },
    }
}

/// A frame places a maximized pane that is in the tree alone, under the
/// very path `path_of` aims tree operations at; a maximized id that no
/// leaf carries changes nothing; with nothing maximized every leaf is
/// placed, a lone leaf under the empty path.
pub proof fn lemma_maximized_pane_placed_alone(root: PaneNode, m: PaneId)
    ensures
        has_leaf(root, m) ==> placed(root, Some(m)).len() == 1 && placed(root, Some(m))[0].0 == m
            && placed(root, Some(m))[0].2 == first_path_to(root, m)->Some_0,
        !has_leaf(root, m) ==> placed(root, Some(m)) == placed(root, None),
        root is Leaf ==> placed(root, None).len() == 1 && placed(root, None)[0].2 == Seq::<SplitChoice>::empty(),
{
    let all = leaves(root, Seq::empty());
    lemma_leaves_match(root, Seq::empty(), m);
    lemma_first_slot(all, m, 0);
    if has_leaf(root, m) {
        let i = choose|i: int| #[trigger] is_first_match(all, m, i)
            && all[i].2 == Seq::<SplitChoice>::empty() + first_path_to(root, m)->Some_0;
        let f = first_slot(all, m, 0)->Some_0;
        if f < i {
            assert(all[f].0 != m);
        } else if i < f {
            assert(all[i].0 != m);
        }
        assert(Seq::<SplitChoice>::empty() + first_path_to(root, m)->Some_0 =~= first_path_to(root, m)->Some_0);
    } else {
        if first_slot(all, m, 0) is Some {
            let f = first_slot(all, m, 0)->Some_0;
            assert(all[f].0 != m);
        }
    }
}

/// When a tree's pane ids are distinct, every pane a frame places sits under
/// exactly the path that `path_of` finds for its id.
pub proof fn lemma_placed_paths_are_found(root: PaneNode, k: int)
    requires
        0 <= k < placed(root, None).len(),
        forall|i: int, j: int| 0 <= i < j < placed(root, None).len()
            ==> (#[trigger] placed(root, None)[i]).0 != (#[trigger] placed(root, None)[j]).0,
    ensures
        first_path_to(root, placed(root, None)[k].0) == Some(placed(root, None)[k].2),
{
    let all = leaves(root, Seq::empty());
    let id = all[k].0;
    lemma_leaves_match(root, Seq::empty(), id);
    assert(has_leaf(root, id));
    let i = choose|i: int| #[trigger] is_first_match(all, id, i)
        && all[i].2 == Seq::<SplitChoice>::empty() + first_path_to(root, id)->Some_0;
    if i < k {
        assert(all[i].0 != all[k].0);
    } else if k < i {
        assert(all[k].0 != all[i].0);
    }
    assert(Seq::<SplitChoice>::empty() + first_path_to(root, id)->Some_0 =~= first_path_to(root, id)->Some_0);
}

/// Whether some leaf of `node` carries pane `id`.
pub fn holds_pane(node: &PaneNode, id: PaneId) -> (b: bool)
    ensures
        b == has_leaf(*node, id),
{
    proof {
        lemma_path_found_iff_leaf(*node, id);
    }
    find(node, id).is_some()
}

/// The window space holding pane `pane`: the primary window when its tree
/// does, else the first live lens whose tree does.
pub open spec fn space_holding(primary: PaneNode, lenses: Seq<Option<FrisketLayout>>, pane: PaneId) -> Option<SpaceRef> {
    if has_leaf(primary, pane) {
        Some(SpaceRef::Primary)
    } else {
        lens_holding(lenses, pane, 0)
    }
}

/// The first live lens at or after `from` whose tree holds `pane`.
pub open spec fn lens_holding(lenses: Seq<Option<FrisketLayout>>, pane: PaneId, from: int) -> Option<SpaceRef>
    decreases lenses.len() - from,
{
    if from < 0 || from >= lenses.len() {
        None
    } else if lenses[from] matches Some(l) && has_leaf(l.root, pane) {
        Some(SpaceRef::Lens(from as usize))
    } else {
        lens_holding(lenses, pane, from + 1)
    }
}

/// A lens found holding `pane` is a live slot at or after `from` whose tree
/// holds it.
pub proof fn lemma_lens_holding_live(lenses: Seq<Option<FrisketLayout>>, pane: PaneId, from: int)
    requires
        lenses.len() <= usize::MAX,
    ensures
        lens_holding(lenses, pane, from) matches Some(SpaceRef::Lens(i)) ==> (from <= i < lenses.len()
            && (lenses[i as int] matches Some(l) && has_leaf(l.root, pane))),
        !(lens_holding(lenses, pane, from) matches Some(SpaceRef::Primary)),
    decreases lenses.len() - from,
{
    if 0 <= from < lenses.len() {
        lemma_lens_holding_live(lenses, pane, from + 1);
    }
}

/// The window space holding pane `pane` (see [`space_holding`]); lens
/// slots that were closed are `None`.
pub fn space_of(primary: &FrisketLayout, lenses: &Vec<Option<FrisketLayout>>, pane: PaneId) -> (r: Option<SpaceRef>)
    ensures
        r == space_holding(primary.root, lenses@, pane),
{
    if holds_pane(&primary.root, pane) {
        return Some(SpaceRef::Primary);
    }
    let mut i: usize = 0;
    while i < lenses.len()
        invariant
            i <= lenses.len(),
            !has_leaf(primary.root, pane),
            lens_holding(lenses@, pane, 0) == lens_holding(lenses@, pane, i as int),
        decreases lenses.len() - i,
    {
        match &lenses[i] {
            Some(l) => {
                if holds_pane(&l.root, pane) {
                    return Some(SpaceRef::Lens(i));
                }
            },
            None => {},
        }
        i = i + 1;
    }
    None
}

/// A new lens window's layout: a lone canvas leaf, named by its ordinal.
pub fn lens_layout(ordinal: usize, pane_id: PaneId) -> (l: FrisketLayout)
    ensures
        l.id.0@ == "lens-"@ + decimal(ordinal as nat),
        l.label@ == "lens "@ + decimal(ordinal as nat),
        l.root == (PaneNode::Leaf { pane_id, content: PaneContent::Orrery, graph_id: GraphId(0) }),
{
    let n = decimal_string(ordinal as u64);
    let mut id = String::from_str("lens-");
    id.append(n.as_str());
    let mut label = String::from_str("lens ");
    label.append(n.as_str());
    FrisketLayout {
        id: FrisketId(id),
        label,
        root: PaneNode::Leaf { pane_id, content: PaneContent::Orrery, graph_id: GraphId::nil() },
    }
}

/// The path of the split whose divider a pane's divider action moves: the
/// parent split of the pane's leaf (the root path for a lone leaf).
pub open spec fn parent_split_path(p: Seq<SplitChoice>) -> Seq<SplitChoice> {
    if p.len() == 0 { p } else { p.drop_last() }
}

/// The path of the split holding the divider of pane `active` (see
/// [`parent_split_path`]), or `None` when no leaf carries it.
pub fn divider_path(layout: &FrisketLayout, active: PaneId) -> (r: Option<Vec<SplitChoice>>)
    ensures
        match first_path_to(layout.root, active) {
            Some(p) => r matches Some(v) && v@ == parent_split_path(p),
            None => r is None,
        },
{
    match path_of(layout, active) {
        Some(mut p) => {
            p.pop();
            Some(p)
        },
        None => None,
    }
}

/// The split ratio a summoned leaf starts at: one half (binary64 bits).
pub const HALF_RATIO: u64 = 0x3fe0_0000_0000_0000;

/// The axis a split made by inserting on `side` divides along.
pub open spec fn side_axis(side: InsertSide) -> SplitAxis {
    match side {
        InsertSide::Left | InsertSide::Right => SplitAxis::Horizontal,
        InsertSide::Above | InsertSide::Below => SplitAxis::Vertical,
    }
}

/// `existing` split in half with `leaf` on `side` of it.
pub open spec fn split_beside(existing: PaneNode, side: InsertSide, leaf: PaneNode) -> PaneNode {
    if side == InsertSide::Left || side == InsertSide::Above {
        PaneNode::Split { axis: side_axis(side), ratio: HALF_RATIO, first: Box::new(leaf), second: Box::new(existing) }
    } else {
        PaneNode::Split { axis: side_axis(side), ratio: HALF_RATIO, first: Box::new(existing), second: Box::new(leaf) }
    }
}

/// `node` with the leaf at `path` split in half to put `leaf` on `side` of
/// it; none when `path` does not lead to a leaf.
pub open spec fn with_leaf_beside(node: PaneNode, path: Seq<SplitChoice>, side: InsertSide, leaf: PaneNode) -> Option<PaneNode>
    decreases path.len(),
{
    if path.len() == 0 {
        match node {
            PaneNode::Leaf { .. } => Some(split_beside(node, side, leaf)),
            _ => None,
        }
    } else {
        match node {
            PaneNode::Leaf { .. } => None,
            PaneNode::Split { axis, ratio, first, second } => if path[0] == SplitChoice::First {
                match with_leaf_beside(*first, path.drop_first(), side, leaf) {
                    Some(f) => Some(PaneNode::Split { axis, ratio, first: Box::new(f), second }),
                    None => None,
                }
            } else {
                match with_leaf_beside(*second, path.drop_first(), side, leaf) {
                    Some(t) => Some(PaneNode::Split { axis, ratio, first, second: Box::new(t) }),
                    None => None,
                }
            },
        }
    }
}

/// `node` with the leaf at `path` closed: its sibling takes the place of
/// their split. None when `path` does not lead to a leaf, or leads to the
/// root (a window keeps its last pane).
pub open spec fn without_leaf(node: PaneNode, path: Seq<SplitChoice>) -> Option<PaneNode>
    decreases path.len(),
{
    if path.len() == 0 {
        None
    } else {
        match node {
            PaneNode::Leaf { .. } => None,
            PaneNode::Split { axis, ratio, first, second } => if path.len() == 1 {
                if path[0] == SplitChoice::First {
                    if *first is Leaf { Some(*second) } else { None }
                } else {
                    if *second is Leaf { Some(*first) } else { None }
                }
            } else if path[0] == SplitChoice::First {
                match without_leaf(*first, path.drop_first()) {
                    Some(f) => Some(PaneNode::Split { axis, ratio, first: Box::new(f), second }),
                    None => None,
                }
            } else {
                match without_leaf(*second, path.drop_first()) {
                    Some(t) => Some(PaneNode::Split { axis, ratio, first, second: Box::new(t) }),
                    None => None,
                }
            },
        }
    }
}

fn split_beside_of(existing: PaneNode, side: InsertSide, leaf: PaneNode) -> (r: PaneNode)
    ensures
        r == split_beside(existing, side, leaf),
{
    let axis = side.split_axis();
    if side.new_is_first() {
        PaneNode::Split { axis, ratio: HALF_RATIO, first: Box::new(leaf), second: Box::new(existing) }
    } else {
        PaneNode::Split { axis, ratio: HALF_RATIO, first: Box::new(existing), second: Box::new(leaf) }
    }
}

fn beside_at(node: &PaneNode, path: &Vec<SplitChoice>, i: usize, side: InsertSide, leaf: PaneNode) -> (r: Option<PaneNode>)
    requires
        i <= path.len(),
    ensures
        r == with_leaf_beside(*node, path@.skip(i as int), side, leaf),
    decreases path.len() - i,
{
    let ghost p = path@.skip(i as int);
    if i == path.len() {
        assert(p.len() == 0);
        return match node {
            PaneNode::Leaf { .. } => Some(split_beside_of(node.clone(), side, leaf)),
            _ => None,
        };
    }
    assert(p[0] == path@[i as int]);
    assert(p.drop_first() =~= path@.skip(i + 1));
    match node {
        PaneNode::Leaf { .. } => None,
        PaneNode::Split { axis, ratio, first, second } => {
            if path[i] == SplitChoice::First {
                match beside_at(first, path, i + 1, side, leaf) {
                    Some(f) => Some(PaneNode::Split { axis: *axis, ratio: *ratio, first: Box::new(f), second: Box::new((**second).clone()) }),
                    None => None,
                }
            } else {
                match beside_at(second, path, i + 1, side, leaf) {
                    Some(t) => Some(PaneNode::Split { axis: *axis, ratio: *ratio, first: Box::new((**first).clone()), second: Box::new(t) }),
                    None => None,
                }
            }
        },
    }
}

fn without_at(node: &PaneNode, path: &Vec<SplitChoice>, i: usize) -> (r: Option<PaneNode>)
    requires
        i <= path.len(),
    ensures
        r == without_leaf(*node, path@.skip(i as int)),
    decreases path.len() - i,
{
    let ghost p = path@.skip(i as int);
    if i == path.len() {
        assert(p.len() == 0);
        return None;
    }
    assert(p[0] == path@[i as int]);
    assert(p.drop_first() =~= path@.skip(i + 1));
    match node {
        PaneNode::Leaf { .. } => None,
        PaneNode::Split { axis, ratio, first, second } => {
            if i + 1 == path.len() {
                if path[i] == SplitChoice::First {
                    match &**first {
                        PaneNode::Leaf { .. } => Some((**second).clone()),
                        _ => None,
                    }
                } else {
                    match &**second {
                        PaneNode::Leaf { .. } => Some((**first).clone()),
                        _ => None,
                    }
                }
            } else if path[i] == SplitChoice::First {
                match without_at(first, path, i + 1) {
                    Some(f) => Some(PaneNode::Split { axis: *axis, ratio: *ratio, first: Box::new(f), second: Box::new((**second).clone()) }),
                    None => None,
                }
            } else {
                match without_at(second, path, i + 1) {
                    Some(t) => Some(PaneNode::Split { axis: *axis, ratio: *ratio, first: Box::new((**first).clone()), second: Box::new(t) }),
                    None => None,
                }
            }
        },
    }
}

/// The subtree at `path` (see [`subtree_at`]), copied.
fn subtree_of(node: &PaneNode, path: &Vec<SplitChoice>, i: usize) -> (r: Option<PaneNode>)
    requires
        i <= path.len(),
    ensures
        r == subtree_at(*node, path@.skip(i as int)),
    decreases path.len() - i,
{
    let ghost p = path@.skip(i as int);
    if i == path.len() {
        assert(p.len() == 0);
        return Some(node.clone());
    }
    assert(p[0] == path@[i as int]);
    assert(p.drop_first() =~= path@.skip(i + 1));
    match node {
        PaneNode::Leaf { .. } => None,
        PaneNode::Split { first, second, .. } => {
            if path[i] == SplitChoice::First {
                subtree_of(first, path, i + 1)
            } else {
                subtree_of(second, path, i + 1)
            }
        },
    }
}

/// The pane of the last leaf, depth-first (the rightmost, bottom-most).
pub open spec fn last_leaf(node: PaneNode) -> PaneId
    decreases node,
{
    match node {
        PaneNode::Leaf { pane_id, .. } => pane_id,
        PaneNode::Split { second, .. } => last_leaf(*second),
    }
}

fn last_leaf_of(node: &PaneNode) -> (id: PaneId)
    ensures
        id == last_leaf(*node),
    decreases node,
{
    match node {
        PaneNode::Leaf { pane_id, .. } => *pane_id,
        PaneNode::Split { second, .. } => last_leaf_of(second),
    }
}

impl FrisketLayout {
    /// Put `leaf` on `side` of the leaf at `path`, halving it; false (and no
    /// change) when `path` does not lead to a leaf.
    pub fn summon_leaf(&mut self, path: &Vec<SplitChoice>, side: InsertSide, leaf: PaneNode) -> (done: bool)
        ensures
            match with_leaf_beside(old(self).root, path@, side, leaf) {
                Some(r) => done && final(self).root == r,
                None => !done && final(self).root == old(self).root,
            },
            final(self).id == old(self).id,
            final(self).label == old(self).label,
    {
        assert(path@.skip(0) =~= path@);
        match beside_at(&self.root, path, 0, side, leaf) {
            Some(r) => {
                self.root = r;
                true
            },
            None => false,
        }
    }

    /// Close the leaf at `path`, its sibling taking the split's place; false
    /// (and no change) when `path` does not lead to a leaf or leads to the
    /// root.
    pub fn close_leaf(&mut self, path: &Vec<SplitChoice>) -> (done: bool)
        ensures
            match without_leaf(old(self).root, path@) {
                Some(r) => done && final(self).root == r,
                None => !done && final(self).root == old(self).root,
            },
            final(self).id == old(self).id,
            final(self).label == old(self).label,
    {
        assert(path@.skip(0) =~= path@);
        match without_at(&self.root, path, 0) {
            Some(r) => {
                self.root = r;
                true
            },
            None => false,
        }
    }

    /// The leaf at `path`, copied (see [`subtree_at`]).
    pub fn subtree(&self, path: &Vec<SplitChoice>) -> (r: Option<PaneNode>)
        ensures
            r == subtree_at(self.root, path@),
    {
        assert(path@.skip(0) =~= path@);
        subtree_of(&self.root, path, 0)
    }

    /// The pane of the tree's last leaf (see [`last_leaf`]).
    pub fn last_pane(&self) -> (id: PaneId)
        ensures
            id == last_leaf(self.root),
    {
        last_leaf_of(&self.root)
    }
}

/// The panes of a tree in depth-first order (`first` before `second`),
/// each with its content.
pub open spec fn panes_in(node: PaneNode) -> Seq<(PaneId, PaneContent)>
    decreases node,
{
    match node {
        PaneNode::Leaf { pane_id, content, .. } => seq![(pane_id, content)],
        PaneNode::Split { first, second, .. } => panes_in(*first) + panes_in(*second),
    }
}

proof fn lemma_panes_nonempty(node: PaneNode)
    ensures
        panes_in(node).len() > 0,
    decreases node,
{
    if let PaneNode::Split { first, second, .. } = node {
        lemma_panes_nonempty(*first);
        lemma_panes_nonempty(*second);
    }
}

/// Closing the leaf at a path removes exactly that leaf: the tree's panes
/// afterwards, depth-first, are the panes before with only the closed one
/// taken out; every other pane keeps its content and its order.
pub proof fn lemma_close_removes_only_that_leaf(root: PaneNode, path: Seq<SplitChoice>)
    requires
        without_leaf(root, path) is Some,
    ensures
        subtree_at(root, path) matches Some(PaneNode::Leaf { pane_id, content, .. }) && exists|k: int| {
            &&& 0 <= k < panes_in(root).len()
            &&& #[trigger] panes_in(root)[k] == (pane_id, content)
            &&& panes_in(without_leaf(root, path)->Some_0) == panes_in(root).remove(k)
        },
    decreases path.len(),
{
    match root {
        PaneNode::Leaf { .. } => {},
        PaneNode::Split { axis, ratio, first, second } => {
            let before = panes_in(root);
            let after = panes_in(without_leaf(root, path)->Some_0);
            let pf = panes_in(*first);
            let ps = panes_in(*second);
            assert(before == pf + ps);
            if path.len() == 1 {
                assert(path.drop_first().len() == 0);
                if path[0] == SplitChoice::First {
                    assert(subtree_at(root, path) == subtree_at(*first, path.drop_first()));
                    assert(before[0] == pf[0]);
                    assert(after =~= before.remove(0));
                } else {
                    assert(subtree_at(root, path) == subtree_at(*second, path.drop_first()));
                    let k = before.len() - 1;
                    assert(before[k] == ps[0]);
                    assert(after =~= before.remove(k));
                }
            } else if path[0] == SplitChoice::First {
                lemma_close_removes_only_that_leaf(*first, path.drop_first());
                let f = without_leaf(*first, path.drop_first())->Some_0;
                let j = choose|j: int| {
                    &&& 0 <= j < pf.len()
                    &&& #[trigger] pf[j] == (subtree_at(*first, path.drop_first())->Some_0->Leaf_pane_id,
                        subtree_at(*first, path.drop_first())->Some_0->Leaf_content)
                    &&& panes_in(f) == pf.remove(j)
                };
                assert(before[j] == pf[j]);
                assert(after =~= before.remove(j));
            } else {
                lemma_close_removes_only_that_leaf(*second, path.drop_first());
                let t = without_leaf(*second, path.drop_first())->Some_0;
                let j = choose|j: int| {
                    &&& 0 <= j < ps.len()
                    &&& #[trigger] ps[j] == (subtree_at(*second, path.drop_first())->Some_0->Leaf_pane_id,
                        subtree_at(*second, path.drop_first())->Some_0->Leaf_content)
                    &&& panes_in(t) == ps.remove(j)
                };
                let k = pf.len() + j;
                assert(before[k] == ps[j]);
                assert(after =~= before.remove(k));
            }
        },
    }
}

/// Summoning a leaf beside the leaf at a path adds exactly that leaf, next
/// to it on the summoned side: the tree's panes afterwards, depth-first, are
/// the panes before with the new one inserted just before (left or above)
/// or just after (right or below) the leaf it joins.
pub proof fn lemma_summon_adds_only_that_leaf(root: PaneNode, path: Seq<SplitChoice>, side: InsertSide, leaf: PaneNode)
    requires
        with_leaf_beside(root, path, side, leaf) is Some,
        leaf is Leaf,
    ensures
        subtree_at(root, path) matches Some(PaneNode::Leaf { pane_id, content, .. }) && exists|k: int| {
            &&& 0 <= k < panes_in(root).len()
            &&& #[trigger] panes_in(root)[k] == (pane_id, content)
            &&& panes_in(with_leaf_beside(root, path, side, leaf)->Some_0) == panes_in(root).insert(
                if side == InsertSide::Left || side == InsertSide::Above { k } else { k + 1 },
                (leaf->Leaf_pane_id, leaf->Leaf_content),
            )
        },
    decreases path.len(),
{
    let n = (leaf->Leaf_pane_id, leaf->Leaf_content);
    let before = panes_in(root);
    let after = panes_in(with_leaf_beside(root, path, side, leaf)->Some_0);
    if path.len() == 0 {
        assert(root is Leaf);
        let r = with_leaf_beside(root, path, side, leaf)->Some_0;
        assert(r == split_beside(root, side, leaf));
        assert(panes_in(leaf) == seq![n]);
        assert(before == seq![before[0]]);
        assert(before[0] == before[0]);
        if side == InsertSide::Left || side == InsertSide::Above {
            assert(after == panes_in(leaf) + panes_in(root));
            assert(after =~= before.insert(0, n));
        } else {
            assert(after == panes_in(root) + panes_in(leaf));
            assert(after =~= before.insert(1, n));
        }
    } else {
        match root {
            PaneNode::Leaf { .. } => {},
            PaneNode::Split { axis, ratio, first, second } => {
                let pf = panes_in(*first);
                let ps = panes_in(*second);
                let tail = path.drop_first();
                if path[0] == SplitChoice::First {
                    lemma_summon_adds_only_that_leaf(*first, tail, side, leaf);
                    let j = choose|j: int| {
                        &&& 0 <= j < pf.len()
                        &&& #[trigger] pf[j] == (subtree_at(*first, tail)->Some_0->Leaf_pane_id,
                            subtree_at(*first, tail)->Some_0->Leaf_content)
                        &&& panes_in(with_leaf_beside(*first, tail, side, leaf)->Some_0) == pf.insert(
                            if side == InsertSide::Left || side == InsertSide::Above { j } else { j + 1 }, n)
                    };
                    assert(before[j] == pf[j]);
                    if side == InsertSide::Left || side == InsertSide::Above {
                        assert(after =~= before.insert(j, n));
                    } else {
                        assert(after =~= before.insert(j + 1, n));
                    }
                } else {
                    lemma_summon_adds_only_that_leaf(*second, tail, side, leaf);
                    let j = choose|j: int| {
                        &&& 0 <= j < ps.len()
                        &&& #[trigger] ps[j] == (subtree_at(*second, tail)->Some_0->Leaf_pane_id,
                            subtree_at(*second, tail)->Some_0->Leaf_content)
                        &&& panes_in(with_leaf_beside(*second, tail, side, leaf)->Some_0) == ps.insert(
                            if side == InsertSide::Left || side == InsertSide::Above { j } else { j + 1 }, n)
                    };
                    let k = pf.len() + j;
                    assert(before[k] == ps[j]);
                    if side == InsertSide::Left || side == InsertSide::Above {
                        assert(after =~= before.insert(k, n));
                    } else {
                        assert(after =~= before.insert(k + 1, n));
                    }
                }
            },
        }
    }
}

/// The pane a window's `last_pane` names is the last of its depth-first
/// walk.
pub proof fn lemma_last_leaf_is_last_in_walk(root: PaneNode)
    ensures
        panes_in(root).len() > 0,
        last_leaf(root) == panes_in(root).last().0,
    decreases root,
{
    lemma_panes_nonempty(root);
    if let PaneNode::Split { first, second, .. } = root {
        lemma_last_leaf_is_last_in_walk(*second);
        lemma_panes_nonempty(*first);
        assert((panes_in(*first) + panes_in(*second)).last() == panes_in(*second).last());
    }
}

} // verus!
