use merecat::action::Effect;
use merecat::frisket::{FrisketId, FrisketLayout, GraphId, InsertSide, PaneContent, PaneId, PaneNode, SplitChoice};
use merecat::lens::{tear_out_active_pane, Spaces};
use merecat::pane::{pane_slots, path_of};

fn leaf(id: u64, content: PaneContent) -> PaneNode {
    PaneNode::Leaf { pane_id: PaneId(id), content, graph_id: GraphId(0) }
}

fn leaves(node: &PaneNode, out: &mut Vec<(PaneId, PaneContent)>) {
    match node {
        PaneNode::Leaf { pane_id, content, .. } => out.push((*pane_id, content.clone())),
        PaneNode::Split { first, second, .. } => {
            leaves(first, out);
            leaves(second, out);
        },
    }
}

fn leaves_of(layout: &FrisketLayout) -> Vec<(PaneId, PaneContent)> {
    let mut out = Vec::new();
    leaves(&layout.root, &mut out);
    out
}

fn primary() -> FrisketLayout {
    FrisketLayout { id: FrisketId::new("t"), label: "t".into(), root: leaf(1, PaneContent::Orrery) }
}

#[test]
fn tear_out_moves_the_leaf_and_keeps_its_id() {
    let mut spaces = Spaces { primary: primary(), lenses: Vec::new(), maximized: None, next_pane_id: 3 };
    // Summon a Roster to the right of the Orrery.
    assert!(spaces.primary.summon_leaf(&vec![], InsertSide::Right, leaf(2, PaneContent::Roster)));
    let roster_id = PaneId(2);
    let effects = tear_out_active_pane(&mut spaces, Some(roster_id));
    // Departure: the primary tree no longer holds a Roster leaf.
    assert!(!leaves_of(&spaces.primary).iter().any(|(_, c)| *c == PaneContent::Roster), "the roster left the primary tree");
    // Arrival: a lens space spawned (no lens was open) and holds the same id.
    assert!(effects.iter().any(|e| matches!(e, Effect::OpenWindow { .. })), "tearing out with no lens spawns one: {effects:?}");
    assert_eq!(effects, vec![Effect::OpenWindow { ordinal: 0 }, Effect::SaveSession, Effect::Redraw]);
    let lens = spaces.lenses[0].as_ref().expect("lens space seeded");
    let moved = leaves_of(lens).into_iter().find(|(_, c)| *c == PaneContent::Roster).expect("the roster landed in the lens");
    assert_eq!(moved.0, roster_id, "same pane id across the move");
    assert_eq!(lens.label, "lens 0");
    // A summon beside the moved pane lands in the lens.
    let at = path_of(lens, roster_id).unwrap();
    assert!(spaces.lenses[0].as_mut().unwrap().summon_leaf(&at, InsertSide::Right, leaf(4, PaneContent::Trail)));
    assert!(leaves_of(spaces.lenses[0].as_ref().unwrap()).iter().any(|(_, c)| *c == PaneContent::Trail));
    assert!(!leaves_of(&spaces.primary).iter().any(|(_, c)| *c == PaneContent::Trail));
    // A primary pane tearing out reuses the open lens (no window spam).
    assert!(spaces.primary.summon_leaf(&vec![], InsertSide::Right, leaf(5, PaneContent::Gloss)));
    let effects = tear_out_active_pane(&mut spaces, Some(PaneId(5)));
    assert!(!effects.iter().any(|e| matches!(e, Effect::OpenWindow { .. })), "an open lens is reused");
    assert!(leaves_of(spaces.lenses[0].as_ref().unwrap()).iter().any(|(_, c)| *c == PaneContent::Gloss), "the gloss joined the existing lens");
    assert_eq!(spaces.lenses.len(), 1);
}

#[test]
fn the_last_pane_of_a_window_and_no_pane_stay_put() {
    let mut spaces = Spaces { primary: primary(), lenses: Vec::new(), maximized: Some(PaneId(1)), next_pane_id: 2 };
    assert_eq!(tear_out_active_pane(&mut spaces, Some(PaneId(1))), vec![Effect::Redraw]);
    assert_eq!(tear_out_active_pane(&mut spaces, None), vec![Effect::Redraw]);
    assert_eq!(tear_out_active_pane(&mut spaces, Some(PaneId(9))), vec![Effect::Redraw]);
    assert!(spaces.lenses.is_empty());
    assert_eq!(spaces.maximized, Some(PaneId(1)));
    assert_eq!(spaces.next_pane_id, 2);
}

#[test]
fn a_maximized_pane_that_leaves_is_no_longer_maximized() {
    let mut spaces = Spaces { primary: primary(), lenses: Vec::new(), maximized: Some(PaneId(2)), next_pane_id: 3 };
    spaces.primary.summon_leaf(&vec![], InsertSide::Right, leaf(2, PaneContent::Roster));
    tear_out_active_pane(&mut spaces, Some(PaneId(2)));
    assert_eq!(spaces.maximized, None);
    assert_eq!(spaces.next_pane_id, 4, "the seeded lens minted one id");
    assert_eq!(spaces.primary.root, leaf(1, PaneContent::Orrery), "the sibling took the split's place");
}

#[test]
fn maximize_gives_one_pane_the_whole_area() {
    let mut layout = primary();
    layout.summon_leaf(&vec![], InsertSide::Right, leaf(2, PaneContent::Roster));
    let panes = pane_slots(&layout, Some(PaneId(2)));
    assert_eq!(panes.len(), 1);
    assert_eq!(panes[0].id, PaneId(2));
    assert_eq!(panes[0].path, vec![SplitChoice::Second], "placed under the path tree operations aim at");
}

#[test]
fn closing_a_leaf_hands_its_place_to_the_sibling() {
    let mut layout = primary();
    layout.summon_leaf(&vec![], InsertSide::Below, leaf(2, PaneContent::Trail));
    assert!(!layout.close_leaf(&vec![]), "a window keeps its last pane");
    assert!(layout.close_leaf(&path_of(&layout, PaneId(1)).unwrap()));
    assert_eq!(layout.root, leaf(2, PaneContent::Trail));
}
