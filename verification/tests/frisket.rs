use merecat::action::{palette_actions, Action, PaneKind};
use merecat::frisket::{
    pane_label,
    FrisketId, FrisketLayout, GraphId, InsertSide, PaneContent, PaneId, PaneNode, SplitAxis, SplitChoice,
};
use merecat::action::SpaceRef;
use merecat::pane::{divider_path, lens_layout, pane_slots, path_of, space_of};

#[test]
fn insert_sides_choose_axis_and_position() {
    assert_eq!(InsertSide::Left.split_axis(), SplitAxis::Horizontal);
    assert_eq!(InsertSide::Below.split_axis(), SplitAxis::Vertical);
    assert!(InsertSide::Left.new_is_first() && InsertSide::Above.new_is_first());
    assert!(!InsertSide::Right.new_is_first() && !InsertSide::Below.new_is_first());
}

#[test]
fn frisket_ids_keep_their_text() {
    assert_eq!(FrisketId::new("content").as_str(), "content");
    let layout = FrisketLayout::default();
    assert_eq!(layout.label, "content");
    assert_eq!(path_of(&layout, PaneId(0)), Some(Vec::new()));
}

#[test]
fn pane_content_tags_and_graph_binding() {
    assert_eq!(PaneContent::Gloss.tag(), "gloss");
    assert_eq!(PaneContent::Custom("notes".to_string()).tag(), "notes");
    assert!(PaneContent::Tile(3).follows_active_graph());
    assert!(!PaneContent::Overmap.follows_active_graph());
    assert_eq!(PaneKind::Inspector.label(), "Inspector");
}

#[test]
fn a_leaf_is_found_by_its_path() {
    let leaf = |id: u64| PaneNode::Leaf { pane_id: PaneId(id), content: PaneContent::Roster, graph_id: GraphId(0) };
    let layout = FrisketLayout {
        id: FrisketId::new("f"),
        label: "f".to_string(),
        root: PaneNode::Split {
            axis: SplitAxis::Horizontal,
            ratio: 0.5f64.to_bits(),
            first: Box::new(leaf(1)),
            second: Box::new(PaneNode::Split {
                axis: SplitAxis::Vertical,
                ratio: 0.5f64.to_bits(),
                first: Box::new(leaf(2)),
                second: Box::new(leaf(3)),
            }),
        },
    };
    assert_eq!(path_of(&layout, PaneId(3)), Some(vec![SplitChoice::Second, SplitChoice::Second]));
    assert_eq!(path_of(&layout, PaneId(1)), Some(vec![SplitChoice::First]));
    assert_eq!(path_of(&layout, PaneId(9)), None);
}

#[test]
fn the_palette_lists_its_actions_in_display_order() {
    let rows = palette_actions();
    assert_eq!(rows.len(), 34);
    assert_eq!(rows[0], ("Back", Action::NavBack));
    assert!(rows.iter().any(|(l, a)| *l == "Toggle isometric view" && *a == Action::ToggleIsometric));
}

#[test]
fn a_frame_places_leaves_in_walk_order_and_a_maximized_one_alone() {
    let leaf = |id: u64, c: PaneContent| PaneNode::Leaf { pane_id: PaneId(id), content: c, graph_id: GraphId(0) };
    let layout = FrisketLayout {
        id: FrisketId::new("t"),
        label: "t".to_string(),
        root: PaneNode::Split {
            axis: SplitAxis::Horizontal,
            ratio: 0.5f64.to_bits(),
            first: Box::new(leaf(1, PaneContent::Orrery)),
            second: Box::new(leaf(2, PaneContent::Roster)),
        },
    };
    let slots = pane_slots(&layout, None);
    assert_eq!(slots.len(), 2);
    assert_eq!((slots[0].id, slots[0].path.clone()), (PaneId(1), vec![SplitChoice::First]));
    assert_eq!((slots[1].id, slots[1].content.clone()), (PaneId(2), PaneContent::Roster));
    let alone = pane_slots(&layout, Some(PaneId(2)));
    assert_eq!(alone.len(), 1);
    assert_eq!(alone[0].id, PaneId(2));
    assert_eq!(alone[0].path, path_of(&layout, PaneId(2)).unwrap());
    assert_eq!(pane_slots(&layout, Some(PaneId(7))).len(), 2, "an unknown maximized id changes nothing");
    let single = FrisketLayout::default();
    let slots = pane_slots(&single, None);
    assert_eq!((slots.len(), slots[0].path.is_empty()), (1, true));
}

#[test]
fn panes_are_found_in_their_own_window() {
    let leaf = |id: u64| PaneNode::Leaf { pane_id: PaneId(id), content: PaneContent::Trail, graph_id: GraphId(0) };
    let primary = FrisketLayout { id: FrisketId::new("p"), label: "p".to_string(), root: leaf(1) };
    let lens0 = lens_layout(0, PaneId(7));
    assert_eq!(lens0.id.as_str(), "lens-0");
    assert_eq!(lens0.label, "lens 0");
    let lenses = vec![None, Some(lens0), Some(lens_layout(12, PaneId(9)))];
    assert_eq!(space_of(&primary, &lenses, PaneId(1)), Some(SpaceRef::Primary));
    assert_eq!(space_of(&primary, &lenses, PaneId(7)), Some(SpaceRef::Lens(1)));
    assert_eq!(space_of(&primary, &lenses, PaneId(9)), Some(SpaceRef::Lens(2)));
    assert_eq!(space_of(&primary, &lenses, PaneId(3)), None);
    assert_eq!(lenses[2].as_ref().map(|l| l.label.clone()), Some("lens 12".to_string()));
}

#[test]
fn a_divider_moves_the_split_above_the_pane() {
    let leaf = |id: u64| PaneNode::Leaf { pane_id: PaneId(id), content: PaneContent::Roster, graph_id: GraphId(0) };
    let layout = FrisketLayout {
        id: FrisketId::new("d"),
        label: "d".to_string(),
        root: PaneNode::Split {
            axis: SplitAxis::Vertical,
            ratio: 0.5f64.to_bits(),
            first: Box::new(leaf(1)),
            second: Box::new(PaneNode::Split {
                axis: SplitAxis::Horizontal,
                ratio: 0.5f64.to_bits(),
                first: Box::new(leaf(2)),
                second: Box::new(leaf(3)),
            }),
        },
    };
    assert_eq!(divider_path(&layout, PaneId(3)), Some(vec![SplitChoice::Second]));
    assert_eq!(divider_path(&layout, PaneId(1)), Some(Vec::new()));
    assert_eq!(divider_path(&layout, PaneId(8)), None);
}

#[test]
fn pane_titles_capitalize_their_tags() {

    assert_eq!(pane_label(&PaneContent::Gloss), "Gloss");
    assert_eq!(pane_label(&PaneContent::Custom("ßeta".to_string())), "SSeta");
    assert_eq!(pane_label(&PaneContent::Custom(String::new())), "");
}
