use merecat::frisket::{FrisketId, FrisketLayout, GraphId, PaneContent, PaneId, PaneNode, SplitAxis};
use merecat::observe::{
    active_pane_tag, pane_tags, split_ratio, suggestion_line, surfaces_of, uuid_string, workbench_cells, AppEvent,
    Suggestion,
};

#[test]
fn suggestion_rows_render_their_kind() {
    let node = Suggestion::Node { member: 1, label: "Alpha".to_string(), host: "alpha.test".to_string() };
    assert_eq!(suggestion_line(&node), "Alpha \u{00b7} alpha.test");
    let bare = Suggestion::Node { member: 1, label: "Alpha".to_string(), host: String::new() };
    assert_eq!(suggestion_line(&bare), "Alpha");
    assert_eq!(suggestion_line(&Suggestion::Go { url: "mere://x".to_string() }), "go mere://x");
    assert_eq!(suggestion_line(&Suggestion::Act { label: "Reload".to_string() }), "\u{203a} Reload");
    assert_eq!(suggestion_line(&Suggestion::Hint("type to search".to_string())), "type to search");
}

#[test]
fn uuids_render_like_the_uuid_crate() {
    let u = uuid::Uuid::new_v4();
    assert_eq!(uuid_string(u.as_u128()), u.to_string());
    assert_eq!(uuid_string(0), "00000000-0000-0000-0000-000000000000");
}

#[test]
fn events_describe_themselves_on_one_line() {
    assert_eq!(AppEvent::AddressOpened("mere://a".to_string()).describe(), "address-opened mere://a");
    assert_eq!(AppEvent::OmnibarClosed.describe(), "omnibar-closed");
    assert_eq!(
        AppEvent::ContentState { node: 1, state: "live".to_string() }.describe(),
        "content 00000000-0000-0000-0000-000000000001 live"
    );
    assert_eq!(
        AppEvent::InteractionMissed { what: "click", target: "row 3".to_string() }.describe(),
        "interaction-missed click row 3"
    );
}

#[test]
fn workbench_cells_label_members_and_mark_the_active_one() {
    let nodes = vec![
        (1, "Alpha".to_string(), "https://a.test".to_string()),
        (2, "  ".to_string(), "https://b.test".to_string()),
    ];
    let cells = workbench_cells(&vec![(vec![1, 2, 9], 1), (vec![2], 0), (Vec::new(), 0)], &nodes);
    assert_eq!(
        cells,
        vec![
            "Alpha|https://b.test*|00000000-0000-0000-0000-000000000009".to_string(),
            "https://b.test*".to_string(),
            String::new(),
        ]
    );
}

#[test]
fn a_caption_adds_the_host_only_when_the_label_lacks_it() {
    assert_eq!(merecat::observe::focused_caption("Example Domain", Some("example.com")), "Example Domain  \u{00b7}  example.com");
    assert_eq!(merecat::observe::focused_caption("example.com/a", Some("example.com")), "example.com/a");
    assert_eq!(merecat::observe::focused_caption("Notes", None), "Notes");
}

#[test]
fn a_frame_reports_its_surfaces_panes_and_active_pane() {
    let leaf = |id: u64, c: PaneContent| PaneNode::Leaf { pane_id: PaneId(id), content: c, graph_id: GraphId(0) };
    let layout = FrisketLayout {
        id: FrisketId::new("f"),
        label: "f".to_string(),
        root: PaneNode::Split {
            axis: SplitAxis::Horizontal,
            ratio: 0.25f64.to_bits(),
            first: Box::new(leaf(1, PaneContent::Orrery)),
            second: Box::new(leaf(2, PaneContent::Gloss)),
        },
    };
    assert_eq!(surfaces_of(&layout, None, true, false), vec!["canvas", "pane", "divider", "content"]);
    assert_eq!(surfaces_of(&layout, Some(PaneId(2)), false, true), vec!["canvas", "pane", "chrome"]);
    assert_eq!(pane_tags(&layout), vec!["orrery", "gloss"]);
    assert_eq!(active_pane_tag(&layout, Some(PaneId(2))), Some("gloss".to_string()));
    assert_eq!(active_pane_tag(&layout, Some(PaneId(5))), None);
    assert_eq!(active_pane_tag(&layout, None), None);
    assert_eq!(split_ratio(&layout), Some(0.25f64.to_bits()));
    assert_eq!(split_ratio(&FrisketLayout::default()), None);
    assert_eq!(surfaces_of(&FrisketLayout::default(), None, false, false), vec!["canvas"]);
}
