use merecat::action::Action;
use merecat::frisket::PaneId;
use merecat::gloss::{move_section, pane_section_actions, toggle_section};

fn labels(rows: &[(String, Action)]) -> Vec<String> {
    rows.iter().map(|(l, _)| l.clone()).collect()
}

#[test]
fn toggling_a_section_composes_it_and_toggling_again_removes_it() {
    let pane = PaneId(3);
    let mut sections: Vec<String> = Vec::new();
    assert!(labels(&pane_section_actions(pane, &sections)).contains(&"Gloss: add section — Removed".to_string()));
    assert!(toggle_section(&mut sections, "removed"), "added");
    assert_eq!(sections, vec!["removed".to_string()]);
    let rows = pane_section_actions(pane, &sections);
    assert!(labels(&rows).contains(&"Gloss: remove section — Removed".to_string()));
    assert_eq!(rows[1].1, Action::TogglePaneSection { pane, section: "removed".to_string() });
    assert!(!toggle_section(&mut sections, "removed"), "removed");
    assert!(sections.is_empty(), "toggled back off");
}

#[test]
fn moves_reorder_and_clamp_and_only_useful_moves_are_offered() {
    let pane = PaneId(3);
    let mut sections = vec!["removed".to_string()];
    assert!(!labels(&pane_section_actions(pane, &sections)).iter().any(|l| l.starts_with("Gloss: move section")));
    toggle_section(&mut sections, "recent");
    assert_eq!(sections, vec!["removed", "recent"]);
    assert!(move_section(&mut sections, "recent", -1));
    assert_eq!(sections, vec!["recent", "removed"]);
    assert!(!move_section(&mut sections, "recent", -1), "clamped at the top");
    assert_eq!(sections, vec!["recent", "removed"]);
    assert!(!move_section(&mut sections, "nodes", 1), "an uncomposed id moves nothing");
    assert!(move_section(&mut sections, "recent", 40), "clamped at the bottom");
    assert_eq!(sections, vec!["removed", "recent"]);
    assert_eq!(
        labels(&pane_section_actions(pane, &sections)),
        vec![
            "Gloss: remove section — Recent",
            "Gloss: remove section — Removed",
            "Gloss: move section down — Removed",
            "Gloss: move section up — Recent",
        ]
    );
    let rows = pane_section_actions(pane, &sections);
    assert_eq!(rows[3].1, Action::MovePaneSection { pane, section: "recent".to_string(), delta: -1 });
}

#[test]
fn composing_a_gloss_pane_toggles_sections_on_its_own_leaf() {
    let pane = PaneId(1);
    let mut sections: Vec<String> = Vec::new();
    assert!(sections.is_empty(), "base is a bare minimap");
    let offered = labels(&pane_section_actions(pane, &sections));
    assert!(offered.iter().any(|l| l == "Gloss: add section — Removed"), "pane-scoped add row is offered: {offered:?}");
    // Toggling composes it onto the leaf (a leaf edit, which the host persists).
    assert!(toggle_section(&mut sections, "removed"));
    assert_eq!(sections, vec!["removed".to_string()]);
    assert!(labels(&pane_section_actions(pane, &sections)).iter().any(|l| l == "Gloss: remove section — Removed"));
    // Toggling again removes it, back to the bare minimap.
    toggle_section(&mut sections, "removed");
    assert!(sections.is_empty(), "toggled back off");
}

#[test]
fn moving_a_composed_section_reorders_that_leaf_and_clamps() {
    let pane = PaneId(1);
    let mut sections: Vec<String> = Vec::new();
    toggle_section(&mut sections, "removed");
    assert!(
        !labels(&pane_section_actions(pane, &sections)).iter().any(|l| l.starts_with("Gloss: move section")),
        "a lone section offers no move"
    );
    toggle_section(&mut sections, "nodes");
    assert_eq!(sections, vec!["removed", "nodes"]);
    // Moving it up swaps the stack: a move (which the host persists).
    assert!(move_section(&mut sections, "nodes", -1), "a reorder is a leaf edit");
    assert_eq!(sections, vec!["nodes", "removed"]);
    // At the top, up is a no-op: clamped, not wrapped, and reported as no move.
    assert!(!move_section(&mut sections, "nodes", -1), "a no-op move saves nothing");
    assert_eq!(sections, vec!["nodes", "removed"], "clamped at the top");
    assert!(
        !labels(&pane_section_actions(pane, &sections)).iter().any(|l| l == "Gloss: move section up — Nodes"),
        "no up-row on the first section"
    );
    // An id this pane has not composed moves nothing.
    assert!(!move_section(&mut sections, "recent", 1));
    assert_eq!(sections, vec!["nodes", "removed"]);
}
