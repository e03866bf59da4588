use merecat::action::CaretMove;
use merecat::frisket::SessionId;
use merecat::omnibar::{closed_omnibar, lane, omnibar_step, OmnibarEvent, OmnibarLane, OmnibarOutcome};

fn text(o: &merecat::omnibar::OmnibarState) -> String {
    o.text.iter().collect()
}

#[test]
fn the_omnibar_edits_at_its_caret_and_resets_the_highlight() {
    let mut o = closed_omnibar();
    assert_eq!(omnibar_step(&mut o, OmnibarEvent::Open { command: true }), OmnibarOutcome::Recompute);
    assert_eq!((text(&o), o.cursor, o.open), (">".to_string(), 1, true));
    assert_eq!(lane(&o), OmnibarLane::Actions);
    for c in "iso".chars() {
        omnibar_step(&mut o, OmnibarEvent::Char(c));
    }
    assert_eq!(text(&o), ">iso");
    o.rows = 3;
    o.selected = 2;
    omnibar_step(&mut o, OmnibarEvent::Caret(CaretMove::Home));
    assert_eq!(o.cursor, 0);
    omnibar_step(&mut o, OmnibarEvent::Caret(CaretMove::Left));
    assert_eq!(o.cursor, 0, "the caret clamps at the start");
    assert_eq!(o.selected, 2, "a caret move keeps the highlight");
    assert_eq!(omnibar_step(&mut o, OmnibarEvent::Delete), OmnibarOutcome::Recompute);
    assert_eq!((text(&o), o.selected), ("iso".to_string(), 0));
    assert_eq!(lane(&o), OmnibarLane::FindOrGo);
    assert_eq!(omnibar_step(&mut o, OmnibarEvent::Backspace), OmnibarOutcome::Redraw, "nothing before the caret");
    omnibar_step(&mut o, OmnibarEvent::Caret(CaretMove::End));
    omnibar_step(&mut o, OmnibarEvent::Caret(CaretMove::Right));
    assert_eq!(o.cursor, 3, "the caret clamps at the end");
    omnibar_step(&mut o, OmnibarEvent::Insert("metric".to_string()));
    assert_eq!((text(&o), o.cursor), ("isometric".to_string(), 9));
    assert_eq!(omnibar_step(&mut o, OmnibarEvent::Backspace), OmnibarOutcome::Recompute);
    assert_eq!(text(&o), "isometri");
    assert_eq!(omnibar_step(&mut o, OmnibarEvent::Close), OmnibarOutcome::Redraw);
    assert!(!o.open && o.text.is_empty());
}

#[test]
fn the_highlight_wraps_and_a_row_click_commits_only_an_existing_row() {
    let mut o = closed_omnibar();
    omnibar_step(&mut o, OmnibarEvent::Open { command: false });
    assert_eq!(omnibar_step(&mut o, OmnibarEvent::CommitRow(0)), OmnibarOutcome::Redraw, "no rows yet");
    o.rows = 3;
    omnibar_step(&mut o, OmnibarEvent::Move(-1));
    assert_eq!(o.selected, 2, "up from the first row wraps to the last");
    omnibar_step(&mut o, OmnibarEvent::Move(1));
    assert_eq!(o.selected, 0);
    assert_eq!(omnibar_step(&mut o, OmnibarEvent::CommitRow(1)), OmnibarOutcome::Commit);
    assert_eq!(o.selected, 1);
    assert_eq!(omnibar_step(&mut o, OmnibarEvent::CommitRow(5)), OmnibarOutcome::Redraw);
    o.renaming = Some(SessionId(1));
    assert_eq!(lane(&o), OmnibarLane::Rename);
}
