use merecat::action::{Effect, PaneKind, Update};
use merecat::content::{ContentStates, NodeContent};
use merecat::frisket::{PaneContent, PaneId, SessionId};
use merecat::observe::{content_rows, AppEvent};
use merecat::spine::{
    apply_content_update, close_session_target, commits_row, empty_bin, flip_content, omnibar_moved, pane_content, reload,
    switch_session, toggle_maximized,
};

fn state_of(e: &AppEvent) -> Option<String> {
    match e {
        AppEvent::ContentState { state, .. } => Some(state.clone()),
        _ => None,
    }
}

#[test]
fn a_flip_spawns_then_closes_the_focused_content() {
    let mut states = ContentStates::new();
    let (fx, ev) = flip_content(&mut states, Some((7, "https://a.test".to_string())));
    assert_eq!(fx, vec![Effect::SpawnContent { node: 7, url: "https://a.test".to_string() }, Effect::Redraw]);
    assert_eq!(ev.iter().map(state_of).collect::<Vec<_>>(), vec![Some("requested".to_string())]);
    let (fx, ev) = flip_content(&mut states, Some((7, "https://a.test".to_string())));
    assert_eq!(fx, vec![Effect::CloseContent { node: 7 }, Effect::Redraw]);
    assert_eq!(state_of(&ev[0]), Some("closed".to_string()));
    assert_eq!(states.get(7), None);
    let (fx, ev) = flip_content(&mut states, None);
    assert!(fx.is_empty() && ev.is_empty(), "no focus, no flip");
}

#[test]
fn a_reload_refetches_and_respawns_only_live_content() {
    let mut states = ContentStates::new();
    let (fx, ev) = reload(&mut states, Some((3, "https://r.test".to_string())), true);
    assert_eq!(fx, vec![Effect::FetchPage { node: 3, url: "https://r.test".to_string() }, Effect::Redraw]);
    assert_eq!(ev, vec![AppEvent::Reloaded("https://r.test".to_string())]);
    assert_eq!(states.get(3), None, "a reload is not a spawn");

    states.note_live(3);
    let (fx, ev) = reload(&mut states, Some((3, "mere://note".to_string())), false);
    assert_eq!(
        fx,
        vec![
            Effect::CloseContent { node: 3 },
            Effect::SpawnContent { node: 3, url: "mere://note".to_string() },
            Effect::Redraw
        ]
    );
    assert_eq!(ev.len(), 2);
    assert_eq!(states.get(3), Some(&NodeContent::Requested));
    assert_eq!(reload(&mut states, None, true).0, vec![Effect::Redraw]);
}

#[test]
fn content_answers_fold_into_the_lifecycle() {
    let mut states = ContentStates::new();
    let (fx, ev) = apply_content_update(&mut states, &Update::ContentSpawned { node: 1 });
    assert_eq!(fx, vec![Effect::Redraw]);
    assert_eq!(state_of(&ev[0]), Some("live".to_string()));
    let (_, ev) = apply_content_update(&mut states, &Update::ContentFailed { node: 2, error: "no engine".to_string() });
    assert_eq!(state_of(&ev[0]), Some("failed: no engine".to_string()));
    assert_eq!(states.get(2), Some(&NodeContent::Failed("no engine".to_string())));
    let (fx, ev) = apply_content_update(&mut states, &Update::BinFailed { error: "x".to_string() });
    assert!(fx.is_empty() && ev.is_empty());
    assert_eq!(
        content_rows(&vec![5, 2, 1], &states),
        vec![(2, "failed: no engine".to_string()), (1, "live".to_string())]
    );
}

#[test]
fn sessions_switch_only_to_other_listed_sessions() {
    let listed = vec![(SessionId(1), 10), (SessionId(2), 30), (SessionId(3), 30)];
    assert_eq!(switch_session(SessionId(1), &listed, SessionId(2)), vec![Effect::SwitchSession { id: SessionId(2) }]);
    assert_eq!(switch_session(SessionId(1), &listed, SessionId(1)), vec![Effect::Redraw]);
    assert_eq!(switch_session(SessionId(1), &listed, SessionId(9)), vec![Effect::Redraw]);
    assert_eq!(close_session_target(SessionId(3), &listed), Some(SessionId(2)));
    assert_eq!(close_session_target(SessionId(1), &listed), Some(SessionId(3)), "the last of equals");
    assert_eq!(close_session_target(SessionId(1), &vec![(SessionId(1), 5)]), None, "the last one closes");
}

#[test]
fn the_highlight_wraps_around_the_rows() {
    assert_eq!(omnibar_moved(0, -1, 4), 3);
    assert_eq!(omnibar_moved(3, 1, 4), 0);
    assert_eq!(omnibar_moved(1, 1, 4), 2);
    assert_eq!(omnibar_moved(2, -7, 4), 3);
    assert_eq!(omnibar_moved(2, 1, 0), 2, "no rows, no move");
}

#[test]
fn maximize_toggles_only_in_the_primary_window() {
    let a = PaneId(4);
    assert_eq!(toggle_maximized(None, Some(a), true), Some(a));
    assert_eq!(toggle_maximized(Some(a), Some(a), true), None);
    assert_eq!(toggle_maximized(Some(PaneId(1)), Some(a), true), Some(a));
    assert_eq!(toggle_maximized(None, Some(a), false), None, "a lens pane no-ops");
    assert_eq!(toggle_maximized(Some(a), None, true), Some(a));
    assert!(commits_row(true, 1, 2) && !commits_row(true, 2, 2) && !commits_row(false, 0, 2));
    assert_eq!(pane_content(PaneKind::Trail), PaneContent::Trail);
}

#[test]
fn empty_recycle_bin_forgets_on_command() {
    // An empty bin is a no-op: no effect (honest, no placebo).
    let mut removed: Vec<u128> = Vec::new();
    let fx = empty_bin(removed.len());
    assert!(!fx.iter().any(|e| matches!(e, Effect::EmptyRecycleBin)), "nothing to empty lowers no effect: {fx:?}");
    assert_eq!(fx, vec![Effect::Redraw]);

    // Stage two records (as the bin port's answer would), then empty.
    removed = vec![1, 2];
    let fx = empty_bin(removed.len());
    assert!(fx.iter().any(|e| matches!(e, Effect::EmptyRecycleBin)), "a non-empty bin lowers the clear effect: {fx:?}");
    assert_eq!(fx, vec![Effect::EmptyRecycleBin, Effect::Redraw]);
    // The store's empty answer (folded as the drain would) clears the mirror.
    removed = Vec::new();
    assert!(removed.is_empty(), "the mirror is empty after the bin clears");
}

#[test]
fn content_flip_lowers_and_fails_honestly() {
    let mut states = ContentStates::new();
    let (fx, _) = flip_content(&mut states, None);
    assert!(fx.is_empty(), "no focus, no-op");
    let target = Some((11u128, "https://example.com/page".to_string()));
    let (effects, _) = flip_content(&mut states, target.clone());
    let Some(Effect::SpawnContent { node, url }) =
        effects.iter().find(|e| matches!(e, Effect::SpawnContent { .. })).cloned()
    else {
        panic!("flip on a focused node spawns: {effects:?}");
    };
    assert_eq!(url, "https://example.com/page");
    assert_eq!(states.get(node), Some(&NodeContent::Requested));
    assert!(
        !flip_content(&mut states, target.clone()).0.iter().any(|e| matches!(e, Effect::SpawnContent { .. })),
        "flipping an in-flight node closes, never double-spawns"
    );
    states.note_requested(node);
    apply_content_update(&mut states, &Update::ContentFailed { node, error: "port not wired".into() });
    assert!(matches!(states.get(node), Some(NodeContent::Failed(_))), "failure is a surfaced state");
    assert!(
        flip_content(&mut states, target).0.iter().any(|e| matches!(e, Effect::SpawnContent { .. })),
        "a failed node retries on the next flip"
    );
}

#[test]
fn back_forward_and_reload_flow_through_the_spine() {
    // The reload part: a fetch for the focused node and, with live content,
    // a close + respawn pair.
    let mut states = ContentStates::new();
    let node = 21u128;
    apply_content_update(&mut states, &Update::ContentSpawned { node });
    let (effects, events) = reload(&mut states, Some((node, "https://example.com/c".to_string())), true);
    assert!(effects.iter().any(|e| matches!(e, Effect::FetchPage { .. })));
    assert!(effects.iter().any(|e| matches!(e, Effect::CloseContent { .. })));
    assert!(effects.iter().any(|e| matches!(e, Effect::SpawnContent { .. })));
    let described: Vec<String> = events.iter().map(|e| e.describe()).collect();
    assert!(described.iter().any(|e| e.starts_with("reloaded ")), "{described:?}");
}
