use merecat::content::{node_state, ContentStates, NodeContent, NodeState};

#[test]
fn flip_toggles_and_failure_retries() {
    let node = uuid::Uuid::new_v4().as_u128();
    let mut states = ContentStates::default();
    assert!(states.flip_spawns(node), "empty flips ON");
    states.note_requested(node);
    assert!(!states.flip_spawns(node), "in-flight flips OFF, not double-spawns");
    states.note_live(node);
    assert!(!states.flip_spawns(node), "live flips OFF");
    states.note_closed(node);
    assert!(states.flip_spawns(node), "closed flips ON again");
    states.note_requested(node);
    states.note_failed(node, "no port".into());
    assert!(states.flip_spawns(node), "failed retries on the next flip");
}

#[test]
fn live_nodes_lists_only_live() {
    let (a, b, c) = (
        uuid::Uuid::new_v4().as_u128(),
        uuid::Uuid::new_v4().as_u128(),
        uuid::Uuid::new_v4().as_u128(),
    );
    let mut states = ContentStates::default();
    states.note_live(a);
    states.note_requested(b);
    states.note_failed(c, "x".into());
    let live: Vec<_> = states.live_nodes();
    assert_eq!(live, vec![a]);
}

#[test]
fn a_failure_keeps_its_reason_and_other_nodes_are_untouched() {
    let mut states = ContentStates::new();
    states.note_live(1);
    states.note_failed(2, "engine crashed".into());
    assert_eq!(states.get(2), Some(&NodeContent::Failed("engine crashed".to_string())));
    assert_eq!(states.get(1), Some(&NodeContent::Live));
    assert!(!states.flip_spawns(1));
    states.note_closed(2);
    assert_eq!(states.get(2), None);
    assert_eq!(states.live_nodes(), vec![1]);
}

#[test]
fn nodes_paint_by_their_content_lifecycle() {
    let mut states = ContentStates::new();
    states.note_requested(1);
    states.note_live(2);
    states.note_failed(3, "x".into());
    assert_eq!(node_state(&states, 1), NodeState::Open);
    assert_eq!(node_state(&states, 2), NodeState::Open);
    assert_eq!(node_state(&states, 3), NodeState::Closed);
    assert_eq!(node_state(&states, 4), NodeState::Idle);
}
