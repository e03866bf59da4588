use merecat::action::Effect;
use merecat::frisket::{FrisketLayout, GraphId, PaneContent, PaneId, PaneNode, SplitAxis};
use merecat::pane::lens_layout;
use merecat::session::adopt_session;
use merecat::denizen::nested_log_path;
use merecat::frisket::SessionId;
use merecat::identity::master_key_path;
use merecat::place::{place_secrets_dir, place_store_dir};
use merecat::action::{RemovedRecord, Update};
use merecat::recycle::{bin_answer, bin_dir, bin_failed, bin_listing, bin_record, to_deleted, to_record, BinWrite, DeletedNode};
use merecat::session::{pick_session, session_dir, sessions_root};

#[test]
fn everything_lives_under_the_data_root() {
    assert_eq!(sessions_root("/data/merecat"), "/data/merecat/sessions");
    assert_eq!(
        session_dir("/data/merecat", SessionId(0x0123_4567_89ab_cdef_0011_2233_4455_6677)),
        "/data/merecat/sessions/01234567-89ab-cdef-0011-223344556677"
    );
    assert_eq!(master_key_path("/data/merecat"), "/data/merecat/identity/master.key");
    assert_eq!(bin_dir("/s/1"), "/s/1/bin");
    assert_eq!(place_store_dir("/s/1"), "/s/1/place");
    assert_eq!(place_secrets_dir("/s/1/"), "/s/1/place-secrets");
    assert_eq!(nested_log_path("/s/1", "abc"), "/s/1/denizens/abc.json");
}

#[test]
fn the_recorded_session_wins_when_it_still_exists() {
    let a = SessionId(1);
    let b = SessionId(2);
    let listed = vec![(a, 50), (b, 10)];
    let marker = " 00000000-0000-0000-0000-000000000002\n";
    assert_eq!(pick_session(Some(marker), &listed), Some(b));
}

#[test]
fn a_stale_or_missing_marker_falls_back_to_the_latest() {
    let listed = vec![(SessionId(1), 50), (SessionId(2), 70), (SessionId(3), 70), (SessionId(4), 5)];
    assert_eq!(pick_session(None, &listed), Some(SessionId(3)), "the last of equals");
    assert_eq!(
        pick_session(Some("00000000-0000-0000-0000-000000000009"), &listed),
        Some(SessionId(3)),
        "a marker naming a gone session is ignored"
    );
    assert_eq!(pick_session(Some("garbage"), &listed), Some(SessionId(3)));
    assert_eq!(pick_session(Some("garbage"), &Vec::new()), None, "a fresh install");
}

#[test]
fn the_bin_lists_parseable_records_newest_first() {
    let node = |id: &str, url: &str, at: u64| DeletedNode {
        node_id: id.to_string(),
        url: url.to_string(),
        title: None,
        tags: Vec::new(),
        graph_id: None,
        deleted_at_ms: at,
    };
    let listing = bin_listing(vec![
        node("00000000-0000-0000-0000-000000000001", "a", 10),
        node("corrupt", "b", 99),
        node("00000000-0000-0000-0000-000000000003", "c", 30),
        node("00000000-0000-0000-0000-000000000004", "d", 10),
    ]);
    let seen: Vec<(u128, &str)> = listing.iter().map(|r| (r.node_id, r.url.as_str())).collect();
    assert_eq!(seen, vec![(3, "c"), (1, "a"), (4, "d")], "newest first, ties in store order, corrupt skipped");
    let back = to_deleted(&listing[0], Some("g".to_string()));
    assert_eq!(back.node_id, "00000000-0000-0000-0000-000000000003");
    assert_eq!(back.graph_id, Some("g".to_string()));
}

#[test]
fn a_record_survives_the_bin_round_trip() {
    let original = RemovedRecord {
        node_id: 0xfedc_ba98_7654_3210_0f1e_2d3c_4b5a_6978,
        url: "https://example.com/gone".to_string(),
        title: Some("Gone".to_string()),
        tags: vec!["#starred".to_string(), "work".to_string()],
        deleted_at_ms: 1_700_000_000_123,
    };
    let stored = to_deleted(&original, Some("graph-1".to_string()));
    assert_eq!(stored.node_id, "fedcba98-7654-3210-0f1e-2d3c4b5a6978");
    assert_eq!(to_record(stored), Some(original));
}

#[test]
fn the_place_store_and_its_secrets_never_nest() {
    for root in ["/s/1", "/s/1/", "", "rel"] {
        let store = std::path::PathBuf::from(place_store_dir(root));
        let secrets = std::path::PathBuf::from(place_secrets_dir(root));
        assert!(!secrets.starts_with(&store), "{root:?}");
        assert!(!store.starts_with(&secrets), "{root:?}");
    }
}

#[test]
fn the_bin_actor_refuses_records_while_its_store_is_closed() {
    let record = RemovedRecord {
        node_id: 5,
        url: "https://a.test".to_string(),
        title: None,
        tags: Vec::new(),
        deleted_at_ms: 2,
    };
    match bin_record(false, &record) {
        BinWrite::Refuse(u) => {
            assert_eq!(u, Update::BinFailed { error: "record: the bin store is not open".to_string() })
        },
        BinWrite::Keep(_) => panic!("a closed store keeps nothing"),
    }
    match bin_record(true, &record) {
        BinWrite::Keep(d) => {
            assert_eq!(d.node_id, "00000000-0000-0000-0000-000000000005");
            assert_eq!(d.graph_id, None);
            assert_eq!(d.deleted_at_ms, 2);
        },
        BinWrite::Refuse(u) => panic!("an open store keeps the record: {u:?}"),
    }
    assert_eq!(
        bin_failed("reopen /s/1/bin", "locked"),
        Update::BinFailed { error: "reopen /s/1/bin: locked".to_string() }
    );
}

#[test]
fn the_bin_answers_a_listing_newest_first_or_with_its_failure() {
    let node = |id: &str, at: u64| DeletedNode {
        node_id: id.to_string(),
        url: "u".to_string(),
        title: None,
        tags: Vec::new(),
        graph_id: None,
        deleted_at_ms: at,
    };
    let answer = bin_answer(Ok(vec![
        node("00000000-0000-0000-0000-000000000001", 1),
        node("00000000-0000-0000-0000-000000000002", 2),
    ]));
    match answer {
        Update::BinListed { records } => {
            assert_eq!(records.iter().map(|r| r.node_id).collect::<Vec<_>>(), vec![2, 1]);
        },
        other => panic!("a listing answers with the records: {other:?}"),
    }
    assert_eq!(bin_answer(Err("io".to_string())), Update::BinFailed { error: "list: io".to_string() });
}

#[test]
fn an_adopted_session_reopens_its_lenses_and_respawns_its_content() {
    let primary = FrisketLayout {
        root: PaneNode::Split {
            axis: SplitAxis::Horizontal,
            ratio: 0.5f64.to_bits(),
            first: Box::new(PaneNode::Leaf { pane_id: PaneId(1), content: PaneContent::Orrery, graph_id: GraphId(0) }),
            second: Box::new(PaneNode::Leaf { pane_id: PaneId(4), content: PaneContent::Roster, graph_id: GraphId(0) }),
        },
        ..FrisketLayout::default()
    };
    let lenses = vec![Some(lens_layout(0, PaneId(7))), None, Some(lens_layout(2, PaneId(2)))];
    let on = vec![(10u128, "https://a.test".to_string()), (11u128, "https://b.test".to_string())];
    let a = adopt_session(&primary, &lenses, &on);
    assert_eq!(
        a.effects,
        vec![
            Effect::OpenWindow { ordinal: 0 },
            Effect::OpenWindow { ordinal: 2 },
            Effect::SpawnContent { node: 10, url: "https://a.test".to_string() },
            Effect::SpawnContent { node: 11, url: "https://b.test".to_string() },
            Effect::Redraw,
        ]
    );
    assert_eq!(a.next_pane_id, 8, "ids continue past the largest in any window");
    assert_eq!(a.content.get(10), Some(&merecat::content::NodeContent::Requested));
    assert_eq!(a.active_pane, None);
    assert_eq!(a.maximized, None);
    assert_eq!(a.roster_tab, 0);
    assert!(a.removed.is_empty());
    assert_eq!(a.window_count, 1);
}
