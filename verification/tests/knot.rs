use merecat::knot::{hub_step, HubAction, HubInput, HubRegistry};
use merecat::knot::{
    apply_hub_event, document_title, is_knot_address, knot_launch, route_key, status_label, status_line, KeyRoute, Authoring, AuthoringStatus, EditorChange, HubEvent, KnotClipStatus,
};

#[test]
fn knot_addresses_are_selected_without_claiming_other_files() {
    assert!(is_knot_address("file:///C:/notes/one.knot"));
    assert!(is_knot_address("KNOT:vault/document"));
    assert!(is_knot_address("file:///tmp/one.KNOT#heading"));
    assert!(!is_knot_address("file:///tmp/one.md"));
    assert!(!is_knot_address("https://example.test/"));
}

#[test]
fn a_query_after_the_path_does_not_hide_the_extension() {
    assert!(is_knot_address("file:///tmp/a.knot?rev=2"));
    assert!(!is_knot_address("file:///tmp/a.md?x=.knot"));
    assert!(!is_knot_address(""));
    assert!(is_knot_address(".Knot"));
}

#[test]
fn clip_statuses_read_as_their_labels() {
    assert_eq!(KnotClipStatus::Ready.label(), "ready");
    assert_eq!(KnotClipStatus::Sending.label(), "clipping");
    assert_eq!(KnotClipStatus::Saved.label(), "clip saved");
    assert_eq!(KnotClipStatus::Stale.label(), "clip target changed; retry");
    assert_eq!(KnotClipStatus::Rejected("revision mismatch".to_string()).label(), "revision mismatch");
}

#[test]
fn the_endpoint_launch_follows_its_configuration() {
    let ok = |p: &str| Ok::<String, String>(p.to_string());
    assert!(knot_launch(None, ok("/bin/k"), None, None, None, None).unwrap().is_none(), "no root, no endpoint");
    let l = knot_launch(Some("/notes"), ok("/bin/k"), None, None, None, Some("  ")).unwrap().unwrap();
    assert_eq!(l.program, "/bin/k");
    assert_eq!(l.args, vec!["directory-write", "/notes", "8388608"]);
    assert_eq!(l.clip_target, None, "a blank clip target names none");
    let l = knot_launch(Some("/v"), ok("/bin/k"), Some("+42"), Some("persona-vault"), Some("me"), Some("inbox")).unwrap().unwrap();
    assert_eq!(l.args, vec!["persona-vault", "/v", "me", "42"]);
    assert_eq!(l.clip_target, Some("inbox".to_string()));
}

#[test]
fn a_misconfigured_endpoint_is_refused_by_name() {
    let ok = || Ok::<String, String>("/bin/k".to_string());
    assert_eq!(
        knot_launch(Some("/v"), Err("no endpoint".to_string()), None, None, None, None).err(),
        Some("no endpoint".to_string())
    );
    assert_eq!(
        knot_launch(Some("/v"), ok(), Some("lots"), None, None, None).err(),
        Some("TURNSTONE_KNOT_MAX_BYTES must be an integer: invalid digit found in string".to_string())
    );
    assert_eq!(
        knot_launch(Some("/v"), ok(), None, Some("persona-vault"), None, None).err(),
        Some("TURNSTONE_KNOT_PERSONA is required for persona-vault mode".to_string())
    );
    assert_eq!(
        knot_launch(Some("/v"), ok(), None, Some("sideways"), None, None).err(),
        Some("unsupported TURNSTONE_KNOT_MODE sideways; expected directory-write or persona-vault".to_string())
    );
}

#[test]
fn hub_events_fold_into_the_open_document() {
    let mut a = Authoring { base_token: vec![1], status: AuthoringStatus::Current, detail: String::new(), revision_refreshes: 0 };
    let same = apply_hub_event(&mut a, true, HubEvent::Remote { base_token: vec![1], source: "x".into() });
    assert_eq!((same, a.revision_refreshes, a.status), (EditorChange::Keep, 1, AuthoringStatus::Current));
    let dirty = apply_hub_event(&mut a, true, HubEvent::Remote { base_token: vec![2], source: "theirs".into() });
    assert_eq!(dirty, EditorChange::Keep, "unsaved text is kept");
    assert_eq!((a.status, a.detail.as_str(), a.base_token.clone()), (AuthoringStatus::Stale, "the endpoint has a newer document", vec![1]));
    let clean = apply_hub_event(&mut a, false, HubEvent::Remote { base_token: vec![2], source: "theirs".into() });
    assert_eq!(clean, EditorChange::Scratch("theirs".into()));
    assert_eq!((a.status, a.base_token.clone()), (AuthoringStatus::Current, vec![2]));
    assert_eq!(apply_hub_event(&mut a, false, HubEvent::Saved { source: "mine".into(), base_token: vec![3] }), EditorChange::AcceptSaved("mine".into()));
    assert_eq!(apply_hub_event(&mut a, false, HubEvent::Stale), EditorChange::Keep);
    assert_eq!(a.detail, "the endpoint refused an old base token");
    apply_hub_event(&mut a, false, HubEvent::Rejected("too large".into()));
    assert_eq!((a.status, a.detail.as_str()), (AuthoringStatus::Rejected, "too large"));
    assert_eq!(apply_hub_event(&mut a, false, HubEvent::Revoked("gone".into())), EditorChange::Scratch(String::new()));
    assert!(a.base_token.is_empty());
    assert_eq!(apply_hub_event(&mut a, false, HubEvent::Reloaded { base_token: vec![9], source: "fresh".into() }), EditorChange::Scratch("fresh".into()));
    assert_eq!((a.status, a.base_token.clone(), a.revision_refreshes), (AuthoringStatus::Current, vec![9], 3));
}

#[test]
fn an_open_document_names_its_status() {
    assert_eq!(status_label(AuthoringStatus::Current, true), "unsaved");
    assert_eq!(status_label(AuthoringStatus::Current, false), "saved");
    assert_eq!(status_label(AuthoringStatus::Revoked, true), "revoked");
    assert_eq!(status_label(AuthoringStatus::Saving, false), "saving");
}

#[test]
fn ctrl_s_saves_and_other_keys_need_focus() {
    assert_eq!(route_key(Some("S"), true, false), KeyRoute::Save);
    assert_eq!(route_key(Some("s"), false, true), KeyRoute::Editor);
    assert_eq!(route_key(None, true, false), KeyRoute::Unhandled);
    assert_eq!(route_key(Some("x"), true, true), KeyRoute::Editor);
}

#[test]
fn the_toolbar_reads_the_document_standing() {
    assert_eq!(status_line(AuthoringStatus::Revoked, false, ""), "closed");
    assert_eq!(status_line(AuthoringStatus::Stale, true, ""), "stale; reload or resolve");
    assert_eq!(status_line(AuthoringStatus::Saving, true, ""), "saving");
    assert_eq!(status_line(AuthoringStatus::Reloading, false, ""), "reloading");
    assert_eq!(status_line(AuthoringStatus::Rejected, false, "save refused: stale token"), "save refused: stale token");
    assert_eq!(status_line(AuthoringStatus::Current, true, "x"), "unsaved");
    assert_eq!(status_line(AuthoringStatus::Current, false, "x"), "saved");
}

#[test]
fn a_document_is_titled_by_its_first_line() {
    assert_eq!(document_title("# Notes\nbody\n"), "# Notes");
    assert_eq!(document_title("one line"), "one line");
    assert_eq!(document_title("first\r\nsecond"), "first");
    assert_eq!(document_title("\nsecond"), "");
    assert_eq!(document_title("lone\r"), "lone\r");
    assert_eq!(document_title(""), "Knot document");
}

#[test]
fn the_hub_forgets_its_document_when_the_last_registration_leaves() {
    let mut reg = HubRegistry { subscribers: std::collections::BTreeMap::new(), mounted: false };
    assert_eq!(hub_step(&mut reg, HubInput::Idle), HubAction::Continue, "nothing mounted, nothing to poll");
    let open = |r: u64| HubInput::Opened { registration: r, address: "knot:vault/doc".to_string() };
    assert_eq!(hub_step(&mut reg, open(1)), HubAction::Continue);
    assert_eq!(hub_step(&mut reg, open(2)), HubAction::Continue);
    assert!(reg.mounted);
    assert_eq!(hub_step(&mut reg, HubInput::Idle), HubAction::Poll);
    assert_eq!(hub_step(&mut reg, HubInput::Unregister { registration: 1 }), HubAction::Continue);
    assert_eq!(reg.subscribers.keys().copied().collect::<Vec<_>>(), vec![2], "only that registration left");
    assert!(reg.mounted);
    assert_eq!(
        hub_step(&mut reg, HubInput::Unregister { registration: 2 }),
        HubAction::Release { forget_mounted: true }
    );
    assert!(!reg.mounted && reg.subscribers.is_empty());
    assert_eq!(hub_step(&mut reg, HubInput::Disconnected), HubAction::Close);
}

#[test]
fn a_query_or_fragment_and_case_keep_the_knot_verdict() {
    assert!(is_knot_address("file:///tmp/one.knot?x=1"));
    assert!(is_knot_address("FILE:///TMP/ONE.KNOT#h"));
    assert!(!is_knot_address("file:///tmp/one.md?.knot"));
    assert!(is_knot_address("Knot:vault"));
}
