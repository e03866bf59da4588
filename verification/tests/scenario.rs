use merecat::action::Action;
use merecat::observe::{AppEvent, FocusedNode, OmnibarView, Snapshot};
use merecat::scenario::{parse, Scenario, Step, Tick};

fn quiet_snapshot() -> Snapshot {
    Snapshot {
        focused: None,
        omnibar: OmnibarView { open: false, text: String::new(), cursor: 0, selected: 0, suggestions: Vec::new() },
        content: Vec::new(),
        node_count: 0,
        graph_visible: false,
        surfaces: Vec::new(),
        focus: "canvas".to_string(),
        panes: Vec::new(),
        active_pane: None,
        maximized: false,
        trail_rows: Vec::new(),
        roster_rows: Vec::new(),
        inspector_rows: Vec::new(),
        roster_tab: "nodes",
        split_ratio: None,
        workbench_cells: Vec::new(),
        workbench_fractions: Vec::new(),
        a11y: Vec::new(),
        can_back: false,
        can_forward: false,
        windows: 1,
    }
}

/// Tick the run against one snapshot until it is done, collecting what it
/// asked the host to do.
fn drive(sc: &mut Scenario, snap: &Snapshot) -> Vec<Tick> {
    let mut ticks = Vec::new();
    for _ in 0..1000 {
        let t = sc.tick(snap);
        if matches!(t, Tick::Done) {
            return ticks;
        }
        ticks.push(t);
    }
    panic!("the run never finished");
}

#[test]
fn a_failed_assert_marks_the_run_and_names_itself() {
    let mut sc = Scenario::from_text("assert focused nothing-is-focused-yet\n");
    drive(&mut sc, &quiet_snapshot());
    assert!(sc.failed());
    assert!(sc.log()[0].contains("assert focused"), "log: {:?}", sc.log());
}

#[test]
fn parse_errors_name_their_line() {
    let err = parse("open mere://x\nfrobnicate\n").unwrap_err();
    assert!(err.contains("line 2"), "{err}");
}

#[test]
fn steps_lower_to_the_actions_a_keypress_would() {
    let mut sc = Scenario::from_text(
        "# smoke\nopen mere://alpha\nomnibar find\ntype ab\nkey enter\nact Toggle isometric view\nlog done\n",
    );
    let ticks = drive(&mut sc, &quiet_snapshot());
    let acts: Vec<Vec<Action>> = ticks
        .into_iter()
        .filter_map(|t| match t {
            Tick::Act(a) => Some(a),
            _ => None,
        })
        .collect();
    assert_eq!(
        acts,
        vec![
            vec![Action::OpenAddress("mere://alpha".to_string())],
            vec![Action::OmnibarOpen { command: false }],
            vec![Action::OmnibarChar('a'), Action::OmnibarChar('b')],
            vec![Action::OmnibarCommit],
            vec![Action::ToggleIsometric],
        ]
    );
    assert!(!sc.failed());
    assert_eq!(sc.log(), &vec!["done".to_string()]);
}

#[test]
fn an_unknown_palette_label_fails_the_run() {
    let mut sc = Scenario::from_text("act Summon the kraken\n");
    drive(&mut sc, &quiet_snapshot());
    assert!(sc.failed());
    assert_eq!(sc.log()[0], "FAIL: act: no palette action labelled 'Summon the kraken'");
}

#[test]
fn palette_labels_match_without_regard_to_case() {
    let mut sc = Scenario::from_text("act TOGGLE ISOMETRIC VIEW\n");
    match sc.tick(&quiet_snapshot()) {
        Tick::Act(a) => assert_eq!(a, vec![Action::ToggleIsometric]),
        _ => panic!("a known label lowers its action"),
    }
}

#[test]
fn settle_waits_its_frames_before_the_next_step() {
    let mut sc = Scenario::from_text("settle 2\nopen mere://x\n");
    let snap = quiet_snapshot();
    assert!(matches!(sc.tick(&snap), Tick::Wait));
    assert!(matches!(sc.tick(&snap), Tick::Wait));
    assert!(matches!(sc.tick(&snap), Tick::Wait));
    assert!(matches!(sc.tick(&snap), Tick::Act(_)));
    assert!(matches!(sc.tick(&snap), Tick::Done));
    assert!(matches!(sc.tick(&snap), Tick::Done), "done stays done");
}

#[test]
fn a_zero_settle_holds_only_its_own_frame() {
    let mut sc = Scenario::from_text("settle 0\nlog next\n");
    let snap = quiet_snapshot();
    assert!(matches!(sc.tick(&snap), Tick::Wait));
    assert!(matches!(sc.tick(&snap), Tick::Wait));
    assert_eq!(sc.log(), &vec!["next".to_string()], "the step after the settle runs on the next frame");
    assert!(matches!(sc.tick(&snap), Tick::Done));
}

#[test]
fn assertions_read_the_snapshot() {
    let mut snap = quiet_snapshot();
    snap.focused = Some(FocusedNode { member: 7, url: "mere://Alpha".to_string(), caption: "Alpha page".to_string() });
    snap.omnibar.open = true;
    snap.omnibar.text = "abc".to_string();
    snap.omnibar.suggestions = vec!["one".to_string(), "two".to_string()];
    snap.content = vec![(7, "live".to_string())];
    snap.graph_visible = true;
    snap.surfaces = vec!["canvas".to_string()];
    snap.panes = vec!["gloss".to_string()];
    snap.trail_rows = vec!["mere://alpha visited".to_string()];
    let mut sc = Scenario::from_text(
        "assert omnibar open\nassert text abc\nassert focused ALPHA\nassert surface canvas\n\
         assert focus canvas\nassert pane gloss\nassert not-maximized\nassert row visited\n\
         assert suggestions >= 2\nassert suggestions == 2\nassert visible\nassert content-live\n",
    );
    drive(&mut sc, &snap);
    assert!(!sc.failed(), "log: {:?}", sc.log());
}

#[test]
fn a_failed_surface_assert_shows_the_plan() {
    let mut snap = quiet_snapshot();
    snap.surfaces = vec!["canvas".to_string(), "omnibar".to_string()];
    let mut sc = Scenario::from_text("assert surface gloss\n");
    drive(&mut sc, &snap);
    assert_eq!(sc.log()[0], "FAIL: assert surface 'gloss': the plan is [\"canvas\", \"omnibar\"]");
}

#[test]
fn a_failed_suggestion_count_names_both_counts() {
    let mut snap = quiet_snapshot();
    snap.omnibar.suggestions = vec!["x".to_string()];
    let mut sc = Scenario::from_text("assert suggestions >= 12\n");
    drive(&mut sc, &snap);
    assert_eq!(sc.log()[0], "FAIL: assert suggestions: have 1 ([\"x\"]), wanted 12");
}

#[test]
fn events_are_matched_and_the_sentinel_carries_the_tail() {
    let mut sc = Scenario::from_text("assert event address-opened mere://a\nassert event window-opened\n");
    sc.note_events(&vec![AppEvent::AddressOpened("mere://a".to_string())]);
    drive(&mut sc, &quiet_snapshot());
    assert!(sc.failed());
    assert_eq!(
        sc.sentinel_text(),
        "RESULT fail\nFAIL: assert event 'window-opened': not in the stream (last: [\"address-opened mere://a\"])\n\
         event: address-opened mere://a\n"
    );
}

#[test]
fn a_passing_run_reports_ok_and_its_log() {
    let mut sc = Scenario::from_text("log hello\ncapture shot\n");
    let ticks = drive(&mut sc, &quiet_snapshot());
    match &ticks[1] {
        Tick::Capture(name) => assert_eq!(name, "shot.png"),
        _ => panic!("capture asks the host for a frame"),
    }
    sc.note_capture("/out/shot.png", true);
    assert_eq!(sc.sentinel_text(), "RESULT ok\nhello\ncaptured /out/shot.png\n");
}

#[test]
fn a_parse_error_makes_a_stillborn_run() {
    let sc = Scenario::from_text("open mere://x\nfrobnicate now\n");
    assert!(sc.failed());
    assert!(sc.log()[0].starts_with("FAIL: parse error: line 2"), "{:?}", sc.log());
}

#[test]
fn pointer_steps_keep_their_coordinate_texts() {
    let steps = parse("click 10 20.5\nscroll 1 2 0 -3\nclick-row Alpha\ndivider 0.25\n").expect("parses");
    assert!(matches!(&steps[0], Step::Click(x, y) if x == "10" && y == "20.5"));
    let mut sc = Scenario::from_text("click 10 20.5\ndivider 0.25\n");
    let snap = quiet_snapshot();
    assert!(matches!(sc.tick(&snap), Tick::Click { x, y } if x == "10" && y == "20.5"));
    assert!(matches!(sc.tick(&snap), Tick::Divider { ratio } if ratio == "0.25"));
}

#[test]
fn every_instruction_line_is_one_step_and_the_first_bad_line_is_named() {
    let steps = parse("# a comment\n\nopen mere://a\n   \nsettle\nlog done\n").expect("parses");
    assert_eq!(steps.len(), 3, "blank and comment lines give no step");
    let err = parse("open mere://a\nbogus one\nkey nowhere\n").err().expect("fails");
    assert!(err.starts_with("line 2: "), "{err}");
}
