use merecat::action::Action;
use merecat::denizen::stage_install;
use merecat::frisket::SessionId;
use merecat::palette::{denizen_actions, renamed, session_label, session_switch_rows};

#[test]
fn a_pending_review_leads_and_residents_run_in_label_order() {
    let pending = stage_install("/p/tidy.lua", "tidy", Ok("x".to_string())).expect("stages");
    let residents = vec![(3, "zeta".to_string()), (1, "alpha".to_string()), (2, "mid".to_string())];
    let rows = denizen_actions(Some(&pending), &residents);
    let labels: Vec<&str> = rows.iter().map(|(l, _)| l.as_str()).collect();
    assert_eq!(
        labels,
        vec![
            "Install tidy: may run control scripts and write scenario/ in its own world — Confirm",
            "Cancel install tidy",
            "Run alpha",
            "Run mid",
            "Run zeta",
        ]
    );
    assert_eq!(rows[0].1, Action::ConfirmInstallDenizen);
    assert_eq!(rows[2].1, Action::RunDenizen { member: 1 });
    assert!(denizen_actions(None, &Vec::new()).is_empty());
}

#[test]
fn other_sessions_switch_most_recent_first() {
    let listed = vec![
        (SessionId(1), 10, Some("Old".to_string())),
        (SessionId(2), 30, None),
        (SessionId(3), 99, Some("Current".to_string())),
        (SessionId(4), 30, Some("Tied".to_string())),
        (SessionId(5), 50, Some("Newest".to_string())),
    ];
    let rows = session_switch_rows(SessionId(3), &listed);
    let labels: Vec<&str> = rows.iter().map(|(l, _)| l.as_str()).collect();
    assert_eq!(
        labels,
        vec![
            "Switch to session Newest",
            "Switch to session 00000000",
            "Switch to session Tied",
            "Switch to session Old",
        ]
    );
    assert_eq!(rows[1].1, Action::SwitchSession(SessionId(2)));
    assert_eq!(session_label(None, SessionId(0xabcdef12_0000_0000_0000_0000_0000_0000)), "abcdef12");
    assert_eq!(session_label(Some("Reading"), SessionId(1)), "Reading");
}

#[test]
fn a_rename_trims_and_a_blank_one_clears() {

    assert_eq!(renamed("  Reading list \n"), Some("Reading list".to_string()));
    assert_eq!(renamed("   "), None);
}
