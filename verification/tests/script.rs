use merecat::action::{Action, PaneKind};
use merecat::script::{
    action_for, pane_kind, require, ScriptCapabilities, CONTROL_PANES, DISPATCH_ACTION, NAVIGATE, READ_APP,
};

#[test]
fn denied_capabilities_are_named() {
    let read = ScriptCapabilities::read_only();
    assert!(require(read, READ_APP, "app.read").is_ok());
    assert_eq!(
        require(read, DISPATCH_ACTION, "action.dispatch"),
        Err("control script lacks capability: action.dispatch".to_string())
    );
    let all = ScriptCapabilities::control();
    for cap in [READ_APP, DISPATCH_ACTION, NAVIGATE, CONTROL_PANES] {
        assert!(all.contains(cap));
    }
    assert!(!read.contains(NAVIGATE) && !read.contains(CONTROL_PANES));
}

#[test]
fn commands_and_pane_names_normalize() {
    assert_eq!(action_for("  Save_Session\n"), Some(Action::SaveSession));
    assert_eq!(action_for("toggle_live_content"), Some(Action::ToggleNodeContent));
    assert_eq!(action_for("maximize_pane"), Some(Action::ToggleMaximizePane));
    assert_eq!(action_for("delete_everything"), None);
    assert_eq!(pane_kind(" GLOSS "), Some(PaneKind::Gloss));
    assert_eq!(pane_kind("apparatus"), Some(PaneKind::Apparatus));
    assert_eq!(pane_kind("overmap"), None, "not summonable by script");
}
