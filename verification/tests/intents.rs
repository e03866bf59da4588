use merecat::action::Action;
use merecat::frisket::SessionId;
use merecat::intents::{GlossIntent, OvermapIntent, RosterAction};

#[test]
fn pane_clicks_lower_through_the_spine() {
    assert_eq!(RosterAction::Navigate("mere://a".to_string()).lower(), Action::OpenAddress("mere://a".to_string()));
    assert_eq!(GlossIntent::Navigate("mere://b".to_string()).lower(), Some(Action::OpenAddress("mere://b".to_string())));
    assert_eq!(GlossIntent::Expand.lower(), None);
    assert_eq!(OvermapIntent::Switch(SessionId(4)).lower(), Some(Action::SwitchSession(SessionId(4))));
    assert_eq!(OvermapIntent::Expand.lower(), None);
}
