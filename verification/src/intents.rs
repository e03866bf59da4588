//! What a pane's own interactions ask of the host. A navigation or a
//! session switch lowers to the ordinary action, so a click reaches the
//! graph through the same spine as a keypress; an expand is a view change
//! the host performs itself.

use vstd::prelude::*;

use crate::action::Action;
use crate::frisket::SessionId;

verus! {

/// What a Roster grid interaction produces.
#[derive(Clone, Debug, PartialEq)]
pub enum RosterAction {
    Navigate(String),
}

/// What a Gloss minimap interaction asks of the host.
#[derive(Clone, Debug, PartialEq)]
pub enum GlossIntent {
    /// Land on this node.
    Navigate(String),
    /// Jump to the full canvas (the swatch's Expand button).
    Expand,
}

/// What an Overmap interaction asks of the host.
#[derive(Clone, Debug, PartialEq)]
pub enum OvermapIntent {
    /// Adopt this session.
    Switch(SessionId),
    /// Jump back to the canvas (leave the overmap).
    Expand,
}

impl RosterAction {
    /// The action a grid click lowers to.
    pub fn lower(self) -> (a: Action)
        ensures
            self matches RosterAction::Navigate(url) && a == Action::OpenAddress(url),
    {
        match self {
            RosterAction::Navigate(url) => Action::OpenAddress(url),
        }
    }
}

impl GlossIntent {
    /// The action a minimap click lowers to; none for an expand.
    pub fn lower(self) -> (a: Option<Action>)
        ensures
            match self {
                GlossIntent::Navigate(url) => a == Some(Action::OpenAddress(url)),
                GlossIntent::Expand => a is None,
            },
    {
        match self {
            GlossIntent::Navigate(url) => Some(Action::OpenAddress(url)),
            GlossIntent::Expand => None,
        }
    }
}

impl OvermapIntent {
    /// The action an overmap click lowers to; none for an expand.
    pub fn lower(self) -> (a: Option<Action>)
        ensures
            match self {
                OvermapIntent::Switch(id) => a == Some(Action::SwitchSession(id)),
                OvermapIntent::Expand => a is None,
            },
    {
        match self {
            OvermapIntent::Switch(id) => Some(Action::SwitchSession(id)),
            OvermapIntent::Expand => None,
        }
    }
}

} // verus!
