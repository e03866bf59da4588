//! Capability-scoped control scripts: what a script may exercise, and the
//! typed actions its commands and pane names lower to. A script observes the
//! host and mutates it only by emitting ordinary actions.

use vstd::prelude::*;

use crate::action::{Action, PaneKind};
use crate::text::{ascii_lowercase, ascii_lowercase_chars, chars_of, seq_eq_lit, trim, trim_chars};

verus! {

/// Reading the app's observation snapshot.
pub const READ_APP: u8 = 1;
/// Dispatching a named control action.
pub const DISPATCH_ACTION: u8 = 2;
/// Opening an address.
pub const NAVIGATE: u8 = 4;
/// Summoning and arranging panes.
pub const CONTROL_PANES: u8 = 8;

/// The capabilities a control script may exercise, one bit each.
#[derive(Clone, Copy, Debug, PartialEq, Eq, Structural)]
pub struct ScriptCapabilities(pub u8);

impl ScriptCapabilities {
    /// Observation only.
    pub fn read_only() -> (c: Self)
        ensures
            c.0 == READ_APP,
    {
        ScriptCapabilities(READ_APP)
    }

    /// Every capability: read, dispatch, navigate, panes.
    pub fn control() -> (c: Self)
        ensures
            c.0 == READ_APP | DISPATCH_ACTION | NAVIGATE | CONTROL_PANES,
    {
        ScriptCapabilities(READ_APP | DISPATCH_ACTION | NAVIGATE | CONTROL_PANES)
    }

    /// Whether any bit of `capability` is granted.
    pub fn contains(self, capability: u8) -> (b: bool)
        ensures
            b == (self.0 & capability != 0),
    {
        self.0 & capability != 0
    }
}

/// The full control set grants each capability; observation only grants
/// reading and nothing else.
pub proof fn lemma_capability_sets()
    ensures
        ScriptCapabilities::control_bits() & READ_APP != 0,
        ScriptCapabilities::control_bits() & DISPATCH_ACTION != 0,
        ScriptCapabilities::control_bits() & NAVIGATE != 0,
        ScriptCapabilities::control_bits() & CONTROL_PANES != 0,
        READ_APP & READ_APP != 0,
        READ_APP & DISPATCH_ACTION == 0,
        READ_APP & NAVIGATE == 0,
        READ_APP & CONTROL_PANES == 0,
{
    assert(15u8 & 1u8 != 0 && 15u8 & 2u8 != 0 && 15u8 & 4u8 != 0 && 15u8 & 8u8 != 0) by (bit_vector);
    assert(1u8 & 1u8 != 0 && 1u8 & 2u8 == 0 && 1u8 & 4u8 == 0 && 1u8 & 8u8 == 0) by (bit_vector);
    assert(1u8 | 2u8 | 4u8 | 8u8 == 15u8) by (bit_vector);
}

impl ScriptCapabilities {
    /// The bits of [`ScriptCapabilities::control`].
    pub open spec fn control_bits() -> u8 {
        READ_APP | DISPATCH_ACTION | NAVIGATE | CONTROL_PANES
    }
}

/// `Ok` when `capabilities` grants `capability`, else the refusal naming it.
pub fn require(capabilities: ScriptCapabilities, capability: u8, name: &str) -> (r: Result<(), String>)
    ensures
        capabilities.0 & capability != 0 ==> r is Ok,
        capabilities.0 & capability == 0 ==> (r matches Err(m) && m@ == "control script lacks capability: "@ + name@),
{
    if capabilities.contains(capability) {
        Ok(())
    } else {
        let mut m = String::from_str("control script lacks capability: ");
        m.append(name);
        Err(m)
    }
}

/// The action a normalized control command names.
pub open spec fn control_action(word: Seq<char>) -> Option<Action> {
    if word == "save_session"@ {
        Some(Action::SaveSession)
    } else if word == "reseed_layout"@ {
        Some(Action::ReseedLayout)
    } else if word == "toggle_isometric"@ {
        Some(Action::ToggleIsometric)
    } else if word == "toggle_height_by_degree"@ {
        Some(Action::ToggleHeightByDegree)
    } else if word == "toggle_live_content"@ {
        Some(Action::ToggleNodeContent)
    } else if word == "close_pane"@ {
        Some(Action::CloseActivePane)
    } else if word == "maximize_pane"@ {
        Some(Action::ToggleMaximizePane)
    } else {
        None
    }
}

/// The pane kind a normalized pane name names.
pub open spec fn named_pane(word: Seq<char>) -> Option<PaneKind> {
    if word == "roster"@ {
        Some(PaneKind::Roster)
    } else if word == "trail"@ {
        Some(PaneKind::Trail)
    } else if word == "gloss"@ {
        Some(PaneKind::Gloss)
    } else if word == "inspector"@ {
        Some(PaneKind::Inspector)
    } else if word == "steward"@ {
        Some(PaneKind::Steward)
    } else if word == "comms"@ {
        Some(PaneKind::Comms)
    } else if word == "apparatus"@ {
        Some(PaneKind::Apparatus)
    } else {
        None
    }
}

/// A script argument trimmed and ASCII-lowercased.
pub open spec fn normalized(s: Seq<char>) -> Seq<char> {
    ascii_lowercase(trim(s))
}

fn normalize(s: &str) -> (w: Vec<char>)
    ensures
        w@ == normalized(s@),
{
    let cs = chars_of(s);
    let t = trim_chars(&cs, 0, cs.len());
    assert(cs@.subrange(0, cs@.len() as int) =~= cs@);
    ascii_lowercase_chars(&t)
}

/// The action a control command names, ignoring surrounding whitespace and
/// ASCII case.
pub fn action_for(command: &str) -> (r: Option<Action>)
    ensures
        r == control_action(normalized(command@)),
{
    let w = normalize(command);
    if seq_eq_lit(&w, "save_session") {
        Some(Action::SaveSession)
    } else if seq_eq_lit(&w, "reseed_layout") {
        Some(Action::ReseedLayout)
    } else if seq_eq_lit(&w, "toggle_isometric") {
        Some(Action::ToggleIsometric)
    } else if seq_eq_lit(&w, "toggle_height_by_degree") {
        Some(Action::ToggleHeightByDegree)
    } else if seq_eq_lit(&w, "toggle_live_content") {
        Some(Action::ToggleNodeContent)
    } else if seq_eq_lit(&w, "close_pane") {
        Some(Action::CloseActivePane)
    } else if seq_eq_lit(&w, "maximize_pane") {
        Some(Action::ToggleMaximizePane)
    } else {
        None
    }
}

/// The pane kind a script names, ignoring surrounding whitespace and ASCII
/// case.
pub fn pane_kind(pane: &str) -> (r: Option<PaneKind>)
    ensures
        r == named_pane(normalized(pane@)),
{
    let w = normalize(pane);
    if seq_eq_lit(&w, "roster") {
        Some(PaneKind::Roster)
    } else if seq_eq_lit(&w, "trail") {
        Some(PaneKind::Trail)
    } else if seq_eq_lit(&w, "gloss") {
        Some(PaneKind::Gloss)
    } else if seq_eq_lit(&w, "inspector") {
        Some(PaneKind::Inspector)
    } else if seq_eq_lit(&w, "steward") {
        Some(PaneKind::Steward)
    } else if seq_eq_lit(&w, "comms") {
        Some(PaneKind::Comms)
    } else if seq_eq_lit(&w, "apparatus") {
        Some(PaneKind::Apparatus)
    } else {
        None
    }
}

} // verus!
