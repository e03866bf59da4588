//! The action-ring classifier: the envelope lane's permission model.
//!
//! Every emittable [`Action`] classifies into a ring — a capability-path
//! family checked against a denizen's grant at the moment of emission.
//! Four rings name grantable paths; the host-only ring (gate management:
//! install / confirm / cancel / run) names none, so no grant can ever cover
//! it. Decoding an envelope is not authority: a decoded host-only action
//! still dies at [`emit_allowed`].

use vstd::prelude::*;

use crate::action::{Action, CaretMove, PaneKind, SpaceRef, WbAxis};
use crate::frisket::{PaneId, SessionId, SplitChoice};

verus! {

/// The permission ring an action classifies into.
#[derive(Clone, Copy, Debug, PartialEq, Eq, Structural)]
pub enum Ring {
    Navigate,
    Panes,
    Dispatch,
    Session,
    HostOnly,
}

/// The grantable capability path of a ring; none for host-only.
pub open spec fn ring_path(ring: Ring) -> Option<Seq<char>> {
    match ring {
        Ring::Navigate => Some("app/navigate"@),
        Ring::Panes => Some("app/panes"@),
        Ring::Dispatch => Some("app/dispatch"@),
        Ring::Session => Some("app/session"@),
        Ring::HostOnly => None,
    }
}

/// The display name of a ring.
pub open spec fn ring_name(ring: Ring) -> Seq<char> {
    match ring {
        Ring::Navigate => "navigate"@,
        Ring::Panes => "panes"@,
        Ring::Dispatch => "dispatch"@,
        Ring::Session => "session"@,
        Ring::HostOnly => "host-only"@,
    }
}

impl Ring {
    /// The grantable capability path this ring checks under (write mode),
    /// or `None` for the host-only ring: no path exists, so no grant covers it.
    pub fn path(self) -> (p: Option<&'static str>)
        ensures
            match p {
                Some(s) => ring_path(self) == Some(s@),
                None => ring_path(self) is None,
            },
    {
        match self {
            Ring::Navigate => Some("app/navigate"),
            Ring::Panes => Some("app/panes"),
            Ring::Dispatch => Some("app/dispatch"),
            Ring::Session => Some("app/session"),
            Ring::HostOnly => None,
        }
    }

    /// The ring's display name (denials name the ring).
    pub fn name(self) -> (n: &'static str)
        ensures
            n@ == ring_name(self),
    {
        match self {
            Ring::Navigate => "navigate",
            Ring::Panes => "panes",
            Ring::Dispatch => "dispatch",
            Ring::Session => "session",
            Ring::HostOnly => "host-only",
        }
    }
}

/// The ring of every action.
pub open spec fn ring_of_action(action: Action) -> Ring {
    match action {
        Action::OpenAddress(_) | Action::NavBack | Action::NavForward | Action::Reload => Ring::Navigate,
        Action::NewWindow
        | Action::TearOutActivePane
        | Action::SummonPane(_)
        | Action::CloseActivePane
        | Action::SetActivePaneDivider(_)
        | Action::SetSplitRatio { .. }
        | Action::ToggleMaximizePane
        | Action::TogglePaneSection { .. }
        | Action::MovePaneSection { .. }
        | Action::OpenInWorkbench
        | Action::TearOutTile { .. }
        | Action::WorkbenchActivate(_)
        | Action::CloseWorkbenchTile
        | Action::WorkbenchStackOnto { .. }
        | Action::WorkbenchSplitBeside { .. }
        | Action::WorkbenchSplitOut { .. }
        | Action::WorkbenchSetFractions { .. } => Ring::Panes,
        Action::SetNodeSprite { .. }
        | Action::SetViewerOverride { .. }
        | Action::ReseedLayout
        | Action::FitView
        | Action::SetLayoutStrategy(_)
        | Action::ToggleIsometric
        | Action::OrbitBy(_)
        | Action::TiltBy(_)
        | Action::ToggleHeightByDegree
        | Action::TogglePhysics
        | Action::ToggleSizeByRecency
        | Action::ToggleNodeContent
        | Action::OmnibarOpen { .. }
        | Action::OmnibarClose
        | Action::OmnibarChar(_)
        | Action::OmnibarInsert(_)
        | Action::OmnibarBackspace
        | Action::OmnibarDelete
        | Action::OmnibarCaret(_)
        | Action::OmnibarMove(_)
        | Action::OmnibarCommit
        | Action::OmnibarCommitRow(_) => Ring::Dispatch,
        Action::SaveSession
        | Action::ForkNode { .. }
        | Action::ForkFocusedNode
        | Action::NewSession
        | Action::SwitchSession(_)
        | Action::CloseSession
        | Action::BeginRenameSession
        | Action::RenameSession { .. }
        | Action::DeleteFocusedNode
        | Action::RecoverDeletedNode(_)
        | Action::EmptyRecycleBin
        | Action::RecoverSession(_) => Ring::Session,
        Action::InstallDenizen { .. }
        | Action::ConfirmInstallDenizen
        | Action::CancelInstallDenizen
        | Action::RunDenizen { .. } => Ring::HostOnly,
    }
}

/// Classify an action into its ring. Exhaustive: a new action variant does
/// not compile until its ring is decided.
pub fn ring_of(action: &Action) -> (ring: Ring)
    ensures
        ring == ring_of_action(*action),
{
    match action {
        Action::OpenAddress(_) | Action::NavBack | Action::NavForward | Action::Reload => Ring::Navigate,
        Action::NewWindow
        | Action::TearOutActivePane
        | Action::SummonPane(_)
        | Action::CloseActivePane
        | Action::SetActivePaneDivider(_)
        | Action::SetSplitRatio { .. }
        | Action::ToggleMaximizePane
        | Action::TogglePaneSection { .. }
        | Action::MovePaneSection { .. }
        | Action::OpenInWorkbench
        | Action::TearOutTile { .. }
        | Action::WorkbenchActivate(_)
        | Action::CloseWorkbenchTile
        | Action::WorkbenchStackOnto { .. }
        | Action::WorkbenchSplitBeside { .. }
        | Action::WorkbenchSplitOut { .. }
        | Action::WorkbenchSetFractions { .. } => Ring::Panes,
        Action::SetNodeSprite { .. }
        | Action::SetViewerOverride { .. }
        | Action::ReseedLayout
        | Action::FitView
        | Action::SetLayoutStrategy(_)
        | Action::ToggleIsometric
        | Action::OrbitBy(_)
        | Action::TiltBy(_)
        | Action::ToggleHeightByDegree
        | Action::TogglePhysics
        | Action::ToggleSizeByRecency
        | Action::ToggleNodeContent
        | Action::OmnibarOpen { .. }
        | Action::OmnibarClose
        | Action::OmnibarChar(_)
        | Action::OmnibarInsert(_)
        | Action::OmnibarBackspace
        | Action::OmnibarDelete
        | Action::OmnibarCaret(_)
        | Action::OmnibarMove(_)
        | Action::OmnibarCommit
        | Action::OmnibarCommitRow(_) => Ring::Dispatch,
        Action::SaveSession
        | Action::ForkNode { .. }
        | Action::ForkFocusedNode
        | Action::NewSession
        | Action::SwitchSession(_)
        | Action::CloseSession
        | Action::BeginRenameSession
        | Action::RenameSession { .. }
        | Action::DeleteFocusedNode
        | Action::RecoverDeletedNode(_)
        | Action::EmptyRecycleBin
        | Action::RecoverSession(_) => Ring::Session,
        Action::InstallDenizen { .. }
        | Action::ConfirmInstallDenizen
        | Action::CancelInstallDenizen
        | Action::RunDenizen { .. } => Ring::HostOnly,
    }
}

/// Every action's ring, action by action: addresses and history navigate;
/// window, pane-tree, section and workbench edits are pane operations;
/// canvas, view and omnibar input dispatch; persistence, sessions, node
/// deletion and the bin are session operations; the denizen gate is
/// host-only.
pub proof fn lemma_ring_table()
    ensures
        forall|u: String| #![auto] ring_of_action(Action::OpenAddress(u)) == Ring::Navigate,
        ring_of_action(Action::NavBack) == Ring::Navigate,
        ring_of_action(Action::NavForward) == Ring::Navigate,
        ring_of_action(Action::Reload) == Ring::Navigate,
        ring_of_action(Action::NewWindow) == Ring::Panes,
        ring_of_action(Action::TearOutActivePane) == Ring::Panes,
        forall|k: PaneKind| #![auto] ring_of_action(Action::SummonPane(k)) == Ring::Panes,
        ring_of_action(Action::CloseActivePane) == Ring::Panes,
        forall|r: u64| #![auto] ring_of_action(Action::SetActivePaneDivider(r)) == Ring::Panes,
        forall|sp: SpaceRef, p: Vec<SplitChoice>, r: u64| #![auto]
            ring_of_action(Action::SetSplitRatio { space: sp, path: p, ratio: r }) == Ring::Panes,
        ring_of_action(Action::ToggleMaximizePane) == Ring::Panes,
        forall|pane: PaneId, sec: String| #![auto]
            ring_of_action(Action::TogglePaneSection { pane, section: sec }) == Ring::Panes,
        forall|pane: PaneId, sec: String, d: i32| #![auto]
            ring_of_action(Action::MovePaneSection { pane, section: sec, delta: d }) == Ring::Panes,
        ring_of_action(Action::OpenInWorkbench) == Ring::Panes,
        forall|m: u128| #![auto] ring_of_action(Action::TearOutTile { member: m }) == Ring::Panes,
        forall|m: u128| #![auto] ring_of_action(Action::WorkbenchActivate(m)) == Ring::Panes,
        ring_of_action(Action::CloseWorkbenchTile) == Ring::Panes,
        forall|a: u128, b: u128| #![auto] ring_of_action(Action::WorkbenchStackOnto { dragged: a, target: b }) == Ring::Panes,
        forall|a: u128, b: u128, x: WbAxis, f: bool| #![auto]
            ring_of_action(Action::WorkbenchSplitBeside { dragged: a, target: b, axis: x, after: f }) == Ring::Panes,
        forall|a: u128, x: WbAxis, f: bool| #![auto]
            ring_of_action(Action::WorkbenchSplitOut { dragged: a, axis: x, after: f }) == Ring::Panes,
        forall|p: Vec<usize>, f: Vec<u64>| #![auto]
            ring_of_action(Action::WorkbenchSetFractions { path: p, fractions: f }) == Ring::Panes,
        forall|m: u128, d: String, h: Vec<(u64, u64)>| #![auto]
            ring_of_action(Action::SetNodeSprite { member: m, data_uri: d, hull: h }) == Ring::Dispatch,
        forall|m: u128, v: Option<String>| #![auto]
            ring_of_action(Action::SetViewerOverride { member: m, viewer: v }) == Ring::Dispatch,
        ring_of_action(Action::ReseedLayout) == Ring::Dispatch,
        ring_of_action(Action::FitView) == Ring::Dispatch,
        forall|st: Option<&'static str>| #![auto] ring_of_action(Action::SetLayoutStrategy(st)) == Ring::Dispatch,
        ring_of_action(Action::ToggleIsometric) == Ring::Dispatch,
        forall|b: u64| #![auto] ring_of_action(Action::OrbitBy(b)) == Ring::Dispatch,
        forall|b: u64| #![auto] ring_of_action(Action::TiltBy(b)) == Ring::Dispatch,
        ring_of_action(Action::ToggleHeightByDegree) == Ring::Dispatch,
        ring_of_action(Action::TogglePhysics) == Ring::Dispatch,
        ring_of_action(Action::ToggleSizeByRecency) == Ring::Dispatch,
        ring_of_action(Action::ToggleNodeContent) == Ring::Dispatch,
        forall|c: bool| #![auto] ring_of_action(Action::OmnibarOpen { command: c }) == Ring::Dispatch,
        ring_of_action(Action::OmnibarClose) == Ring::Dispatch,
        forall|c: char| #![auto] ring_of_action(Action::OmnibarChar(c)) == Ring::Dispatch,
        forall|t: String| #![auto] ring_of_action(Action::OmnibarInsert(t)) == Ring::Dispatch,
        ring_of_action(Action::OmnibarBackspace) == Ring::Dispatch,
        ring_of_action(Action::OmnibarDelete) == Ring::Dispatch,
        forall|m: CaretMove| #![auto] ring_of_action(Action::OmnibarCaret(m)) == Ring::Dispatch,
        forall|d: i32| #![auto] ring_of_action(Action::OmnibarMove(d)) == Ring::Dispatch,
        ring_of_action(Action::OmnibarCommit) == Ring::Dispatch,
        forall|i: usize| #![auto] ring_of_action(Action::OmnibarCommitRow(i)) == Ring::Dispatch,
        ring_of_action(Action::SaveSession) == Ring::Session,
        forall|m: u128| #![auto] ring_of_action(Action::ForkNode { member: m }) == Ring::Session,
        ring_of_action(Action::ForkFocusedNode) == Ring::Session,
        ring_of_action(Action::NewSession) == Ring::Session,
        forall|id: SessionId| #![auto] ring_of_action(Action::SwitchSession(id)) == Ring::Session,
        ring_of_action(Action::CloseSession) == Ring::Session,
        ring_of_action(Action::BeginRenameSession) == Ring::Session,
        forall|id: SessionId, n: String| #![auto] ring_of_action(Action::RenameSession { id, name: n }) == Ring::Session,
        ring_of_action(Action::DeleteFocusedNode) == Ring::Session,
        forall|m: u128| #![auto] ring_of_action(Action::RecoverDeletedNode(m)) == Ring::Session,
        ring_of_action(Action::EmptyRecycleBin) == Ring::Session,
        forall|id: SessionId| #![auto] ring_of_action(Action::RecoverSession(id)) == Ring::Session,
        forall|p: String| #![auto] ring_of_action(Action::InstallDenizen { path: p }) == Ring::HostOnly,
        ring_of_action(Action::ConfirmInstallDenizen) == Ring::HostOnly,
        ring_of_action(Action::CancelInstallDenizen) == Ring::HostOnly,
        forall|m: u128| #![auto] ring_of_action(Action::RunDenizen { member: m }) == Ring::HostOnly,
{
}

/// The refusal a host-only action always meets.
pub open spec fn host_only_refusal(ring: Ring) -> Seq<char> {
    ring_name(ring) + ": gate management is host-only; no grantable path exists"@
}

/// The refusal an uncovered ring meets.
pub open spec fn uncovered_refusal(ring: Ring) -> Seq<char> {
    ring_name(ring) + ": not covered by this denizen's grant"@
}

/// May a subject emit `action`? `covered` is the authority's answer for the
/// action's ring path in write mode (an emission acts); the host-only ring
/// refuses whatever it says. The refusal names the ring.
pub fn emit_allowed(action: &Action, covered: bool) -> (r: Result<(), String>)
    ensures
        r is Ok <==> (ring_of_action(*action) != Ring::HostOnly && covered),
        r matches Err(e) ==> e@ == (if ring_of_action(*action) == Ring::HostOnly {
            host_only_refusal(ring_of_action(*action))
        } else {
            uncovered_refusal(ring_of_action(*action))
        }),
{
    let ring = ring_of(action);
    match ring.path() {
        None => {
            let mut e = String::from_str(ring.name());
            e.append(": gate management is host-only; no grantable path exists");
            Err(e)
        },
        Some(_) => {
            if covered {
                Ok(())
            } else {
                let mut e = String::from_str(ring.name());
                e.append(": not covered by this denizen's grant");
                Err(e)
            }
        },
    }
}

/// Every grantable ring, in privilege order (least first). Host-only is
/// deliberately absent: it is not a choice a review can offer.
pub open spec fn grantable_ring(i: int) -> Ring {
    if i == 0 {
        Ring::Navigate
    } else if i == 1 {
        Ring::Panes
    } else if i == 2 {
        Ring::Dispatch
    } else {
        Ring::Session
    }
}

/// The grantable rings, least privileged first.
pub fn grantable_rings() -> (rings: [Ring; 4])
    ensures
        forall|i: int| 0 <= i < 4 ==> rings@[i] == grantable_ring(i),
{
    [Ring::Navigate, Ring::Panes, Ring::Dispatch, Ring::Session]
}

/// The interface-shaped name of a ring.
pub open spec fn interface_name(ring: Ring) -> Seq<char> {
    "mere:script/actions#"@ + ring_name(ring)
}

/// The interface names of the first `n` grantable rings whose paths are covered.
pub open spec fn granted_prefix(covered: Seq<bool>, n: int) -> Seq<Seq<char>>
    decreases n,
{
    if n <= 0 {
        Seq::empty()
    } else if covered[n - 1] {
        granted_prefix(covered, n - 1).push(interface_name(grantable_ring(n - 1)))
    } else {
        granted_prefix(covered, n - 1)
    }
}

/// The interface-shaped names of the rings a subject's authority covers.
/// `covered[i]` is the authority's answer for the path of the i-th grantable
/// ring (write mode); the answer is the guest's read-only window onto its grant.
pub fn granted_ring_names(covered: [bool; 4]) -> (names: Vec<String>)
    ensures
        names@.map_values(|s: String| s@) == granted_prefix(covered@, 4),
{
    let rings = grantable_rings();
    let mut names: Vec<String> = Vec::new();
    let mut i: usize = 0;
    while i < 4
        invariant
            i <= 4,
            forall|k: int| 0 <= k < 4 ==> rings@[k] == grantable_ring(k),
            names@.map_values(|s: String| s@) == granted_prefix(covered@, i as int),
        decreases 4 - i,
    {
        if covered[i] {
            let mut name = String::from_str("mere:script/actions#");
            name.append(rings[i].name());
            names.push(name);
            assert(names@.map_values(|s: String| s@) =~= granted_prefix(covered@, i as int).push(interface_name(grantable_ring(i as int))));
        }
        i = i + 1;
    }
    names
}

/// Every ring but host-only names a grantable capability path, and
/// host-only names none, so no grant can ever cover it.
pub proof fn lemma_only_host_only_lacks_a_path(ring: Ring)
    ensures
        ring_path(ring) is None <==> ring == Ring::HostOnly,
{
}

/// The grantable rings are exactly the rings that name a path, each once.
pub proof fn lemma_grantable_rings_name_paths()
    ensures
        forall|i: int| 0 <= i < 4 ==> #[trigger] grantable_ring(i) != Ring::HostOnly && ring_path(grantable_ring(i)) is Some,
        forall|i: int, j: int| 0 <= i < j < 4 ==> #[trigger] grantable_ring(i) != #[trigger] grantable_ring(j),
        forall|r: Ring| (#[trigger] ring_path(r)) is Some ==> exists|i: int| 0 <= i < 4 && #[trigger] grantable_ring(i) == r,
{
    assert forall|r: Ring| (#[trigger] ring_path(r)) is Some implies exists|i: int| 0 <= i < 4 && #[trigger] grantable_ring(i) == r by {
        match r {
            Ring::Navigate => assert(grantable_ring(0) == r),
            Ring::Panes => assert(grantable_ring(1) == r),
            Ring::Dispatch => assert(grantable_ring(2) == r),
            Ring::Session => assert(grantable_ring(3) == r),
            Ring::HostOnly => {},
        }
    }
}

} // verus!
