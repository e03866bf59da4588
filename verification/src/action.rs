//! The one vocabulary: everything that acts on the app lowers to an
//! [`Action`]; everything slow or platform-shaped leaves as an [`Effect`]
//! the host runs through a port; services answer with an [`Update`].
//!
//! Node and session identities are carried as the 128-bit values of their
//! uuids. Geometric payloads (angles, ratios, fractions, hull points) are
//! carried as IEEE-754 binary64 bit patterns; the host narrows them to the
//! single-precision values its canvas and layout consume.

use vstd::prelude::*;

use crate::frisket::{PaneId, SessionId, SplitChoice};

verus! {

/// Which window's pane space a tree operation targets.
#[derive(Clone, Copy, Debug, PartialEq, Eq, Structural)]
pub enum SpaceRef {
    Primary,
    /// A lens window's space, by ordinal.
    Lens(usize),
}

/// A typed app intent.
#[derive(Clone, Debug, PartialEq)]
pub enum Action {
    OpenAddress(String),
    NavBack,
    NavForward,
    Reload,
    SetNodeSprite { member: u128, data_uri: String, hull: Vec<(u64, u64)> },
    NewWindow,
    TearOutActivePane,
    SetViewerOverride { member: u128, viewer: Option<String> },
    ReseedLayout,
    FitView,
    SetLayoutStrategy(Option<&'static str>),
    ToggleIsometric,
    OrbitBy(u64),
    TiltBy(u64),
    ToggleHeightByDegree,
    TogglePhysics,
    ToggleSizeByRecency,
    SaveSession,
    ToggleNodeContent,
    OmnibarOpen { command: bool },
    OmnibarClose,
    OmnibarChar(char),
    OmnibarInsert(String),
    OmnibarBackspace,
    OmnibarDelete,
    OmnibarCaret(CaretMove),
    OmnibarMove(i32),
    OmnibarCommit,
    OmnibarCommitRow(usize),
    SummonPane(PaneKind),
    CloseActivePane,
    SetActivePaneDivider(u64),
    SetSplitRatio { space: SpaceRef, path: Vec<SplitChoice>, ratio: u64 },
    ToggleMaximizePane,
    /// Compose (add or remove) a list section on one pane's leaf.
    TogglePaneSection { pane: PaneId, section: String },
    /// Move a composed section up (negative) or down within its pane's
    /// stack, clamped at the ends.
    MovePaneSection { pane: PaneId, section: String, delta: i32 },
    OpenInWorkbench,
    TearOutTile { member: u128 },
    ForkNode { member: u128 },
    ForkFocusedNode,
    NewSession,
    SwitchSession(SessionId),
    CloseSession,
    BeginRenameSession,
    RenameSession { id: SessionId, name: String },
    DeleteFocusedNode,
    RecoverDeletedNode(u128),
    EmptyRecycleBin,
    InstallDenizen { path: String },
    ConfirmInstallDenizen,
    CancelInstallDenizen,
    RunDenizen { member: u128 },
    RecoverSession(SessionId),
    WorkbenchActivate(u128),
    CloseWorkbenchTile,
    WorkbenchStackOnto { dragged: u128, target: u128 },
    WorkbenchSplitBeside { dragged: u128, target: u128, axis: WbAxis, after: bool },
    WorkbenchSplitOut { dragged: u128, axis: WbAxis, after: bool },
    WorkbenchSetFractions { path: Vec<usize>, fractions: Vec<u64> },
}

/// A summonable pane kind.
#[derive(Clone, Copy, Debug, PartialEq, Eq, Structural)]
pub enum PaneKind {
    Roster,
    Trail,
    Gloss,
    Inspector,
    Steward,
    Comms,
    Apparatus,
    Overmap,
    Workbench,
}

/// The display label of a pane kind.
pub open spec fn kind_label(kind: PaneKind) -> Seq<char> {
    match kind {
        PaneKind::Roster => "Roster"@,
        PaneKind::Trail => "Trail"@,
        PaneKind::Gloss => "Gloss"@,
        PaneKind::Inspector => "Inspector"@,
        PaneKind::Steward => "Steward"@,
        PaneKind::Comms => "Comms"@,
        PaneKind::Apparatus => "Apparatus"@,
        PaneKind::Overmap => "Overmap"@,
        PaneKind::Workbench => "Workbench"@,
    }
}

impl PaneKind {
    /// The pane's display label (placeholder text and accessible name).
    pub fn label(self) -> (l: &'static str)
        ensures
            l@ == kind_label(self),
    {
        match self {
            PaneKind::Roster => "Roster",
            PaneKind::Trail => "Trail",
            PaneKind::Gloss => "Gloss",
            PaneKind::Inspector => "Inspector",
            PaneKind::Steward => "Steward",
            PaneKind::Comms => "Comms",
            PaneKind::Apparatus => "Apparatus",
            PaneKind::Overmap => "Overmap",
            PaneKind::Workbench => "Workbench",
        }
    }
}

/// A workbench split axis: `Row` lays a new cell left/right, `Column`
/// above/below.
#[derive(Clone, Copy, Debug, PartialEq, Eq, Structural)]
pub enum WbAxis {
    Row,
    Column,
}

/// A caret movement within the omnibar's single line.
#[derive(Clone, Copy, Debug, PartialEq, Eq, Structural)]
pub enum CaretMove {
    Left,
    Right,
    Home,
    End,
}

/// The binary64 bit pattern of the single-precision orbit step (0.15 rad).
pub const ORBIT_STEP_BITS: u64 = 0x3fc3_3333_4000_0000;

/// The binary64 bit pattern of the negated orbit step.
pub const ORBIT_STEP_NEG_BITS: u64 = 0xbfc3_3333_4000_0000;

/// The label of palette row `i`.
pub open spec fn palette_label(i: int) -> Seq<char> {
    if i == 0 { "Back"@ }
    else if i == 1 { "Forward"@ }
    else if i == 2 { "Reload"@ }
    else if i == 3 { "Reseed layout"@ }
    else if i == 4 { "Fit view"@ }
    else if i == 5 { "Layout: Spiral"@ }
    else if i == 6 { "Layout: Force-directed"@ }
    else if i == 7 { "Toggle isometric view"@ }
    else if i == 8 { "Toggle height-by-degree"@ }
    else if i == 9 { "Toggle size-by-recency"@ }
    else if i == 10 { "Play/pause physics"@ }
    else if i == 11 { "Orbit left"@ }
    else if i == 12 { "Orbit right"@ }
    else if i == 13 { "Toggle live content"@ }
    else if i == 14 { "Save session"@ }
    else if i == 15 { "Open Roster pane"@ }
    else if i == 16 { "Open Trail pane"@ }
    else if i == 17 { "Open Gloss pane"@ }
    else if i == 18 { "Open Inspector pane"@ }
    else if i == 19 { "Open Workbench pane"@ }
    else if i == 20 { "Open Apparatus pane"@ }
    else if i == 21 { "Open Overmap pane"@ }
    else if i == 22 { "New window"@ }
    else if i == 23 { "Tear out pane"@ }
    else if i == 24 { "Fork from node"@ }
    else if i == 25 { "Open node in Workbench"@ }
    else if i == 26 { "Close workbench tile"@ }
    else if i == 27 { "Delete node"@ }
    else if i == 28 { "Empty recycle bin"@ }
    else if i == 29 { "Close pane"@ }
    else if i == 30 { "Maximize pane"@ }
    else if i == 31 { "New session"@ }
    else if i == 32 { "Rename session"@ }
    else { "Close session"@ }
}

/// Whether `a` is the action palette row `i` offers.
pub open spec fn palette_action_is(i: int, a: Action) -> bool {
    if i == 0 { a == Action::NavBack }
    else if i == 1 { a == Action::NavForward }
    else if i == 2 { a == Action::Reload }
    else if i == 3 { a == Action::ReseedLayout }
    else if i == 4 { a == Action::FitView }
    else if i == 5 { a matches Action::SetLayoutStrategy(Some(id)) && id@ == "phyllotaxis.default"@ }
    else if i == 6 { a == Action::SetLayoutStrategy(None) }
    else if i == 7 { a == Action::ToggleIsometric }
    else if i == 8 { a == Action::ToggleHeightByDegree }
    else if i == 9 { a == Action::ToggleSizeByRecency }
    else if i == 10 { a == Action::TogglePhysics }
    else if i == 11 { a == Action::OrbitBy(ORBIT_STEP_NEG_BITS) }
    else if i == 12 { a == Action::OrbitBy(ORBIT_STEP_BITS) }
    else if i == 13 { a == Action::ToggleNodeContent }
    else if i == 14 { a == Action::SaveSession }
    else if i == 15 { a == Action::SummonPane(PaneKind::Roster) }
    else if i == 16 { a == Action::SummonPane(PaneKind::Trail) }
    else if i == 17 { a == Action::SummonPane(PaneKind::Gloss) }
    else if i == 18 { a == Action::SummonPane(PaneKind::Inspector) }
    else if i == 19 { a == Action::SummonPane(PaneKind::Workbench) }
    else if i == 20 { a == Action::SummonPane(PaneKind::Apparatus) }
    else if i == 21 { a == Action::SummonPane(PaneKind::Overmap) }
    else if i == 22 { a == Action::NewWindow }
    else if i == 23 { a == Action::TearOutActivePane }
    else if i == 24 { a == Action::ForkFocusedNode }
    else if i == 25 { a == Action::OpenInWorkbench }
    else if i == 26 { a == Action::CloseWorkbenchTile }
    else if i == 27 { a == Action::DeleteFocusedNode }
    else if i == 28 { a == Action::EmptyRecycleBin }
    else if i == 29 { a == Action::CloseActivePane }
    else if i == 30 { a == Action::ToggleMaximizePane }
    else if i == 31 { a == Action::NewSession }
    else if i == 32 { a == Action::BeginRenameSession }
    else { a == Action::CloseSession }
}

/// The palette registry, row by row: the label and the action it offers.
pub open spec fn palette_row(i: int, label: Seq<char>, a: Action) -> bool {
    0 <= i < 34 && label == palette_label(i) && palette_action_is(i, a)
}

/// The number of rows in the palette registry.
pub open spec fn palette_len() -> nat {
    34
}

/// The palette's action registry: every Action an app-intent lane may
/// offer, with its display label, in display order.
pub fn palette_actions() -> (rows: Vec<(&'static str, Action)>)
    ensures
        rows@.len() == palette_len(),
        forall|i: int| 0 <= i < rows@.len() ==> palette_row(i, #[trigger] rows@[i].0@, rows@[i].1),
{
    let mut rows: Vec<(&'static str, Action)> = Vec::new();
    rows.push(("Back", Action::NavBack));
    rows.push(("Forward", Action::NavForward));
    rows.push(("Reload", Action::Reload));
    rows.push(("Reseed layout", Action::ReseedLayout));
    rows.push(("Fit view", Action::FitView));
    rows.push(("Layout: Spiral", Action::SetLayoutStrategy(Some("phyllotaxis.default"))));
    rows.push(("Layout: Force-directed", Action::SetLayoutStrategy(None)));
    rows.push(("Toggle isometric view", Action::ToggleIsometric));
    rows.push(("Toggle height-by-degree", Action::ToggleHeightByDegree));
    rows.push(("Toggle size-by-recency", Action::ToggleSizeByRecency));
    rows.push(("Play/pause physics", Action::TogglePhysics));
    rows.push(("Orbit left", Action::OrbitBy(ORBIT_STEP_NEG_BITS)));
    rows.push(("Orbit right", Action::OrbitBy(ORBIT_STEP_BITS)));
    rows.push(("Toggle live content", Action::ToggleNodeContent));
    rows.push(("Save session", Action::SaveSession));
    rows.push(("Open Roster pane", Action::SummonPane(PaneKind::Roster)));
    rows.push(("Open Trail pane", Action::SummonPane(PaneKind::Trail)));
    rows.push(("Open Gloss pane", Action::SummonPane(PaneKind::Gloss)));
    rows.push(("Open Inspector pane", Action::SummonPane(PaneKind::Inspector)));
    rows.push(("Open Workbench pane", Action::SummonPane(PaneKind::Workbench)));
    rows.push(("Open Apparatus pane", Action::SummonPane(PaneKind::Apparatus)));
    rows.push(("Open Overmap pane", Action::SummonPane(PaneKind::Overmap)));
    rows.push(("New window", Action::NewWindow));
    rows.push(("Tear out pane", Action::TearOutActivePane));
    rows.push(("Fork from node", Action::ForkFocusedNode));
    rows.push(("Open node in Workbench", Action::OpenInWorkbench));
    rows.push(("Close workbench tile", Action::CloseWorkbenchTile));
    rows.push(("Delete node", Action::DeleteFocusedNode));
    rows.push(("Empty recycle bin", Action::EmptyRecycleBin));
    rows.push(("Close pane", Action::CloseActivePane));
    rows.push(("Maximize pane", Action::ToggleMaximizePane));
    rows.push(("New session", Action::NewSession));
    rows.push(("Rename session", Action::BeginRenameSession));
    rows.push(("Close session", Action::CloseSession));
    rows
}

/// A staged (deleted) node's record in the recycle bin. Carries the
/// member id the node had, so recovery restores identity.
#[derive(Clone, Debug, PartialEq)]
pub struct RemovedRecord {
    pub node_id: u128,
    pub url: String,
    pub title: Option<String>,
    pub tags: Vec<String>,
    /// Deletion time, unix milliseconds.
    pub deleted_at_ms: u64,
}

/// A side effect the app asks the host to run through a port.
#[derive(Clone, Debug, PartialEq)]
pub enum Effect {
    FetchPage { node: u128, url: String },
    FetchFavicon { node: u128, owner_url: String, url: String },
    SaveSession,
    SpawnContent { node: u128, url: String },
    CloseContent { node: u128 },
    OpenWindow { ordinal: usize },
    SwitchSession { id: SessionId },
    RecordDeleted { record: RemovedRecord },
    EmptyRecycleBin,
    TrashSession { closing: SessionId, next: SessionId },
    Redraw,
}

/// A successfully fetched page document.
#[derive(Clone, Debug, PartialEq)]
pub struct FetchedPage {
    /// The response's Content-Type header, verbatim.
    pub content_type: Option<String>,
    /// The decoded body text.
    pub body: String,
}

/// A typed service answer, folded back into app state.
#[derive(Debug, PartialEq)]
pub enum Update {
    PageFetched { node: u128, url: String, result: Result<FetchedPage, String> },
    FaviconFetched { node: u128, owner_url: String, bytes: Vec<u8> },
    ContentSpawned { node: u128 },
    ContentFailed { node: u128, error: String },
    BinListed { records: Vec<RemovedRecord> },
    BinFailed { error: String },
}

} // verus!
