//! The pane model: ids, the split tree, and what a leaf pane shows.
//!
//! The host turns the ratio tree into rects; this module emits no geometry.
//! Split ratios travel as IEEE-754 binary64 bit patterns, so the model stays
//! exact and comparable while the host narrows them at its geometry edge.

use vstd::prelude::*;

verus! {

/// Stable identifier for a saved pane layout.
#[derive(Clone, Debug, PartialEq, Eq, Hash)]
pub struct FrisketId(pub String);

impl FrisketId {
    pub fn new(value: &str) -> (id: Self)
        ensures
            id.0@ == value@,
    {
        FrisketId(String::from_str(value))
    }

    pub fn as_str(&self) -> (s: &str)
        ensures
            s@ == self.0@,
    {
        self.0.as_str()
    }
}

/// Stable identifier for an individual pane within a layout.
#[derive(Clone, Copy, Debug, PartialEq, Eq, Hash, Structural)]
pub struct PaneId(pub u64);

/// A graph identity (the 128-bit value of its uuid). The nil id is the
/// unbound graph a host stamps with its primary graph on load.
#[derive(Clone, Copy, Debug, PartialEq, Eq, Hash, Structural)]
pub struct GraphId(pub u128);

impl GraphId {
    pub fn nil() -> (id: Self)
        ensures
            id.0 == 0,
    {
        GraphId(0)
    }
}

/// A session identity (the 128-bit value of its uuid).
#[derive(Clone, Copy, Debug, PartialEq, Eq, Hash, Structural)]
pub struct SessionId(pub u128);

/// Direction of a split between two child panes.
#[derive(Clone, Copy, Debug, PartialEq, Eq, Structural)]
pub enum SplitAxis {
    /// Children side-by-side; the ratio applies to width.
    Horizontal,
    /// Children stacked; the ratio applies to height.
    Vertical,
}

/// What a leaf pane shows.
#[derive(Debug, PartialEq, Eq)]
pub enum PaneContent {
    Workbench,
    Orrery,
    Gloss,
    Roster,
    Inspector,
    Trail,
    Steward,
    Comms,
    Alembic,
    Apparatus,
    Overmap,
    System,
    /// A pinned tile: one node (its member uuid value) without a workbench strip.
    Tile(u128),
    Custom(String),
}

/// The compact tag of a pane content kind.
pub open spec fn content_tag(content: PaneContent) -> Seq<char> {
    match content {
        PaneContent::Workbench => "workbench"@,
        PaneContent::Orrery => "orrery"@,
        PaneContent::Gloss => "gloss"@,
        PaneContent::Roster => "roster"@,
        PaneContent::Inspector => "inspector"@,
        PaneContent::Trail => "trail"@,
        PaneContent::Steward => "steward"@,
        PaneContent::Comms => "comms"@,
        PaneContent::Alembic => "alembic"@,
        PaneContent::Apparatus => "apparatus"@,
        PaneContent::Overmap => "overmap"@,
        PaneContent::System => "system"@,
        PaneContent::Tile(_) => "tile"@,
        PaneContent::Custom(s) => s@,
    }
}

/// Whether a pane renders the window's active graph (graph-bound) rather
/// than graph-independent window chrome.
pub open spec fn is_graph_bound(content: PaneContent) -> bool {
    match content {
        PaneContent::Orrery | PaneContent::Workbench | PaneContent::Gloss | PaneContent::Roster
        | PaneContent::Inspector | PaneContent::Trail | PaneContent::Tile(_) => true,
        _ => false,
    }
}

impl Clone for PaneContent {
    fn clone(&self) -> (c: Self)
        ensures
            c == *self,
    {
        match self {
            PaneContent::Workbench => PaneContent::Workbench,
            PaneContent::Orrery => PaneContent::Orrery,
            PaneContent::Gloss => PaneContent::Gloss,
            PaneContent::Roster => PaneContent::Roster,
            PaneContent::Inspector => PaneContent::Inspector,
            PaneContent::Trail => PaneContent::Trail,
            PaneContent::Steward => PaneContent::Steward,
            PaneContent::Comms => PaneContent::Comms,
            PaneContent::Alembic => PaneContent::Alembic,
            PaneContent::Apparatus => PaneContent::Apparatus,
            PaneContent::Overmap => PaneContent::Overmap,
            PaneContent::System => PaneContent::System,
            PaneContent::Tile(m) => PaneContent::Tile(*m),
            PaneContent::Custom(s) => PaneContent::Custom(s.clone()),
        }
    }
}

impl PaneContent {
    /// Compact tag suitable for tracing fields and accessible names.
    pub fn tag(&self) -> (t: &str)
        ensures
            t@ == content_tag(*self),
    {
        match self {
            PaneContent::Workbench => "workbench",
            PaneContent::Orrery => "orrery",
            PaneContent::Gloss => "gloss",
            PaneContent::Roster => "roster",
            PaneContent::Inspector => "inspector",
            PaneContent::Trail => "trail",
            PaneContent::Steward => "steward",
            PaneContent::Comms => "comms",
            PaneContent::Alembic => "alembic",
            PaneContent::Apparatus => "apparatus",
            PaneContent::Overmap => "overmap",
            PaneContent::System => "system",
            PaneContent::Tile(_) => "tile",
            PaneContent::Custom(s) => s.as_str(),
        }
    }

    /// Whether this pane re-sources when the window's active graph changes.
    pub fn follows_active_graph(&self) -> (b: bool)
        ensures
            b == is_graph_bound(*self),
    {
        match self {
            PaneContent::Orrery
            | PaneContent::Workbench
            | PaneContent::Gloss
            | PaneContent::Roster
            | PaneContent::Inspector
            | PaneContent::Trail
            | PaneContent::Tile(_) => true,
            PaneContent::Steward
            | PaneContent::Comms
            | PaneContent::Alembic
            | PaneContent::Apparatus
            | PaneContent::Overmap
            | PaneContent::System
            | PaneContent::Custom(_) => false,
        }
    }
}

/// One node in the layout tree: a split (two children at an axis and a
/// ratio, the ratio as a binary64 bit pattern) or a leaf.
#[derive(Debug, PartialEq)]
pub enum PaneNode {
    Split { axis: SplitAxis, ratio: u64, first: Box<PaneNode>, second: Box<PaneNode> },
    Leaf { pane_id: PaneId, content: PaneContent, graph_id: GraphId },
}

impl Clone for PaneNode {
    fn clone(&self) -> (c: Self)
        ensures
            c == *self,
        decreases self,
    {
        match self {
            PaneNode::Split { axis, ratio, first, second } => {
                let f = (**first).clone();
                let s = (**second).clone();
                PaneNode::Split { axis: *axis, ratio: *ratio, first: Box::new(f), second: Box::new(s) }
            },
            PaneNode::Leaf { pane_id, content, graph_id } => PaneNode::Leaf {
                pane_id: *pane_id,
                content: content.clone(),
                graph_id: *graph_id,
            },
        }
    }
}

/// One step into a split when walking the layout tree.
#[derive(Clone, Copy, Debug, PartialEq, Eq, Hash, Structural)]
pub enum SplitChoice {
    First,
    Second,
}

/// A complete frame: identity, label, and the layout tree.
#[derive(Clone, Debug, PartialEq)]
pub struct FrisketLayout {
    pub id: FrisketId,
    pub label: String,
    pub root: PaneNode,
}

impl Default for FrisketLayout {
    /// A single Orrery pane (id 0) bound to the nil graph, labelled
    /// "content"; the host overwrites it with the real frame at startup.
    fn default() -> (layout: Self)
        ensures
            layout.id.0@ == "content"@,
            layout.label@ == "content"@,
            layout.root == (PaneNode::Leaf {
                pane_id: PaneId(0),
                content: PaneContent::Orrery,
                graph_id: GraphId(0),
            }),
    {
        FrisketLayout {
            id: FrisketId::new("content"),
            label: String::from_str("content"),
            root: PaneNode::Leaf { pane_id: PaneId(0), content: PaneContent::Orrery, graph_id: GraphId::nil() },
        }
    }
}

/// Where to insert a new leaf relative to an existing one.
#[derive(Clone, Copy, Debug, PartialEq, Eq, Structural)]
pub enum InsertSide {
    Left,
    Right,
    Above,
    Below,
}

impl InsertSide {
    /// The axis of the split an insertion on this side creates.
    pub fn split_axis(self) -> (axis: SplitAxis)
        ensures
            axis == (match self {
                InsertSide::Left | InsertSide::Right => SplitAxis::Horizontal,
                InsertSide::Above | InsertSide::Below => SplitAxis::Vertical,
            }),
    {
        match self {
            InsertSide::Left | InsertSide::Right => SplitAxis::Horizontal,
            InsertSide::Above | InsertSide::Below => SplitAxis::Vertical,
        }
    }

    /// True when the new leaf takes the `first` position (left / above).
    pub fn new_is_first(self) -> (first: bool)
        ensures
            first == (self == InsertSide::Left || self == InsertSide::Above),
    {
        match self {
            InsertSide::Left | InsertSide::Above => true,
            _ => false,
        }
    }
}

/// A pane's display title: its tag with the first character uppercased.
pub open spec fn title_of(tag: Seq<char>) -> Seq<char> {
    if tag.len() == 0 {
        Seq::empty()
    } else {
        crate::text::unicode_uppercase_char(tag[0]) + tag.drop_first()
    }
}

/// The display title of a pane's content (see [`title_of`]).
pub fn pane_label(content: &PaneContent) -> (l: String)
    ensures
        l@ == title_of(content_tag(*content)),
{
    let cs = crate::text::chars_of(content.tag());
    if cs.len() == 0 {
        return String::new();
    }
    let mut l = crate::text::char_to_uppercase(cs[0]);
    let rest = crate::text::string_from_chars(&cs, 1, cs.len());
    l.append(rest.as_str());
    assert(cs@.subrange(1, cs@.len() as int) =~= cs@.drop_first());
    l
}

} // verus!
