//! The observation surface: one snapshot plus one event stream over app
//! truth. The scenario lane's asserts read this surface; so do the a11y and
//! automation lanes.

use vstd::prelude::*;

use crate::content::{state_in, ContentStates, NodeContent};
use crate::frisket::{content_tag, FrisketLayout, PaneContent, PaneId, PaneNode, SplitChoice};
use crate::pane::{first_slot, leaves, pane_slots, placed, slot_view, PaneSlot};
use crate::text::{chars_of, contains_chars, contains_text, trim, trim_chars};


verus! {

/// The focused node's identity and captions, as the UI presents them.
#[derive(Clone, Debug, PartialEq)]
pub struct FocusedNode {
    pub member: u128,
    pub url: String,
    /// The at-rest caption (display label, plus host when it adds info).
    pub caption: String,
}

/// The omnibar as observed: state plus suggestion rows as display strings.
#[derive(Clone, Debug, PartialEq)]
pub struct OmnibarView {
    pub open: bool,
    pub text: String,
    pub cursor: usize,
    pub selected: usize,
    pub suggestions: Vec<String>,
}

/// One coherent read of the application's observable state. The split
/// ratio and workbench fractions are binary64 bit patterns.
#[derive(Clone, Debug, PartialEq)]
pub struct Snapshot {
    pub focused: Option<FocusedNode>,
    pub omnibar: OmnibarView,
    /// Per-node content lifecycle, as (member, state label) pairs.
    pub content: Vec<(u128, String)>,
    pub node_count: usize,
    pub graph_visible: bool,
    pub surfaces: Vec<String>,
    pub focus: String,
    pub panes: Vec<String>,
    pub active_pane: Option<String>,
    pub maximized: bool,
    pub trail_rows: Vec<String>,
    pub roster_rows: Vec<String>,
    pub inspector_rows: Vec<String>,
    pub roster_tab: &'static str,
    pub split_ratio: Option<u64>,
    pub workbench_cells: Vec<String>,
    pub workbench_fractions: Vec<u64>,
    pub a11y: Vec<String>,
    pub can_back: bool,
    pub can_forward: bool,
    pub windows: usize,
}

/// A semantic event: something durable or externally observable happened.
#[derive(Clone, Debug, PartialEq)]
pub enum AppEvent {
    AddressOpened(String),
    NavigatedBack(String),
    NavigatedForward(String),
    Reloaded(String),
    NodeSpriteSet(u128),
    WindowOpened,
    WindowClosed,
    OmnibarOpened,
    OmnibarClosed,
    OmnibarCommitted(String),
    LayoutReseeded,
    ContentState { node: u128, state: String },
    PaneSummoned(&'static str),
    PaneClosed,
    WorkbenchTileOpened(String),
    WorkbenchTileClosed,
    WorkbenchStacked,
    WorkbenchSplit,
    /// A pane interaction named a target that is not on screen.
    InteractionMissed { what: &'static str, target: String },
    /// An affordance fired that is not wired yet.
    AffordanceUnavailable { what: &'static str, target: String },
}

/// The lowercase hexadecimal digit of a value below sixteen.
pub open spec fn hex_digit(d: nat) -> char {
    if d < 10 {
        (('0' as u32) + d) as char
    } else {
        (('a' as u32) + d - 10) as char
    }
}

/// The `k` lowest hexadecimal digits of `v`, least significant first.
pub open spec fn hex_lsd(v: nat, k: nat) -> Seq<char>
    decreases k,
{
    if k == 0 {
        Seq::empty()
    } else {
        seq![hex_digit(v % 16)] + hex_lsd(v / 16, (k - 1) as nat)
    }
}

pub proof fn lemma_hex_lsd_len(v: nat, k: nat)
    ensures
        hex_lsd(v, k).len() == k,
    decreases k,
{
    if k > 0 {
        lemma_hex_lsd_len(v / 16, (k - 1) as nat);
    }
}

/// A uuid's hyphenated lowercase rendering (8-4-4-4-12 hex digits, most
/// significant first), as the uuid crate's `Display` writes it.
pub open spec fn uuid_text(v: u128) -> Seq<char> {
    let h = hex_lsd(v as nat, 32).reverse();
    h.subrange(0, 8) + "-"@ + h.subrange(8, 12) + "-"@ + h.subrange(12, 16) + "-"@ + h.subrange(16, 20)
        + "-"@ + h.subrange(20, 32)
}

fn hex_char(d: u128) -> (c: char)
    requires
        d < 16,
    ensures
        c == hex_digit(d as nat),
{
    if d < 10 {
        crate::text::digit_of((d as u64))
    } else {
        crate::text::letter_of((d - 10) as u64)
    }
}

fn hex_lsd_exec(v: u128, k: usize) -> (digits: Vec<char>)
    ensures
        digits@ == hex_lsd(v as nat, k as nat),
    decreases k,
{
    if k == 0 {
        Vec::new()
    } else {
        let mut rest = hex_lsd_exec(v / 16, k - 1);
        rest.insert(0, hex_char(v % 16));
        assert(rest@ =~= seq![hex_digit((v as nat) % 16)] + hex_lsd((v as nat) / 16, (k - 1) as nat));
        rest
    }
}

/// Render a uuid value hyphenated, lowercase.
pub fn uuid_string(v: u128) -> (s: String)
    ensures
        s@ == uuid_text(v),
{
    let lsd = hex_lsd_exec(v, 32);
    proof {
        lemma_hex_lsd_len(v as nat, 32);
    }
    let mut msd: Vec<char> = Vec::new();
    let mut i: usize = 0;
    while i < 32
        invariant
            lsd@.len() == 32,
            i <= 32,
            msd@ == lsd@.reverse().take(i as int),
        decreases 32 - i,
    {
        msd.push(lsd[31 - i]);
        assert(lsd@.reverse().take(i + 1) =~= lsd@.reverse().take(i as int).push(lsd@[31 - i]));
        i = i + 1;
    }
    assert(msd@ =~= lsd@.reverse());
    let mut s = crate::text::string_from_chars(&msd, 0, 8);
    s.append("-");
    let p = crate::text::string_from_chars(&msd, 8, 12);
    s.append(p.as_str());
    s.append("-");
    let p = crate::text::string_from_chars(&msd, 12, 16);
    s.append(p.as_str());
    s.append("-");
    let p = crate::text::string_from_chars(&msd, 16, 20);
    s.append(p.as_str());
    s.append("-");
    let p = crate::text::string_from_chars(&msd, 20, 32);
    s.append(p.as_str());
    s
}

/// `a` followed by a space and `b`.
pub open spec fn spaced(a: Seq<char>, b: Seq<char>) -> Seq<char> {
    a + " "@ + b
}

/// The grep-friendly one-line rendering of an event.
pub open spec fn event_text(e: AppEvent) -> Seq<char> {
    match e {
        AppEvent::AddressOpened(url) => spaced("address-opened"@, url@),
        AppEvent::NavigatedBack(url) => spaced("nav-back"@, url@),
        AppEvent::NavigatedForward(url) => spaced("nav-forward"@, url@),
        AppEvent::Reloaded(url) => spaced("reloaded"@, url@),
        AppEvent::NodeSpriteSet(node) => spaced("sprite-set"@, uuid_text(node)),
        AppEvent::WindowOpened => "window-opened"@,
        AppEvent::WindowClosed => "window-closed"@,
        AppEvent::OmnibarOpened => "omnibar-opened"@,
        AppEvent::OmnibarClosed => "omnibar-closed"@,
        AppEvent::OmnibarCommitted(what) => spaced("omnibar-committed"@, what@),
        AppEvent::LayoutReseeded => "layout-reseeded"@,
        AppEvent::ContentState { node, state } => spaced(spaced("content"@, uuid_text(node)), state@),
        AppEvent::PaneSummoned(kind) => spaced("pane-summoned"@, kind@),
        AppEvent::PaneClosed => "pane-closed"@,
        AppEvent::WorkbenchTileOpened(url) => spaced("workbench-opened"@, url@),
        AppEvent::WorkbenchTileClosed => "workbench-closed"@,
        AppEvent::WorkbenchStacked => "workbench-stacked"@,
        AppEvent::WorkbenchSplit => "workbench-split"@,
        AppEvent::InteractionMissed { what, target } => spaced(spaced("interaction-missed"@, what@), target@),
        AppEvent::AffordanceUnavailable { what, target } => spaced(spaced("affordance-unavailable"@, what@), target@),
    }
}

fn spaced_string(a: &str, b: &str) -> (s: String)
    ensures
        s@ == spaced(a@, b@),
{
    let mut s = String::from_str(a);
    s.append(" ");
    s.append(b);
    s
}

impl AppEvent {
    /// A grep-friendly one-line rendering (what `assert event` matches).
    pub fn describe(&self) -> (d: String)
        ensures
            d@ == event_text(*self),
    {
        match self {
            AppEvent::AddressOpened(url) => spaced_string("address-opened", url.as_str()),
            AppEvent::NavigatedBack(url) => spaced_string("nav-back", url.as_str()),
            AppEvent::NavigatedForward(url) => spaced_string("nav-forward", url.as_str()),
            AppEvent::Reloaded(url) => spaced_string("reloaded", url.as_str()),
            AppEvent::NodeSpriteSet(node) => {
                let id = uuid_string(*node);
                spaced_string("sprite-set", id.as_str())
            },
            AppEvent::WindowOpened => String::from_str("window-opened"),
            AppEvent::WindowClosed => String::from_str("window-closed"),
            AppEvent::OmnibarOpened => String::from_str("omnibar-opened"),
            AppEvent::OmnibarClosed => String::from_str("omnibar-closed"),
            AppEvent::OmnibarCommitted(what) => spaced_string("omnibar-committed", what.as_str()),
            AppEvent::LayoutReseeded => String::from_str("layout-reseeded"),
            AppEvent::ContentState { node, state } => {
                let id = uuid_string(*node);
                let head = spaced_string("content", id.as_str());
                spaced_string(head.as_str(), state.as_str())
            },
            AppEvent::PaneSummoned(kind) => spaced_string("pane-summoned", kind),
            AppEvent::PaneClosed => String::from_str("pane-closed"),
            AppEvent::WorkbenchTileOpened(url) => spaced_string("workbench-opened", url.as_str()),
            AppEvent::WorkbenchTileClosed => String::from_str("workbench-closed"),
            AppEvent::WorkbenchStacked => String::from_str("workbench-stacked"),
            AppEvent::WorkbenchSplit => String::from_str("workbench-split"),
            AppEvent::InteractionMissed { what, target } => {
                let head = spaced_string("interaction-missed", what);
                spaced_string(head.as_str(), target.as_str())
            },
            AppEvent::AffordanceUnavailable { what, target } => {
                let head = spaced_string("affordance-unavailable", what);
                spaced_string(head.as_str(), target.as_str())
            },
        }
    }
}

/// One omnibar suggestion row.
#[derive(Clone, Debug, PartialEq)]
pub enum Suggestion {
    /// An existing graph node: its display label and host (empty when none).
    Node { member: u128, label: String, host: String },
    /// Go to a literal address.
    Go { url: String },
    /// Run a palette action.
    Act { label: String },
    /// An inert hint line.
    Hint(String),
}

/// The display string of a suggestion row.
pub open spec fn suggestion_text(s: Suggestion) -> Seq<char> {
    match s {
        Suggestion::Node { label, host, .. } => if host@.len() > 0 {
            label@ + " \u{00b7} "@ + host@
        } else {
            label@
        },
        Suggestion::Go { url } => "go "@ + url@,
        Suggestion::Act { label } => "\u{203a} "@ + label@,
        Suggestion::Hint(h) => h@,
    }
}

/// One suggestion row as its display string (the assert/a11y rendering).
pub fn suggestion_line(s: &Suggestion) -> (line: String)
    ensures
        line@ == suggestion_text(*s),
{
    match s {
        Suggestion::Node { label, host, .. } => {
            if host.as_str().unicode_len() > 0 {
                let mut l = label.clone();
                l.append(" \u{00b7} ");
                l.append(host.as_str());
                l
            } else {
                label.clone()
            }
        },
        Suggestion::Go { url } => {
            let mut l = String::from_str("go ");
            l.append(url.as_str());
            l
        },
        Suggestion::Act { label } => {
            let mut l = String::from_str("\u{203a} ");
            l.append(label.as_str());
            l
        },
        Suggestion::Hint(h) => h.clone(),
    }
}

/// The label a node's content lifecycle reads as in a snapshot.
pub open spec fn lifecycle_label(state: NodeContent) -> Seq<char> {
    match state {
        NodeContent::Requested => "requested"@,
        NodeContent::Live => "live"@,
        NodeContent::Failed(err) => "failed: "@ + err@,
    }
}

/// The (node, lifecycle label) rows of the nodes in `nodes` that have
/// content activity, in `nodes` order.
pub open spec fn content_rows_of(nodes: Seq<u128>, m: Map<u128, NodeContent>) -> Seq<(u128, Seq<char>)>
    decreases nodes.len(),
{
    if nodes.len() == 0 {
        Seq::empty()
    } else {
        let rest = content_rows_of(nodes.drop_last(), m);
        match state_in(m, nodes.last()) {
            Some(s) => rest.push((nodes.last(), lifecycle_label(s))),
            None => rest,
        }
    }
}

/// The per-node content rows of a snapshot: each graph node (in graph
/// order) that has content activity, with its lifecycle label.
pub fn content_rows(nodes: &Vec<u128>, states: &ContentStates) -> (rows: Vec<(u128, String)>)
    ensures
        rows@.map_values(|r: (u128, String)| (r.0, r.1@)) == content_rows_of(nodes@, states@),
{
    let mut rows: Vec<(u128, String)> = Vec::new();
    let mut i: usize = 0;
    while i < nodes.len()
        invariant
            i <= nodes.len(),
            rows@.map_values(|r: (u128, String)| (r.0, r.1@)) == content_rows_of(nodes@.take(i as int), states@),
        decreases nodes.len() - i,
    {
        let node = nodes[i];
        assert(nodes@.take(i + 1).drop_last() =~= nodes@.take(i as int));
        assert(nodes@.take(i + 1).last() == node);
        let ghost before = rows@;
        match states.get(node) {
            Some(state) => {
                let label = match state {
                    NodeContent::Requested => String::from_str("requested"),
                    NodeContent::Live => String::from_str("live"),
                    NodeContent::Failed(err) => {
                        let mut l = String::from_str("failed: ");
                        l.append(err.as_str());
                        l
                    },
                };
                rows.push((node, label));
                assert(rows@.map_values(|r: (u128, String)| (r.0, r.1@))
                    =~= before.map_values(|r: (u128, String)| (r.0, r.1@)).push((node, label@)));
            },
            None => {},
        }
        i = i + 1;
    }
    assert(nodes@.take(nodes.len() as int) =~= nodes@);
    rows
}

/// The label a workbench member reads as: its node's title when the title
/// is not blank, else its address; a member whose node is gone reads as
/// its uuid. `nodes` lists the graph's (id, title, address) in graph order.
pub open spec fn member_label(nodes: Seq<(u128, String, String)>, member: u128, from: int) -> Seq<char>
    decreases nodes.len() - from,
{
    if from < 0 || from >= nodes.len() {
        uuid_text(member)
    } else if nodes[from].0 == member {
        if trim(nodes[from].1@).len() == 0 { nodes[from].2@ } else { nodes[from].1@ }
    } else {
        member_label(nodes, member, from + 1)
    }
}

/// A workbench slot's cell text over its first `n` members: their labels
/// joined by `|`, the active one marked with `*`.
pub open spec fn cell_text(nodes: Seq<(u128, String, String)>, members: Seq<u128>, active: int, n: int) -> Seq<char>
    decreases n,
{
    if n <= 0 {
        Seq::empty()
    } else {
        let i = n - 1;
        let label = member_label(nodes, members[i], 0) + (if i == active { "*"@ } else { Seq::empty() });
        if i == 0 { label } else { cell_text(nodes, members, active, i) + "|"@ + label }
    }
}

fn member_label_of(nodes: &Vec<(u128, String, String)>, member: u128) -> (l: String)
    ensures
        l@ == member_label(nodes@, member, 0),
{
    let mut i: usize = 0;
    while i < nodes.len()
        invariant
            i <= nodes.len(),
            member_label(nodes@, member, 0) == member_label(nodes@, member, i as int),
        decreases nodes.len() - i,
    {
        if nodes[i].0 == member {
            let t = chars_of(nodes[i].1.as_str());
            let trimmed = trim_chars(&t, 0, t.len());
            assert(t@.subrange(0, t@.len() as int) =~= t@);
            if trimmed.len() == 0 {
                return nodes[i].2.clone();
            } else {
                return nodes[i].1.clone();
            }
        }
        i = i + 1;
    }
    uuid_string(member)
}

/// The workbench's cells as the snapshot reports them: per slot, its
/// members' labels joined by `|`, the active member marked `*`. `slots`
/// lists each slot's members and active index.
pub fn workbench_cells(slots: &Vec<(Vec<u128>, usize)>, nodes: &Vec<(u128, String, String)>) -> (cells: Vec<String>)
    ensures
        cells@.len() == slots@.len(),
        forall|k: int| 0 <= k < slots@.len() ==> (#[trigger] cells@[k])@
            == cell_text(nodes@, slots@[k].0@, slots@[k].1 as int, slots@[k].0@.len() as int),
{
    let mut cells: Vec<String> = Vec::new();
    let mut k: usize = 0;
    while k < slots.len()
        invariant
            k <= slots.len(),
            cells@.len() == k,
            forall|m: int| 0 <= m < k ==> (#[trigger] cells@[m])@
                == cell_text(nodes@, slots@[m].0@, slots@[m].1 as int, slots@[m].0@.len() as int),
        decreases slots.len() - k,
    {
        let members = &slots[k].0;
        let active = slots[k].1;
        let mut cell = String::new();
        let mut i: usize = 0;
        while i < members.len()
            invariant
                i <= members.len(),
                cell@ == cell_text(nodes@, members@, active as int, i as int),
            decreases members.len() - i,
        {
            if i > 0 {
                cell.append("|");
            }
            let label = member_label_of(nodes, members[i]);
            cell.append(label.as_str());
            if i == active {
                cell.append("*");
            }
            proof {
                let lab = member_label(nodes@, members@[i as int], 0) + (if i == active { "*"@ } else { Seq::<char>::empty() });
                if i == 0 {
                    assert(cell@ =~= lab);
                } else {
                    assert(cell@ =~= cell_text(nodes@, members@, active as int, i as int) + "|"@ + lab);
                }
            }
            i = i + 1;
        }
        cells.push(cell);
        k = k + 1;
    }
    cells
}

/// The at-rest caption of the focused node: its display label, plus its
/// host when the label does not already show it.
pub open spec fn caption_text(label: Seq<char>, host: Option<Seq<char>>) -> Seq<char> {
    match host {
        Some(h) => if contains_text(label, h) { label } else { label + "  \u{00b7}  "@ + h },
        None => label,
    }
}

/// The focused node's caption (see [`caption_text`]); `host` is the node's
/// cached host, when it has one.
pub fn focused_caption(label: &str, host: Option<&str>) -> (c: String)
    ensures
        c@ == caption_text(label@, match host {
            Some(h) => Some(h@),
            None => None,
        }),
{
    match host {
        Some(h) => {
            if contains_chars(&chars_of(label), &chars_of(h)) {
                String::from_str(label)
            } else {
                let mut c = String::from_str(label);
                c.append("  \u{00b7}  ");
                c.append(h);
                c
            }
        },
        None => String::from_str(label),
    }
}

/// The surface a leaf composes as: the canvas for the Orrery, else a pane.
pub open spec fn leaf_surface(content: PaneContent) -> Seq<char> {
    if content == PaneContent::Orrery { "canvas"@ } else { "pane"@ }
}

/// The surfaces a frame composes, bottom up: one per leaf of the tree (in
/// walk order), a divider when the tree is split and nothing is maximized,
/// the content over the canvas when the focused node is live, and the
/// chrome on top when it has something to show.
pub open spec fn frame_surfaces(root: PaneNode, maximized: bool, focused_live: bool, chrome: bool) -> Seq<Seq<char>> {
    leaves(root, Seq::empty()).map_values(|l: (PaneId, PaneContent, Seq<SplitChoice>)| leaf_surface(l.1))
        + (if root is Split && !maximized { seq!["divider"@] } else { Seq::empty() })
        + (if focused_live { seq!["content"@] } else { Seq::empty() })
        + (if chrome { seq!["chrome"@] } else { Seq::empty() })
}

/// The surfaces a frame of `layout` composes (see [`frame_surfaces`]).
/// `chrome` says whether the chrome has something to show.
pub fn surfaces_of(layout: &FrisketLayout, maximized: Option<PaneId>, focused_live: bool, chrome: bool) -> (s: Vec<String>)
    ensures
        s@.map_values(|x: String| x@) == frame_surfaces(layout.root, maximized is Some, focused_live, chrome),
{
    let slots = pane_slots(layout, None);
    let ghost all = leaves(layout.root, Seq::empty());
    assert(slots@.map_values(|x: PaneSlot| slot_view(x)) == all);
    let mut out: Vec<String> = Vec::new();
    let mut i: usize = 0;
    while i < slots.len()
        invariant
            i <= slots.len(),
            slots@.map_values(|x: PaneSlot| slot_view(x)) == all,
            out@.map_values(|x: String| x@)
                == all.take(i as int).map_values(|l: (PaneId, PaneContent, Seq<SplitChoice>)| leaf_surface(l.1)),
        decreases slots.len() - i,
    {
        let is_canvas = match slots[i].content {
            PaneContent::Orrery => true,
            _ => false,
        };
        let ghost c = slots@[i as int].content;
        assert(slot_view(slots@[i as int]) == all[i as int]);
        assert(all[i as int].1 == c);
        assert(is_canvas == (c == PaneContent::Orrery));
        let word = String::from_str(if is_canvas { "canvas" } else { "pane" });
        assert(word@ == leaf_surface(c));
        let ghost before = out@;
        out.push(word);
        assert(out@ == before.push(word));
        assert(out@.map_values(|x: String| x@) =~= before.map_values(|x: String| x@).push(word@));
        assert(all.take(i + 1) =~= all.take(i as int).push(all[i as int]));
        assert(all.take(i + 1).map_values(|l: (PaneId, PaneContent, Seq<SplitChoice>)| leaf_surface(l.1))
            =~= all.take(i as int).map_values(|l: (PaneId, PaneContent, Seq<SplitChoice>)| leaf_surface(l.1)).push(
            leaf_surface(all[i as int].1)));
        assert(out@.map_values(|x: String| x@) =~= all.take(i + 1).map_values(
            |l: (PaneId, PaneContent, Seq<SplitChoice>)| leaf_surface(l.1)));
        i = i + 1;
    }
    assert(all.take(slots.len() as int) =~= all);
    let ghost base = out@.map_values(|x: String| x@);
    let split = match &layout.root {
        PaneNode::Split { .. } => true,
        PaneNode::Leaf { .. } => false,
    };
    if split && maximized.is_none() {
        out.push(String::from_str("divider"));
    }
    let ghost with_divider = out@.map_values(|x: String| x@);
    assert(with_divider =~= base + (if split && maximized.is_none() { seq!["divider"@] } else { Seq::empty() }));
    if focused_live {
        out.push(String::from_str("content"));
    }
    let ghost with_content = out@.map_values(|x: String| x@);
    assert(with_content =~= with_divider + (if focused_live { seq!["content"@] } else { Seq::empty() }));
    if chrome {
        out.push(String::from_str("chrome"));
    }
    assert(out@.map_values(|x: String| x@) =~= with_content + (if chrome { seq!["chrome"@] } else { Seq::empty() }));
    out
}

/// The tags of a layout's leaves, in walk order.
pub fn pane_tags(layout: &FrisketLayout) -> (t: Vec<String>)
    ensures
        t@.map_values(|x: String| x@) == leaves(layout.root, Seq::empty()).map_values(
            |l: (PaneId, PaneContent, Seq<SplitChoice>)| content_tag(l.1)),
{
    let slots = pane_slots(layout, None);
    let ghost all = leaves(layout.root, Seq::empty());
    let mut out: Vec<String> = Vec::new();
    let mut i: usize = 0;
    while i < slots.len()
        invariant
            i <= slots.len(),
            slots@.map_values(|x: PaneSlot| slot_view(x)) == all,
            out@.map_values(|x: String| x@)
                == all.take(i as int).map_values(|l: (PaneId, PaneContent, Seq<SplitChoice>)| content_tag(l.1)),
        decreases slots.len() - i,
    {
        assert(slot_view(slots@[i as int]) == all[i as int]);
        assert(all[i as int].1 == slots@[i as int].content);
        let tag = String::from_str(slots[i].content.tag());
        assert(tag@ == content_tag(all[i as int].1));
        let ghost before = out@;
        out.push(tag);
        assert(out@ == before.push(tag));
        assert(out@.map_values(|x: String| x@) =~= before.map_values(|x: String| x@).push(tag@));
        assert(all.take(i + 1) =~= all.take(i as int).push(all[i as int]));
        assert(all.take(i + 1).map_values(|l: (PaneId, PaneContent, Seq<SplitChoice>)| content_tag(l.1))
            =~= all.take(i as int).map_values(|l: (PaneId, PaneContent, Seq<SplitChoice>)| content_tag(l.1)).push(
            content_tag(all[i as int].1)));
        assert(out@.map_values(|x: String| x@) =~= all.take(i + 1).map_values(
            |l: (PaneId, PaneContent, Seq<SplitChoice>)| content_tag(l.1)));
        i = i + 1;
    }
    assert(all.take(slots.len() as int) =~= all);
    out
}

/// The tag of the active pane's leaf, when a leaf carries it.
pub fn active_pane_tag(layout: &FrisketLayout, active: Option<PaneId>) -> (t: Option<String>)
    ensures
        match active {
            Some(a) => match first_slot(leaves(layout.root, Seq::empty()), a, 0) {
                Some(i) => t matches Some(s) && s@ == content_tag(leaves(layout.root, Seq::empty())[i].1),
                None => t is None,
            },
            None => t is None,
        },
{
    match active {
        Some(a) => {
            let slots = pane_slots(layout, Some(a));
            let ghost all = leaves(layout.root, Seq::empty());
            proof {
                crate::pane::lemma_first_slot(all, a, 0);
            }
            let ghost v = slots@.map_values(|x: PaneSlot| slot_view(x));
            if slots.len() == 1 && slots[0].id.0 == a.0 {
                proof {
                    assert(v[0] == slot_view(slots@[0]));
                    if first_slot(all, a, 0) is None {
                        assert(v == all);
                        assert(all[0].0 == a);
                    }
                }
                Some(String::from_str(slots[0].content.tag()))
            } else {
                proof {
                    if first_slot(all, a, 0) is Some {
                        assert(v.len() == 1);
                        assert(v[0] == slot_view(slots@[0]));
                    }
                }
                None
            }
        },
        None => None,
    }
}

/// The primary tree's top split ratio (a binary64 bit pattern), when the
/// tree is split.
pub fn split_ratio(layout: &FrisketLayout) -> (r: Option<u64>)
    ensures
        r == (match layout.root {
            PaneNode::Split { ratio, .. } => Some(ratio),
            PaneNode::Leaf { .. } => None,
        }),
{
    match &layout.root {
        PaneNode::Split { ratio, .. } => Some(*ratio),
        PaneNode::Leaf { .. } => None,
    }
}

} // verus!
