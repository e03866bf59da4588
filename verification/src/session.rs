//! Session bookkeeping on disk: where the sessions live, and which one a
//! boot reopens.

use vstd::prelude::*;

use crate::action::{Effect, RemovedRecord};
use crate::content::ContentStates;
use crate::content::NodeContent;
use crate::frisket::{FrisketLayout, PaneId, PaneNode, SessionId};
use crate::observe::{hex_digit, hex_lsd, lemma_hex_lsd_len, uuid_string, uuid_text};
use crate::envelope::{parse_uuid, uuid_parse_outcome};
use crate::paths::{
    beneath, is_plain_name, is_separator, join_path, joined, lemma_joined_keeps, separated_base,
};
use crate::text::{chars_of, string_of, trim, trim_chars};

verus! {

/// The sessions directory under the data root: one subdirectory per
/// session, named by its uuid.
pub fn sessions_root(data_root: &str) -> (p: String)
    ensures
        joined(data_root@, "sessions"@, p@),
{
    proof {
        reveal_strlit("sessions");
    }
    join_path(data_root, "sessions")
}

proof fn lemma_hex_lsd_plain(v: nat, k: nat)
    ensures
        forall|i: int| 0 <= i < hex_lsd(v, k).len() ==> {
            let c = #[trigger] hex_lsd(v, k)[i];
            ('0' <= c <= '9' || 'a' <= c <= 'f')
        },
    decreases k,
{
    if k > 0 {
        lemma_hex_lsd_plain(v / 16, (k - 1) as nat);
        let d = v % 16;
        let c = hex_digit(d);
        assert('0' <= c <= '9' || 'a' <= c <= 'f');
        let rest = hex_lsd(v / 16, (k - 1) as nat);
        assert forall|i: int| 0 <= i < hex_lsd(v, k).len() implies {
            let c = #[trigger] hex_lsd(v, k)[i];
            ('0' <= c <= '9' || 'a' <= c <= 'f')
        } by {
            if i > 0 {
                assert(hex_lsd(v, k)[i] == rest[i - 1]);
            }
        }
    }
}

/// A uuid's text is a plain file name.
pub proof fn lemma_uuid_text_plain(v: u128)
    ensures
        is_plain_name(uuid_text(v)),
{
    reveal_strlit("-");
    lemma_hex_lsd_plain(v as nat, 32);
    lemma_hex_lsd_len(v as nat, 32);
    let t = uuid_text(v);
    let h = hex_lsd(v as nat, 32).reverse();
    assert(h.len() == 32);
    assert(t.len() == 36);
    assert forall|i: int| 0 <= i < t.len() implies !is_separator(#[trigger] t[i]) && t[i] != ':' by {
        if i == 8 || i == 13 || i == 18 || i == 23 {
            assert(t[i] == '-');
        } else {
            let j = if i < 8 { i } else if i < 13 { i - 1 } else if i < 18 { i - 2 } else if i < 23 { i - 3 } else { i - 4 };
            assert(t[i] == h[j]);
            assert(h[j] == hex_lsd(v as nat, 32)[31 - j]);
        }
    }
}

/// One session's directory: where all its sidecars live.
pub fn session_dir(data_root: &str, id: SessionId) -> (p: String)
    ensures
        exists|root: Seq<char>| joined(data_root@, "sessions"@, root) && joined(root, uuid_text(id.0), p@),
        separated_base(data_root@) ==> exists|root: Seq<char>|
            beneath(data_root@, "sessions"@, root) && beneath(root, uuid_text(id.0), p@),
{
    let root = sessions_root(data_root);
    let name = uuid_string(id.0);
    proof {
        lemma_uuid_text_plain(id.0);
        reveal_strlit("sessions");
        assert("sessions"@ =~= seq!['s', 'e', 's', 's', 'i', 'o', 'n', 's']);
        lemma_joined_keeps(data_root@, "sessions"@, root@);
    }
    let p = join_path(root.as_str(), name.as_str());
    assert(joined(data_root@, "sessions"@, root@) && joined(root@, uuid_text(id.0), p@));
    proof {
        if separated_base(data_root@) {
            assert(beneath(data_root@, "sessions"@, root@) && beneath(root@, uuid_text(id.0), p@));
        }
    }
    p
}

/// The session a marker names: its trimmed text parsed as a uuid, when a
/// listed session carries that id.
pub open spec fn recorded_session(marker: Option<Seq<char>>, listed: Seq<(SessionId, u64)>) -> Option<SessionId> {
    match marker {
        Some(m) => match uuid_parse_outcome(trim(m)) {
            Ok(v) => if exists|i: int| 0 <= i < listed.len() && (#[trigger] listed[i]).0 == SessionId(v) {
                Some(SessionId(v))
            } else {
                None
            },
            Err(_) => None,
        },
        None => None,
    }
}

/// The text of a marker, when there is one.
pub open spec fn marker_text(marker: Option<&str>) -> Option<Seq<char>> {
    match marker {
        Some(m) => Some(m@),
        None => None,
    }
}

/// The index of the most recently updated listing (the last of equals).
pub open spec fn latest_index(listed: Seq<(SessionId, u64)>) -> Option<int>
    decreases listed.len(),
{
    if listed.len() == 0 {
        None
    } else {
        match latest_index(listed.drop_last()) {
            Some(j) => if listed.last().1 >= listed[j].1 { Some(listed.len() - 1) } else { Some(j) },
            None => Some(listed.len() - 1),
        }
    }
}

/// The session a boot should open: the one the current-session marker
/// names when it is still listed, else the most recently updated listing,
/// else `None` (a fresh install; the caller mints one). `listed` is the
/// manifest store's (id, last update) pairs in its iteration order;
/// `marker` is the marker file's text, when it could be read.
pub fn pick_session(marker: Option<&str>, listed: &Vec<(SessionId, u64)>) -> (r: Option<SessionId>)
    ensures
        r == (match recorded_session(marker_text(marker), listed@) {
            Some(id) => Some(id),
            None => match latest_index(listed@) {
                Some(j) => Some(listed@[j].0),
                None => None,
            },
        }),
{
    if let Some(m) = marker {
        let cs = chars_of(m);
        let t = trim_chars(&cs, 0, cs.len());
        assert(cs@.subrange(0, cs@.len() as int) =~= cs@);
        let text = string_of(&t);
        if let Ok(v) = parse_uuid(text.as_str()) {
            let mut i: usize = 0;
            while i < listed.len()
                invariant
                    i <= listed.len(),
                    text@ == trim(m@),
                    marker_text(marker) == Some(m@),
                    uuid_parse_outcome(trim(m@)) == Ok::<u128, Seq<char>>(v),
                    forall|k: int| 0 <= k < i ==> (#[trigger] listed@[k]).0 != SessionId(v),
                decreases listed.len() - i,
            {
                if listed[i].0.0 == v {
                    assert(listed@[i as int].0 == SessionId(v));
                    return Some(SessionId(v));
                }
                i = i + 1;
            }
        }
    }
    let mut best: Option<usize> = None;
    let mut i: usize = 0;
    while i < listed.len()
        invariant
            i <= listed.len(),
            match best {
                Some(j) => latest_index(listed@.take(i as int)) == Some(j as int) && j < i,
                None => latest_index(listed@.take(i as int)) is None && i == 0,
            },
        decreases listed.len() - i,
    {
        assert(listed@.take(i + 1).drop_last() =~= listed@.take(i as int));
        match best {
            Some(j) => {
                if listed[i].1 >= listed[j].1 {
                    best = Some(i);
                }
            },
            None => {
                best = Some(i);
            },
        }
        i = i + 1;
    }
    assert(listed@.take(listed.len() as int) =~= listed@);
    match best {
        Some(j) => Some(listed[j].0),
        None => None,
    }
}

/// The largest pane id in a tree.
pub open spec fn max_pane(node: PaneNode) -> u64
    decreases node,
{
    match node {
        PaneNode::Leaf { pane_id, .. } => pane_id.0,
        PaneNode::Split { first, second, .. } => {
            let a = max_pane(*first);
            let b = max_pane(*second);
            if a >= b { a } else { b }
        },
    }
}

/// The largest pane id across the primary tree and the live lens slots
/// below `k`.
pub open spec fn max_pane_all(primary: PaneNode, lenses: Seq<Option<FrisketLayout>>, k: int) -> u64
    decreases k,
{
    if k <= 0 {
        max_pane(primary)
    } else {
        let rest = max_pane_all(primary, lenses, k - 1);
        match lenses[k - 1] {
            Some(l) => if max_pane(l.root) > rest { max_pane(l.root) } else { rest },
            None => rest,
        }
    }
}

/// The window reopens for the live lens slots below `k`, in slot order.
pub open spec fn lens_reopens(lenses: Seq<Option<FrisketLayout>>, k: int) -> Seq<Effect>
    decreases k,
{
    if k <= 0 {
        Seq::empty()
    } else {
        let rest = lens_reopens(lenses, k - 1);
        if lenses[k - 1] is Some { rest.push(Effect::OpenWindow { ordinal: (k - 1) as usize }) } else { rest }
    }
}

/// The content respawns for the nodes whose content was on, in order.
pub open spec fn content_respawns(on: Seq<(u128, String)>) -> Seq<Effect> {
    on.map_values(|e: (u128, String)| Effect::SpawnContent { node: e.0, url: e.1 })
}

/// The lifecycle map after requesting content for the first `k` nodes.
pub open spec fn requested_upto(on: Seq<(u128, String)>, k: int) -> Map<u128, NodeContent>
    decreases k,
{
    if k <= 0 {
        Map::empty()
    } else {
        requested_upto(on, k - 1).insert(on[k - 1].0, NodeContent::Requested)
    }
}

/// The session-scoped state an adopted session starts from.
pub struct Adopted {
    /// Lens-window reopens, then content respawns, then a redraw.
    pub effects: Vec<Effect>,
    /// Every node whose content was on, requested afresh.
    pub content: ContentStates,
    /// One past the largest pane id in any window's tree.
    pub next_pane_id: u64,
    pub active_pane: Option<PaneId>,
    pub maximized: Option<PaneId>,
    pub roster_tab: usize,
    /// The bin mirror, empty until the reopened store answers.
    pub removed: Vec<RemovedRecord>,
    pub window_count: usize,
}

fn max_pane_of(node: &PaneNode) -> (m: u64)
    ensures
        m == max_pane(*node),
    decreases node,
{
    match node {
        PaneNode::Leaf { pane_id, .. } => pane_id.0,
        PaneNode::Split { first, second, .. } => {
            let a = max_pane_of(first);
            let b = max_pane_of(second);
            if a >= b { a } else { b }
        },
    }
}

/// Adopting a session's restored layout: each live lens slot's window
/// reopens (in slot order), each node whose content was on respawns (in
/// the order given) and is requested afresh, and then the frame redraws.
/// Pane ids continue past the largest in any window; the active pane,
/// maximize and roster tab reset, the bin mirror empties, and one window is
/// open. `content_on` holds the graph's nodes (id and address) whose
/// content was on when the session was saved.
pub fn adopt_session(primary: &FrisketLayout, lenses: &Vec<Option<FrisketLayout>>, content_on: &Vec<(u128, String)>) -> (a: Adopted)
    requires
        max_pane_all(primary.root, lenses@, lenses@.len() as int) < u64::MAX,
    ensures
        a.effects@ == lens_reopens(lenses@, lenses@.len() as int) + content_respawns(content_on@)
            + seq![Effect::Redraw],
        a.content@ == requested_upto(content_on@, content_on@.len() as int),
        a.next_pane_id == max_pane_all(primary.root, lenses@, lenses@.len() as int) + 1,
        a.active_pane is None,
        a.maximized is None,
        a.roster_tab == 0,
        a.removed@.len() == 0,
        a.window_count == 1,
{
    let mut effects: Vec<Effect> = Vec::new();
    let mut top: u64 = max_pane_of(&primary.root);
    let mut i: usize = 0;
    while i < lenses.len()
        invariant
            i <= lenses.len(),
            effects@ == lens_reopens(lenses@, i as int),
            top == max_pane_all(primary.root, lenses@, i as int),
        decreases lenses.len() - i,
    {
        match &lenses[i] {
            Some(l) => {
                effects.push(Effect::OpenWindow { ordinal: i });
                let m = max_pane_of(&l.root);
                if m > top {
                    top = m;
                }
            },
            None => {},
        }
        i = i + 1;
    }
    let ghost reopens = effects@;
    let mut content = ContentStates::new();
    let mut k: usize = 0;
    while k < content_on.len()
        invariant
            k <= content_on.len(),
            effects@ == reopens + content_respawns(content_on@.take(k as int)),
            content@ == requested_upto(content_on@, k as int),
        decreases content_on.len() - k,
    {
        let (node, url) = &content_on[k];
        content.note_requested(*node);
        effects.push(Effect::SpawnContent { node: *node, url: url.clone() });
        assert(content_respawns(content_on@.take(k + 1)) =~= content_respawns(content_on@.take(k as int)).push(
            Effect::SpawnContent { node: content_on@[k as int].0, url: content_on@[k as int].1 }));
        k = k + 1;
    }
    assert(content_on@.take(content_on.len() as int) =~= content_on@);
    effects.push(Effect::Redraw);
    Adopted {
        effects,
        content,
        next_pane_id: top + 1,
        active_pane: None,
        maximized: None,
        roster_tab: 0,
        removed: Vec::new(),
        window_count: 1,
    }
}

} // verus!
