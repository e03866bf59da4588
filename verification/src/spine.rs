//! The decisions the action spine makes on app-owned state: what an intent
//! does to the content lane, which session a switch or a close lands on,
//! what a maximize toggles, where the omnibar highlight moves. The host
//! reads what they need from the graph it holds (the focused node, whether
//! an address is fetchable) and runs the effects they return.

use vstd::prelude::*;

use crate::action::{Effect, PaneKind, Update};
use crate::content::{spawns_on_flip, state_in, ContentStates, NodeContent};
use crate::frisket::{PaneContent, PaneId, SessionId};
use crate::observe::AppEvent;
use crate::session::latest_index;

verus! {

/// Whether `e` is the content-state event for `node` with state text `state`.
pub open spec fn is_content_event(e: AppEvent, node: u128, state: Seq<char>) -> bool {
    e matches AppEvent::ContentState { node: n, state: s } && n == node && s@ == state
}

fn content_event(node: u128, state: &str) -> (e: AppEvent)
    ensures
        is_content_event(e, node, state@),
{
    AppEvent::ContentState { node, state: String::from_str(state) }
}

/// Flip the focused node's live content: spawn it, or close what is live or
/// in flight. `target` is the focused node and its address; with no focus
/// the flip does nothing.
pub fn flip_content(states: &mut ContentStates, target: Option<(u128, String)>) -> (r: (Vec<Effect>, Vec<AppEvent>))
    ensures
        match target {
            None => final(states)@ == old(states)@ && r.0@.len() == 0 && r.1@.len() == 0,
            Some((node, url)) => if spawns_on_flip(state_in(old(states)@, node)) {
                &&& final(states)@ == old(states)@.insert(node, NodeContent::Requested)
                &&& r.0@ == seq![Effect::SpawnContent { node, url }, Effect::Redraw]
                &&& r.1@.len() == 1 && is_content_event(r.1@[0], node, "requested"@)
            } else {
                &&& final(states)@ == old(states)@.remove(node)
                &&& r.0@ == seq![Effect::CloseContent { node }, Effect::Redraw]
                &&& r.1@.len() == 1 && is_content_event(r.1@[0], node, "closed"@)
            },
        },
{
    match target {
        None => (Vec::new(), Vec::new()),
        Some((node, url)) => {
            let mut effects: Vec<Effect> = Vec::new();
            let mut events: Vec<AppEvent> = Vec::new();
            if states.flip_spawns(node) {
                states.note_requested(node);
                events.push(content_event(node, "requested"));
                effects.push(Effect::SpawnContent { node, url });
            } else {
                states.note_closed(node);
                events.push(content_event(node, "closed"));
                effects.push(Effect::CloseContent { node });
            }
            effects.push(Effect::Redraw);
            assert(effects@ =~= seq![effects@[0], Effect::Redraw]);
            (effects, events)
        },
    }
}

/// Reload the focused node: refetch it when its address is fetchable, and
/// respawn its content when a session is live or in flight (a node without
/// content stays without: a reload is not a spawn). With no focus it only
/// redraws.
pub fn reload(states: &mut ContentStates, target: Option<(u128, String)>, fetchable: bool) -> (r: (Vec<Effect>, Vec<AppEvent>))
    ensures
        match target {
            None => final(states)@ == old(states)@ && r.0@ == seq![Effect::Redraw] && r.1@.len() == 0,
            Some((node, url)) => {
                let respawn = !spawns_on_flip(state_in(old(states)@, node));
                let fetch = if fetchable { seq![Effect::FetchPage { node, url }] } else { Seq::empty() };
                &&& r.0@ == fetch + (if respawn {
                    seq![Effect::CloseContent { node }, Effect::SpawnContent { node, url }]
                } else {
                    Seq::empty()
                }) + seq![Effect::Redraw]
                &&& final(states)@ == (if respawn { old(states)@.insert(node, NodeContent::Requested) } else { old(states)@ })
                &&& r.1@.len() == (if respawn { 2int } else { 1int })
                &&& r.1@[0] == AppEvent::Reloaded(url)
                &&& respawn ==> is_content_event(r.1@[1], node, "requested"@)
            },
        },
{
    match target {
        None => {
            let mut effects: Vec<Effect> = Vec::new();
            effects.push(Effect::Redraw);
            assert(effects@ =~= seq![Effect::Redraw]);
            (effects, Vec::new())
        },
        Some((node, url)) => {
            let ghost u = url;
            let mut events: Vec<AppEvent> = Vec::new();
            events.push(AppEvent::Reloaded(url.clone()));
            let mut effects: Vec<Effect> = Vec::new();
            if fetchable {
                effects.push(Effect::FetchPage { node, url: url.clone() });
            }
            let ghost fetched = effects@;
            let respawn = !states.flip_spawns(node);
            if respawn {
                states.note_requested(node);
                events.push(content_event(node, "requested"));
                effects.push(Effect::CloseContent { node });
                effects.push(Effect::SpawnContent { node, url });
            }
            let ghost middle = effects@;
            effects.push(Effect::Redraw);
            proof {
                let fetch = if fetchable { seq![Effect::FetchPage { node, url: u }] } else { Seq::<Effect>::empty() };
                assert(fetched =~= fetch);
                if respawn {
                    assert(middle =~= fetch + seq![Effect::CloseContent { node }, Effect::SpawnContent { node, url: u }]);
                } else {
                    assert(middle =~= fetch + Seq::<Effect>::empty());
                }
                assert(effects@ =~= middle + seq![Effect::Redraw]);
            }
            (effects, events)
        },
    }
}

/// Fold a content-port answer into the lifecycle: a spawned session is live,
/// a failed spawn keeps its reason (and says so, loudly). Other answers are
/// not the content lane's and change nothing here.
pub fn apply_content_update(states: &mut ContentStates, update: &Update) -> (r: (Vec<Effect>, Vec<AppEvent>))
    ensures
        match *update {
            Update::ContentSpawned { node } => {
                &&& final(states)@ == old(states)@.insert(node, NodeContent::Live)
                &&& r.0@ == seq![Effect::Redraw]
                &&& r.1@.len() == 1 && is_content_event(r.1@[0], node, "live"@)
            },
            Update::ContentFailed { node, error } => {
                &&& final(states)@ == old(states)@.insert(node, NodeContent::Failed(error))
                &&& r.0@ == seq![Effect::Redraw]
                &&& r.1@.len() == 1 && is_content_event(r.1@[0], node, "failed: "@ + error@)
            },
            _ => final(states)@ == old(states)@ && r.0@.len() == 0 && r.1@.len() == 0,
        },
{
    match update {
        Update::ContentSpawned { node } => {
            states.note_live(*node);
            let mut effects: Vec<Effect> = Vec::new();
            effects.push(Effect::Redraw);
            let mut events: Vec<AppEvent> = Vec::new();
            events.push(content_event(*node, "live"));
            assert(effects@ =~= seq![Effect::Redraw]);
            (effects, events)
        },
        Update::ContentFailed { node, error } => {
            let mut state = String::from_str("failed: ");
            state.append(error.as_str());
            let mut events: Vec<AppEvent> = Vec::new();
            events.push(AppEvent::ContentState { node: *node, state });
            states.note_failed(*node, error.clone());
            let mut effects: Vec<Effect> = Vec::new();
            effects.push(Effect::Redraw);
            assert(effects@ =~= seq![Effect::Redraw]);
            (effects, events)
        },
        _ => (Vec::new(), Vec::new()),
    }
}

/// Emptying the recycle bin, holding `held` records: an empty bin only
/// redraws; otherwise the bin actor is told to clear its store (its empty
/// answer then clears the mirror).
pub fn empty_bin(held: usize) -> (fx: Vec<Effect>)
    ensures
        held == 0 ==> fx@ == seq![Effect::Redraw],
        held > 0 ==> fx@ == seq![Effect::EmptyRecycleBin, Effect::Redraw],
{
    let mut fx: Vec<Effect> = Vec::new();
    if held > 0 {
        fx.push(Effect::EmptyRecycleBin);
    }
    fx.push(Effect::Redraw);
    proof {
        if held > 0 {
            assert(fx@ =~= seq![Effect::EmptyRecycleBin, Effect::Redraw]);
        } else {
            assert(fx@ =~= seq![Effect::Redraw]);
        }
    }
    fx
}

/// A switch to session `id`: the shell saves the departing session and
/// adopts the target. Switching to the current session, or to one that is
/// not listed, only redraws.
pub fn switch_session(current: SessionId, listed: &Vec<(SessionId, u64)>, id: SessionId) -> (fx: Vec<Effect>)
    ensures
        (id == current || !(exists|i: int| 0 <= i < listed@.len() && (#[trigger] listed@[i]).0 == id))
            ==> fx@ == seq![Effect::Redraw],
        (id != current && (exists|i: int| 0 <= i < listed@.len() && (#[trigger] listed@[i]).0 == id))
            ==> fx@ == seq![Effect::SwitchSession { id }],
{
    let mut fx: Vec<Effect> = Vec::new();
    if id.0 == current.0 {
        fx.push(Effect::Redraw);
        assert(fx@ =~= seq![Effect::Redraw]);
        return fx;
    }
    let mut i: usize = 0;
    while i < listed.len()
        invariant
            i <= listed.len(),
            id != current,
            fx@.len() == 0,
            forall|k: int| 0 <= k < i ==> (#[trigger] listed@[k]).0 != id,
        decreases listed.len() - i,
    {
        if listed[i].0.0 == id.0 {
            assert(listed@[i as int].0 == id);
            fx.push(Effect::SwitchSession { id });
            assert(fx@ =~= seq![Effect::SwitchSession { id }]);
            return fx;
        }
        i = i + 1;
    }
    fx.push(Effect::Redraw);
    assert(fx@ =~= seq![Effect::Redraw]);
    fx
}

/// The sessions other than `closing`, in listing order.
pub open spec fn others(listed: Seq<(SessionId, u64)>, closing: SessionId) -> Seq<(SessionId, u64)> {
    listed.filter(|e: (SessionId, u64)| e.0 != closing)
}

/// Where closing the current session lands: the most recently updated
/// other session (the last of equals), or `None` when it was the last one
/// (the host mints a fresh session then).
pub fn close_session_target(closing: SessionId, listed: &Vec<(SessionId, u64)>) -> (r: Option<SessionId>)
    ensures
        r == (match latest_index(others(listed@, closing)) {
            Some(j) => Some(others(listed@, closing)[j].0),
            None => None,
        }),
{
    let mut kept: Vec<(SessionId, u64)> = Vec::new();
    let mut i: usize = 0;
    while i < listed.len()
        invariant
            i <= listed.len(),
            kept@ == others(listed@.take(i as int), closing),
        decreases listed.len() - i,
    {
        let e = listed[i];
        proof {
            assert(listed@.take(i + 1) =~= listed@.take(i as int).push(e));
            reveal(Seq::filter);
            assert(listed@.take(i + 1).drop_last() =~= listed@.take(i as int));
            assert(listed@.take(i + 1).last() == e);
            assert(others(listed@.take(i + 1), closing) == (if e.0 != closing {
                others(listed@.take(i as int), closing).push(e)
            } else {
                others(listed@.take(i as int), closing)
            }));
        }
        if e.0.0 != closing.0 {
            kept.push(e);
        }
        i = i + 1;
    }
    assert(listed@.take(listed.len() as int) =~= listed@);
    crate::session::pick_session(None, &kept)
}

/// The maximized pane after a maximize toggle on the active pane: it
/// toggles only for a pane of the primary window (a lens window never shows
/// the flag); with no active pane nothing changes.
pub fn toggle_maximized(maximized: Option<PaneId>, active: Option<PaneId>, in_primary: bool) -> (m: Option<PaneId>)
    ensures
        m == (match active {
            Some(a) => if in_primary {
                if maximized == Some(a) { None } else { Some(a) }
            } else {
                maximized
            },
            None => maximized,
        }),
{
    match active {
        Some(a) => {
            if in_primary {
                match maximized {
                    Some(p) => if p.0 == a.0 { None } else { Some(a) },
                    None => Some(a),
                }
            } else {
                maximized
            }
        },
        None => maximized,
    }
}

/// The highlighted suggestion after moving by `delta`: wrapping around the
/// `rows` rows (a Euclidean remainder), or unchanged when there are none.
pub fn omnibar_moved(selected: usize, delta: i32, rows: usize) -> (s: usize)
    requires
        selected <= i32::MAX,
        rows <= i32::MAX,
        rows > 0 ==> i32::MIN <= selected + delta <= i32::MAX,
    ensures
        rows == 0 ==> s == selected,
        rows > 0 ==> s == (selected + delta) % (rows as int),
{
    if rows == 0 {
        return selected;
    }
    let m: u64 = rows as u64;
    if delta >= 0 {
        let r: u64 = (selected as u64 + delta as u64) % m;
        return r as usize;
    }
    let back: u64 = (0i64 - delta as i64) as u64;
    let s0: u64 = selected as u64 % m;
    let b: u64 = back % m;
    let t: u64 = s0 + m - b;
    let r: u64 = t % m;
    proof {
        let mi = m as int;
        let qs = (selected as int) / mi;
        let qb = (back as int) / mi;
        let qt = (t as int) / mi;
        vstd::arithmetic::div_mod::lemma_fundamental_div_mod(selected as int, mi);
        vstd::arithmetic::div_mod::lemma_fundamental_div_mod(back as int, mi);
        vstd::arithmetic::div_mod::lemma_fundamental_div_mod(t as int, mi);
        let x = selected as int + delta as int;
        assert(x == (qs - qb - 1 + qt) * mi + r) by (nonlinear_arith)
            requires
                selected as int == mi * qs + s0,
                back as int == mi * qb + b,
                t as int == mi * qt + r,
                t as int == s0 + mi - b,
                x == selected as int - back as int,
        {
        }
        vstd::arithmetic::div_mod::lemma_fundamental_div_mod_converse(x, mi, qs - qb - 1 + qt, r as int);
    }
    r as usize
}

/// Moving the highlight down and back up returns it to the row it was on,
/// and the highlight always lands on an existing row.
pub proof fn lemma_move_round_trip(selected: int, rows: int, delta: int)
    requires
        0 <= selected < rows,
    ensures
        0 <= (selected + delta) % rows < rows,
        (((selected + 1) % rows) - 1) % rows == selected,
{
    vstd::arithmetic::div_mod::lemma_mod_bound(selected + delta, rows);
    if selected + 1 < rows {
        vstd::arithmetic::div_mod::lemma_small_mod((selected + 1) as nat, rows as nat);
        vstd::arithmetic::div_mod::lemma_small_mod(selected as nat, rows as nat);
    } else {
        vstd::arithmetic::div_mod::lemma_mod_self_0(rows);
        vstd::arithmetic::div_mod::lemma_fundamental_div_mod_converse(-1, rows, -1, rows - 1);
    }
}

/// A flip on a node without content requests a spawn, and a second flip
/// closes it again, leaving the lifecycle exactly as it was.
pub proof fn lemma_flip_twice_restores(m: Map<u128, NodeContent>, node: u128)
    requires
        !m.contains_key(node),
    ensures
        spawns_on_flip(state_in(m, node)),
        !spawns_on_flip(state_in(m.insert(node, NodeContent::Requested), node)),
        m.insert(node, NodeContent::Requested).remove(node) == m,
{
    assert(m.insert(node, NodeContent::Requested).remove(node) =~= m);
}

/// Whether a click on suggestion row `index` commits: only an open
/// omnibar, and only a row that exists.
pub fn commits_row(open: bool, index: usize, rows: usize) -> (b: bool)
    ensures
        b == (open && index < rows),
{
    open && index < rows
}

/// The pane content a summonable pane kind opens with.
pub open spec fn summoned(kind: PaneKind) -> PaneContent {
    match kind {
        PaneKind::Roster => PaneContent::Roster,
        PaneKind::Trail => PaneContent::Trail,
        PaneKind::Gloss => PaneContent::Gloss,
        PaneKind::Inspector => PaneContent::Inspector,
        PaneKind::Steward => PaneContent::Steward,
        PaneKind::Comms => PaneContent::Comms,
        PaneKind::Apparatus => PaneContent::Apparatus,
        PaneKind::Overmap => PaneContent::Overmap,
        PaneKind::Workbench => PaneContent::Workbench,
    }
}

/// The pane content a summonable pane kind opens with.
pub fn pane_content(kind: PaneKind) -> (c: PaneContent)
    ensures
        c == summoned(kind),
{
    match kind {
        PaneKind::Roster => PaneContent::Roster,
        PaneKind::Trail => PaneContent::Trail,
        PaneKind::Gloss => PaneContent::Gloss,
        PaneKind::Inspector => PaneContent::Inspector,
        PaneKind::Steward => PaneContent::Steward,
        PaneKind::Comms => PaneContent::Comms,
        PaneKind::Apparatus => PaneContent::Apparatus,
        PaneKind::Overmap => PaneContent::Overmap,
        PaneKind::Workbench => PaneContent::Workbench,
    }
}

} // verus!
