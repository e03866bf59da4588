//! The content lane's app truth: per-node document lifecycle only. Live
//! document sessions are handles the host's content port owns, keyed by the
//! same node ids (the 128-bit values of their uuids).

use vstd::prelude::*;
use std::collections::HashMap;
use vstd::std_specs::hash::spec_hash_map_iter;
use vstd::std_specs::iter::IteratorSpec;

verus! {

broadcast use vstd::std_specs::hash::group_hash_axioms;

/// One node's content lifecycle. Absent from the map = no content activity.
#[derive(Clone, Debug, PartialEq)]
pub enum NodeContent {
    /// A spawn effect is in flight through the content port.
    Requested,
    /// A live session exists host-side.
    Live,
    /// The last spawn failed; the reason is surfaced, never swallowed.
    Failed(String),
}

/// Whether a flip intent on a node in this state spawns (true) or closes:
/// live and in-flight content toggles off; none and failed toggle on.
pub open spec fn spawns_on_flip(state: Option<NodeContent>) -> bool {
    !(state == Some(NodeContent::Live) || state == Some(NodeContent::Requested))
}

/// The nodes of a lifecycle map that hold live sessions.
pub open spec fn live_set(m: Map<u128, NodeContent>) -> Set<u128> {
    Set::new(|k: u128| m.contains_key(k) && m[k] == NodeContent::Live)
}

/// The app-truth side of the content lane: node id -> lifecycle.
pub struct ContentStates {
    states: HashMap<u128, NodeContent>,
}

impl View for ContentStates {
    type V = Map<u128, NodeContent>;

    closed spec fn view(&self) -> Map<u128, NodeContent> {
        self.states@
    }
}

impl ContentStates {
    /// The lifecycle of `node`, as a spec option.
    pub open spec fn state_of(&self, node: u128) -> Option<NodeContent> {
        if self@.contains_key(node) {
            Some(self@[node])
        } else {
            None
        }
    }

    /// No content activity anywhere.
    pub fn new() -> (s: Self)
        ensures
            s@ == Map::<u128, NodeContent>::empty(),
    {
        ContentStates { states: HashMap::new() }
    }

    pub fn get(&self, node: u128) -> (r: Option<&NodeContent>)
        ensures
            match r {
                Some(v) => self@.contains_key(node) && *v == self@[node],
                None => !self@.contains_key(node),
            },
    {
        self.states.get(&node)
    }

    /// Whether a flip intent on `node` should spawn (true) or close (false):
    /// a failed node retries — failure is a state, not a latch.
    pub fn flip_spawns(&self, node: u128) -> (b: bool)
        ensures
            b == spawns_on_flip(self.state_of(node)),
    {
        match self.states.get(&node) {
            Some(NodeContent::Live) | Some(NodeContent::Requested) => false,
            _ => true,
        }
    }

    pub fn note_requested(&mut self, node: u128)
        ensures
            final(self)@ == old(self)@.insert(node, NodeContent::Requested),
    {
        self.states.insert(node, NodeContent::Requested);
    }

    pub fn note_live(&mut self, node: u128)
        ensures
            final(self)@ == old(self)@.insert(node, NodeContent::Live),
    {
        self.states.insert(node, NodeContent::Live);
    }

    pub fn note_failed(&mut self, node: u128, error: String)
        ensures
            final(self)@ == old(self)@.insert(node, NodeContent::Failed(error)),
    {
        self.states.insert(node, NodeContent::Failed(error));
    }

    /// The node's content is gone (closed, or the port dropped it).
    pub fn note_closed(&mut self, node: u128)
        ensures
            final(self)@ == old(self)@.remove(node),
    {
        self.states.remove(&node);
    }

    /// Nodes currently holding live sessions, each once, in the map's
    /// iteration order.
    pub fn live_nodes(&self) -> (nodes: Vec<u128>)
        ensures
            nodes@.no_duplicates(),
            nodes@.to_set() == live_set(self@),
    {
        let mut nodes: Vec<u128> = Vec::new();
        let ghost m = self.states@;
        let ghost entries = spec_hash_map_iter(&self.states).remaining();
        for pair in it: self.states.iter()
            invariant
                m == self.states@,
                entries == spec_hash_map_iter(&self.states).remaining(),
                it.seq() == entries,
                entries.no_duplicates(),
                nodes@.no_duplicates(),
                forall|x: u128| nodes@.contains(x) <==> exists|j: int|
                    0 <= j < it.index() && #[trigger] *entries[j].0 == x && *entries[j].1 == NodeContent::Live,
        {
            let (k, v) = pair;
            let ghost prev = nodes@;
            let ghost idx = it.index() as int;
            assert(pair == entries[idx]);
            if matches!(v, NodeContent::Live) {
                proof {
                    assert(!nodes@.contains(*k)) by {
                        if nodes@.contains(*k) {
                            let j = choose|j: int| 0 <= j < idx && *entries[j].0 == *k && *entries[j].1 == NodeContent::Live;
                            assert(m.contains_key(*entries[j].0));
                            assert(m[*entries[j].0] == *entries[j].1);
                            assert(m.contains_key(*entries[idx].0));
                            assert(m[*entries[idx].0] == *entries[idx].1);
                            assert(entries[j] == entries[idx]);
                        }
                    }
                }
                nodes.push(*k);
            }
            assert(nodes@ == (if *v == NodeContent::Live { prev.push(*k) } else { prev }));
            proof {
                assert forall|x: u128| nodes@.contains(x) <==> exists|j: int|
                    0 <= j < idx + 1 && #[trigger] *entries[j].0 == x && *entries[j].1 == NodeContent::Live by {
                    if nodes@.contains(x) {
                        if prev.contains(x) {
                            let j = choose|j: int| 0 <= j < idx && *entries[j].0 == x && *entries[j].1 == NodeContent::Live;
                            assert(0 <= j < idx + 1 && *entries[j].0 == x && *entries[j].1 == NodeContent::Live);
                        } else {
                            assert(*v == NodeContent::Live);
                            assert(nodes@ == prev.push(*k));
                            assert(x == *k);
                            assert(*entries[idx].0 == x && *entries[idx].1 == NodeContent::Live);
                        }
                    }
                    if exists|j: int| 0 <= j < idx + 1 && #[trigger] *entries[j].0 == x && *entries[j].1 == NodeContent::Live {
                        let j = choose|j: int| 0 <= j < idx + 1 && *entries[j].0 == x && *entries[j].1 == NodeContent::Live;
                        if j < idx {
                            assert(exists|j: int| 0 <= j < idx && #[trigger] *entries[j].0 == x && *entries[j].1 == NodeContent::Live);
                            assert(prev.contains(x));
                            let i = choose|i: int| 0 <= i < prev.len() && prev[i] == x;
                            assert(nodes@[i] == x);
                        } else {
                            assert(j == idx);
                            assert(nodes@ == prev.push(*k));
                            assert(nodes@[prev.len() as int] == x);
                        }
                    }
                }
            }
        }
        proof {
            assert forall|x: u128| #[trigger] live_set(m).contains(x) implies nodes@.contains(x) by {
                assert(m.contains_key(x));
                assert(entries.contains((&x, &m[x])));
                let j = choose|j: int| 0 <= j < entries.len() && entries[j] == (&x, &m[x]);
                assert(*entries[j].0 == x && *entries[j].1 == NodeContent::Live);
            }
            assert forall|x: u128| nodes@.contains(x) implies #[trigger] live_set(m).contains(x) by {
                let j = choose|j: int| 0 <= j < entries.len() && *entries[j].0 == x && *entries[j].1 == NodeContent::Live;
                assert(m.contains_key(*entries[j].0));
            }
        }
        assert(nodes@.to_set() =~= live_set(m));
        nodes
    }
}

/// The lifecycle of `node` in a lifecycle map.
pub open spec fn state_in(m: Map<u128, NodeContent>, node: u128) -> Option<NodeContent> {
    if m.contains_key(node) {
        Some(m[node])
    } else {
        None
    }
}

/// Flipping toggles: once a spawn is requested (or live) the next flip
/// closes; once closed the next flip spawns; a failure is a state, not a
/// latch, so the next flip retries. Other nodes are untouched.
pub proof fn lemma_flip_toggles(m: Map<u128, NodeContent>, node: u128, other: u128, error: String)
    requires
        other != node,
    ensures
        !spawns_on_flip(state_in(m.insert(node, NodeContent::Requested), node)),
        !spawns_on_flip(state_in(m.insert(node, NodeContent::Live), node)),
        spawns_on_flip(state_in(m.remove(node), node)),
        spawns_on_flip(state_in(m.insert(node, NodeContent::Failed(error)), node)),
        state_in(m.insert(node, NodeContent::Requested), other) == state_in(m, other),
        state_in(m.remove(node), other) == state_in(m, other),
{
}

/// Only live nodes are listed live: a node noted live is in the live set,
/// and a node requested, failed or closed is not.
pub proof fn lemma_live_set_follows_states(m: Map<u128, NodeContent>, node: u128, error: String)
    ensures
        live_set(m.insert(node, NodeContent::Live)).contains(node),
        !live_set(m.insert(node, NodeContent::Requested)).contains(node),
        !live_set(m.insert(node, NodeContent::Failed(error))).contains(node),
        !live_set(m.remove(node)).contains(node),
{
}

/// The palette class a node paints as in the minimap and the canvas.
#[derive(Clone, Copy, Debug, PartialEq, Eq, Structural)]
pub enum NodeState {
    Open,
    Closed,
    Idle,
}

/// The palette class of a node's content lifecycle: live or in-flight
/// content is open, a failed spawn closed, no content idle.
pub open spec fn palette_state(state: Option<NodeContent>) -> NodeState {
    match state {
        Some(NodeContent::Live) | Some(NodeContent::Requested) => NodeState::Open,
        Some(NodeContent::Failed(_)) => NodeState::Closed,
        None => NodeState::Idle,
    }
}

/// The palette class of `node` (see [`palette_state`]).
pub fn node_state(states: &ContentStates, node: u128) -> (s: NodeState)
    ensures
        s == palette_state(states.state_of(node)),
{
    match states.get(node) {
        Some(NodeContent::Live) | Some(NodeContent::Requested) => NodeState::Open,
        Some(NodeContent::Failed(_)) => NodeState::Closed,
        None => NodeState::Idle,
    }
}

impl Default for ContentStates {
    fn default() -> (s: Self)
        ensures
            s@ == Map::<u128, NodeContent>::empty(),
    {
        ContentStates::new()
    }
}

} // verus!
