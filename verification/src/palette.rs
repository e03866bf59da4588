//! The session palette's rows beyond the static registry: a pending
//! denizen install's review (always first), a run row per resident in
//! label order, and a switch row per other session, most recent first.

use vstd::prelude::*;

use crate::action::Action;
use crate::denizen::{review_line, PendingInstall, SCENARIO_SCOPE};
use crate::frisket::SessionId;
use crate::observe::{uuid_string, uuid_text};

verus! {

/// Whether `a` sorts at or before `b` (the order of `String`: code points,
/// lexicographically).
pub open spec fn text_le(a: Seq<char>, b: Seq<char>) -> bool
    decreases a.len(),
{
    if a.len() == 0 {
        true
    } else if b.len() == 0 {
        false
    } else if a[0] != b[0] {
        a[0] < b[0]
    } else {
        text_le(a.drop_first(), b.drop_first())
    }
}

proof fn lemma_text_le_total(a: Seq<char>, b: Seq<char>)
    ensures
        text_le(a, b) || text_le(b, a),
    decreases a.len(),
{
    if a.len() > 0 && b.len() > 0 && a[0] == b[0] {
        lemma_text_le_total(a.drop_first(), b.drop_first());
    }
}

proof fn lemma_text_le_transitive(a: Seq<char>, b: Seq<char>, c: Seq<char>)
    requires
        text_le(a, b),
        text_le(b, c),
    ensures
        text_le(a, c),
    decreases a.len(),
{
    if a.len() > 0 && b.len() > 0 && c.len() > 0 && a[0] == b[0] && b[0] == c[0] {
        lemma_text_le_transitive(a.drop_first(), b.drop_first(), c.drop_first());
    }
}

fn text_le_exec(a: &str, b: &str) -> (r: bool)
    ensures
        r == text_le(a@, b@),
{
    let x = crate::text::chars_of(a);
    let y = crate::text::chars_of(b);
    let mut i: usize = 0;
    assert(a@.skip(0) =~= a@);
    assert(b@.skip(0) =~= b@);
    while i < x.len() && i < y.len() && x[i] == y[i]
        invariant
            i <= x.len(),
            i <= y.len(),
            x@ == a@,
            y@ == b@,
            forall|k: int| 0 <= k < i ==> x@[k] == y@[k],
            text_le(a@, b@) == text_le(a@.skip(i as int), b@.skip(i as int)),
        decreases x.len() - i,
    {
        assert(a@.skip(i as int).drop_first() =~= a@.skip(i + 1));
        assert(b@.skip(i as int).drop_first() =~= b@.skip(i + 1));
        i = i + 1;
    }
    if i == x.len() {
        true
    } else if i == y.len() {
        false
    } else {
        assert(a@.skip(i as int)[0] == x@[i as int]);
        assert(b@.skip(i as int)[0] == y@[i as int]);
        x[i] < y[i]
    }
}

/// Whether the labels of `rows` never decrease.
pub open spec fn labels_sorted(rows: Seq<(u128, Seq<char>)>) -> bool {
    forall|i: int, j: int| 0 <= i < j < rows.len() ==> text_le(#[trigger] rows[i].1, #[trigger] rows[j].1)
}

/// The (member, label) view of resident listings.
pub open spec fn resident_view(r: Seq<(u128, String)>) -> Seq<(u128, Seq<char>)> {
    r.map_values(|e: (u128, String)| (e.0, e.1@))
}

/// The residents in label order: a reordering of `residents` whose labels
/// never decrease.
fn sorted_residents(residents: &Vec<(u128, String)>) -> (out: Vec<(u128, String)>)
    ensures
        labels_sorted(resident_view(out@)),
        resident_view(out@).to_multiset() == resident_view(residents@).to_multiset(),
{
    let mut out: Vec<(u128, String)> = Vec::new();
    let mut i: usize = 0;
    assert(resident_view(out@) =~= resident_view(residents@.take(0)));
    while i < residents.len()
        invariant
            i <= residents.len(),
            labels_sorted(resident_view(out@)),
            resident_view(out@).to_multiset() == resident_view(residents@.take(i as int)).to_multiset(),
        decreases residents.len() - i,
    {
        let (member, label) = (residents[i].0, residents[i].1.clone());
        let mut k: usize = 0;
        while k < out.len() && text_le_exec(out[k].1.as_str(), label.as_str())
            invariant
                k <= out.len(),
                forall|m: int| 0 <= m < k ==> text_le(#[trigger] resident_view(out@)[m].1, label@),
            decreases out.len() - k,
        {
            k = k + 1;
        }
        let ghost before = resident_view(out@);
        out.insert(k, (member, label));
        proof {
            assert(resident_view(out@) =~= before.insert(k as int, (member, label@)));
            if k < before.len() {
                assert(!text_le(before[k as int].1, label@));
                lemma_text_le_total(before[k as int].1, label@);
            }
            assert forall|p: int, q: int| 0 <= p < q < resident_view(out@).len() implies
                text_le(#[trigger] resident_view(out@)[p].1, #[trigger] resident_view(out@)[q].1) by {
                let v = resident_view(out@);
                if q < k {
                    assert(v[p] == before[p] && v[q] == before[q]);
                } else if q == k {
                    assert(v[p] == before[p]);
                } else if p == k {
                    assert(v[q] == before[q - 1]);
                    if q - 1 > k {
                        lemma_text_le_transitive(label@, before[k as int].1, before[q - 1].1);
                    }
                } else if p < k {
                    assert(v[p] == before[p] && v[q] == before[q - 1]);
                } else {
                    assert(v[p] == before[p - 1] && v[q] == before[q - 1]);
                }
            }
            vstd::seq_lib::to_multiset_insert(before, k as int, (member, label@));
            assert(residents@.take(i + 1) =~= residents@.take(i as int).push(residents@[i as int]));
            assert(resident_view(residents@.take(i + 1)) =~= resident_view(residents@.take(i as int)).push((member, label@)));
            vstd::seq_lib::to_multiset_build(resident_view(residents@.take(i as int)), (member, label@));
        }
        i = i + 1;
    }
    assert(residents@.take(residents.len() as int) =~= residents@);
    out
}

/// The palette rows a denizen contributes: the pending install's review
/// (its Confirm row, then a Cancel row), then a Run row per resident, in
/// label order. `residents` lists each resident's member and label.
pub fn denizen_actions(pending: Option<&PendingInstall>, residents: &Vec<(u128, String)>) -> (rows: Vec<(String, Action)>)
    ensures
        ({
            let head: int = if pending is Some { 2 } else { 0 };
            &&& rows@.len() == head + residents@.len()
            &&& pending matches Some(p) ==> {
                &&& rows@[0].0@ == "Install "@ + p.label@ + ": may run control scripts and write "@ + SCENARIO_SCOPE@
                    + " in its own world — Confirm"@
                &&& rows@[0].1 == Action::ConfirmInstallDenizen
                &&& rows@[1].0@ == "Cancel install "@ + p.label@
                &&& rows@[1].1 == Action::CancelInstallDenizen
            }
            &&& exists|order: Seq<(u128, Seq<char>)>| {
                &&& order.len() == residents@.len()
                &&& labels_sorted(order)
                &&& order.to_multiset() == resident_view(residents@).to_multiset()
                &&& forall|k: int| 0 <= k < order.len() ==> (#[trigger] rows@[head + k]).0@ == "Run "@ + order[k].1
                    && rows@[head + k].1 == (Action::RunDenizen { member: order[k].0 })
            }
        }),
{
    let mut rows: Vec<(String, Action)> = Vec::new();
    if let Some(p) = pending {
        rows.push((review_line(p), Action::ConfirmInstallDenizen));
        let mut cancel = String::from_str("Cancel install ");
        cancel.append(p.label.as_str());
        rows.push((cancel, Action::CancelInstallDenizen));
    }
    let head = rows.len();
    let sorted = sorted_residents(residents);
    let mut k: usize = 0;
    while k < sorted.len()
        invariant
            k <= sorted.len(),
            head == rows.len() - k,
            head == (if pending is Some { 2int } else { 0int }),
            pending matches Some(p) ==> {
                &&& rows@[0].0@ == "Install "@ + p.label@ + ": may run control scripts and write "@ + SCENARIO_SCOPE@
                    + " in its own world — Confirm"@
                &&& rows@[0].1 == Action::ConfirmInstallDenizen
                &&& rows@[1].0@ == "Cancel install "@ + p.label@
                &&& rows@[1].1 == Action::CancelInstallDenizen
            },
            forall|m: int| 0 <= m < k ==> (#[trigger] rows@[head + m]).0@ == "Run "@ + resident_view(sorted@)[m].1
                && rows@[head + m].1 == (Action::RunDenizen { member: resident_view(sorted@)[m].0 }),
        decreases sorted.len() - k,
    {
        let mut label = String::from_str("Run ");
        label.append(sorted[k].1.as_str());
        rows.push((label, Action::RunDenizen { member: sorted[k].0 }));
        k = k + 1;
    }
    proof {
        let order = resident_view(sorted@);
        assert(order.to_multiset().len() == resident_view(residents@).to_multiset().len());
        order.to_multiset_ensures();
        resident_view(residents@).to_multiset_ensures();
        assert(order.len() == residents@.len());
        assert(forall|k: int| 0 <= k < order.len() ==> (#[trigger] rows@[head + k]).0@ == "Run "@ + order[k].1
            && rows@[head + k].1 == (Action::RunDenizen { member: order[k].0 }));
    }
    rows
}

/// A session's name in the switcher: its display name, else the first
/// eight characters of its uuid.
pub open spec fn session_name(display: Option<Seq<char>>, id: SessionId) -> Seq<char> {
    match display {
        Some(n) => n,
        None => uuid_text(id.0).take(8),
    }
}

/// The name of a session (see [`session_name`]).
pub fn session_label(display: Option<&str>, id: SessionId) -> (l: String)
    ensures
        l@ == session_name(match display {
            Some(n) => Some(n@),
            None => None,
        }, id),
{
    match display {
        Some(n) => String::from_str(n),
        None => {
            let full = uuid_string(id.0);
            let cs = crate::text::chars_of(full.as_str());
            proof {
                crate::observe::lemma_hex_lsd_len(id.0 as nat, 32);
            }
            assert(cs@.len() >= 8);
            let head = crate::text::slice_chars(&cs, 0, 8);
            assert(head@ =~= uuid_text(id.0).take(8));
            crate::text::string_of(&head)
        },
    }
}

/// A listed session: id, last update, display name.
pub open spec fn listing_view(e: (SessionId, u64, Option<String>)) -> (SessionId, u64, Option<Seq<char>>) {
    (e.0, e.1, match e.2 {
        Some(n) => Some(n@),
        None => None,
    })
}

/// `sorted` (most recent first) with `e` placed after every listing at
/// least as recent: a stable ordering by recency.
pub open spec fn insert_by_recency(sorted: Seq<(SessionId, u64, Option<Seq<char>>)>, e: (SessionId, u64, Option<Seq<char>>), from: int) -> Seq<(SessionId, u64, Option<Seq<char>>)>
    decreases sorted.len() - from,
{
    if from >= sorted.len() || sorted[from].1 < e.1 {
        sorted.insert(from, e)
    } else {
        insert_by_recency(sorted, e, from + 1)
    }
}

/// The listings other than `current`, most recently updated first (equal
/// times keep their listing order).
pub open spec fn by_recency(listed: Seq<(SessionId, u64, Option<Seq<char>>)>, current: SessionId) -> Seq<(SessionId, u64, Option<Seq<char>>)>
    decreases listed.len(),
{
    if listed.len() == 0 {
        Seq::empty()
    } else {
        let rest = by_recency(listed.drop_last(), current);
        if listed.last().0 == current {
            rest
        } else {
            insert_by_recency(rest, listed.last(), 0)
        }
    }
}

/// The switch row of a listing.
pub open spec fn switch_row(e: (SessionId, u64, Option<Seq<char>>)) -> (Seq<char>, Action) {
    ("Switch to session "@ + session_name(e.2, e.0), Action::SwitchSession(e.0))
}

/// The label text and action of a palette row.
pub open spec fn row_text(r: (String, Action)) -> (Seq<char>, Action) {
    (r.0@, r.1)
}

/// The palette's switch rows: one per other session, most recently
/// updated first. `listed` is the manifest store's listing in its order.
pub fn session_switch_rows(current: SessionId, listed: &Vec<(SessionId, u64, Option<String>)>) -> (rows: Vec<(String, Action)>)
    ensures
        rows@.map_values(|r: (String, Action)| row_text(r))
            == by_recency(listed@.map_values(|e: (SessionId, u64, Option<String>)| listing_view(e)), current).map_values(
            |e: (SessionId, u64, Option<Seq<char>>)| switch_row(e)),
{
    let ghost lv = listed@.map_values(|e: (SessionId, u64, Option<String>)| listing_view(e));
    let mut order: Vec<(SessionId, u64, Option<String>)> = Vec::new();
    let mut i: usize = 0;
    assert(lv.take(0) =~= Seq::<(SessionId, u64, Option<Seq<char>>)>::empty());
    assert(order@.map_values(|e: (SessionId, u64, Option<String>)| listing_view(e)) =~= by_recency(lv.take(0), current));
    while i < listed.len()
        invariant
            i <= listed.len(),
            lv == listed@.map_values(|e: (SessionId, u64, Option<String>)| listing_view(e)),
            order@.map_values(|e: (SessionId, u64, Option<String>)| listing_view(e)) == by_recency(lv.take(i as int), current),
        decreases listed.len() - i,
    {
        assert(lv.take(i + 1).drop_last() =~= lv.take(i as int));
        assert(lv.take(i + 1).last() == listing_view(listed@[i as int]));
        if listed[i].0.0 != current.0 {
            let e = (listed[i].0, listed[i].1, match &listed[i].2 {
                Some(n) => Some(n.clone()),
                None => None,
            });
            assert(listing_view(e) == listing_view(listed@[i as int]));
            let ghost ov = order@.map_values(|e: (SessionId, u64, Option<String>)| listing_view(e));
            let mut k: usize = 0;
            while k < order.len() && order[k].1 >= e.1
                invariant
                    k <= order.len(),
                    ov == order@.map_values(|e: (SessionId, u64, Option<String>)| listing_view(e)),
                    insert_by_recency(ov, listing_view(e), 0) == insert_by_recency(ov, listing_view(e), k as int),
                decreases order.len() - k,
            {
                k = k + 1;
            }
            order.insert(k, e);
            assert(order@.map_values(|e: (SessionId, u64, Option<String>)| listing_view(e)) =~= ov.insert(k as int, listing_view(e)));
        } else {
            assert(listing_view(listed@[i as int]).0 == current);
        }
        i = i + 1;
    }
    assert(lv.take(listed.len() as int) =~= lv);
    let mut rows: Vec<(String, Action)> = Vec::new();
    let ghost ordered = order@.map_values(|e: (SessionId, u64, Option<String>)| listing_view(e));
    let mut j: usize = 0;
    while j < order.len()
        invariant
            j <= order.len(),
            ordered == order@.map_values(|e: (SessionId, u64, Option<String>)| listing_view(e)),
            rows@.map_values(|r: (String, Action)| row_text(r))
                == ordered.take(j as int).map_values(|e: (SessionId, u64, Option<Seq<char>>)| switch_row(e)),
        decreases order.len() - j,
    {
        let name = session_label(match &order[j].2 {
            Some(n) => Some(n.as_str()),
            None => None,
        }, order[j].0);
        let mut label = String::from_str("Switch to session ");
        label.append(name.as_str());
        let ghost before = rows@.map_values(|r: (String, Action)| row_text(r));
        rows.push((label, Action::SwitchSession(order[j].0)));
        assert(ordered.take(j + 1) =~= ordered.take(j as int).push(ordered[j as int]));
        assert(rows@.map_values(|r: (String, Action)| row_text(r)) =~= before.push(switch_row(ordered[j as int])));
        j = j + 1;
    }
    assert(ordered.take(order.len() as int) =~= ordered);
    rows
}

/// The display name a rename leaves a session with: the new name without
/// surrounding whitespace, or none (back to its uuid label) when that is
/// empty.
pub fn renamed(name: &str) -> (n: Option<String>)
    ensures
        match n {
            Some(t) => t@ == crate::text::trim(name@) && t@.len() > 0,
            None => crate::text::trim(name@).len() == 0,
        },
{
    let cs = crate::text::chars_of(name);
    let t = crate::text::trim_chars(&cs, 0, cs.len());
    assert(cs@.subrange(0, cs@.len() as int) =~= cs@);
    if t.len() == 0 {
        None
    } else {
        Some(crate::text::string_of(&t))
    }
}

} // verus!
