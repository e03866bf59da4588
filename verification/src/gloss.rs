//! Gloss composition: which list sections a Gloss pane shows, in what
//! order, and the palette rows that add, remove and reorder them. The order
//! of a pane's section list is its config's order.

use vstd::prelude::*;

use crate::action::Action;
use crate::frisket::PaneId;
use crate::scenario::texts;
use crate::sections::{by_id, registered};
use crate::text::str_eq;

verus! {

/// The first index at or after `from` where `s` holds `x`.
pub open spec fn first_index(s: Seq<Seq<char>>, x: Seq<char>, from: int) -> Option<int>
    decreases s.len() - from,
{
    if from < 0 || from >= s.len() {
        None
    } else if s[from] == x {
        Some(from)
    } else {
        first_index(s, x, from + 1)
    }
}

/// A section list after toggling `x`: removed where it first stands, else
/// appended.
pub open spec fn toggled(s: Seq<Seq<char>>, x: Seq<char>) -> Seq<Seq<char>> {
    match first_index(s, x, 0) {
        Some(i) => s.remove(i),
        None => s.push(x),
    }
}

/// `v` clamped into `lo..=hi`.
pub open spec fn clamped(v: int, lo: int, hi: int) -> int {
    if v < lo { lo } else if v > hi { hi } else { v }
}

/// Where a section at `from` lands after moving by `delta` in a list of
/// `len` sections: clamped at the ends, never wrapping.
pub open spec fn move_target(from: int, delta: int, len: int) -> int {
    clamped(from + delta, 0, len - 1)
}

/// A section list after moving `x` by `delta` (unchanged when absent or
/// when the clamped target is where it stands).
pub open spec fn moved(s: Seq<Seq<char>>, x: Seq<char>, delta: int) -> Seq<Seq<char>> {
    match first_index(s, x, 0) {
        Some(f) => {
            let to = move_target(f, delta, s.len() as int);
            if to != f { s.remove(f).insert(to, x) } else { s }
        },
        None => s,
    }
}

proof fn lemma_first_index(s: Seq<Seq<char>>, x: Seq<char>, from: int)
    requires
        0 <= from,
    ensures
        match first_index(s, x, from) {
            Some(i) => from <= i < s.len() && s[i] == x && forall|j: int| from <= j < i ==> s[j] != x,
            None => forall|j: int| from <= j < s.len() ==> s[j] != x,
        },
    decreases s.len() - from,
{
    if from < s.len() && s[from] != x {
        lemma_first_index(s, x, from + 1);
    }
}

fn find_section(sections: &Vec<String>, section: &str) -> (r: Option<usize>)
    ensures
        match r {
            Some(k) => first_index(texts(sections@), section@, 0) == Some(k as int) && k < sections@.len()
                && texts(sections@)[k as int] == section@,
            None => first_index(texts(sections@), section@, 0) is None && !texts(sections@).contains(section@),
        },
{
    proof {
        lemma_first_index(texts(sections@), section@, 0);
    }
    let mut i: usize = 0;
    while i < sections.len()
        invariant
            i <= sections.len(),
            first_index(texts(sections@), section@, 0) == first_index(texts(sections@), section@, i as int),
        decreases sections.len() - i,
    {
        if str_eq(sections[i].as_str(), section) {
            return Some(i);
        }
        i = i + 1;
    }
    None
}

/// Toggle `section` in a pane's section list; `true` when it was added.
pub fn toggle_section(sections: &mut Vec<String>, section: &str) -> (added: bool)
    ensures
        texts(final(sections)@) == toggled(texts(old(sections)@), section@),
        added == (first_index(texts(old(sections)@), section@, 0) is None),
{
    let found = find_section(&*sections, section);
    assert(sections@ == old(sections)@);
    match found {
        Some(pos) => {
            sections.remove(pos);
            assert(texts(sections@) =~= texts(old(sections)@).remove(pos as int));
            false
        },
        None => {
            sections.push(String::from_str(section));
            assert(texts(sections@) =~= texts(old(sections)@).push(section@));
            true
        },
    }
}

/// Move `section` by `delta` within a pane's section list, clamped at the
/// ends; `true` when it moved.
pub fn move_section(sections: &mut Vec<String>, section: &str, delta: i32) -> (did_move: bool)
    requires
        old(sections)@.len() <= i32::MAX,
        first_index(texts(old(sections)@), section@, 0) matches Some(f) ==> f + delta <= i32::MAX,
    ensures
        texts(final(sections)@) == moved(texts(old(sections)@), section@, delta as int),
        did_move == (first_index(texts(old(sections)@), section@, 0) matches Some(f)
            && move_target(f, delta as int, old(sections)@.len() as int) != f),
{
    let found = find_section(&*sections, section);
    assert(sections@ == old(sections)@);
    match found {
        Some(from) => {
            assert(from + delta <= i32::MAX);
            let len: i32 = sections.len() as i32;
            let raw: i32 = from as i32 + delta;
            let to: i32 = if raw < 0 { 0 } else if raw > len - 1 { len - 1 } else { raw };
            if to as usize != from {
                let id = sections.remove(from);
                sections.insert(to as usize, id);
                assert(texts(sections@) =~= texts(old(sections)@).remove(from as int).insert(to as int, section@));
                true
            } else {
                false
            }
        },
        None => false,
    }
}

/// Toggling a section the pane does not show adds it, and toggling it
/// again leaves the list exactly as it was.
pub proof fn lemma_toggle_twice_restores(s: Seq<Seq<char>>, x: Seq<char>)
    requires
        !s.contains(x),
    ensures
        toggled(s, x) == s.push(x),
        toggled(toggled(s, x), x) == s,
{
    lemma_first_index(s, x, 0);
    if first_index(s, x, 0) is Some {
        let i = first_index(s, x, 0)->Some_0;
        assert(s.contains(s[i]));
    }
    let t = s.push(x);
    lemma_first_index(t, x, 0);
    if first_index(t, x, 0) is None {
        assert(t[s.len() as int] == x);
    }
    let j = first_index(t, x, 0)->Some_0;
    if j < s.len() {
        assert(t[j] == s[j]);
        assert(s.contains(s[j]));
    }
    assert(j == s.len());
    assert(t.remove(j) =~= s);
}

/// A move only reorders: the same sections, as many times each, stay in
/// the list; a move by nothing changes nothing.
pub proof fn lemma_move_reorders(s: Seq<Seq<char>>, x: Seq<char>, delta: int)
    ensures
        moved(s, x, delta).to_multiset() == s.to_multiset(),
        moved(s, x, delta).len() == s.len(),
        moved(s, x, 0) == s,
{
    lemma_first_index(s, x, 0);
    match first_index(s, x, 0) {
        Some(f) => {
            let to = move_target(f, delta, s.len() as int);
            if to != f {
                vstd::seq_lib::to_multiset_remove(s, f);
                vstd::seq_lib::to_multiset_insert(s.remove(f), to, x);
                assert(s.to_multiset().remove(s[f]).insert(x) =~= s.to_multiset()) by {
                    broadcast use vstd::multiset::group_multiset_axioms;
                    s.to_multiset_ensures();
                    assert(s.contains(s[f]));
                    assert(s.to_multiset().count(x) > 0);
                }
            }
        },
        None => {},
    }
}

/// What a palette row asks of a Gloss pane.
pub enum RowIntent {
    Toggle(PaneId, Seq<char>),
    Move(PaneId, Seq<char>, i32),
    Other,
}

/// The composition intent of an action.
pub open spec fn intent_of(a: Action) -> RowIntent {
    match a {
        Action::TogglePaneSection { pane, section } => RowIntent::Toggle(pane, section@),
        Action::MovePaneSection { pane, section, delta } => RowIntent::Move(pane, section@, delta),
        _ => RowIntent::Other,
    }
}

/// The add or remove row of the registered section `id` titled `title`.
pub open spec fn toggle_row(pane: PaneId, sections: Seq<Seq<char>>, id: Seq<char>, title: Seq<char>) -> (Seq<char>, RowIntent) {
    let verb = if sections.contains(id) { "remove"@ } else { "add"@ };
    ("Gloss: "@ + verb + " section — "@ + title, RowIntent::Toggle(pane, id))
}

/// The reorder rows of the sections before index `n`: an up row for all
/// but the first, a down row for all but the last, for registered ids.
pub open spec fn reorder_rows(pane: PaneId, sections: Seq<Seq<char>>, n: int) -> Seq<(Seq<char>, RowIntent)>
    decreases n,
{
    if n <= 0 {
        Seq::empty()
    } else {
        let i = n - 1;
        let here = match registered(sections[i]) {
            Some(title) => (if i > 0 {
                seq![("Gloss: move section up — "@ + title, RowIntent::Move(pane, sections[i], -1i32))]
            } else {
                Seq::empty()
            }) + (if i + 1 < sections.len() {
                seq![("Gloss: move section down — "@ + title, RowIntent::Move(pane, sections[i], 1i32))]
            } else {
                Seq::empty()
            }),
            None => Seq::empty(),
        };
        reorder_rows(pane, sections, i) + here
    }
}

/// The palette rows composing a Gloss pane: add or remove each registered
/// section (recent, then removed), then, with more than one section, the
/// reorder rows that would do something.
pub open spec fn section_rows(pane: PaneId, sections: Seq<Seq<char>>) -> Seq<(Seq<char>, RowIntent)> {
    seq![toggle_row(pane, sections, "recent"@, "Recent"@), toggle_row(pane, sections, "removed"@, "Removed"@)]
        + (if sections.len() > 1 { reorder_rows(pane, sections, sections.len() as int) } else { Seq::empty() })
}

/// The view of a palette row.
pub open spec fn row_view(r: (String, Action)) -> (Seq<char>, RowIntent) {
    (r.0@, intent_of(r.1))
}

fn contains_section(sections: &Vec<String>, id: &str) -> (b: bool)
    ensures
        b == texts(sections@).contains(id@),
{
    match find_section(sections, id) {
        Some(i) => {
            assert(texts(sections@)[i as int] == id@);
            true
        },
        None => false,
    }
}

fn toggle_row_of(pane: PaneId, sections: &Vec<String>, id: &str, title: &str) -> (r: (String, Action))
    ensures
        row_view(r) == toggle_row(pane, texts(sections@), id@, title@),
{
    let on = contains_section(sections, id);
    let mut label = String::from_str("Gloss: ");
    label.append(if on { "remove" } else { "add" });
    label.append(" section — ");
    label.append(title);
    (label, Action::TogglePaneSection { pane, section: String::from_str(id) })
}

fn move_row(pane: PaneId, section: &String, title: &str, up: bool) -> (r: (String, Action))
    ensures
        row_view(r) == (if up {
            ("Gloss: move section up — "@ + title@, RowIntent::Move(pane, section@, -1i32))
        } else {
            ("Gloss: move section down — "@ + title@, RowIntent::Move(pane, section@, 1i32))
        }),
{
    let mut label = String::from_str(if up { "Gloss: move section up — " } else { "Gloss: move section down — " });
    label.append(title);
    (label, Action::MovePaneSection { pane, section: section.clone(), delta: if up { -1 } else { 1 } })
}

/// The palette rows composing the Gloss pane `pane` whose section list is
/// `sections` (see [`section_rows`]).
pub fn pane_section_actions(pane: PaneId, sections: &Vec<String>) -> (rows: Vec<(String, Action)>)
    ensures
        rows@.map_values(|r: (String, Action)| row_view(r)) == section_rows(pane, texts(sections@)),
{
    let mut rows: Vec<(String, Action)> = Vec::new();
    rows.push(toggle_row_of(pane, sections, "recent", "Recent"));
    rows.push(toggle_row_of(pane, sections, "removed", "Removed"));
    let ghost s = texts(sections@);
    let ghost head = seq![toggle_row(pane, s, "recent"@, "Recent"@), toggle_row(pane, s, "removed"@, "Removed"@)];
    assert(rows@.map_values(|r: (String, Action)| row_view(r)) =~= head);
    if sections.len() > 1 {
        let mut i: usize = 0;
        while i < sections.len()
            invariant
                i <= sections.len(),
                s == texts(sections@),
                rows@.map_values(|r: (String, Action)| row_view(r)) == head + reorder_rows(pane, s, i as int),
            decreases sections.len() - i,
        {
            let ghost before = rows@.map_values(|r: (String, Action)| row_view(r));
            match by_id(sections[i].as_str()) {
                Some(p) => {
                    let mut added: Vec<(String, Action)> = Vec::new();
                    if i > 0 {
                        added.push(move_row(pane, &sections[i], p.title, true));
                    }
                    if i + 1 < sections.len() {
                        added.push(move_row(pane, &sections[i], p.title, false));
                    }
                    let ghost here = added@.map_values(|r: (String, Action)| row_view(r));
                    assert(s[i as int] == sections@[i as int]@);
                    assert(here =~= (if i > 0 {
                        seq![("Gloss: move section up — "@ + p.title@, RowIntent::Move(pane, s[i as int], -1i32))]
                    } else {
                        Seq::empty()
                    }) + (if i + 1 < sections.len() {
                        seq![("Gloss: move section down — "@ + p.title@, RowIntent::Move(pane, s[i as int], 1i32))]
                    } else {
                        Seq::empty()
                    }));
                    rows.append(&mut added);
                    assert(rows@.map_values(|r: (String, Action)| row_view(r)) =~= before + here);
                },
                None => {},
            }
            assert(head + reorder_rows(pane, s, i + 1) =~= (head + reorder_rows(pane, s, i as int))
                + (reorder_rows(pane, s, i + 1).subrange(reorder_rows(pane, s, i as int).len() as int, reorder_rows(pane, s, i + 1).len() as int)));
            i = i + 1;
        }
    } else {
        assert(head + Seq::<(Seq<char>, RowIntent)>::empty() =~= head);
    }
    rows
}

} // verus!
