//! The section-provider registry: named, id-addressable list sections any
//! pane can compose, and which recycle-bin records the removed section
//! shows.

use vstd::prelude::*;

use crate::action::RemovedRecord;
use crate::text::str_eq;

verus! {

/// One row of a composed section: display text.
#[derive(Clone, Debug)]
pub struct SectionRow {
    pub text: String,
}

/// A named list-section provider. The stable `id` is what a pane's config
/// addresses; `title` is the rendered header. What it gathers is the
/// host's, from the graph it holds.
#[derive(Clone, Copy, Debug, PartialEq, Eq)]
pub struct SectionProvider {
    pub id: &'static str,
    pub title: &'static str,
}

/// The registered providers, by id and title.
pub open spec fn registered(id: Seq<char>) -> Option<Seq<char>> {
    if id == "recent"@ {
        Some("Recent"@)
    } else if id == "removed"@ {
        Some("Removed"@)
    } else {
        None
    }
}

/// Graph-wide recently visited addresses, newest first.
pub fn recent_section() -> (p: SectionProvider)
    ensures
        p.id@ == "recent"@,
        p.title@ == "Recent"@,
{
    SectionProvider { id: "recent", title: "Recent" }
}

/// The recycle bin's removed nodes (records whose node is absent).
pub fn removed_section() -> (p: SectionProvider)
    ensures
        p.id@ == "removed"@,
        p.title@ == "Removed"@,
{
    SectionProvider { id: "removed", title: "Removed" }
}

/// The provider with this id, if any.
pub fn by_id(id: &str) -> (r: Option<SectionProvider>)
    ensures
        match registered(id@) {
            Some(title) => r matches Some(p) && p.id@ == id@ && p.title@ == title,
            None => r is None,
        },
{
    if str_eq(id, "recent") {
        Some(recent_section())
    } else if str_eq(id, "removed") {
        Some(removed_section())
    } else {
        None
    }
}

/// Whether record `i` makes a removed-section row: its node is absent from
/// the graph, and no earlier absent record names the same node.
pub open spec fn shows_removed(records: Seq<RemovedRecord>, present: Seq<bool>, i: int) -> bool {
    &&& !present[i]
    &&& forall|j: int| 0 <= j < i ==> present[j] || (#[trigger] records[j]).node_id != records[i].node_id
}

/// The records the removed section shows, by index, in bin order.
/// `present[i]` says whether record `i`'s node is in the graph.
pub fn removed_rows(records: &Vec<RemovedRecord>, present: &Vec<bool>) -> (rows: Vec<usize>)
    requires
        present.len() == records.len(),
    ensures
        forall|k: int| 0 <= k < rows.len() ==> shows_removed(records@, present@, #[trigger] rows@[k] as int)
            && rows@[k] < records.len(),
        forall|k: int, l: int| 0 <= k < l < rows.len() ==> rows@[k] < rows@[l],
        forall|i: int| 0 <= i < records.len() && shows_removed(records@, present@, i) ==> rows@.contains(i as usize),
{
    let mut rows: Vec<usize> = Vec::new();
    let mut i: usize = 0;
    while i < records.len()
        invariant
            present.len() == records.len(),
            i <= records.len(),
            forall|k: int| 0 <= k < rows.len() ==> shows_removed(records@, present@, #[trigger] rows@[k] as int)
                && rows@[k] < i,
            forall|k: int, l: int| 0 <= k < l < rows.len() ==> rows@[k] < rows@[l],
            forall|m: int| 0 <= m < i && shows_removed(records@, present@, m) ==> rows@.contains(m as usize),
        decreases records.len() - i,
    {
        if !present[i] {
            let mut j: usize = 0;
            let mut dup = false;
            while j < i
                invariant
                    present.len() == records.len(),
                    i < records.len(),
                    !present@[i as int],
                    j <= i,
                    dup ==> !shows_removed(records@, present@, i as int),
                    !dup ==> forall|m: int| 0 <= m < j ==> present@[m] || (#[trigger] records@[m]).node_id != records@[i as int].node_id,
                decreases i - j,
            {
                if !present[j] && records[j].node_id == records[i].node_id {
                    assert(records@[j as int].node_id == records@[i as int].node_id);
                    dup = true;
                }
                j = j + 1;
            }
            if !dup {
                let ghost before = rows@;
                rows.push(i);
                assert(shows_removed(records@, present@, i as int));
                assert forall|k: int| 0 <= k < rows.len() implies shows_removed(records@, present@, #[trigger] rows@[k] as int)
                    && rows@[k] < i + 1 by {
                    if k < before.len() {
                        assert(rows@[k] == before[k]);
                    }
                }
                assert forall|m: int| 0 <= m < i + 1 && shows_removed(records@, present@, m) implies rows@.contains(m as usize) by {
                    if m < i {
                        assert(before.contains(m as usize));
                        let k = choose|k: int| 0 <= k < before.len() && before[k] == m as usize;
                        assert(rows@[k] == m as usize);
                    } else {
                        assert(rows@[rows.len() - 1] == m as usize);
                    }
                }
            }
        }
        i = i + 1;
    }
    rows
}

} // verus!
