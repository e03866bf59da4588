//! The recycle bin: where a session keeps what was deleted from it, the
//! bin store's records in app terms, and the listing the Removed section
//! reads (newest first).

use vstd::prelude::*;

use crate::action::{RemovedRecord, Update};
use crate::envelope::{parse_uuid, uuid_parse_outcome};
use crate::observe::{uuid_string, uuid_text};
use crate::paths::{join_path, joined};

verus! {

/// One session's bin directory (under its session directory).
pub fn bin_dir(session_dir: &str) -> (p: String)
    ensures
        joined(session_dir@, "bin"@, p@),
{
    proof {
        reveal_strlit("bin");
    }
    join_path(session_dir, "bin")
}

/// The bin store's record of a deleted node, as plain values: the node id
/// is the uuid's text, and the graph it left is kept for recovery.
#[derive(Clone, Debug, PartialEq)]
pub struct DeletedNode {
    pub node_id: String,
    pub url: String,
    pub title: Option<String>,
    pub tags: Vec<String>,
    pub graph_id: Option<String>,
    pub deleted_at_ms: u64,
}

/// The app's record of a stored deletion, when its node id parses as a
/// uuid (a foreign or corrupt record is skipped, never wedging the list).
pub open spec fn record_of(d: DeletedNode) -> Option<RemovedRecord> {
    match uuid_parse_outcome(d.node_id@) {
        Ok(v) => Some(RemovedRecord { node_id: v, url: d.url, title: d.title, tags: d.tags, deleted_at_ms: d.deleted_at_ms }),
        Err(_) => None,
    }
}

/// A stored deletion in app terms (see [`record_of`]).
pub fn to_record(d: DeletedNode) -> (r: Option<RemovedRecord>)
    ensures
        r == record_of(d),
        forall|v: u128| #[trigger] uuid_text(v) == d.node_id@ ==> (r matches Some(rec) && rec.node_id == v),
{
    match parse_uuid(d.node_id.as_str()) {
        Ok(v) => Some(RemovedRecord { node_id: v, url: d.url, title: d.title, tags: d.tags, deleted_at_ms: d.deleted_at_ms }),
        Err(_) => None,
    }
}

/// A removed record as the bin store keeps it, with the graph it left.
pub fn to_deleted(r: &RemovedRecord, graph_id: Option<String>) -> (d: DeletedNode)
    ensures
        d.node_id@ == uuid_text(r.node_id),
        d.url == r.url,
        d.title == r.title,
        d.tags@ == r.tags@,
        d.graph_id == graph_id,
        d.deleted_at_ms == r.deleted_at_ms,
{
    let mut tags: Vec<String> = Vec::new();
    let mut i: usize = 0;
    while i < r.tags.len()
        invariant
            i <= r.tags.len(),
            tags@ == r.tags@.take(i as int),
        decreases r.tags.len() - i,
    {
        tags.push(r.tags[i].clone());
        assert(tags@ =~= r.tags@.take(i + 1));
        i = i + 1;
    }
    assert(r.tags@.take(r.tags.len() as int) =~= r.tags@);
    let title = match &r.title {
        Some(t) => Some(t.clone()),
        None => None,
    };
    DeletedNode {
        node_id: uuid_string(r.node_id),
        url: r.url.clone(),
        title,
        tags,
        graph_id,
        deleted_at_ms: r.deleted_at_ms,
    }
}

/// A removed record survives the bin store: kept as [`to_deleted`] keeps it
/// and read back as [`to_record`] reads it, it comes back with its own node
/// id, url, title, tags and deletion time.
pub proof fn lemma_bin_round_trip(r: RemovedRecord, d: DeletedNode, back: Option<RemovedRecord>)
    requires
        d.node_id@ == uuid_text(r.node_id),
        d.url == r.url,
        d.title == r.title,
        d.tags@ == r.tags@,
        d.deleted_at_ms == r.deleted_at_ms,
        back == record_of(d),
        forall|v: u128| #[trigger] uuid_text(v) == d.node_id@ ==> (back matches Some(rec) && rec.node_id == v),
    ensures
        back matches Some(b) && b.node_id == r.node_id && b.url == r.url && b.title == r.title
            && b.tags@ == r.tags@ && b.deleted_at_ms == r.deleted_at_ms,
{
    assert(uuid_text(r.node_id) == d.node_id@);
}

/// The records of the stored deletions that parse, in store order.
pub open spec fn kept(deleted: Seq<DeletedNode>) -> Seq<RemovedRecord>
    decreases deleted.len(),
{
    if deleted.len() == 0 {
        Seq::empty()
    } else {
        let rest = kept(deleted.drop_last());
        match record_of(deleted.last()) {
            Some(r) => rest.push(r),
            None => rest,
        }
    }
}

/// `sorted` (newest first) with `r` placed after every record deleted at
/// the same time or later: a stable ordering, newest first.
pub open spec fn insert_newest_first(sorted: Seq<RemovedRecord>, r: RemovedRecord, from: int) -> Seq<RemovedRecord>
    decreases sorted.len() - from,
{
    if from >= sorted.len() || sorted[from].deleted_at_ms < r.deleted_at_ms {
        sorted.insert(from, r)
    } else {
        insert_newest_first(sorted, r, from + 1)
    }
}

/// Records newest first; records deleted at the same moment keep their
/// order.
pub open spec fn newest_first(records: Seq<RemovedRecord>) -> Seq<RemovedRecord>
    decreases records.len(),
{
    if records.len() == 0 {
        Seq::empty()
    } else {
        insert_newest_first(newest_first(records.drop_last()), records.last(), 0)
    }
}

/// The bin as the Removed section lists it: the stored deletions that
/// parse, newest first.
pub fn bin_listing(deleted: Vec<DeletedNode>) -> (records: Vec<RemovedRecord>)
    ensures
        records@ == newest_first(kept(deleted@)),
{
    let ghost all = deleted@;
    let mut rest = deleted;
    let mut parsed: Vec<RemovedRecord> = Vec::new();
    let mut i: usize = 0;
    assert(all.len() == rest.len());
    while rest.len() > 0
        invariant
            all.len() == i + rest.len(),
            all.len() <= usize::MAX,
            rest@ == all.skip(i as int),
            parsed@ == kept(all.take(i as int)),
        decreases rest.len(),
    {
        let d = rest.remove(0);
        assert(d == all[i as int]);
        assert(all.take(i + 1).drop_last() =~= all.take(i as int));
        assert(all.take(i + 1).last() == d);
        assert(rest@ =~= all.skip(i + 1));
        match to_record(d) {
            Some(r) => parsed.push(r),
            None => {},
        }
        i = i + 1;
    }
    assert(all.take(i as int) =~= all);
    let mut sorted: Vec<RemovedRecord> = Vec::new();
    let ghost ks = parsed@;
    let mut j: usize = 0;
    assert(ks.take(0) =~= Seq::<RemovedRecord>::empty());
    assert(ks.len() == parsed.len());
    while parsed.len() > 0
        invariant
            ks.len() == j + parsed.len(),
            ks.len() <= usize::MAX,
            parsed@ == ks.skip(j as int),
            sorted@ == newest_first(ks.take(j as int)),
        decreases parsed.len(),
    {
        let r = parsed.remove(0);
        assert(r == ks[j as int]);
        assert(ks.take(j + 1).drop_last() =~= ks.take(j as int));
        assert(ks.take(j + 1).last() == r);
        assert(parsed@ =~= ks.skip(j + 1));
        let ghost sv = sorted@;
        let mut k: usize = 0;
        while k < sorted.len() && sorted[k].deleted_at_ms >= r.deleted_at_ms
            invariant
                k <= sorted.len(),
                sv == sorted@,
                insert_newest_first(sv, r, 0) == insert_newest_first(sv, r, k as int),
            decreases sorted.len() - k,
        {
            k = k + 1;
        }
        sorted.insert(k, r);
        j = j + 1;
    }
    assert(ks.take(j as int) =~= ks);
    sorted
}

/// Whether records never get older toward the front.
pub open spec fn is_newest_first(s: Seq<RemovedRecord>) -> bool {
    forall|i: int, j: int| 0 <= i < j < s.len() ==> (#[trigger] s[i]).deleted_at_ms >= (#[trigger] s[j]).deleted_at_ms
}

proof fn lemma_insert_newest_first(sorted: Seq<RemovedRecord>, r: RemovedRecord, from: int)
    requires
        is_newest_first(sorted),
        0 <= from <= sorted.len(),
        forall|k: int| 0 <= k < from ==> (#[trigger] sorted[k]).deleted_at_ms >= r.deleted_at_ms,
    ensures
        is_newest_first(insert_newest_first(sorted, r, from)),
        insert_newest_first(sorted, r, from).to_multiset() == sorted.to_multiset().insert(r),
    decreases sorted.len() - from,
{
    if from >= sorted.len() || sorted[from].deleted_at_ms < r.deleted_at_ms {
        let t = sorted.insert(from, r);
        assert forall|i: int, j: int| 0 <= i < j < t.len() implies (#[trigger] t[i]).deleted_at_ms >= (#[trigger] t[j]).deleted_at_ms by {
            if j < from {
                assert(t[i] == sorted[i] && t[j] == sorted[j]);
            } else if j == from {
                assert(t[i] == sorted[i]);
            } else if i == from {
                assert(t[j] == sorted[j - 1]);
                assert(sorted[from].deleted_at_ms < r.deleted_at_ms || from >= sorted.len());
                if j - 1 > from {
                    assert(sorted[from].deleted_at_ms >= sorted[j - 1].deleted_at_ms);
                }
            } else if i < from {
                assert(t[i] == sorted[i] && t[j] == sorted[j - 1]);
            } else {
                assert(t[i] == sorted[i - 1] && t[j] == sorted[j - 1]);
            }
        }
        vstd::seq_lib::to_multiset_insert(sorted, from, r);
    } else {
        lemma_insert_newest_first(sorted, r, from + 1);
    }
}

/// The bin lists newest first, and it lists exactly the stored deletions
/// that parse: nothing is dropped or repeated by the ordering.
pub proof fn lemma_bin_listing_is_newest_first(records: Seq<RemovedRecord>)
    ensures
        is_newest_first(newest_first(records)),
        newest_first(records).to_multiset() == records.to_multiset(),
    decreases records.len(),
{
    if records.len() > 0 {
        lemma_bin_listing_is_newest_first(records.drop_last());
        lemma_insert_newest_first(newest_first(records.drop_last()), records.last(), 0);
        assert(records.drop_last().push(records.last()) =~= records);
        vstd::seq_lib::to_multiset_build(records.drop_last(), records.last());
    } else {
        assert(newest_first(records) =~= records);
    }
}

/// What the bin actor does with a record it is asked to keep.
pub enum BinWrite {
    /// Write this deletion to the store, then list the bin afresh.
    Keep(DeletedNode),
    /// Answer the app with this failure instead.
    Refuse(Update),
}

/// Whether `u` is a bin failure with message `error`.
pub open spec fn is_bin_failure(u: Update, error: Seq<char>) -> bool {
    u matches Update::BinFailed { error: e } && e@ == error
}

/// The failure a bin operation answers with: the operation, a colon, and
/// the store's message.
pub fn bin_failed(what: &str, err: &str) -> (u: Update)
    ensures
        is_bin_failure(u, what@ + ": "@ + err@),
{
    let mut error = String::from_str(what);
    error.append(": ");
    error.append(err);
    Update::BinFailed { error }
}

/// A record the app asks the bin to keep: with the store open it is written
/// as the store keeps deletions (sessions are directory-scoped, so no graph
/// id); with the store released or never opened, the app hears why.
pub fn bin_record(store_open: bool, record: &RemovedRecord) -> (w: BinWrite)
    ensures
        !store_open ==> (w matches BinWrite::Refuse(u) && is_bin_failure(u, "record: the bin store is not open"@)),
        store_open ==> (w matches BinWrite::Keep(d) && d.node_id@ == uuid_text(record.node_id)
            && d.url == record.url && d.title == record.title && d.tags@ == record.tags@
            && d.graph_id is None && d.deleted_at_ms == record.deleted_at_ms),
{
    if !store_open {
        proof {
            reveal_strlit("record: the bin store is not open");
        }
        return BinWrite::Refuse(Update::BinFailed { error: String::from_str("record: the bin store is not open") });
    }
    BinWrite::Keep(to_deleted(record, None))
}

/// The bin's answer to a listing of its store: the records that parse,
/// newest first, or the listing's failure.
pub fn bin_answer(listed: Result<Vec<DeletedNode>, String>) -> (u: Update)
    ensures
        match listed {
            Ok(deleted) => u matches Update::BinListed { records } && records@ == newest_first(kept(deleted@)),
            Err(e) => is_bin_failure(u, "list: "@ + e@),
        },
{
    match listed {
        Ok(deleted) => {
            let records = bin_listing(deleted);
            Update::BinListed { records }
        },
        Err(e) => {
            proof {
                reveal_strlit("list");
                reveal_strlit(": ");
                reveal_strlit("list: ");
                assert("list"@ + ": "@ + e@ =~= "list: "@ + e@);
            }
            bin_failed("list", e.as_str())
        },
    }
}

} // verus!
