use merecat::action::RemovedRecord;
use merecat::sections::{by_id, removed_rows};

#[test]
fn by_id_resolves_the_registered_providers() {
    assert_eq!(by_id("removed").map(|p| p.title), Some("Removed"));
    assert_eq!(by_id("recent").map(|p| p.title), Some("Recent"));
    assert!(by_id("nope").is_none());
}

fn record(node_id: u128, url: &str) -> RemovedRecord {
    RemovedRecord { node_id, url: url.to_string(), title: None, tags: Vec::new(), deleted_at_ms: 1 }
}

#[test]
fn removed_rows_show_absent_nodes_once() {
    let records = vec![
        record(1, "https://gone.test/a"),
        record(2, "https://back.test/b"),
        record(1, "https://gone.test/a-again"),
        record(3, "https://gone.test/c"),
    ];
    // Node 2 was recovered: it is present in the graph again.
    let present = vec![false, true, false, false];
    assert_eq!(removed_rows(&records, &present), vec![0, 3]);
    assert!(removed_rows(&records, &vec![true; 4]).is_empty());
}

#[test]
fn a_present_first_record_does_not_hide_a_later_absent_one() {
    let records = vec![record(4, "x"), record(4, "y")];
    assert_eq!(removed_rows(&records, &vec![true, false]), vec![1]);
}

#[test]
fn removed_section_gathers_absent_bin_records_only() {
    let id = uuid::Uuid::new_v4().as_u128();
    // A record whose node is absent from the graph is a removed row.
    let records = vec![RemovedRecord {
        node_id: id,
        url: "https://gone.test/page".into(),
        title: None,
        tags: Vec::new(),
        deleted_at_ms: 1,
    }];
    let rows = removed_rows(&records, &vec![false]);
    assert_eq!(rows.len(), 1);
    assert!(records[rows[0]].url.contains("gone.test"));

    // Recovering re-mints the node under its original id, so it is present
    // again and the section derives it away.
    assert!(removed_rows(&records, &vec![true]).is_empty());
}
