use merecat::place::{place_secret_salt, transport_salt, AuthorityClock};

#[test]
fn salts_are_domain_separated_by_their_labels() {
    let moot = [7u8; 32];
    let mut want = b"turnstone.place.secrets.v1/".to_vec();
    want.extend_from_slice(&moot);
    assert_eq!(place_secret_salt(moot), want);
    let mut want = b"turnstone.place.transport.v1/".to_vec();
    want.extend_from_slice(&moot);
    assert_eq!(transport_salt(moot), want);
    assert_ne!(place_secret_salt(moot), transport_salt(moot));
}

#[test]
fn a_pinned_clock_reads_its_pin() {
    assert_eq!(AuthorityClock::Fixed(1_700_000_000_000).now_ms(), 1_700_000_000_000);
    // The system clock reads past 2020 on any machine this runs on.
    assert!(AuthorityClock::SystemTime.now_ms() > 1_577_836_800_000);
}
