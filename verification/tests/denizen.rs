use merecat::denizen::{hex_to_bytes, review_line, stage_install};

#[test]
fn staged_subjects_are_the_digest_of_the_source() {
    let pending = stage_install("/packs/tidy.lua", "tidy", Ok("mere.save()".to_string())).expect("stages");
    assert_eq!(pending.subject, *blake3::hash(b"mere.save()").as_bytes());
    assert_eq!(pending.label, "tidy");
    assert_eq!(pending.path, "/packs/tidy.lua");
    let again = stage_install("/elsewhere/x.lua", "x", Ok("mere.save()".to_string())).expect("stages");
    assert_eq!(again.subject, pending.subject, "the same script is the same subject");
    let other = stage_install("/packs/tidy.lua", "tidy", Ok("mere.save() ".to_string())).expect("stages");
    assert_ne!(other.subject, pending.subject, "a modified script is a different subject");
}

#[test]
fn empty_and_unreadable_packs_are_refused() {
    assert_eq!(stage_install("p", "p", Ok(" \n\t".to_string())).err(), Some("the pack is empty".to_string()));
    assert_eq!(
        stage_install("p", "p", Err("permission denied".to_string())).err(),
        Some("unreadable pack: permission denied".to_string())
    );
}

#[test]
fn the_review_line_names_the_scope() {
    let pending = stage_install("/packs/tidy.lua", "tidy", Ok("x".to_string())).expect("stages");
    assert_eq!(
        review_line(&pending),
        "Install tidy: may run control scripts and write scenario/ in its own world — Confirm"
    );
}

#[test]
fn hex_subjects_decode_to_their_bytes() {
    let hex: String = (0u8..32).map(|b| format!("{b:02x}")).collect();
    let bytes = hex_to_bytes(&hex).expect("decodes");
    assert_eq!(bytes.to_vec(), (0u8..32).collect::<Vec<_>>());
    assert_eq!(hex_to_bytes(&hex.to_uppercase()).map(|b| b[31]), Ok(31));
    assert!(hex_to_bytes(&hex[..62]).is_err(), "too short");
    assert!(hex_to_bytes(&format!("zz{}", &hex[2..])).is_err(), "not hex");
    assert_eq!(hex_to_bytes(&format!("+f{}", &hex[2..])).map(|b| b[0]), Ok(15), "a sign is accepted");
}
