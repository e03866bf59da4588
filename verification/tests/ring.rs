use merecat::action::Action;
use merecat::envelope::{decode_envelope, EnvelopeError};
use merecat::ring::{emit_allowed, granted_ring_names, ring_of, Ring};

#[test]
fn every_ring_but_host_only_names_a_grantable_path() {
    for ring in [Ring::Navigate, Ring::Panes, Ring::Dispatch, Ring::Session] {
        assert!(ring.path().is_some(), "{} must be grantable", ring.name());
    }
    assert_eq!(Ring::HostOnly.path(), None, "the structural floor");
}

#[test]
fn a_covered_emission_passes_and_an_uncovered_one_names_its_ring() {
    // A grant covering only app/navigate: the navigate ring is covered, the
    // session ring is not.
    let open = Action::OpenAddress("https://a".into());
    assert!(emit_allowed(&open, ring_of(&open) == Ring::Navigate).is_ok());
    let close = Action::CloseSession;
    let denial = emit_allowed(&close, ring_of(&close) == Ring::Navigate).expect_err("session is not covered");
    assert!(denial.contains("session"), "the denial names the ring: {denial}");
}

#[test]
fn gate_management_resists_even_a_total_app_grant() {
    for action in [
        Action::ConfirmInstallDenizen,
        Action::CancelInstallDenizen,
        Action::InstallDenizen { path: "x.lua".into() },
        Action::RunDenizen { member: 1 },
    ] {
        // A grant over all of app/ covers every path there is.
        let denial = emit_allowed(&action, true).expect_err("host-only must refuse");
        assert!(denial.contains("host-only"), "{denial}");
    }
}

#[test]
fn envelopes_decode_and_misfires_are_loud() {
    assert_eq!(
        decode_envelope("open-address", r#"{"url": "https://a.test"}"#),
        Ok(Action::OpenAddress("https://a.test".to_string()))
    );
    assert_eq!(decode_envelope("fit-view", ""), Ok(Action::FitView));
    assert!(matches!(decode_envelope("open-address", r#"{}"#), Err(EnvelopeError::Malformed(_))));
    assert!(matches!(decode_envelope("summon-the-kraken", ""), Err(EnvelopeError::Unknown(_))));
    assert_eq!(decode_envelope("confirm-install-denizen", ""), Ok(Action::ConfirmInstallDenizen));
}

#[test]
fn decoded_envelopes_classify_across_all_grantable_rings() {
    for (name, payload, ring) in [
        ("open-address", r#"{"url": "https://a"}"#, Ring::Navigate),
        ("new-window", "", Ring::Panes),
        ("fit-view", "", Ring::Dispatch),
        ("close-session", "", Ring::Session),
        ("run-denizen", r#"{"member": "00000000-0000-0000-0000-000000000001"}"#, Ring::HostOnly),
    ] {
        let action = decode_envelope(name, payload).expect(name);
        assert_eq!(ring_of(&action), ring, "{name}");
    }
}

#[test]
fn an_uncovered_ring_is_refused_with_its_exact_message() {
    let a = Action::FitView;
    assert_eq!(emit_allowed(&a, true), Ok(()));
    assert_eq!(
        emit_allowed(&a, false),
        Err("dispatch: not covered by this denizen's grant".to_string())
    );
    assert_eq!(
        emit_allowed(&Action::ConfirmInstallDenizen, true),
        Err("host-only: gate management is host-only; no grantable path exists".to_string())
    );
}

#[test]
fn ring_paths_and_names_are_exact() {
    assert_eq!(Ring::Navigate.path(), Some("app/navigate"));
    assert_eq!(Ring::Panes.path(), Some("app/panes"));
    assert_eq!(Ring::Dispatch.path(), Some("app/dispatch"));
    assert_eq!(Ring::Session.path(), Some("app/session"));
    assert_eq!(Ring::HostOnly.name(), "host-only");
}

#[test]
fn granted_names_follow_coverage_in_privilege_order() {
    assert_eq!(
        granted_ring_names([true, false, true, false]),
        vec!["mere:script/actions#navigate".to_string(), "mere:script/actions#dispatch".to_string()]
    );
    assert!(granted_ring_names([false; 4]).is_empty());
    assert_eq!(granted_ring_names([true; 4]).len(), 4);
}

#[test]
fn a_decoded_run_request_carries_its_member() {
    assert_eq!(
        decode_envelope("run-denizen", r#"{"member": "00000000-0000-0000-0000-00000000002a"}"#),
        Ok(Action::RunDenizen { member: 42 })
    );
    assert!(matches!(
        decode_envelope("run-denizen", r#"{"member": "not-a-uuid"}"#),
        Err(EnvelopeError::Malformed(_))
    ));
}
