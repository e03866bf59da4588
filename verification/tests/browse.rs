use merecat::envelope::{id_from_parse, number_from_field, string_from_field, EnvelopeError, JsonField};
use merecat::action::{Effect, FetchedPage, Update};
use merecat::browse::{favicon_url_for, fetch_command_for, update_from_fetch, FetchCommand, FetchUpdate, PendingFetches};

#[test]
fn pending_table_correlates_and_refuses_to_guess() {
    let (a, b) = (uuid::Uuid::new_v4().as_u128(), uuid::Uuid::new_v4().as_u128());
    let mut pending = PendingFetches::default();
    pending.note_page("https://x.example", a);
    pending.note_page("https://x.example", b);
    assert!(pending.take_page("https://x.example").is_some());
    assert!(pending.take_page("https://x.example").is_some());
    assert!(pending.take_page("https://x.example").is_none());

    let unmatched = update_from_fetch(
        FetchUpdate::Favicon { owner_url: "https://nobody.example".to_string(), bytes: vec![1, 2, 3] },
        &mut pending,
    );
    assert!(unmatched.is_none(), "an unmatched completion is dropped, not guessed");
}

#[test]
fn a_completion_goes_to_the_latest_requester_of_its_address() {
    let mut pending = PendingFetches::new();
    pending.note_page("https://x.example", 1);
    pending.note_page("https://x.example", 2);
    pending.note_page("https://y.example", 3);
    assert_eq!(pending.take_page("https://x.example"), Some(2));
    assert_eq!(pending.take_page("https://y.example"), Some(3));
    assert_eq!(pending.take_page("https://x.example"), Some(1));
    assert_eq!(pending.take_page("https://y.example"), None);
    // Pages and favicons are separate lanes.
    pending.note_favicon("https://x.example", 9);
    assert_eq!(pending.take_page("https://x.example"), None);
    assert_eq!(pending.take_favicon("https://x.example"), Some(9));
}

#[test]
fn an_effect_is_noted_then_its_answer_is_reattached() {
    let mut pending = PendingFetches::new();
    let effect = Effect::FetchPage { node: 7, url: "https://p.example".to_string() };
    match fetch_command_for(&effect, &mut pending) {
        Some(FetchCommand::Page(url)) => assert_eq!(url, "https://p.example"),
        _ => panic!("a page fetch commands a page"),
    }
    let update = update_from_fetch(
        FetchUpdate::Page {
            url: "https://p.example".to_string(),
            result: Ok(FetchedPage { content_type: Some("text/html".to_string()), body: "<p>".to_string() }),
        },
        &mut pending,
    );
    match update {
        Some(Update::PageFetched { node, url, result }) => {
            assert_eq!(node, 7);
            assert_eq!(url, "https://p.example");
            assert_eq!(result.map(|p| p.body), Ok("<p>".to_string()));
        }
        _ => panic!("the answer reaches its requester"),
    }
    assert!(fetch_command_for(&Effect::Redraw, &mut pending).is_none());
    assert!(update_from_fetch(FetchUpdate::Subresource, &mut pending).is_none());
}

#[test]
fn a_favicon_answer_keeps_its_bytes() {
    let mut pending = PendingFetches::new();
    let effect = Effect::FetchFavicon {
        node: 5,
        owner_url: "https://o.example".to_string(),
        url: "https://o.example/favicon.ico".to_string(),
    };
    match fetch_command_for(&effect, &mut pending) {
        Some(FetchCommand::Favicon { owner_url, url }) => {
            assert_eq!(owner_url, "https://o.example");
            assert_eq!(url, "https://o.example/favicon.ico");
        }
        _ => panic!("a favicon fetch commands a favicon"),
    }
    match update_from_fetch(FetchUpdate::Favicon { owner_url: "https://o.example".to_string(), bytes: vec![4, 2] }, &mut pending) {
        Some(Update::FaviconFetched { node, owner_url, bytes }) => {
            assert_eq!((node, owner_url.as_str(), bytes), (5, "https://o.example", vec![4, 2]));
        }
        _ => panic!("the favicon reaches its requester"),
    }
}

#[test]
fn a_declared_icon_resolves_against_the_page_else_the_well_known_one() {
    assert_eq!(
        favicon_url_for("https://example.net/a/b.html", Some("icons/i.png")),
        Some("https://example.net/a/icons/i.png".to_string())
    );
    assert_eq!(favicon_url_for("https://example.net/a/b.html", None), Some("https://example.net/favicon.ico".to_string()));
    assert_eq!(favicon_url_for("mere://note/1", None), None, "only web pages have a well-known icon");
    assert_eq!(favicon_url_for("not a url", Some("x.png")), None);
    assert_eq!(
        favicon_url_for("http://h.test/p", Some("http://[bad")),
        Some("http://h.test/favicon.ico".to_string()),
        "an unresolvable href falls back"
    );
}

#[test]
fn payload_fields_become_values_or_named_malformations() {
    assert_eq!(string_from_field(JsonField::Text("u".into()), "url"), Ok("u".to_string()));
    assert_eq!(
        string_from_field(JsonField::Missing, "url"),
        Err(EnvelopeError::Malformed("missing field `url`".into()))
    );
    assert_eq!(
        string_from_field(JsonField::Number(Some(1)), "url"),
        Err(EnvelopeError::Malformed("field `url`: expected a string".into()))
    );
    assert_eq!(
        string_from_field(JsonField::Unparsable("eof".into()), "url"),
        Err(EnvelopeError::Malformed("payload: eof".into()))
    );
    assert_eq!(number_from_field(JsonField::Number(Some(0.5f64.to_bits())), "delta"), Ok(0.5f64.to_bits()));
    assert_eq!(
        number_from_field(JsonField::Number(None), "delta"),
        Err(EnvelopeError::Malformed("field `delta`: expected a number".into()))
    );
    assert_eq!(number_from_field(JsonField::Other, "delta"), Err(EnvelopeError::Malformed("field `delta`: expected a number".into())));
    assert_eq!(id_from_parse(Ok(7), "member"), Ok(7));
    assert_eq!(
        id_from_parse(Err("invalid length".into()), "member"),
        Err(EnvelopeError::Malformed("field `member`: invalid length".into()))
    );
}
