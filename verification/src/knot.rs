//! Knot authoring: which addresses are knot documents, and the clip
//! destination's status as the inspector shows it.

use vstd::prelude::*;

use std::collections::BTreeMap;

use crate::text::{
    ascii_lower, ascii_lowercase, ascii_lowercase_chars, chars_of, decimal, decimal_string, ends_with, ends_with_chars,
    lines, lines_of, string_from_chars, string_of, parse_unsigned, parse_unsigned_chars, slice_chars, starts_with, starts_with_chars, str_eq, trim, trim_chars,
};

verus! {

/// Last known result of the configured inspector clip destination.
#[derive(Clone, Debug)]
pub enum KnotClipStatus {
    Ready,
    Sending,
    Saved,
    Stale,
    Rejected(String),
}

/// The status line a clip status reads as.
pub open spec fn clip_label(status: KnotClipStatus) -> Seq<char> {
    match status {
        KnotClipStatus::Ready => "ready"@,
        KnotClipStatus::Sending => "clipping"@,
        KnotClipStatus::Saved => "clip saved"@,
        KnotClipStatus::Stale => "clip target changed; retry"@,
        KnotClipStatus::Rejected(reason) => reason@,
    }
}

impl KnotClipStatus {
    /// The status line the inspector shows.
    pub fn label(&self) -> (s: String)
        ensures
            s@ == clip_label(*self),
    {
        match self {
            KnotClipStatus::Ready => String::from_str("ready"),
            KnotClipStatus::Sending => String::from_str("clipping"),
            KnotClipStatus::Saved => String::from_str("clip saved"),
            KnotClipStatus::Stale => String::from_str("clip target changed; retry"),
            KnotClipStatus::Rejected(reason) => reason.clone(),
        }
    }
}

/// Where an address's query or fragment begins (its length when it has
/// neither).
pub open spec fn query_start(s: Seq<char>, from: int) -> int
    decreases s.len() - from,
{
    if from >= s.len() {
        s.len() as int
    } else if s[from] == '?' || s[from] == '#' {
        from
    } else {
        query_start(s, from + 1)
    }
}

/// Whether an address names a knot document: its path (before any query or
/// fragment) ends in `.knot`, or the whole address uses the `knot:` scheme,
/// both without regard to ASCII case.
pub open spec fn knot_address(a: Seq<char>) -> bool {
    ends_with(ascii_lowercase(a.take(query_start(a, 0))), ".knot"@)
        || starts_with(ascii_lowercase(a), "knot:"@)
}

/// Whether `address` names a knot document (see [`knot_address`]); other
/// files are never claimed.
pub fn is_knot_address(address: &str) -> (b: bool)
    ensures
        b == knot_address(address@),
{
    let cs = chars_of(address);
    let mut k: usize = 0;
    while k < cs.len() && cs[k] != '?' && cs[k] != '#'
        invariant
            k <= cs.len(),
            query_start(cs@, 0) == query_start(cs@, k as int),
        decreases cs.len() - k,
    {
        k = k + 1;
    }
    let base = slice_chars(&cs, 0, k);
    assert(base@ =~= cs@.take(query_start(cs@, 0)));
    let lower_base = ascii_lowercase_chars(&base);
    let lower = ascii_lowercase_chars(&cs);
    let suffix = chars_of(".knot");
    let prefix = chars_of("knot:");
    ends_with_chars(&lower_base, &suffix) || starts_with_chars(&lower, &prefix)
}

/// The query or fragment of `a` starts where that of `b` does, when the two
/// agree up to ASCII case.
proof fn lemma_query_start_caseless(a: Seq<char>, b: Seq<char>, from: int)
    requires
        a.len() == b.len(),
        forall|i: int| 0 <= i < a.len() ==> #[trigger] ascii_lower(a[i]) == ascii_lower(b[i]),
        0 <= from,
    ensures
        query_start(a, from) == query_start(b, from),
    decreases a.len() - from,
{
    if from < a.len() {
        assert(ascii_lower(a[from]) == ascii_lower(b[from]));
        lemma_query_start_caseless(a, b, from + 1);
    }
}

/// ASCII case never changes whether an address names a knot document.
pub proof fn lemma_knot_address_caseless(a: Seq<char>, b: Seq<char>)
    requires
        a.len() == b.len(),
        forall|i: int| 0 <= i < a.len() ==> #[trigger] ascii_lower(a[i]) == ascii_lower(b[i]),
    ensures
        knot_address(a) == knot_address(b),
{
    lemma_query_start_caseless(a, b, 0);
    let q = query_start(a, 0);
    lemma_query_start_bound(a, 0);
    assert(ascii_lowercase(a.take(q)) =~= ascii_lowercase(b.take(q)));
    assert(ascii_lowercase(a) =~= ascii_lowercase(b));
}

proof fn lemma_query_start_bound(a: Seq<char>, from: int)
    requires
        0 <= from,
    ensures
        from <= a.len() ==> from <= query_start(a, from) <= a.len(),
        from > a.len() ==> query_start(a, from) == a.len(),
    decreases a.len() - from,
{
    if from < a.len() {
        lemma_query_start_bound(a, from + 1);
    }
}

/// In `base` followed by `rest`, where `base` has no `?` or `#`, the query
/// or fragment starts where `rest` does.
proof fn lemma_query_start_after(base: Seq<char>, rest: Seq<char>, from: int)
    requires
        0 <= from <= base.len(),
        forall|i: int| 0 <= i < base.len() ==> #[trigger] base[i] != '?' && base[i] != '#',
        rest.len() > 0,
        rest[0] == '?' || rest[0] == '#',
    ensures
        query_start(base + rest, from) == base.len(),
        query_start(base, from) == base.len(),
    decreases base.len() - from,
{
    if from < base.len() {
        assert((base + rest)[from] == base[from]);
        lemma_query_start_after(base, rest, from + 1);
    } else {
        assert((base + rest)[from] == rest[0]);
    }
}

/// A query or fragment never changes whether an address names a knot
/// document: `base` followed by `?` or `#` and anything is a knot address
/// exactly when `base` is, for a `base` without either mark.
pub proof fn lemma_knot_address_ignores_query(base: Seq<char>, mark: char, tail: Seq<char>)
    requires
        forall|i: int| 0 <= i < base.len() ==> #[trigger] base[i] != '?' && base[i] != '#',
        mark == '?' || mark == '#',
    ensures
        knot_address(base + seq![mark] + tail) == knot_address(base),
{
    reveal_strlit("knot:");
    let rest = seq![mark] + tail;
    let a = base + rest;
    assert(base + seq![mark] + tail =~= a);
    lemma_query_start_after(base, rest, 0);
    assert(a.take(base.len() as int) =~= base);
    let la = ascii_lowercase(a);
    let lb = ascii_lowercase(base);
    assert(query_start(a, 0) == base.len());
    assert(ends_with(ascii_lowercase(a.take(query_start(a, 0))), ".knot"@)
        == ends_with(ascii_lowercase(base.take(query_start(base, 0))), ".knot"@)) by {
        assert(base.take(base.len() as int) =~= base);
    }
    if base.len() >= 5 {
        assert(la.take(5) =~= lb.take(5));
        assert(starts_with(la, "knot:"@) == starts_with(lb, "knot:"@));
    } else {
        let n = base.len() as int;
        assert(la[n] == ascii_lower(mark));
        assert(ascii_lower(mark) == mark);
        if starts_with(la, "knot:"@) {
            assert(la.take(5)[n] == "knot:"@[n]);
        }
        assert(!starts_with(lb, "knot:"@));
        assert(!starts_with(la, "knot:"@));
    }
}

/// The largest document source the endpoint accepts unless configured.
pub const DEFAULT_MAX_SOURCE_BYTES: u64 = 8388608;

/// What std's `ParseIntError` says of `text` as a `u64`.
pub uninterp spec fn int_error_text(text: Seq<char>) -> Seq<char>;

/// The message of the error `str::parse::<u64>` gives for `text`. Only
/// asked of a text that does not parse.
#[verifier::external_body]
fn u64_parse_error(text: &str) -> (e: String)
    requires
        parse_unsigned(text@, u64::MAX as nat) is None,
    ensures
        e@ == int_error_text(text@),
{
    match text.parse::<u64>() {
        Err(error) => error.to_string(),
        Ok(_) => String::new(),
    }
}

/// How to launch the knot endpoint, as configured.
pub struct KnotLaunch {
    /// The endpoint program.
    pub program: String,
    /// Its arguments: the mode, the document root, (the persona,) and the
    /// largest source it accepts.
    pub args: Vec<String>,
    /// The configured inspector clip destination, when it names one.
    pub clip_target: Option<String>,
}

/// The view of an optional text.
pub open spec fn opt_text(t: Option<&str>) -> Option<Seq<char>> {
    match t {
        Some(s) => Some(s@),
        None => None,
    }
}

/// The largest source the endpoint accepts: the configured count, or the
/// default; an error naming the setting when it is not an integer.
pub open spec fn max_source(max_bytes: Option<Seq<char>>) -> Result<nat, Seq<char>> {
    match max_bytes {
        None => Ok(DEFAULT_MAX_SOURCE_BYTES as nat),
        Some(t) => match parse_unsigned(t, u64::MAX as nat) {
            Some(n) => Ok(n),
            None => Err("TURNSTONE_KNOT_MAX_BYTES must be an integer: "@ + int_error_text(t)),
        },
    }
}

/// The endpoint's arguments for a mode, or the refusal of the mode.
pub open spec fn launch_args(mode: Seq<char>, root: Seq<char>, persona: Option<Seq<char>>, max: nat) -> Result<Seq<Seq<char>>, Seq<char>> {
    if mode == "directory-write"@ {
        Ok(seq!["directory-write"@, root, decimal(max)])
    } else if mode == "persona-vault"@ {
        match persona {
            Some(p) => Ok(seq!["persona-vault"@, root, p, decimal(max)]),
            None => Err("TURNSTONE_KNOT_PERSONA is required for persona-vault mode"@),
        }
    } else {
        Err("unsupported TURNSTONE_KNOT_MODE "@ + mode + "; expected directory-write or persona-vault"@)
    }
}

/// The clip destination a configured text names: none when it is blank.
pub open spec fn clip_destination(clip: Option<Seq<char>>) -> Option<Seq<char>> {
    match clip {
        Some(t) => if trim(t).len() == 0 { None } else { Some(t) },
        None => None,
    }
}

/// How the knot endpoint launches from its configuration: not at all
/// without a document root; else the program (or why it could not be
/// found), the source limit, and the mode's arguments, each refused with a
/// message naming its setting.
pub open spec fn knot_launch_spec(
    root: Option<Seq<char>>,
    program: Result<Seq<char>, Seq<char>>,
    max_bytes: Option<Seq<char>>,
    mode: Option<Seq<char>>,
    persona: Option<Seq<char>>,
    clip: Option<Seq<char>>,
) -> Result<Option<(Seq<char>, Seq<Seq<char>>, Option<Seq<char>>)>, Seq<char>> {
    match root {
        None => Ok(None),
        Some(r) => match program {
            Err(e) => Err(e),
            Ok(prog) => match max_source(max_bytes) {
                Err(e) => Err(e),
                Ok(max) => match launch_args(match mode { Some(m) => m, None => "directory-write"@ }, r, persona, max) {
                    Err(e) => Err(e),
                    Ok(args) => Ok(Some((prog, args, clip_destination(clip)))),
                },
            },
        },
    }
}

/// The launch a configuration asks for (see [`knot_launch_spec`]). The host
/// reads the settings from its environment and resolves the program (the
/// configured one, else the endpoint beside its executable).
pub fn knot_launch(
    root: Option<&str>,
    program: Result<String, String>,
    max_bytes: Option<&str>,
    mode: Option<&str>,
    persona: Option<&str>,
    clip: Option<&str>,
) -> (r: Result<Option<KnotLaunch>, String>)
    ensures
        knot_launch_spec(opt_text(root), match program {
            Ok(p) => Ok(p@),
            Err(e) => Err(e@),
        }, opt_text(max_bytes), opt_text(mode), opt_text(persona), opt_text(clip)) == (match r {
            Ok(Some(l)) => Ok(Some((l.program@, l.args@.map_values(|a: String| a@), match l.clip_target {
                Some(t) => Some(t@),
                None => None,
            }))),
            Ok(None) => Ok(None),
            Err(e) => Err(e@),
        }),
{
    let root = match root {
        Some(r) => r,
        None => {
            return Ok(None);
        },
    };
    let program = match program {
        Ok(p) => p,
        Err(e) => {
            return Err(e);
        },
    };
    let max: u64 = match max_bytes {
        None => DEFAULT_MAX_SOURCE_BYTES,
        Some(t) => match parse_unsigned_chars(&chars_of(t), u64::MAX) {
            Some(n) => n,
            None => {
                let mut e = String::from_str("TURNSTONE_KNOT_MAX_BYTES must be an integer: ");
                e.append(u64_parse_error(t).as_str());
                return Err(e);
            },
        },
    };
    let max_text = decimal_string(max);
    let mode_text: &str = match mode {
        Some(m) => m,
        None => "directory-write",
    };
    let mut args: Vec<String> = Vec::new();
    if str_eq(mode_text, "directory-write") {
        args.push(String::from_str("directory-write"));
        args.push(String::from_str(root));
        args.push(max_text);
        assert(args@.map_values(|a: String| a@) =~= seq!["directory-write"@, root@, decimal(max as nat)]);
    } else if str_eq(mode_text, "persona-vault") {
        match persona {
            Some(p) => {
                args.push(String::from_str("persona-vault"));
                args.push(String::from_str(root));
                args.push(String::from_str(p));
                args.push(max_text);
                assert(args@.map_values(|a: String| a@) =~= seq!["persona-vault"@, root@, p@, decimal(max as nat)]);
            },
            None => {
                return Err(String::from_str("TURNSTONE_KNOT_PERSONA is required for persona-vault mode"));
            },
        }
    } else {
        let mut e = String::from_str("unsupported TURNSTONE_KNOT_MODE ");
        e.append(mode_text);
        e.append("; expected directory-write or persona-vault");
        return Err(e);
    }
    let clip_target = match clip {
        Some(t) => {
            let cs = chars_of(t);
            let trimmed = trim_chars(&cs, 0, cs.len());
            assert(cs@.subrange(0, cs@.len() as int) =~= cs@);
            if trimmed.len() == 0 { None } else { Some(String::from_str(t)) }
        },
        None => None,
    };
    Ok(Some(KnotLaunch { program, args, clip_target }))
}

/// Where an open knot document stands with its endpoint.
#[derive(Clone, Copy, Debug, PartialEq, Eq, Structural)]
pub enum AuthoringStatus {
    Current,
    Saving,
    Reloading,
    Stale,
    Rejected,
    Revoked,
}

/// What the knot hub tells an open document, as plain values (a binding
/// reads as its base token and source).
#[derive(Clone, Debug, PartialEq)]
pub enum HubEvent {
    /// Another writer changed the document.
    Remote { base_token: Vec<u8>, source: String },
    /// This document's save landed.
    Saved { source: String, base_token: Vec<u8> },
    /// The requested reload arrived.
    Reloaded { base_token: Vec<u8>, source: String },
    /// The endpoint refused a save against an old base token.
    Stale,
    /// The endpoint rejected a save, for this reason.
    Rejected(String),
    /// The endpoint revoked the session, for this reason.
    Revoked(String),
}

/// What an event does to the document's editor.
#[derive(Clone, Debug, PartialEq)]
pub enum EditorChange {
    /// The editor stays as it is.
    Keep,
    /// The editor restarts on this source (nothing unsaved).
    Scratch(String),
    /// The editor takes this source as saved.
    AcceptSaved(String),
}

/// An open document's standing with its endpoint: the base token its next
/// save is against, its status and detail line, and how many remote
/// revisions have arrived.
pub struct Authoring {
    pub base_token: Vec<u8>,
    pub status: AuthoringStatus,
    pub detail: String,
    pub revision_refreshes: u64,
}

fn bytes_eq(a: &Vec<u8>, b: &Vec<u8>) -> (r: bool)
    ensures
        r == (a@ == b@),
{
    if a.len() != b.len() {
        return false;
    }
    let mut i: usize = 0;
    while i < a.len()
        invariant
            a.len() == b.len(),
            i <= a.len(),
            forall|k: int| 0 <= k < i ==> a@[k] == b@[k],
        decreases a.len() - i,
    {
        if a[i] != b[i] {
            return false;
        }
        i = i + 1;
    }
    assert(a@ =~= b@);
    true
}

/// Fold one hub event into an open document. A remote revision against the
/// token in hand is not news; a newer one refreshes a clean editor, but a
/// dirty editor is never overwritten: it goes stale instead, keeping the
/// user's text. Saves and reloads take the binding's token; a revocation
/// forgets the token and empties the editor.
pub fn apply_hub_event(a: &mut Authoring, dirty: bool, event: HubEvent) -> (change: EditorChange)
    requires
        event is Remote ==> old(a).revision_refreshes < u64::MAX,
    ensures
        match event {
            HubEvent::Remote { base_token, source } => {
                &&& final(a).revision_refreshes == old(a).revision_refreshes + 1
                &&& if base_token@ == old(a).base_token@ {
                    final(a).base_token == old(a).base_token && final(a).status == old(a).status
                        && final(a).detail == old(a).detail && change == EditorChange::Keep
                } else if dirty {
                    final(a).base_token == old(a).base_token && final(a).status == AuthoringStatus::Stale
                        && final(a).detail@ == "the endpoint has a newer document"@ && change == EditorChange::Keep
                } else {
                    final(a).base_token == base_token && final(a).status == AuthoringStatus::Current
                        && final(a).detail@.len() == 0 && change == EditorChange::Scratch(source)
                }
            },
            HubEvent::Reloaded { base_token, source } => {
                &&& final(a).base_token == base_token && final(a).status == AuthoringStatus::Current
                &&& final(a).detail@.len() == 0 && change == EditorChange::Scratch(source)
                &&& final(a).revision_refreshes == old(a).revision_refreshes
            },
            HubEvent::Saved { source, base_token } => {
                &&& final(a).base_token == base_token && final(a).status == AuthoringStatus::Current
                &&& final(a).detail@.len() == 0 && change == EditorChange::AcceptSaved(source)
                &&& final(a).revision_refreshes == old(a).revision_refreshes
            },
            HubEvent::Stale => {
                &&& final(a).base_token == old(a).base_token && final(a).status == AuthoringStatus::Stale
                &&& final(a).detail@ == "the endpoint refused an old base token"@ && change == EditorChange::Keep
                &&& final(a).revision_refreshes == old(a).revision_refreshes
            },
            HubEvent::Rejected(reason) => {
                &&& final(a).base_token == old(a).base_token && final(a).status == AuthoringStatus::Rejected
                &&& final(a).detail == reason && change == EditorChange::Keep
                &&& final(a).revision_refreshes == old(a).revision_refreshes
            },
            HubEvent::Revoked(reason) => {
                &&& final(a).base_token@.len() == 0 && final(a).status == AuthoringStatus::Revoked
                &&& final(a).detail == reason
                &&& change matches EditorChange::Scratch(s) && s@.len() == 0
                &&& final(a).revision_refreshes == old(a).revision_refreshes
            },
        },
{
    match event {
        HubEvent::Remote { base_token, source } => {
            a.revision_refreshes = a.revision_refreshes + 1;
            if bytes_eq(&base_token, &a.base_token) {
                EditorChange::Keep
            } else if dirty {
                a.status = AuthoringStatus::Stale;
                a.detail = String::from_str("the endpoint has a newer document");
                EditorChange::Keep
            } else {
                a.base_token = base_token;
                a.status = AuthoringStatus::Current;
                a.detail = String::new();
                EditorChange::Scratch(source)
            }
        },
        HubEvent::Reloaded { base_token, source } => {
            a.base_token = base_token;
            a.status = AuthoringStatus::Current;
            a.detail = String::new();
            EditorChange::Scratch(source)
        },
        HubEvent::Saved { source, base_token } => {
            a.base_token = base_token;
            a.status = AuthoringStatus::Current;
            a.detail = String::new();
            EditorChange::AcceptSaved(source)
        },
        HubEvent::Stale => {
            a.status = AuthoringStatus::Stale;
            a.detail = String::from_str("the endpoint refused an old base token");
            EditorChange::Keep
        },
        HubEvent::Rejected(reason) => {
            a.status = AuthoringStatus::Rejected;
            a.detail = reason;
            EditorChange::Keep
        },
        HubEvent::Revoked(reason) => {
            a.base_token = Vec::new();
            a.status = AuthoringStatus::Revoked;
            a.detail = reason;
            EditorChange::Scratch(String::new())
        },
    }
}

/// The status word an open document shows: a current document reads as
/// saved or, with unsaved edits, unsaved.
pub open spec fn status_word(status: AuthoringStatus, dirty: bool) -> Seq<char> {
    match status {
        AuthoringStatus::Current => if dirty { "unsaved"@ } else { "saved"@ },
        AuthoringStatus::Saving => "saving"@,
        AuthoringStatus::Reloading => "reloading"@,
        AuthoringStatus::Stale => "stale"@,
        AuthoringStatus::Rejected => "rejected"@,
        AuthoringStatus::Revoked => "revoked"@,
    }
}

/// The status word of an open document (see [`status_word`]).
pub fn status_label(status: AuthoringStatus, dirty: bool) -> (w: &'static str)
    ensures
        w@ == status_word(status, dirty),
{
    match status {
        AuthoringStatus::Current => if dirty { "unsaved" } else { "saved" },
        AuthoringStatus::Saving => "saving",
        AuthoringStatus::Reloading => "reloading",
        AuthoringStatus::Stale => "stale",
        AuthoringStatus::Rejected => "rejected",
        AuthoringStatus::Revoked => "revoked",
    }
}

/// The status line an open document's toolbar shows: a closed or stale
/// document says so, a rejected save shows its detail, and a current one
/// reads saved or, with unsaved edits, unsaved.
pub open spec fn status_line_text(status: AuthoringStatus, dirty: bool, detail: Seq<char>) -> Seq<char> {
    match status {
        AuthoringStatus::Revoked => "closed"@,
        AuthoringStatus::Stale => "stale; reload or resolve"@,
        AuthoringStatus::Saving => "saving"@,
        AuthoringStatus::Reloading => "reloading"@,
        AuthoringStatus::Rejected => detail,
        AuthoringStatus::Current => if dirty { "unsaved"@ } else { "saved"@ },
    }
}

/// The status line of an open document (see [`status_line_text`]).
pub fn status_line(status: AuthoringStatus, dirty: bool, detail: &str) -> (s: String)
    ensures
        s@ == status_line_text(status, dirty, detail@),
{
    match status {
        AuthoringStatus::Revoked => String::from_str("closed"),
        AuthoringStatus::Stale => String::from_str("stale; reload or resolve"),
        AuthoringStatus::Saving => String::from_str("saving"),
        AuthoringStatus::Reloading => String::from_str("reloading"),
        AuthoringStatus::Rejected => String::from_str(detail),
        AuthoringStatus::Current => if dirty { String::from_str("unsaved") } else { String::from_str("saved") },
    }
}

/// A document's title: the first line of its source (without the carriage
/// return of a `\r\n` ending), or `Knot document` when the source has no
/// lines.
pub open spec fn document_title_text(source: Seq<char>) -> Seq<char> {
    if lines(source).len() > 0 {
        let first = lines(source)[0];
        if first.len() > 0 && first.last() == '\r' && source.len() > first.len() {
            first.drop_last()
        } else {
            first
        }
    } else {
        "Knot document"@
    }
}

/// The title an open document's toolbar shows (see [`document_title_text`]).
pub fn document_title(source: &str) -> (t: String)
    ensures
        t@ == document_title_text(source@),
{
    let cs = chars_of(source);
    let ls = lines_of(&cs);
    if ls.len() > 0 {
        assert(ls@.map_values(|x: Vec<char>| x@)[0] == ls[0]@);
        let first = &ls[0];
        let n = first.len();
        if n > 0 && first[n - 1] == '\r' && cs.len() > n {
            string_from_chars(first, 0, n - 1)
        } else {
            string_of(first)
        }
    } else {
        String::from_str("Knot document")
    }
}

/// Where a key press on an open document goes.
#[derive(Clone, Copy, Debug, PartialEq, Eq, Structural)]
pub enum KeyRoute {
    /// Ctrl+S: save the document.
    Save,
    /// To the editor, which has focus.
    Editor,
    /// Not the document's: nothing in it has focus.
    Unhandled,
}

/// Where a key goes: Ctrl with the character `s` (either case) saves;
/// otherwise the editor takes it when it has focus. `character` is the
/// key's character text, when it is a character key.
pub open spec fn key_route(character: Option<Seq<char>>, ctrl: bool, focused: bool) -> KeyRoute {
    if ctrl && (character == Some("s"@) || character == Some("S"@)) {
        KeyRoute::Save
    } else if focused {
        KeyRoute::Editor
    } else {
        KeyRoute::Unhandled
    }
}

/// Where a key press on an open document goes (see [`key_route`]).
pub fn route_key(character: Option<&str>, ctrl: bool, focused: bool) -> (r: KeyRoute)
    ensures
        r == key_route(opt_text(character), ctrl, focused),
{
    let is_s = match character {
        Some(c) => str_eq(c, "s") || str_eq(c, "S"),
        None => false,
    };
    if ctrl && is_s {
        KeyRoute::Save
    } else if focused {
        KeyRoute::Editor
    } else {
        KeyRoute::Unhandled
    }
}

/// What reaches the knot hub's registration loop: a document opened for a
/// registration (its binding resolved, so the hub holds a mounted
/// projection), a registration dropped, a quiet poll interval, or the
/// command channel closing.
pub enum HubInput {
    Opened { registration: u64, address: String },
    Unregister { registration: u64 },
    Idle,
    Disconnected,
}

/// What the hub does next.
#[derive(Debug, PartialEq, Eq, Structural)]
pub enum HubAction {
    /// Nothing beyond the bookkeeping.
    Continue,
    /// The last registration left: clear the document bindings, and forget
    /// the mounted projection when one is held.
    Release { forget_mounted: bool },
    /// Ask the endpoint whether the mounted projection changed.
    Poll,
    /// Stop the hub and close the endpoint session.
    Close,
}

/// The hub's registration bookkeeping: each open document's registration
/// and address, and whether a projection is mounted.
pub struct HubRegistry {
    pub subscribers: BTreeMap<u64, String>,
    pub mounted: bool,
}

/// One step of the hub's registration loop. An opened document joins (a
/// registration opened again takes the new address); an unregistration
/// removes that registration only, and when none is left the hub releases
/// its bindings and forgets its mounted projection; a quiet interval polls
/// only while a projection is mounted; a closed channel stops the hub.
pub fn hub_step(reg: &mut HubRegistry, input: HubInput) -> (act: HubAction)
    ensures
        match input {
            HubInput::Opened { registration, address } => {
                &&& final(reg).subscribers@ == old(reg).subscribers@.insert(registration, address)
                &&& final(reg).mounted
                &&& act == HubAction::Continue
            },
            HubInput::Unregister { registration } => {
                &&& final(reg).subscribers@ == old(reg).subscribers@.remove(registration)
                &&& if final(reg).subscribers@.len() == 0 {
                    &&& act == (HubAction::Release { forget_mounted: old(reg).mounted })
                    &&& !final(reg).mounted
                } else {
                    &&& act == HubAction::Continue
                    &&& final(reg).mounted == old(reg).mounted
                }
            },
            HubInput::Idle => {
                &&& final(reg).subscribers@ == old(reg).subscribers@
                &&& final(reg).mounted == old(reg).mounted
                &&& act == (if old(reg).mounted { HubAction::Poll } else { HubAction::Continue })
            },
            HubInput::Disconnected => {
                &&& final(reg).subscribers@ == old(reg).subscribers@
                &&& final(reg).mounted == old(reg).mounted
                &&& act == HubAction::Close
            },
        },
{
    broadcast use vstd::std_specs::btree::group_btree_axioms;
    match input {
        HubInput::Opened { registration, address } => {
            reg.subscribers.insert(registration, address);
            reg.mounted = true;
            HubAction::Continue
        },
        HubInput::Unregister { registration } => {
            reg.subscribers.remove(&registration);
            if reg.subscribers.is_empty() {
                let forget = reg.mounted;
                reg.mounted = false;
                HubAction::Release { forget_mounted: forget }
            } else {
                HubAction::Continue
            }
        },
        HubInput::Idle => if reg.mounted {
            HubAction::Poll
        } else {
            HubAction::Continue
        },
        HubInput::Disconnected => HubAction::Close,
    }
}

} // verus!
