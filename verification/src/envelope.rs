//! Decoding emission envelopes (`name` kebab-case, `payload` JSON, `""` for
//! unit actions) into [`Action`]s. Decoding is not authority; an unknown
//! name is a loud [`EnvelopeError::Unknown`], never a silent drop.

use vstd::prelude::*;

use crate::action::Action;
use crate::frisket::SessionId;
use crate::observe::uuid_text;
use crate::text::str_eq;

verus! {

/// An envelope that failed to become an action.
#[derive(Clone, Debug, PartialEq, Eq)]
pub enum EnvelopeError {
    /// No action by this name.
    Unknown(String),
    /// The name is known but the payload did not parse for it.
    Malformed(String),
}

/// One field of a JSON payload, as the decoder reads it.
pub enum JsonField {
    /// The payload is not JSON; the parser's message.
    Unparsable(String),
    /// The payload has no such field (or is not an object).
    Missing,
    /// A string field.
    Text(String),
    /// A number field: its binary64 bit pattern when it has one.
    Number(Option<u64>),
    /// Any other kind of value.
    Other,
}

/// [`JsonField`] with its strings as character sequences.
pub enum JsonFieldView {
    Unparsable(Seq<char>),
    Missing,
    Text(Seq<char>),
    Number(Option<u64>),
    Other,
}

impl View for JsonField {
    type V = JsonFieldView;

    open spec fn view(&self) -> JsonFieldView {
        match self {
            JsonField::Unparsable(e) => JsonFieldView::Unparsable(e@),
            JsonField::Missing => JsonFieldView::Missing,
            JsonField::Text(s) => JsonFieldView::Text(s@),
            JsonField::Number(b) => JsonFieldView::Number(*b),
            JsonField::Other => JsonFieldView::Other,
        }
    }
}

/// What serde_json reads for field `key` of the JSON text `payload`.
pub uninterp spec fn json_field_of(payload: Seq<char>, key: Seq<char>) -> JsonFieldView;

/// Reads field `key` of the JSON text `payload` with serde_json: parses the
/// text into a `serde_json::Value`, looks the key up with `Value::get`, and
/// reports the field's kind (a string's text; a number's `as_f64` as bits).
/// The contract names the outcome and says nothing more of it.
#[verifier::external_body]
fn read_json_field(payload: &str, key: &str) -> (f: JsonField)
    ensures
        f@ == json_field_of(payload@, key@),
{
    match serde_json::from_str::<serde_json::Value>(payload) {
        Err(e) => JsonField::Unparsable(e.to_string()),
        Ok(value) => match value.get(key) {
            None => JsonField::Missing,
            Some(serde_json::Value::String(s)) => JsonField::Text(s.clone()),
            Some(serde_json::Value::Number(n)) => JsonField::Number(n.as_f64().map(|x| x.to_bits())),
            Some(_) => JsonField::Other,
        },
    }
}

/// What the uuid crate parses from `text`: the uuid's 128-bit value, or the
/// parser's error message.
pub uninterp spec fn uuid_parse_outcome(text: Seq<char>) -> Result<u128, Seq<char>>;

/// Parses `text` with `uuid::Uuid`'s `FromStr` and converts the uuid to its
/// 128-bit value (`as_u128`) or the error to its message. The outcome is
/// named; beside it the contract states what the parser's source shows of
/// the hyphenated form: 36 characters, hyphens at 8, 13, 18 and 23 and hex
/// digits elsewhere are read as the uuid's bytes, most significant first, so
/// a uuid's own lowercase hyphenated text parses back to that uuid.
#[verifier::external_body]
pub(crate) fn parse_uuid(text: &str) -> (r: Result<u128, String>)
    ensures
        uuid_parse_outcome(text@) == (match r {
            Ok(v) => Ok(v),
            Err(e) => Err(e@),
        }),
        forall|v: u128| #[trigger] uuid_text(v) == text@ ==> (r == Ok::<u128, String>(v)),
{
    match text.parse::<uuid::Uuid>() {
        Ok(u) => Ok(u.as_u128()),
        Err(e) => Err(e.to_string()),
    }
}

/// The text a read field gives for `key`, or the malformation message.
pub open spec fn string_of_field(f: JsonFieldView, key: Seq<char>) -> Result<Seq<char>, Seq<char>> {
    match f {
        JsonFieldView::Unparsable(e) => Err("payload: "@ + e),
        JsonFieldView::Missing => Err("missing field `"@ + key + "`"@),
        JsonFieldView::Text(s) => Ok(s),
        _ => Err("field `"@ + key + "`: expected a string"@),
    }
}

/// The number (binary64 bits) a read field gives for `key`, or the
/// malformation message.
pub open spec fn number_of_field(f: JsonFieldView, key: Seq<char>) -> Result<u64, Seq<char>> {
    match f {
        JsonFieldView::Unparsable(e) => Err("payload: "@ + e),
        JsonFieldView::Missing => Err("missing field `"@ + key + "`"@),
        JsonFieldView::Number(Some(b)) => Ok(b),
        _ => Err("field `"@ + key + "`: expected a number"@),
    }
}

/// The uuid a field's text parsed to, or the malformation message naming
/// `key` and the parser's message.
pub open spec fn id_of_parse(parsed: Result<u128, Seq<char>>, key: Seq<char>) -> Result<u128, Seq<char>> {
    match parsed {
        Ok(v) => Ok(v),
        Err(e) => Err("field `"@ + key + "`: "@ + e),
    }
}

/// A string field of the payload, or the malformation message.
pub open spec fn string_field(payload: Seq<char>, key: Seq<char>) -> Result<Seq<char>, Seq<char>> {
    string_of_field(json_field_of(payload, key), key)
}

/// A number field of the payload (binary64 bits), or the malformation message.
pub open spec fn number_field(payload: Seq<char>, key: Seq<char>) -> Result<u64, Seq<char>> {
    number_of_field(json_field_of(payload, key), key)
}

/// A uuid field of the payload, or the malformation message.
pub open spec fn id_field(payload: Seq<char>, key: Seq<char>) -> Result<u128, Seq<char>> {
    match string_field(payload, key) {
        Err(m) => Err(m),
        Ok(s) => id_of_parse(uuid_parse_outcome(s), key),
    }
}

/// `r` is the result `want`, its error as a malformation.
pub open spec fn answers<T>(r: Result<T, EnvelopeError>, want: Result<T, Seq<char>>) -> bool {
    match (r, want) {
        (Ok(a), Ok(b)) => a == b,
        (Err(EnvelopeError::Malformed(e)), Err(m)) => e@ == m,
        _ => false,
    }
}

/// The malformation `prefix`, `key`, `suffix`.
fn malformed(prefix: &str, key: &str, suffix: &str) -> (e: EnvelopeError)
    ensures
        e == EnvelopeError::Malformed(e->Malformed_0),
        e->Malformed_0@ == prefix@ + key@ + suffix@,
{
    let mut m = String::from_str(prefix);
    m.append(key);
    m.append(suffix);
    EnvelopeError::Malformed(m)
}

/// The text a read payload field gives for `key` (see [`string_of_field`]).
pub fn string_from_field(f: JsonField, key: &str) -> (r: Result<String, EnvelopeError>)
    ensures
        match (r, string_of_field(f@, key@)) {
            (Ok(s), Ok(t)) => s@ == t,
            (Err(EnvelopeError::Malformed(e)), Err(m)) => e@ == m,
            _ => false,
        },
{
    match f {
        JsonField::Unparsable(e) => {
            let mut m = String::from_str("payload: ");
            m.append(e.as_str());
            Err(EnvelopeError::Malformed(m))
        },
        JsonField::Missing => Err(malformed("missing field `", key, "`")),
        JsonField::Text(s) => Ok(s),
        _ => Err(malformed("field `", key, "`: expected a string")),
    }
}

/// The number a read payload field gives for `key` (see [`number_of_field`]).
pub fn number_from_field(f: JsonField, key: &str) -> (r: Result<u64, EnvelopeError>)
    ensures
        answers(r, number_of_field(f@, key@)),
{
    match f {
        JsonField::Unparsable(e) => {
            let mut m = String::from_str("payload: ");
            m.append(e.as_str());
            Err(EnvelopeError::Malformed(m))
        },
        JsonField::Missing => Err(malformed("missing field `", key, "`")),
        JsonField::Number(Some(b)) => Ok(b),
        _ => Err(malformed("field `", key, "`: expected a number")),
    }
}

/// The uuid a field's parsed text gives for `key` (see [`id_of_parse`]).
pub fn id_from_parse(parsed: Result<u128, String>, key: &str) -> (r: Result<u128, EnvelopeError>)
    ensures
        answers(r, id_of_parse(match parsed { Ok(v) => Ok(v), Err(e) => Err(e@) }, key@)),
{
    match parsed {
        Ok(v) => Ok(v),
        Err(e) => {
            let mut m = String::from_str("field `");
            m.append(key);
            m.append("`: ");
            m.append(e.as_str());
            Err(EnvelopeError::Malformed(m))
        },
    }
}

fn field_string(payload: &str, key: &str) -> (r: Result<String, EnvelopeError>)
    ensures
        match (r, string_field(payload@, key@)) {
            (Ok(s), Ok(t)) => s@ == t,
            (Err(EnvelopeError::Malformed(e)), Err(m)) => e@ == m,
            _ => false,
        },
{
    string_from_field(read_json_field(payload, key), key)
}

fn field_number(payload: &str, key: &str) -> (r: Result<u64, EnvelopeError>)
    ensures
        answers(r, number_field(payload@, key@)),
{
    number_from_field(read_json_field(payload, key), key)
}

fn field_id(payload: &str, key: &str) -> (r: Result<u128, EnvelopeError>)
    ensures
        answers(r, id_field(payload@, key@)),
{
    let s = match field_string(payload, key) {
        Ok(s) => s,
        Err(e) => return Err(e),
    };
    id_from_parse(parse_uuid(s.as_str()), key)
}

/// `r` is the malformation `m`.
pub open spec fn is_malformed(r: Result<Action, EnvelopeError>, m: Seq<char>) -> bool {
    r matches Err(EnvelopeError::Malformed(e)) && e@ == m
}

/// The decoding of an envelope whose payload holds a string field.
pub open spec fn with_string(
    payload: Seq<char>,
    key: Seq<char>,
    r: Result<Action, EnvelopeError>,
    ok: spec_fn(Action, Seq<char>) -> bool,
) -> bool {
    match string_field(payload, key) {
        Ok(s) => r matches Ok(a) && ok(a, s),
        Err(m) => is_malformed(r, m),
    }
}

/// The decoding of an envelope whose payload holds a number field.
pub open spec fn with_number(payload: Seq<char>, key: Seq<char>, r: Result<Action, EnvelopeError>, make: spec_fn(u64) -> Action) -> bool {
    match number_field(payload, key) {
        Ok(b) => r == Ok::<Action, EnvelopeError>(make(b)),
        Err(m) => is_malformed(r, m),
    }
}

/// The decoding of an envelope whose payload holds a uuid field.
pub open spec fn with_id(payload: Seq<char>, key: Seq<char>, r: Result<Action, EnvelopeError>, make: spec_fn(u128) -> Action) -> bool {
    match id_field(payload, key) {
        Ok(v) => r == Ok::<Action, EnvelopeError>(make(v)),
        Err(m) => is_malformed(r, m),
    }
}

/// `r` is exactly the unit action `a`.
pub open spec fn is_unit(r: Result<Action, EnvelopeError>, a: Action) -> bool {
    r == Ok::<Action, EnvelopeError>(a)
}

/// What decoding the envelope (`name`, `payload`) yields.
pub open spec fn decodes_to(name: Seq<char>, payload: Seq<char>, r: Result<Action, EnvelopeError>) -> bool {
    if name == "open-address"@ {
        with_string(payload, "url"@, r, |a: Action, s: Seq<char>| a matches Action::OpenAddress(u) && u@ == s)
    } else if name == "nav-back"@ { is_unit(r, Action::NavBack) }
    else if name == "nav-forward"@ { is_unit(r, Action::NavForward) }
    else if name == "reload"@ { is_unit(r, Action::Reload) }
    else if name == "new-window"@ { is_unit(r, Action::NewWindow) }
    else if name == "tear-out-active-pane"@ { is_unit(r, Action::TearOutActivePane) }
    else if name == "close-active-pane"@ { is_unit(r, Action::CloseActivePane) }
    else if name == "toggle-maximize-pane"@ { is_unit(r, Action::ToggleMaximizePane) }
    else if name == "open-in-workbench"@ { is_unit(r, Action::OpenInWorkbench) }
    else if name == "tear-out-tile"@ { with_id(payload, "member"@, r, |v: u128| Action::TearOutTile { member: v }) }
    else if name == "workbench-activate"@ { with_id(payload, "member"@, r, |v: u128| Action::WorkbenchActivate(v)) }
    else if name == "close-workbench-tile"@ { is_unit(r, Action::CloseWorkbenchTile) }
    else if name == "reseed-layout"@ { is_unit(r, Action::ReseedLayout) }
    else if name == "fit-view"@ { is_unit(r, Action::FitView) }
    else if name == "toggle-isometric"@ { is_unit(r, Action::ToggleIsometric) }
    else if name == "orbit-by"@ { with_number(payload, "radians"@, r, |b: u64| Action::OrbitBy(b)) }
    else if name == "tilt-by"@ { with_number(payload, "delta"@, r, |b: u64| Action::TiltBy(b)) }
    else if name == "toggle-height-by-degree"@ { is_unit(r, Action::ToggleHeightByDegree) }
    else if name == "toggle-physics"@ { is_unit(r, Action::TogglePhysics) }
    else if name == "toggle-size-by-recency"@ { is_unit(r, Action::ToggleSizeByRecency) }
    else if name == "toggle-node-content"@ { is_unit(r, Action::ToggleNodeContent) }
    else if name == "omnibar-insert"@ {
        with_string(payload, "text"@, r, |a: Action, s: Seq<char>| a matches Action::OmnibarInsert(t) && t@ == s)
    } else if name == "omnibar-commit"@ { is_unit(r, Action::OmnibarCommit) }
    else if name == "omnibar-close"@ { is_unit(r, Action::OmnibarClose) }
    else if name == "save-session"@ { is_unit(r, Action::SaveSession) }
    else if name == "fork-node"@ { with_id(payload, "member"@, r, |v: u128| Action::ForkNode { member: v }) }
    else if name == "fork-focused-node"@ { is_unit(r, Action::ForkFocusedNode) }
    else if name == "new-session"@ { is_unit(r, Action::NewSession) }
    else if name == "switch-session"@ { with_id(payload, "id"@, r, |v: u128| Action::SwitchSession(SessionId(v))) }
    else if name == "close-session"@ { is_unit(r, Action::CloseSession) }
    else if name == "delete-focused-node"@ { is_unit(r, Action::DeleteFocusedNode) }
    else if name == "recover-deleted-node"@ { with_id(payload, "member"@, r, |v: u128| Action::RecoverDeletedNode(v)) }
    else if name == "empty-recycle-bin"@ { is_unit(r, Action::EmptyRecycleBin) }
    else if name == "recover-session"@ { with_id(payload, "id"@, r, |v: u128| Action::RecoverSession(SessionId(v))) }
    else if name == "install-denizen"@ {
        with_string(payload, "path"@, r, |a: Action, s: Seq<char>| a matches Action::InstallDenizen { path } && path@ == s)
    } else if name == "confirm-install-denizen"@ { is_unit(r, Action::ConfirmInstallDenizen) }
    else if name == "cancel-install-denizen"@ { is_unit(r, Action::CancelInstallDenizen) }
    else if name == "run-denizen"@ { with_id(payload, "member"@, r, |v: u128| Action::RunDenizen { member: v }) }
    else { r matches Err(EnvelopeError::Unknown(n)) && n@ == name }
}

/// The envelope name of each action a denizen may emit by name, as the
/// emission lane spells it (kebab case); none for actions without one.
pub open spec fn envelope_name(a: Action) -> Option<Seq<char>> {
    match a {
        Action::OpenAddress(_) => Some("open-address"@),
        Action::NavBack => Some("nav-back"@),
        Action::NavForward => Some("nav-forward"@),
        Action::Reload => Some("reload"@),
        Action::NewWindow => Some("new-window"@),
        Action::TearOutActivePane => Some("tear-out-active-pane"@),
        Action::ReseedLayout => Some("reseed-layout"@),
        Action::FitView => Some("fit-view"@),
        Action::ToggleIsometric => Some("toggle-isometric"@),
        Action::OrbitBy(_) => Some("orbit-by"@),
        Action::TiltBy(_) => Some("tilt-by"@),
        Action::ToggleHeightByDegree => Some("toggle-height-by-degree"@),
        Action::TogglePhysics => Some("toggle-physics"@),
        Action::ToggleSizeByRecency => Some("toggle-size-by-recency"@),
        Action::SaveSession => Some("save-session"@),
        Action::ToggleNodeContent => Some("toggle-node-content"@),
        Action::OmnibarClose => Some("omnibar-close"@),
        Action::OmnibarInsert(_) => Some("omnibar-insert"@),
        Action::OmnibarCommit => Some("omnibar-commit"@),
        Action::CloseActivePane => Some("close-active-pane"@),
        Action::ToggleMaximizePane => Some("toggle-maximize-pane"@),
        Action::OpenInWorkbench => Some("open-in-workbench"@),
        Action::TearOutTile { .. } => Some("tear-out-tile"@),
        Action::ForkNode { .. } => Some("fork-node"@),
        Action::ForkFocusedNode => Some("fork-focused-node"@),
        Action::NewSession => Some("new-session"@),
        Action::SwitchSession(_) => Some("switch-session"@),
        Action::CloseSession => Some("close-session"@),
        Action::DeleteFocusedNode => Some("delete-focused-node"@),
        Action::RecoverDeletedNode(_) => Some("recover-deleted-node"@),
        Action::EmptyRecycleBin => Some("empty-recycle-bin"@),
        Action::InstallDenizen { .. } => Some("install-denizen"@),
        Action::ConfirmInstallDenizen => Some("confirm-install-denizen"@),
        Action::CancelInstallDenizen => Some("cancel-install-denizen"@),
        Action::RunDenizen { .. } => Some("run-denizen"@),
        Action::RecoverSession(_) => Some("recover-session"@),
        Action::WorkbenchActivate(_) => Some("workbench-activate"@),
        Action::CloseWorkbenchTile => Some("close-workbench-tile"@),
        _ => None,
    }
}

/// Whatever an envelope decodes to is the action of that envelope's name:
/// decoding inverts [`envelope_name`].
pub proof fn lemma_decoded_action_has_that_name(name: Seq<char>, payload: Seq<char>, r: Result<Action, EnvelopeError>)
    requires
        decodes_to(name, payload, r),
    ensures
        r matches Ok(a) ==> envelope_name(a) == Some(name),
{
}

/// An action without a payload has exactly one decoding: its envelope
/// name decodes to it, whatever the payload.
pub proof fn lemma_unit_names_decode_to_their_action(a: Action, payload: Seq<char>, r: Result<Action, EnvelopeError>)
    requires
        envelope_name(a) is Some,
        !(a is OpenAddress || a is TearOutTile || a is WorkbenchActivate || a is OrbitBy || a is TiltBy || a is OmnibarInsert
            || a is ForkNode || a is SwitchSession || a is RecoverDeletedNode || a is RecoverSession
            || a is InstallDenizen || a is RunDenizen),
        decodes_to(envelope_name(a)->Some_0, payload, r),
    ensures
        r == Ok::<Action, EnvelopeError>(a),
{
    // Each name differs from every name the decoder tests before it (by its
    // length, or else by one character), so the decoder reaches its own arm.
    match a {
        Action::NavBack => {
            reveal_strlit("nav-back");
            reveal_strlit("open-address");
            assert("nav-back"@.len() != "open-address"@.len());
            assert(decodes_to("nav-back"@, payload, r) ==> is_unit(r, Action::NavBack));
        },
        Action::NavForward => {
            reveal_strlit("nav-forward");
            reveal_strlit("nav-back");
            assert("nav-forward"@.len() != "nav-back"@.len());
            reveal_strlit("open-address");
            assert("nav-forward"@.len() != "open-address"@.len());
            assert(decodes_to("nav-forward"@, payload, r) ==> is_unit(r, Action::NavForward));
        },
        Action::Reload => {
            reveal_strlit("reload");
            reveal_strlit("nav-forward");
            assert("reload"@.len() != "nav-forward"@.len());
            reveal_strlit("nav-back");
            assert("reload"@.len() != "nav-back"@.len());
            reveal_strlit("open-address");
            assert("reload"@.len() != "open-address"@.len());
            assert(decodes_to("reload"@, payload, r) ==> is_unit(r, Action::Reload));
        },
        Action::NewWindow => {
            reveal_strlit("new-window");
            reveal_strlit("reload");
            assert("new-window"@.len() != "reload"@.len());
            reveal_strlit("nav-forward");
            assert("new-window"@.len() != "nav-forward"@.len());
            reveal_strlit("nav-back");
            assert("new-window"@.len() != "nav-back"@.len());
            reveal_strlit("open-address");
            assert("new-window"@.len() != "open-address"@.len());
            assert(decodes_to("new-window"@, payload, r) ==> is_unit(r, Action::NewWindow));
        },
        Action::TearOutActivePane => {
            reveal_strlit("tear-out-active-pane");
            reveal_strlit("reload");
            assert("tear-out-active-pane"@.len() != "reload"@.len());
            reveal_strlit("nav-forward");
            assert("tear-out-active-pane"@.len() != "nav-forward"@.len());
            reveal_strlit("nav-back");
            assert("tear-out-active-pane"@.len() != "nav-back"@.len());
            reveal_strlit("open-address");
            assert("tear-out-active-pane"@.len() != "open-address"@.len());
            reveal_strlit("new-window");
            assert("tear-out-active-pane"@.len() != "new-window"@.len());
            assert(decodes_to("tear-out-active-pane"@, payload, r) ==> is_unit(r, Action::TearOutActivePane));
        },
        Action::ReseedLayout => {
            reveal_strlit("reseed-layout");
            reveal_strlit("reload");
            assert("reseed-layout"@.len() != "reload"@.len());
            reveal_strlit("nav-forward");
            assert("reseed-layout"@.len() != "nav-forward"@.len());
            reveal_strlit("close-workbench-tile");
            assert("reseed-layout"@.len() != "close-workbench-tile"@.len());
            reveal_strlit("tear-out-tile");
            assert("reseed-layout"@[0] != "tear-out-tile"@[0]);
            reveal_strlit("close-active-pane");
            assert("reseed-layout"@.len() != "close-active-pane"@.len());
            reveal_strlit("tear-out-active-pane");
            assert("reseed-layout"@.len() != "tear-out-active-pane"@.len());
            reveal_strlit("toggle-maximize-pane");
            assert("reseed-layout"@.len() != "toggle-maximize-pane"@.len());
            reveal_strlit("workbench-activate");
            assert("reseed-layout"@.len() != "workbench-activate"@.len());
            reveal_strlit("open-in-workbench");
            assert("reseed-layout"@.len() != "open-in-workbench"@.len());
            reveal_strlit("nav-back");
            assert("reseed-layout"@.len() != "nav-back"@.len());
            reveal_strlit("open-address");
            assert("reseed-layout"@.len() != "open-address"@.len());
            reveal_strlit("new-window");
            assert("reseed-layout"@.len() != "new-window"@.len());
            assert(decodes_to("reseed-layout"@, payload, r) ==> is_unit(r, Action::ReseedLayout));
        },
        Action::FitView => {
            reveal_strlit("fit-view");
            reveal_strlit("reload");
            assert("fit-view"@.len() != "reload"@.len());
            reveal_strlit("nav-forward");
            assert("fit-view"@.len() != "nav-forward"@.len());
            reveal_strlit("close-workbench-tile");
            assert("fit-view"@.len() != "close-workbench-tile"@.len());
            reveal_strlit("tear-out-tile");
            assert("fit-view"@.len() != "tear-out-tile"@.len());
            reveal_strlit("close-active-pane");
            assert("fit-view"@.len() != "close-active-pane"@.len());
            reveal_strlit("tear-out-active-pane");
            assert("fit-view"@.len() != "tear-out-active-pane"@.len());
            reveal_strlit("toggle-maximize-pane");
            assert("fit-view"@.len() != "toggle-maximize-pane"@.len());
            reveal_strlit("workbench-activate");
            assert("fit-view"@.len() != "workbench-activate"@.len());
            reveal_strlit("open-in-workbench");
            assert("fit-view"@.len() != "open-in-workbench"@.len());
            reveal_strlit("nav-back");
            assert("fit-view"@[0] != "nav-back"@[0]);
            reveal_strlit("open-address");
            assert("fit-view"@.len() != "open-address"@.len());
            reveal_strlit("reseed-layout");
            assert("fit-view"@.len() != "reseed-layout"@.len());
            reveal_strlit("new-window");
            assert("fit-view"@.len() != "new-window"@.len());
            assert(decodes_to("fit-view"@, payload, r) ==> is_unit(r, Action::FitView));
        },
        Action::ToggleIsometric => {
            reveal_strlit("toggle-isometric");
            reveal_strlit("reload");
            assert("toggle-isometric"@.len() != "reload"@.len());
            reveal_strlit("nav-forward");
            assert("toggle-isometric"@.len() != "nav-forward"@.len());
            reveal_strlit("close-workbench-tile");
            assert("toggle-isometric"@.len() != "close-workbench-tile"@.len());
            reveal_strlit("tear-out-tile");
            assert("toggle-isometric"@.len() != "tear-out-tile"@.len());
            reveal_strlit("close-active-pane");
            assert("toggle-isometric"@.len() != "close-active-pane"@.len());
            reveal_strlit("tear-out-active-pane");
            assert("toggle-isometric"@.len() != "tear-out-active-pane"@.len());
            reveal_strlit("toggle-maximize-pane");
            assert("toggle-isometric"@.len() != "toggle-maximize-pane"@.len());
            reveal_strlit("workbench-activate");
            assert("toggle-isometric"@.len() != "workbench-activate"@.len());
            reveal_strlit("open-in-workbench");
            assert("toggle-isometric"@.len() != "open-in-workbench"@.len());
            reveal_strlit("nav-back");
            assert("toggle-isometric"@.len() != "nav-back"@.len());
            reveal_strlit("open-address");
            assert("toggle-isometric"@.len() != "open-address"@.len());
            reveal_strlit("reseed-layout");
            assert("toggle-isometric"@.len() != "reseed-layout"@.len());
            reveal_strlit("fit-view");
            assert("toggle-isometric"@.len() != "fit-view"@.len());
            reveal_strlit("new-window");
            assert("toggle-isometric"@.len() != "new-window"@.len());
            assert(decodes_to("toggle-isometric"@, payload, r) ==> is_unit(r, Action::ToggleIsometric));
        },
        Action::ToggleHeightByDegree => {
            reveal_strlit("toggle-height-by-degree");
            reveal_strlit("toggle-isometric");
            assert("toggle-height-by-degree"@.len() != "toggle-isometric"@.len());
            reveal_strlit("reload");
            assert("toggle-height-by-degree"@.len() != "reload"@.len());
            reveal_strlit("nav-forward");
            assert("toggle-height-by-degree"@.len() != "nav-forward"@.len());
            reveal_strlit("close-workbench-tile");
            assert("toggle-height-by-degree"@.len() != "close-workbench-tile"@.len());
            reveal_strlit("tear-out-tile");
            assert("toggle-height-by-degree"@.len() != "tear-out-tile"@.len());
            reveal_strlit("close-active-pane");
            assert("toggle-height-by-degree"@.len() != "close-active-pane"@.len());
            reveal_strlit("tear-out-active-pane");
            assert("toggle-height-by-degree"@.len() != "tear-out-active-pane"@.len());
            reveal_strlit("toggle-maximize-pane");
            assert("toggle-height-by-degree"@.len() != "toggle-maximize-pane"@.len());
            reveal_strlit("workbench-activate");
            assert("toggle-height-by-degree"@.len() != "workbench-activate"@.len());
            reveal_strlit("open-in-workbench");
            assert("toggle-height-by-degree"@.len() != "open-in-workbench"@.len());
            reveal_strlit("nav-back");
            assert("toggle-height-by-degree"@.len() != "nav-back"@.len());
            reveal_strlit("open-address");
            assert("toggle-height-by-degree"@.len() != "open-address"@.len());
            reveal_strlit("reseed-layout");
            assert("toggle-height-by-degree"@.len() != "reseed-layout"@.len());
            reveal_strlit("fit-view");
            assert("toggle-height-by-degree"@.len() != "fit-view"@.len());
            reveal_strlit("new-window");
            assert("toggle-height-by-degree"@.len() != "new-window"@.len());
            reveal_strlit("orbit-by");
            assert("toggle-height-by-degree"@.len() != "orbit-by"@.len());
            reveal_strlit("tilt-by");
            assert("toggle-height-by-degree"@.len() != "tilt-by"@.len());
            assert(decodes_to("toggle-height-by-degree"@, payload, r) ==> is_unit(r, Action::ToggleHeightByDegree));
        },
        Action::TogglePhysics => {
            reveal_strlit("toggle-physics");
            reveal_strlit("toggle-isometric");
            assert("toggle-physics"@.len() != "toggle-isometric"@.len());
            reveal_strlit("reload");
            assert("toggle-physics"@.len() != "reload"@.len());
            reveal_strlit("nav-forward");
            assert("toggle-physics"@.len() != "nav-forward"@.len());
            reveal_strlit("toggle-height-by-degree");
            assert("toggle-physics"@.len() != "toggle-height-by-degree"@.len());
            reveal_strlit("close-workbench-tile");
            assert("toggle-physics"@.len() != "close-workbench-tile"@.len());
            reveal_strlit("tear-out-tile");
            assert("toggle-physics"@.len() != "tear-out-tile"@.len());
            reveal_strlit("close-active-pane");
            assert("toggle-physics"@.len() != "close-active-pane"@.len());
            reveal_strlit("tear-out-active-pane");
            assert("toggle-physics"@.len() != "tear-out-active-pane"@.len());
            reveal_strlit("toggle-maximize-pane");
            assert("toggle-physics"@.len() != "toggle-maximize-pane"@.len());
            reveal_strlit("workbench-activate");
            assert("toggle-physics"@.len() != "workbench-activate"@.len());
            reveal_strlit("open-in-workbench");
            assert("toggle-physics"@.len() != "open-in-workbench"@.len());
            reveal_strlit("nav-back");
            assert("toggle-physics"@.len() != "nav-back"@.len());
            reveal_strlit("open-address");
            assert("toggle-physics"@.len() != "open-address"@.len());
            reveal_strlit("reseed-layout");
            assert("toggle-physics"@.len() != "reseed-layout"@.len());
            reveal_strlit("fit-view");
            assert("toggle-physics"@.len() != "fit-view"@.len());
            reveal_strlit("new-window");
            assert("toggle-physics"@.len() != "new-window"@.len());
            reveal_strlit("orbit-by");
            assert("toggle-physics"@.len() != "orbit-by"@.len());
            reveal_strlit("tilt-by");
            assert("toggle-physics"@.len() != "tilt-by"@.len());
            assert(decodes_to("toggle-physics"@, payload, r) ==> is_unit(r, Action::TogglePhysics));
        },
        Action::ToggleSizeByRecency => {
            reveal_strlit("toggle-size-by-recency");
            reveal_strlit("toggle-isometric");
            assert("toggle-size-by-recency"@.len() != "toggle-isometric"@.len());
            reveal_strlit("reload");
            assert("toggle-size-by-recency"@.len() != "reload"@.len());
            reveal_strlit("nav-forward");
            assert("toggle-size-by-recency"@.len() != "nav-forward"@.len());
            reveal_strlit("toggle-height-by-degree");
            assert("toggle-size-by-recency"@.len() != "toggle-height-by-degree"@.len());
            reveal_strlit("close-workbench-tile");
            assert("toggle-size-by-recency"@.len() != "close-workbench-tile"@.len());
            reveal_strlit("tear-out-tile");
            assert("toggle-size-by-recency"@.len() != "tear-out-tile"@.len());
            reveal_strlit("close-active-pane");
            assert("toggle-size-by-recency"@.len() != "close-active-pane"@.len());
            reveal_strlit("tear-out-active-pane");
            assert("toggle-size-by-recency"@.len() != "tear-out-active-pane"@.len());
            reveal_strlit("toggle-maximize-pane");
            assert("toggle-size-by-recency"@.len() != "toggle-maximize-pane"@.len());
            reveal_strlit("workbench-activate");
            assert("toggle-size-by-recency"@.len() != "workbench-activate"@.len());
            reveal_strlit("open-in-workbench");
            assert("toggle-size-by-recency"@.len() != "open-in-workbench"@.len());
            reveal_strlit("nav-back");
            assert("toggle-size-by-recency"@.len() != "nav-back"@.len());
            reveal_strlit("toggle-physics");
            assert("toggle-size-by-recency"@.len() != "toggle-physics"@.len());
            reveal_strlit("open-address");
            assert("toggle-size-by-recency"@.len() != "open-address"@.len());
            reveal_strlit("reseed-layout");
            assert("toggle-size-by-recency"@.len() != "reseed-layout"@.len());
            reveal_strlit("fit-view");
            assert("toggle-size-by-recency"@.len() != "fit-view"@.len());
            reveal_strlit("new-window");
            assert("toggle-size-by-recency"@.len() != "new-window"@.len());
            reveal_strlit("orbit-by");
            assert("toggle-size-by-recency"@.len() != "orbit-by"@.len());
            reveal_strlit("tilt-by");
            assert("toggle-size-by-recency"@.len() != "tilt-by"@.len());
            assert(decodes_to("toggle-size-by-recency"@, payload, r) ==> is_unit(r, Action::ToggleSizeByRecency));
        },
        Action::SaveSession => {
            reveal_strlit("save-session");
            reveal_strlit("toggle-isometric");
            assert("save-session"@.len() != "toggle-isometric"@.len());
            reveal_strlit("reload");
            assert("save-session"@.len() != "reload"@.len());
            reveal_strlit("nav-forward");
            assert("save-session"@.len() != "nav-forward"@.len());
            reveal_strlit("toggle-height-by-degree");
            assert("save-session"@.len() != "toggle-height-by-degree"@.len());
            reveal_strlit("close-workbench-tile");
            assert("save-session"@.len() != "close-workbench-tile"@.len());
            reveal_strlit("tear-out-tile");
            assert("save-session"@.len() != "tear-out-tile"@.len());
            reveal_strlit("close-active-pane");
            assert("save-session"@.len() != "close-active-pane"@.len());
            reveal_strlit("tear-out-active-pane");
            assert("save-session"@.len() != "tear-out-active-pane"@.len());
            reveal_strlit("toggle-maximize-pane");
            assert("save-session"@.len() != "toggle-maximize-pane"@.len());
            reveal_strlit("omnibar-close");
            assert("save-session"@.len() != "omnibar-close"@.len());
            reveal_strlit("workbench-activate");
            assert("save-session"@.len() != "workbench-activate"@.len());
            reveal_strlit("open-in-workbench");
            assert("save-session"@.len() != "open-in-workbench"@.len());
            reveal_strlit("nav-back");
            assert("save-session"@.len() != "nav-back"@.len());
            reveal_strlit("toggle-physics");
            assert("save-session"@.len() != "toggle-physics"@.len());
            reveal_strlit("open-address");
            assert("save-session"@[0] != "open-address"@[0]);
            reveal_strlit("omnibar-commit");
            assert("save-session"@.len() != "omnibar-commit"@.len());
            reveal_strlit("toggle-node-content");
            assert("save-session"@.len() != "toggle-node-content"@.len());
            reveal_strlit("omnibar-insert");
            assert("save-session"@.len() != "omnibar-insert"@.len());
            reveal_strlit("reseed-layout");
            assert("save-session"@.len() != "reseed-layout"@.len());
            reveal_strlit("fit-view");
            assert("save-session"@.len() != "fit-view"@.len());
            reveal_strlit("new-window");
            assert("save-session"@.len() != "new-window"@.len());
            reveal_strlit("orbit-by");
            assert("save-session"@.len() != "orbit-by"@.len());
            reveal_strlit("tilt-by");
            assert("save-session"@.len() != "tilt-by"@.len());
            reveal_strlit("toggle-size-by-recency");
            assert("save-session"@.len() != "toggle-size-by-recency"@.len());
            assert(decodes_to("save-session"@, payload, r) ==> is_unit(r, Action::SaveSession));
        },
        Action::ToggleNodeContent => {
            reveal_strlit("toggle-node-content");
            reveal_strlit("toggle-isometric");
            assert("toggle-node-content"@.len() != "toggle-isometric"@.len());
            reveal_strlit("reload");
            assert("toggle-node-content"@.len() != "reload"@.len());
            reveal_strlit("nav-forward");
            assert("toggle-node-content"@.len() != "nav-forward"@.len());
            reveal_strlit("toggle-height-by-degree");
            assert("toggle-node-content"@.len() != "toggle-height-by-degree"@.len());
            reveal_strlit("close-workbench-tile");
            assert("toggle-node-content"@.len() != "close-workbench-tile"@.len());
            reveal_strlit("tear-out-tile");
            assert("toggle-node-content"@.len() != "tear-out-tile"@.len());
            reveal_strlit("close-active-pane");
            assert("toggle-node-content"@.len() != "close-active-pane"@.len());
            reveal_strlit("tear-out-active-pane");
            assert("toggle-node-content"@.len() != "tear-out-active-pane"@.len());
            reveal_strlit("toggle-maximize-pane");
            assert("toggle-node-content"@.len() != "toggle-maximize-pane"@.len());
            reveal_strlit("workbench-activate");
            assert("toggle-node-content"@.len() != "workbench-activate"@.len());
            reveal_strlit("open-in-workbench");
            assert("toggle-node-content"@.len() != "open-in-workbench"@.len());
            reveal_strlit("nav-back");
            assert("toggle-node-content"@.len() != "nav-back"@.len());
            reveal_strlit("toggle-physics");
            assert("toggle-node-content"@.len() != "toggle-physics"@.len());
            reveal_strlit("open-address");
            assert("toggle-node-content"@.len() != "open-address"@.len());
            reveal_strlit("reseed-layout");
            assert("toggle-node-content"@.len() != "reseed-layout"@.len());
            reveal_strlit("fit-view");
            assert("toggle-node-content"@.len() != "fit-view"@.len());
            reveal_strlit("new-window");
            assert("toggle-node-content"@.len() != "new-window"@.len());
            reveal_strlit("orbit-by");
            assert("toggle-node-content"@.len() != "orbit-by"@.len());
            reveal_strlit("tilt-by");
            assert("toggle-node-content"@.len() != "tilt-by"@.len());
            reveal_strlit("toggle-size-by-recency");
            assert("toggle-node-content"@.len() != "toggle-size-by-recency"@.len());
            assert(decodes_to("toggle-node-content"@, payload, r) ==> is_unit(r, Action::ToggleNodeContent));
        },
        Action::OmnibarClose => {
            reveal_strlit("omnibar-close");
            reveal_strlit("toggle-isometric");
            assert("omnibar-close"@.len() != "toggle-isometric"@.len());
            reveal_strlit("reload");
            assert("omnibar-close"@.len() != "reload"@.len());
            reveal_strlit("nav-forward");
            assert("omnibar-close"@.len() != "nav-forward"@.len());
            reveal_strlit("toggle-height-by-degree");
            assert("omnibar-close"@.len() != "toggle-height-by-degree"@.len());
            reveal_strlit("close-workbench-tile");
            assert("omnibar-close"@.len() != "close-workbench-tile"@.len());
            reveal_strlit("tear-out-tile");
            assert("omnibar-close"@[0] != "tear-out-tile"@[0]);
            reveal_strlit("close-active-pane");
            assert("omnibar-close"@.len() != "close-active-pane"@.len());
            reveal_strlit("tear-out-active-pane");
            assert("omnibar-close"@.len() != "tear-out-active-pane"@.len());
            reveal_strlit("toggle-maximize-pane");
            assert("omnibar-close"@.len() != "toggle-maximize-pane"@.len());
            reveal_strlit("workbench-activate");
            assert("omnibar-close"@.len() != "workbench-activate"@.len());
            reveal_strlit("open-in-workbench");
            assert("omnibar-close"@.len() != "open-in-workbench"@.len());
            reveal_strlit("nav-back");
            assert("omnibar-close"@.len() != "nav-back"@.len());
            reveal_strlit("toggle-physics");
            assert("omnibar-close"@.len() != "toggle-physics"@.len());
            reveal_strlit("open-address");
            assert("omnibar-close"@.len() != "open-address"@.len());
            reveal_strlit("omnibar-commit");
            assert("omnibar-close"@.len() != "omnibar-commit"@.len());
            reveal_strlit("toggle-node-content");
            assert("omnibar-close"@.len() != "toggle-node-content"@.len());
            reveal_strlit("omnibar-insert");
            assert("omnibar-close"@.len() != "omnibar-insert"@.len());
            reveal_strlit("reseed-layout");
            assert("omnibar-close"@[0] != "reseed-layout"@[0]);
            reveal_strlit("fit-view");
            assert("omnibar-close"@.len() != "fit-view"@.len());
            reveal_strlit("new-window");
            assert("omnibar-close"@.len() != "new-window"@.len());
            reveal_strlit("orbit-by");
            assert("omnibar-close"@.len() != "orbit-by"@.len());
            reveal_strlit("tilt-by");
            assert("omnibar-close"@.len() != "tilt-by"@.len());
            reveal_strlit("toggle-size-by-recency");
            assert("omnibar-close"@.len() != "toggle-size-by-recency"@.len());
            assert(decodes_to("omnibar-close"@, payload, r) ==> is_unit(r, Action::OmnibarClose));
        },
        Action::OmnibarCommit => {
            reveal_strlit("omnibar-commit");
            reveal_strlit("toggle-isometric");
            assert("omnibar-commit"@.len() != "toggle-isometric"@.len());
            reveal_strlit("reload");
            assert("omnibar-commit"@.len() != "reload"@.len());
            reveal_strlit("nav-forward");
            assert("omnibar-commit"@.len() != "nav-forward"@.len());
            reveal_strlit("toggle-height-by-degree");
            assert("omnibar-commit"@.len() != "toggle-height-by-degree"@.len());
            reveal_strlit("close-workbench-tile");
            assert("omnibar-commit"@.len() != "close-workbench-tile"@.len());
            reveal_strlit("tear-out-tile");
            assert("omnibar-commit"@.len() != "tear-out-tile"@.len());
            reveal_strlit("close-active-pane");
            assert("omnibar-commit"@.len() != "close-active-pane"@.len());
            reveal_strlit("tear-out-active-pane");
            assert("omnibar-commit"@.len() != "tear-out-active-pane"@.len());
            reveal_strlit("toggle-maximize-pane");
            assert("omnibar-commit"@.len() != "toggle-maximize-pane"@.len());
            reveal_strlit("workbench-activate");
            assert("omnibar-commit"@.len() != "workbench-activate"@.len());
            reveal_strlit("open-in-workbench");
            assert("omnibar-commit"@.len() != "open-in-workbench"@.len());
            reveal_strlit("nav-back");
            assert("omnibar-commit"@.len() != "nav-back"@.len());
            reveal_strlit("toggle-physics");
            assert("omnibar-commit"@[0] != "toggle-physics"@[0]);
            reveal_strlit("open-address");
            assert("omnibar-commit"@.len() != "open-address"@.len());
            reveal_strlit("toggle-node-content");
            assert("omnibar-commit"@.len() != "toggle-node-content"@.len());
            reveal_strlit("omnibar-insert");
            assert("omnibar-commit"@[8] != "omnibar-insert"@[8]);
            reveal_strlit("reseed-layout");
            assert("omnibar-commit"@.len() != "reseed-layout"@.len());
            reveal_strlit("fit-view");
            assert("omnibar-commit"@.len() != "fit-view"@.len());
            reveal_strlit("new-window");
            assert("omnibar-commit"@.len() != "new-window"@.len());
            reveal_strlit("orbit-by");
            assert("omnibar-commit"@.len() != "orbit-by"@.len());
            reveal_strlit("tilt-by");
            assert("omnibar-commit"@.len() != "tilt-by"@.len());
            reveal_strlit("toggle-size-by-recency");
            assert("omnibar-commit"@.len() != "toggle-size-by-recency"@.len());
            assert(decodes_to("omnibar-commit"@, payload, r) ==> is_unit(r, Action::OmnibarCommit));
        },
        Action::CloseActivePane => {
            reveal_strlit("close-active-pane");
            reveal_strlit("reload");
            assert("close-active-pane"@.len() != "reload"@.len());
            reveal_strlit("nav-forward");
            assert("close-active-pane"@.len() != "nav-forward"@.len());
            reveal_strlit("tear-out-active-pane");
            assert("close-active-pane"@.len() != "tear-out-active-pane"@.len());
            reveal_strlit("nav-back");
            assert("close-active-pane"@.len() != "nav-back"@.len());
            reveal_strlit("open-address");
            assert("close-active-pane"@.len() != "open-address"@.len());
            reveal_strlit("new-window");
            assert("close-active-pane"@.len() != "new-window"@.len());
            assert(decodes_to("close-active-pane"@, payload, r) ==> is_unit(r, Action::CloseActivePane));
        },
        Action::ToggleMaximizePane => {
            reveal_strlit("toggle-maximize-pane");
            reveal_strlit("reload");
            assert("toggle-maximize-pane"@.len() != "reload"@.len());
            reveal_strlit("nav-forward");
            assert("toggle-maximize-pane"@.len() != "nav-forward"@.len());
            reveal_strlit("close-active-pane");
            assert("toggle-maximize-pane"@.len() != "close-active-pane"@.len());
            reveal_strlit("tear-out-active-pane");
            assert("toggle-maximize-pane"@[1] != "tear-out-active-pane"@[1]);
            reveal_strlit("nav-back");
            assert("toggle-maximize-pane"@.len() != "nav-back"@.len());
            reveal_strlit("open-address");
            assert("toggle-maximize-pane"@.len() != "open-address"@.len());
            reveal_strlit("new-window");
            assert("toggle-maximize-pane"@.len() != "new-window"@.len());
            assert(decodes_to("toggle-maximize-pane"@, payload, r) ==> is_unit(r, Action::ToggleMaximizePane));
        },
        Action::OpenInWorkbench => {
            reveal_strlit("open-in-workbench");
            reveal_strlit("reload");
            assert("open-in-workbench"@.len() != "reload"@.len());
            reveal_strlit("nav-forward");
            assert("open-in-workbench"@.len() != "nav-forward"@.len());
            reveal_strlit("close-active-pane");
            assert("open-in-workbench"@[0] != "close-active-pane"@[0]);
            reveal_strlit("tear-out-active-pane");
            assert("open-in-workbench"@.len() != "tear-out-active-pane"@.len());
            reveal_strlit("toggle-maximize-pane");
            assert("open-in-workbench"@.len() != "toggle-maximize-pane"@.len());
            reveal_strlit("nav-back");
            assert("open-in-workbench"@.len() != "nav-back"@.len());
            reveal_strlit("open-address");
            assert("open-in-workbench"@.len() != "open-address"@.len());
            reveal_strlit("new-window");
            assert("open-in-workbench"@.len() != "new-window"@.len());
            assert(decodes_to("open-in-workbench"@, payload, r) ==> is_unit(r, Action::OpenInWorkbench));
        },
        Action::ForkFocusedNode => {
            reveal_strlit("fork-focused-node");
            reveal_strlit("toggle-isometric");
            assert("fork-focused-node"@.len() != "toggle-isometric"@.len());
            reveal_strlit("reload");
            assert("fork-focused-node"@.len() != "reload"@.len());
            reveal_strlit("nav-forward");
            assert("fork-focused-node"@.len() != "nav-forward"@.len());
            reveal_strlit("fork-node");
            assert("fork-focused-node"@.len() != "fork-node"@.len());
            reveal_strlit("toggle-height-by-degree");
            assert("fork-focused-node"@.len() != "toggle-height-by-degree"@.len());
            reveal_strlit("close-workbench-tile");
            assert("fork-focused-node"@.len() != "close-workbench-tile"@.len());
            reveal_strlit("tear-out-tile");
            assert("fork-focused-node"@.len() != "tear-out-tile"@.len());
            reveal_strlit("close-active-pane");
            assert("fork-focused-node"@[0] != "close-active-pane"@[0]);
            reveal_strlit("tear-out-active-pane");
            assert("fork-focused-node"@.len() != "tear-out-active-pane"@.len());
            reveal_strlit("toggle-maximize-pane");
            assert("fork-focused-node"@.len() != "toggle-maximize-pane"@.len());
            reveal_strlit("omnibar-close");
            assert("fork-focused-node"@.len() != "omnibar-close"@.len());
            reveal_strlit("workbench-activate");
            assert("fork-focused-node"@.len() != "workbench-activate"@.len());
            reveal_strlit("open-in-workbench");
            assert("fork-focused-node"@[0] != "open-in-workbench"@[0]);
            reveal_strlit("nav-back");
            assert("fork-focused-node"@.len() != "nav-back"@.len());
            reveal_strlit("save-session");
            assert("fork-focused-node"@.len() != "save-session"@.len());
            reveal_strlit("toggle-physics");
            assert("fork-focused-node"@.len() != "toggle-physics"@.len());
            reveal_strlit("open-address");
            assert("fork-focused-node"@.len() != "open-address"@.len());
            reveal_strlit("omnibar-commit");
            assert("fork-focused-node"@.len() != "omnibar-commit"@.len());
            reveal_strlit("toggle-node-content");
            assert("fork-focused-node"@.len() != "toggle-node-content"@.len());
            reveal_strlit("omnibar-insert");
            assert("fork-focused-node"@.len() != "omnibar-insert"@.len());
            reveal_strlit("reseed-layout");
            assert("fork-focused-node"@.len() != "reseed-layout"@.len());
            reveal_strlit("fit-view");
            assert("fork-focused-node"@.len() != "fit-view"@.len());
            reveal_strlit("new-window");
            assert("fork-focused-node"@.len() != "new-window"@.len());
            reveal_strlit("orbit-by");
            assert("fork-focused-node"@.len() != "orbit-by"@.len());
            reveal_strlit("tilt-by");
            assert("fork-focused-node"@.len() != "tilt-by"@.len());
            reveal_strlit("toggle-size-by-recency");
            assert("fork-focused-node"@.len() != "toggle-size-by-recency"@.len());
            assert(decodes_to("fork-focused-node"@, payload, r) ==> is_unit(r, Action::ForkFocusedNode));
        },
        Action::NewSession => {
            reveal_strlit("new-session");
            reveal_strlit("toggle-isometric");
            assert("new-session"@.len() != "toggle-isometric"@.len());
            reveal_strlit("reload");
            assert("new-session"@.len() != "reload"@.len());
            reveal_strlit("nav-forward");
            assert("new-session"@[1] != "nav-forward"@[1]);
            reveal_strlit("fork-focused-node");
            assert("new-session"@.len() != "fork-focused-node"@.len());
            reveal_strlit("fork-node");
            assert("new-session"@.len() != "fork-node"@.len());
            reveal_strlit("toggle-height-by-degree");
            assert("new-session"@.len() != "toggle-height-by-degree"@.len());
            reveal_strlit("close-workbench-tile");
            assert("new-session"@.len() != "close-workbench-tile"@.len());
            reveal_strlit("tear-out-tile");
            assert("new-session"@.len() != "tear-out-tile"@.len());
            reveal_strlit("close-active-pane");
            assert("new-session"@.len() != "close-active-pane"@.len());
            reveal_strlit("tear-out-active-pane");
            assert("new-session"@.len() != "tear-out-active-pane"@.len());
            reveal_strlit("toggle-maximize-pane");
            assert("new-session"@.len() != "toggle-maximize-pane"@.len());
            reveal_strlit("omnibar-close");
            assert("new-session"@.len() != "omnibar-close"@.len());
            reveal_strlit("workbench-activate");
            assert("new-session"@.len() != "workbench-activate"@.len());
            reveal_strlit("open-in-workbench");
            assert("new-session"@.len() != "open-in-workbench"@.len());
            reveal_strlit("nav-back");
            assert("new-session"@.len() != "nav-back"@.len());
            reveal_strlit("save-session");
            assert("new-session"@.len() != "save-session"@.len());
            reveal_strlit("toggle-physics");
            assert("new-session"@.len() != "toggle-physics"@.len());
            reveal_strlit("open-address");
            assert("new-session"@.len() != "open-address"@.len());
            reveal_strlit("omnibar-commit");
            assert("new-session"@.len() != "omnibar-commit"@.len());
            reveal_strlit("toggle-node-content");
            assert("new-session"@.len() != "toggle-node-content"@.len());
            reveal_strlit("omnibar-insert");
            assert("new-session"@.len() != "omnibar-insert"@.len());
            reveal_strlit("reseed-layout");
            assert("new-session"@.len() != "reseed-layout"@.len());
            reveal_strlit("fit-view");
            assert("new-session"@.len() != "fit-view"@.len());
            reveal_strlit("new-window");
            assert("new-session"@.len() != "new-window"@.len());
            reveal_strlit("orbit-by");
            assert("new-session"@.len() != "orbit-by"@.len());
            reveal_strlit("tilt-by");
            assert("new-session"@.len() != "tilt-by"@.len());
            reveal_strlit("toggle-size-by-recency");
            assert("new-session"@.len() != "toggle-size-by-recency"@.len());
            assert(decodes_to("new-session"@, payload, r) ==> is_unit(r, Action::NewSession));
        },
        Action::CloseSession => {
            reveal_strlit("close-session");
            reveal_strlit("toggle-isometric");
            assert("close-session"@.len() != "toggle-isometric"@.len());
            reveal_strlit("reload");
            assert("close-session"@.len() != "reload"@.len());
            reveal_strlit("nav-forward");
            assert("close-session"@.len() != "nav-forward"@.len());
            reveal_strlit("fork-focused-node");
            assert("close-session"@.len() != "fork-focused-node"@.len());
            reveal_strlit("fork-node");
            assert("close-session"@.len() != "fork-node"@.len());
            reveal_strlit("toggle-height-by-degree");
            assert("close-session"@.len() != "toggle-height-by-degree"@.len());
            reveal_strlit("close-workbench-tile");
            assert("close-session"@.len() != "close-workbench-tile"@.len());
            reveal_strlit("tear-out-tile");
            assert("close-session"@[0] != "tear-out-tile"@[0]);
            reveal_strlit("close-active-pane");
            assert("close-session"@.len() != "close-active-pane"@.len());
            reveal_strlit("tear-out-active-pane");
            assert("close-session"@.len() != "tear-out-active-pane"@.len());
            reveal_strlit("toggle-maximize-pane");
            assert("close-session"@.len() != "toggle-maximize-pane"@.len());
            reveal_strlit("omnibar-close");
            assert("close-session"@[0] != "omnibar-close"@[0]);
            reveal_strlit("workbench-activate");
            assert("close-session"@.len() != "workbench-activate"@.len());
            reveal_strlit("open-in-workbench");
            assert("close-session"@.len() != "open-in-workbench"@.len());
            reveal_strlit("nav-back");
            assert("close-session"@.len() != "nav-back"@.len());
            reveal_strlit("save-session");
            assert("close-session"@.len() != "save-session"@.len());
            reveal_strlit("switch-session");
            assert("close-session"@.len() != "switch-session"@.len());
            reveal_strlit("new-session");
            assert("close-session"@.len() != "new-session"@.len());
            reveal_strlit("toggle-physics");
            assert("close-session"@.len() != "toggle-physics"@.len());
            reveal_strlit("open-address");
            assert("close-session"@.len() != "open-address"@.len());
            reveal_strlit("omnibar-commit");
            assert("close-session"@.len() != "omnibar-commit"@.len());
            reveal_strlit("toggle-node-content");
            assert("close-session"@.len() != "toggle-node-content"@.len());
            reveal_strlit("omnibar-insert");
            assert("close-session"@.len() != "omnibar-insert"@.len());
            reveal_strlit("reseed-layout");
            assert("close-session"@[0] != "reseed-layout"@[0]);
            reveal_strlit("fit-view");
            assert("close-session"@.len() != "fit-view"@.len());
            reveal_strlit("new-window");
            assert("close-session"@.len() != "new-window"@.len());
            reveal_strlit("orbit-by");
            assert("close-session"@.len() != "orbit-by"@.len());
            reveal_strlit("tilt-by");
            assert("close-session"@.len() != "tilt-by"@.len());
            reveal_strlit("toggle-size-by-recency");
            assert("close-session"@.len() != "toggle-size-by-recency"@.len());
            assert(decodes_to("close-session"@, payload, r) ==> is_unit(r, Action::CloseSession));
        },
        Action::DeleteFocusedNode => {
            reveal_strlit("delete-focused-node");
            reveal_strlit("toggle-isometric");
            assert("delete-focused-node"@.len() != "toggle-isometric"@.len());
            reveal_strlit("reload");
            assert("delete-focused-node"@.len() != "reload"@.len());
            reveal_strlit("nav-forward");
            assert("delete-focused-node"@.len() != "nav-forward"@.len());
            reveal_strlit("fork-focused-node");
            assert("delete-focused-node"@.len() != "fork-focused-node"@.len());
            reveal_strlit("fork-node");
            assert("delete-focused-node"@.len() != "fork-node"@.len());
            reveal_strlit("toggle-height-by-degree");
            assert("delete-focused-node"@.len() != "toggle-height-by-degree"@.len());
            reveal_strlit("close-workbench-tile");
            assert("delete-focused-node"@.len() != "close-workbench-tile"@.len());
            reveal_strlit("tear-out-tile");
            assert("delete-focused-node"@.len() != "tear-out-tile"@.len());
            reveal_strlit("close-active-pane");
            assert("delete-focused-node"@.len() != "close-active-pane"@.len());
            reveal_strlit("tear-out-active-pane");
            assert("delete-focused-node"@.len() != "tear-out-active-pane"@.len());
            reveal_strlit("toggle-maximize-pane");
            assert("delete-focused-node"@.len() != "toggle-maximize-pane"@.len());
            reveal_strlit("omnibar-close");
            assert("delete-focused-node"@.len() != "omnibar-close"@.len());
            reveal_strlit("workbench-activate");
            assert("delete-focused-node"@.len() != "workbench-activate"@.len());
            reveal_strlit("open-in-workbench");
            assert("delete-focused-node"@.len() != "open-in-workbench"@.len());
            reveal_strlit("nav-back");
            assert("delete-focused-node"@.len() != "nav-back"@.len());
            reveal_strlit("close-session");
            assert("delete-focused-node"@.len() != "close-session"@.len());
            reveal_strlit("save-session");
            assert("delete-focused-node"@.len() != "save-session"@.len());
            reveal_strlit("switch-session");
            assert("delete-focused-node"@.len() != "switch-session"@.len());
            reveal_strlit("new-session");
            assert("delete-focused-node"@.len() != "new-session"@.len());
            reveal_strlit("toggle-physics");
            assert("delete-focused-node"@.len() != "toggle-physics"@.len());
            reveal_strlit("open-address");
            assert("delete-focused-node"@.len() != "open-address"@.len());
            reveal_strlit("omnibar-commit");
            assert("delete-focused-node"@.len() != "omnibar-commit"@.len());
            reveal_strlit("toggle-node-content");
            assert("delete-focused-node"@[0] != "toggle-node-content"@[0]);
            reveal_strlit("omnibar-insert");
            assert("delete-focused-node"@.len() != "omnibar-insert"@.len());
            reveal_strlit("reseed-layout");
            assert("delete-focused-node"@.len() != "reseed-layout"@.len());
            reveal_strlit("fit-view");
            assert("delete-focused-node"@.len() != "fit-view"@.len());
            reveal_strlit("new-window");
            assert("delete-focused-node"@.len() != "new-window"@.len());
            reveal_strlit("orbit-by");
            assert("delete-focused-node"@.len() != "orbit-by"@.len());
            reveal_strlit("tilt-by");
            assert("delete-focused-node"@.len() != "tilt-by"@.len());
            reveal_strlit("toggle-size-by-recency");
            assert("delete-focused-node"@.len() != "toggle-size-by-recency"@.len());
            assert(decodes_to("delete-focused-node"@, payload, r) ==> is_unit(r, Action::DeleteFocusedNode));
        },
        Action::EmptyRecycleBin => {
            reveal_strlit("empty-recycle-bin");
            reveal_strlit("toggle-isometric");
            assert("empty-recycle-bin"@.len() != "toggle-isometric"@.len());
            reveal_strlit("reload");
            assert("empty-recycle-bin"@.len() != "reload"@.len());
            reveal_strlit("nav-forward");
            assert("empty-recycle-bin"@.len() != "nav-forward"@.len());
            reveal_strlit("delete-focused-node");
            assert("empty-recycle-bin"@.len() != "delete-focused-node"@.len());
            reveal_strlit("fork-focused-node");
            assert("empty-recycle-bin"@[0] != "fork-focused-node"@[0]);
            reveal_strlit("recover-deleted-node");
            assert("empty-recycle-bin"@.len() != "recover-deleted-node"@.len());
            reveal_strlit("fork-node");
            assert("empty-recycle-bin"@.len() != "fork-node"@.len());
            reveal_strlit("toggle-height-by-degree");
            assert("empty-recycle-bin"@.len() != "toggle-height-by-degree"@.len());
            reveal_strlit("close-workbench-tile");
            assert("empty-recycle-bin"@.len() != "close-workbench-tile"@.len());
            reveal_strlit("tear-out-tile");
            assert("empty-recycle-bin"@.len() != "tear-out-tile"@.len());
            reveal_strlit("close-active-pane");
            assert("empty-recycle-bin"@[0] != "close-active-pane"@[0]);
            reveal_strlit("tear-out-active-pane");
            assert("empty-recycle-bin"@.len() != "tear-out-active-pane"@.len());
            reveal_strlit("toggle-maximize-pane");
            assert("empty-recycle-bin"@.len() != "toggle-maximize-pane"@.len());
            reveal_strlit("omnibar-close");
            assert("empty-recycle-bin"@.len() != "omnibar-close"@.len());
            reveal_strlit("workbench-activate");
            assert("empty-recycle-bin"@.len() != "workbench-activate"@.len());
            reveal_strlit("open-in-workbench");
            assert("empty-recycle-bin"@[0] != "open-in-workbench"@[0]);
            reveal_strlit("nav-back");
            assert("empty-recycle-bin"@.len() != "nav-back"@.len());
            reveal_strlit("close-session");
            assert("empty-recycle-bin"@.len() != "close-session"@.len());
            reveal_strlit("save-session");
            assert("empty-recycle-bin"@.len() != "save-session"@.len());
            reveal_strlit("switch-session");
            assert("empty-recycle-bin"@.len() != "switch-session"@.len());
            reveal_strlit("new-session");
            assert("empty-recycle-bin"@.len() != "new-session"@.len());
            reveal_strlit("toggle-physics");
            assert("empty-recycle-bin"@.len() != "toggle-physics"@.len());
            reveal_strlit("open-address");
            assert("empty-recycle-bin"@.len() != "open-address"@.len());
            reveal_strlit("omnibar-commit");
            assert("empty-recycle-bin"@.len() != "omnibar-commit"@.len());
            reveal_strlit("toggle-node-content");
            assert("empty-recycle-bin"@.len() != "toggle-node-content"@.len());
            reveal_strlit("omnibar-insert");
            assert("empty-recycle-bin"@.len() != "omnibar-insert"@.len());
            reveal_strlit("reseed-layout");
            assert("empty-recycle-bin"@.len() != "reseed-layout"@.len());
            reveal_strlit("fit-view");
            assert("empty-recycle-bin"@.len() != "fit-view"@.len());
            reveal_strlit("new-window");
            assert("empty-recycle-bin"@.len() != "new-window"@.len());
            reveal_strlit("orbit-by");
            assert("empty-recycle-bin"@.len() != "orbit-by"@.len());
            reveal_strlit("tilt-by");
            assert("empty-recycle-bin"@.len() != "tilt-by"@.len());
            reveal_strlit("toggle-size-by-recency");
            assert("empty-recycle-bin"@.len() != "toggle-size-by-recency"@.len());
            assert(decodes_to("empty-recycle-bin"@, payload, r) ==> is_unit(r, Action::EmptyRecycleBin));
        },
        Action::ConfirmInstallDenizen => {
            reveal_strlit("confirm-install-denizen");
            reveal_strlit("toggle-isometric");
            assert("confirm-install-denizen"@.len() != "toggle-isometric"@.len());
            reveal_strlit("reload");
            assert("confirm-install-denizen"@.len() != "reload"@.len());
            reveal_strlit("nav-forward");
            assert("confirm-install-denizen"@.len() != "nav-forward"@.len());
            reveal_strlit("delete-focused-node");
            assert("confirm-install-denizen"@.len() != "delete-focused-node"@.len());
            reveal_strlit("fork-focused-node");
            assert("confirm-install-denizen"@.len() != "fork-focused-node"@.len());
            reveal_strlit("recover-deleted-node");
            assert("confirm-install-denizen"@.len() != "recover-deleted-node"@.len());
            reveal_strlit("fork-node");
            assert("confirm-install-denizen"@.len() != "fork-node"@.len());
            reveal_strlit("toggle-height-by-degree");
            assert("confirm-install-denizen"@[0] != "toggle-height-by-degree"@[0]);
            reveal_strlit("close-workbench-tile");
            assert("confirm-install-denizen"@.len() != "close-workbench-tile"@.len());
            reveal_strlit("tear-out-tile");
            assert("confirm-install-denizen"@.len() != "tear-out-tile"@.len());
            reveal_strlit("close-active-pane");
            assert("confirm-install-denizen"@.len() != "close-active-pane"@.len());
            reveal_strlit("tear-out-active-pane");
            assert("confirm-install-denizen"@.len() != "tear-out-active-pane"@.len());
            reveal_strlit("toggle-maximize-pane");
            assert("confirm-install-denizen"@.len() != "toggle-maximize-pane"@.len());
            reveal_strlit("omnibar-close");
            assert("confirm-install-denizen"@.len() != "omnibar-close"@.len());
            reveal_strlit("workbench-activate");
            assert("confirm-install-denizen"@.len() != "workbench-activate"@.len());
            reveal_strlit("open-in-workbench");
            assert("confirm-install-denizen"@.len() != "open-in-workbench"@.len());
            reveal_strlit("nav-back");
            assert("confirm-install-denizen"@.len() != "nav-back"@.len());
            reveal_strlit("install-denizen");
            assert("confirm-install-denizen"@.len() != "install-denizen"@.len());
            reveal_strlit("empty-recycle-bin");
            assert("confirm-install-denizen"@.len() != "empty-recycle-bin"@.len());
            reveal_strlit("close-session");
            assert("confirm-install-denizen"@.len() != "close-session"@.len());
            reveal_strlit("save-session");
            assert("confirm-install-denizen"@.len() != "save-session"@.len());
            reveal_strlit("switch-session");
            assert("confirm-install-denizen"@.len() != "switch-session"@.len());
            reveal_strlit("recover-session");
            assert("confirm-install-denizen"@.len() != "recover-session"@.len());
            reveal_strlit("new-session");
            assert("confirm-install-denizen"@.len() != "new-session"@.len());
            reveal_strlit("toggle-physics");
            assert("confirm-install-denizen"@.len() != "toggle-physics"@.len());
            reveal_strlit("open-address");
            assert("confirm-install-denizen"@.len() != "open-address"@.len());
            reveal_strlit("omnibar-commit");
            assert("confirm-install-denizen"@.len() != "omnibar-commit"@.len());
            reveal_strlit("toggle-node-content");
            assert("confirm-install-denizen"@.len() != "toggle-node-content"@.len());
            reveal_strlit("omnibar-insert");
            assert("confirm-install-denizen"@.len() != "omnibar-insert"@.len());
            reveal_strlit("reseed-layout");
            assert("confirm-install-denizen"@.len() != "reseed-layout"@.len());
            reveal_strlit("fit-view");
            assert("confirm-install-denizen"@.len() != "fit-view"@.len());
            reveal_strlit("new-window");
            assert("confirm-install-denizen"@.len() != "new-window"@.len());
            reveal_strlit("orbit-by");
            assert("confirm-install-denizen"@.len() != "orbit-by"@.len());
            reveal_strlit("tilt-by");
            assert("confirm-install-denizen"@.len() != "tilt-by"@.len());
            reveal_strlit("toggle-size-by-recency");
            assert("confirm-install-denizen"@.len() != "toggle-size-by-recency"@.len());
            assert(decodes_to("confirm-install-denizen"@, payload, r) ==> is_unit(r, Action::ConfirmInstallDenizen));
        },
        Action::CancelInstallDenizen => {
            reveal_strlit("cancel-install-denizen");
            reveal_strlit("toggle-isometric");
            assert("cancel-install-denizen"@.len() != "toggle-isometric"@.len());
            reveal_strlit("reload");
            assert("cancel-install-denizen"@.len() != "reload"@.len());
            reveal_strlit("nav-forward");
            assert("cancel-install-denizen"@.len() != "nav-forward"@.len());
            reveal_strlit("delete-focused-node");
            assert("cancel-install-denizen"@.len() != "delete-focused-node"@.len());
            reveal_strlit("fork-focused-node");
            assert("cancel-install-denizen"@.len() != "fork-focused-node"@.len());
            reveal_strlit("recover-deleted-node");
            assert("cancel-install-denizen"@.len() != "recover-deleted-node"@.len());
            reveal_strlit("fork-node");
            assert("cancel-install-denizen"@.len() != "fork-node"@.len());
            reveal_strlit("toggle-height-by-degree");
            assert("cancel-install-denizen"@.len() != "toggle-height-by-degree"@.len());
            reveal_strlit("close-workbench-tile");
            assert("cancel-install-denizen"@.len() != "close-workbench-tile"@.len());
            reveal_strlit("tear-out-tile");
            assert("cancel-install-denizen"@.len() != "tear-out-tile"@.len());
            reveal_strlit("close-active-pane");
            assert("cancel-install-denizen"@.len() != "close-active-pane"@.len());
            reveal_strlit("tear-out-active-pane");
            assert("cancel-install-denizen"@.len() != "tear-out-active-pane"@.len());
            reveal_strlit("toggle-maximize-pane");
            assert("cancel-install-denizen"@.len() != "toggle-maximize-pane"@.len());
            reveal_strlit("omnibar-close");
            assert("cancel-install-denizen"@.len() != "omnibar-close"@.len());
            reveal_strlit("workbench-activate");
            assert("cancel-install-denizen"@.len() != "workbench-activate"@.len());
            reveal_strlit("open-in-workbench");
            assert("cancel-install-denizen"@.len() != "open-in-workbench"@.len());
            reveal_strlit("nav-back");
            assert("cancel-install-denizen"@.len() != "nav-back"@.len());
            reveal_strlit("install-denizen");
            assert("cancel-install-denizen"@.len() != "install-denizen"@.len());
            reveal_strlit("confirm-install-denizen");
            assert("cancel-install-denizen"@.len() != "confirm-install-denizen"@.len());
            reveal_strlit("empty-recycle-bin");
            assert("cancel-install-denizen"@.len() != "empty-recycle-bin"@.len());
            reveal_strlit("close-session");
            assert("cancel-install-denizen"@.len() != "close-session"@.len());
            reveal_strlit("save-session");
            assert("cancel-install-denizen"@.len() != "save-session"@.len());
            reveal_strlit("switch-session");
            assert("cancel-install-denizen"@.len() != "switch-session"@.len());
            reveal_strlit("recover-session");
            assert("cancel-install-denizen"@.len() != "recover-session"@.len());
            reveal_strlit("new-session");
            assert("cancel-install-denizen"@.len() != "new-session"@.len());
            reveal_strlit("toggle-physics");
            assert("cancel-install-denizen"@.len() != "toggle-physics"@.len());
            reveal_strlit("open-address");
            assert("cancel-install-denizen"@.len() != "open-address"@.len());
            reveal_strlit("omnibar-commit");
            assert("cancel-install-denizen"@.len() != "omnibar-commit"@.len());
            reveal_strlit("toggle-node-content");
            assert("cancel-install-denizen"@.len() != "toggle-node-content"@.len());
            reveal_strlit("omnibar-insert");
            assert("cancel-install-denizen"@.len() != "omnibar-insert"@.len());
            reveal_strlit("reseed-layout");
            assert("cancel-install-denizen"@.len() != "reseed-layout"@.len());
            reveal_strlit("fit-view");
            assert("cancel-install-denizen"@.len() != "fit-view"@.len());
            reveal_strlit("new-window");
            assert("cancel-install-denizen"@.len() != "new-window"@.len());
            reveal_strlit("orbit-by");
            assert("cancel-install-denizen"@.len() != "orbit-by"@.len());
            reveal_strlit("tilt-by");
            assert("cancel-install-denizen"@.len() != "tilt-by"@.len());
            reveal_strlit("toggle-size-by-recency");
            assert("cancel-install-denizen"@[0] != "toggle-size-by-recency"@[0]);
            assert(decodes_to("cancel-install-denizen"@, payload, r) ==> is_unit(r, Action::CancelInstallDenizen));
        },
        Action::CloseWorkbenchTile => {
            reveal_strlit("close-workbench-tile");
            reveal_strlit("reload");
            assert("close-workbench-tile"@.len() != "reload"@.len());
            reveal_strlit("nav-forward");
            assert("close-workbench-tile"@.len() != "nav-forward"@.len());
            reveal_strlit("tear-out-tile");
            assert("close-workbench-tile"@.len() != "tear-out-tile"@.len());
            reveal_strlit("close-active-pane");
            assert("close-workbench-tile"@.len() != "close-active-pane"@.len());
            reveal_strlit("tear-out-active-pane");
            assert("close-workbench-tile"@[0] != "tear-out-active-pane"@[0]);
            reveal_strlit("toggle-maximize-pane");
            assert("close-workbench-tile"@[0] != "toggle-maximize-pane"@[0]);
            reveal_strlit("workbench-activate");
            assert("close-workbench-tile"@.len() != "workbench-activate"@.len());
            reveal_strlit("open-in-workbench");
            assert("close-workbench-tile"@.len() != "open-in-workbench"@.len());
            reveal_strlit("nav-back");
            assert("close-workbench-tile"@.len() != "nav-back"@.len());
            reveal_strlit("open-address");
            assert("close-workbench-tile"@.len() != "open-address"@.len());
            reveal_strlit("new-window");
            assert("close-workbench-tile"@.len() != "new-window"@.len());
            assert(decodes_to("close-workbench-tile"@, payload, r) ==> is_unit(r, Action::CloseWorkbenchTile));
        },
        _ => {},
    }
}

/// A name that some action carries is never an unknown envelope.
pub proof fn lemma_named_envelopes_are_known(a: Action, payload: Seq<char>, r: Result<Action, EnvelopeError>)
    requires
        envelope_name(a) is Some,
        decodes_to(envelope_name(a)->Some_0, payload, r),
    ensures
        !(r matches Err(EnvelopeError::Unknown(_))),
{
}

/// Decode an emission envelope into an [`Action`].
pub fn decode_envelope(name: &str, payload: &str) -> (r: Result<Action, EnvelopeError>)
    ensures
        decodes_to(name@, payload@, r),
{
    if str_eq(name, "open-address") {
        match field_string(payload, "url") {
            Ok(s) => Ok(Action::OpenAddress(s)),
            Err(e) => Err(e),
        }
    } else if str_eq(name, "nav-back") { Ok(Action::NavBack) }
    else if str_eq(name, "nav-forward") { Ok(Action::NavForward) }
    else if str_eq(name, "reload") { Ok(Action::Reload) }
    else if str_eq(name, "new-window") { Ok(Action::NewWindow) }
    else if str_eq(name, "tear-out-active-pane") { Ok(Action::TearOutActivePane) }
    else if str_eq(name, "close-active-pane") { Ok(Action::CloseActivePane) }
    else if str_eq(name, "toggle-maximize-pane") { Ok(Action::ToggleMaximizePane) }
    else if str_eq(name, "open-in-workbench") { Ok(Action::OpenInWorkbench) }
    else if str_eq(name, "tear-out-tile") {
        match field_id(payload, "member") { Ok(v) => Ok(Action::TearOutTile { member: v }), Err(e) => Err(e) }
    } else if str_eq(name, "workbench-activate") {
        match field_id(payload, "member") { Ok(v) => Ok(Action::WorkbenchActivate(v)), Err(e) => Err(e) }
    } else if str_eq(name, "close-workbench-tile") { Ok(Action::CloseWorkbenchTile) }
    else if str_eq(name, "reseed-layout") { Ok(Action::ReseedLayout) }
    else if str_eq(name, "fit-view") { Ok(Action::FitView) }
    else if str_eq(name, "toggle-isometric") { Ok(Action::ToggleIsometric) }
    else if str_eq(name, "orbit-by") {
        match field_number(payload, "radians") { Ok(b) => Ok(Action::OrbitBy(b)), Err(e) => Err(e) }
    } else if str_eq(name, "tilt-by") {
        match field_number(payload, "delta") { Ok(b) => Ok(Action::TiltBy(b)), Err(e) => Err(e) }
    } else if str_eq(name, "toggle-height-by-degree") { Ok(Action::ToggleHeightByDegree) }
    else if str_eq(name, "toggle-physics") { Ok(Action::TogglePhysics) }
    else if str_eq(name, "toggle-size-by-recency") { Ok(Action::ToggleSizeByRecency) }
    else if str_eq(name, "toggle-node-content") { Ok(Action::ToggleNodeContent) }
    else if str_eq(name, "omnibar-insert") {
        match field_string(payload, "text") { Ok(s) => Ok(Action::OmnibarInsert(s)), Err(e) => Err(e) }
    } else if str_eq(name, "omnibar-commit") { Ok(Action::OmnibarCommit) }
    else if str_eq(name, "omnibar-close") { Ok(Action::OmnibarClose) }
    else if str_eq(name, "save-session") { Ok(Action::SaveSession) }
    else if str_eq(name, "fork-node") {
        match field_id(payload, "member") { Ok(v) => Ok(Action::ForkNode { member: v }), Err(e) => Err(e) }
    } else if str_eq(name, "fork-focused-node") { Ok(Action::ForkFocusedNode) }
    else if str_eq(name, "new-session") { Ok(Action::NewSession) }
    else if str_eq(name, "switch-session") {
        match field_id(payload, "id") { Ok(v) => Ok(Action::SwitchSession(SessionId(v))), Err(e) => Err(e) }
    } else if str_eq(name, "close-session") { Ok(Action::CloseSession) }
    else if str_eq(name, "delete-focused-node") { Ok(Action::DeleteFocusedNode) }
    else if str_eq(name, "recover-deleted-node") {
        match field_id(payload, "member") { Ok(v) => Ok(Action::RecoverDeletedNode(v)), Err(e) => Err(e) }
    } else if str_eq(name, "empty-recycle-bin") { Ok(Action::EmptyRecycleBin) }
    else if str_eq(name, "recover-session") {
        match field_id(payload, "id") { Ok(v) => Ok(Action::RecoverSession(SessionId(v))), Err(e) => Err(e) }
    } else if str_eq(name, "install-denizen") {
        match field_string(payload, "path") { Ok(s) => Ok(Action::InstallDenizen { path: s }), Err(e) => Err(e) }
    } else if str_eq(name, "confirm-install-denizen") { Ok(Action::ConfirmInstallDenizen) }
    else if str_eq(name, "cancel-install-denizen") { Ok(Action::CancelInstallDenizen) }
    else if str_eq(name, "run-denizen") {
        match field_id(payload, "member") { Ok(v) => Ok(Action::RunDenizen { member: v }), Err(e) => Err(e) }
    } else {
        Err(EnvelopeError::Unknown(String::from_str(name)))
    }
}

} // verus!
