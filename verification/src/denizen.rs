//! Denizen residency: a local scenario pack staged for a visible grant
//! review, its content-derived subject, and where its nested world persists.

use vstd::prelude::*;

use crate::paths::{beneath, is_plain_name, join_path, joined, lemma_joined_keeps, separated_base};
use crate::text::{chars_of, trim, trim_chars};

verus! {

/// The capability path a scenario denizen is granted over its own nested
/// world. The visible review names it.
pub const SCENARIO_SCOPE: &'static str = "scenario/";

/// The name for what the blake3 crate's `hash` gives for the UTF-8 bytes of
/// `text`: the 32-byte digest.
pub uninterp spec fn blake3_of_text(text: Seq<char>) -> Seq<u8>;

/// `blake3::hash` over the text's UTF-8 bytes, as its 32 digest bytes.
#[verifier::external_body]
fn content_digest(text: &str) -> (d: [u8; 32])
    ensures
        d@ == blake3_of_text(text@),
{
    *blake3::hash(text.as_bytes()).as_bytes()
}

/// A staged install awaiting the visible grant review: nothing is minted,
/// no grant exists, until the user confirms.
pub struct PendingInstall {
    /// Where the pack came from (display and provenance).
    pub path: String,
    /// The denizen's display label (the file stem).
    pub label: String,
    /// The runnable source.
    pub source: String,
    /// The content-derived subject: the blake3 digest of the source.
    pub subject: [u8; 32],
}

/// Stage a pack as a pending install. `read` is what reading the pack gave
/// (its text, or the read error's message); `label` is the file stem. The
/// error is a human-readable refusal: an unreadable pack or an empty source.
pub fn stage_install(path: &str, label: &str, read: Result<String, String>) -> (r: Result<PendingInstall, String>)
    ensures
        match read {
            Err(e) => r matches Err(m) && m@ == "unreadable pack: "@ + e@,
            Ok(source) => if trim(source@).len() == 0 {
                r matches Err(m) && m@ == "the pack is empty"@
            } else {
                r matches Ok(p) && p.path@ == path@ && p.label@ == label@ && p.source@ == source@
                    && p.subject@ == blake3_of_text(source@)
            },
        },
{
    match read {
        Err(e) => {
            let mut m = String::from_str("unreadable pack: ");
            m.append(e.as_str());
            Err(m)
        },
        Ok(source) => {
            let cs = chars_of(source.as_str());
            let t = trim_chars(&cs, 0, cs.len());
            assert(cs@.subrange(0, cs@.len() as int) =~= cs@);
            if t.len() == 0 {
                Err(String::from_str("the pack is empty"))
            } else {
                let subject = content_digest(source.as_str());
                Ok(PendingInstall { path: String::from_str(path), label: String::from_str(label), source, subject })
            }
        },
    }
}

/// The review line the palette shows on the Confirm row: the ask, visible
/// before any grant exists.
pub fn review_line(pending: &PendingInstall) -> (s: String)
    ensures
        s@ == "Install "@ + pending.label@ + ": may run control scripts and write "@ + SCENARIO_SCOPE@
            + " in its own world — Confirm"@,
{
    let mut s = String::from_str("Install ");
    s.append(pending.label.as_str());
    s.append(": may run control scripts and write ");
    s.append(SCENARIO_SCOPE);
    s.append(" in its own world — Confirm");
    s
}

/// Where a denizen's nested log persists, beside the session's other
/// state: `denizens/<log-id>.json` under the session directory.
pub fn nested_log_path(session_dir: &str, log_id: &str) -> (p: String)
    ensures
        is_plain_name(log_id@ + ".json"@) ==> exists|dir: Seq<char>|
            joined(session_dir@, "denizens"@, dir) && joined(dir, log_id@ + ".json"@, p@),
        is_plain_name(log_id@ + ".json"@) && separated_base(session_dir@) ==> exists|dir: Seq<char>|
            beneath(session_dir@, "denizens"@, dir) && beneath(dir, log_id@ + ".json"@, p@),
{
    proof {
        reveal_strlit("denizens");
    }
    let dir = join_path(session_dir, "denizens");
    proof {
        lemma_joined_keeps(session_dir@, "denizens"@, dir@);
    }
    let mut file = String::from_str(log_id);
    file.append(".json");
    let p = join_path(dir.as_str(), file.as_str());
    proof {
        if is_plain_name(log_id@ + ".json"@) {
            assert(joined(session_dir@, "denizens"@, dir@) && joined(dir@, log_id@ + ".json"@, p@));
            if separated_base(session_dir@) {
                assert(beneath(session_dir@, "denizens"@, dir@) && beneath(dir@, log_id@ + ".json"@, p@));
            }
        }
    }
    p
}

/// The value of a hexadecimal digit (either case).
pub open spec fn hex_value(c: char) -> Option<u8> {
    if '0' <= c <= '9' {
        Some((c as u32 - '0' as u32) as u8)
    } else if 'a' <= c <= 'f' {
        Some((c as u32 - 'a' as u32 + 10) as u8)
    } else if 'A' <= c <= 'F' {
        Some((c as u32 - 'A' as u32 + 10) as u8)
    } else {
        None
    }
}

/// What `u8::from_str_radix` gives in base sixteen for the two-character
/// text `a b`: an optional `+` sign before the digits.
pub open spec fn byte_of_pair(a: char, b: char) -> Option<u8> {
    if a == '+' {
        hex_value(b)
    } else {
        match (hex_value(a), hex_value(b)) {
            (Some(x), Some(y)) => Some((x * 16 + y) as u8),
            _ => None,
        }
    }
}

/// The 32 bytes a 64-character hexadecimal text spells, two characters a
/// byte; `None` for any other text.
pub open spec fn hex_bytes(s: Seq<char>) -> Option<Seq<u8>> {
    if s.len() == 64 && forall|i: int| 0 <= i < 32 ==> (#[trigger] byte_of_pair(s[2 * i], s[2 * i + 1])) is Some {
        Some(Seq::new(32, |i: int| byte_of_pair(s[2 * i], s[2 * i + 1])->Some_0))
    } else {
        None
    }
}

fn hex_value_of(c: char) -> (r: Option<u8>)
    ensures
        r == hex_value(c),
{
    if '0' <= c && c <= '9' {
        Some(((c as u32) - ('0' as u32)) as u8)
    } else if 'a' <= c && c <= 'f' {
        Some(((c as u32) - ('a' as u32) + 10) as u8)
    } else if 'A' <= c && c <= 'F' {
        Some(((c as u32) - ('A' as u32) + 10) as u8)
    } else {
        None
    }
}

fn byte_of(a: char, b: char) -> (r: Option<u8>)
    ensures
        r == byte_of_pair(a, b),
{
    if a == '+' {
        hex_value_of(b)
    } else {
        match (hex_value_of(a), hex_value_of(b)) {
            (Some(x), Some(y)) => Some(x * 16 + y),
            _ => None,
        }
    }
}

/// Decode a subject's 64-character hexadecimal text into its 32 bytes.
pub fn hex_to_bytes(hex: &str) -> (r: Result<[u8; 32], ()>)
    ensures
        match hex_bytes(hex@) {
            Some(bytes) => r matches Ok(out) && out@ == bytes,
            None => r is Err,
        },
{
    let cs = chars_of(hex);
    if cs.len() != 64 {
        return Err(());
    }
    let mut out = [0u8; 32];
    let mut i: usize = 0;
    while i < 32
        invariant
            cs@ == hex@,
            cs@.len() == 64,
            i <= 32,
            forall|k: int| 0 <= k < i ==> (#[trigger] byte_of_pair(cs@[2 * k], cs@[2 * k + 1])) is Some
                && out@[k] == byte_of_pair(cs@[2 * k], cs@[2 * k + 1])->Some_0,
        decreases 32 - i,
    {
        match byte_of(cs[2 * i], cs[2 * i + 1]) {
            Some(b) => {
                out[i] = b;
            },
            None => {
                return Err(());
            },
        }
        i = i + 1;
    }
    assert(out@ =~= Seq::new(32, |k: int| byte_of_pair(hex@[2 * k], hex@[2 * k + 1])->Some_0));
    Ok(out)
}

} // verus!
