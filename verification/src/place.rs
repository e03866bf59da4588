//! The offline place: where a session keeps its place state and sealed
//! secrets, the salts its derived keys are domain-separated by, and the
//! clock its authority verdicts are evaluated at.

use vstd::prelude::*;

use crate::paths::{is_separator, join_path, joined, no_verbatim, within};
use crate::text::chars_of;

verus! {

/// A place's store directory under its session directory.
pub fn place_store_dir(session_dir: &str) -> (p: String)
    ensures
        joined(session_dir@, "place"@, p@),
{
    proof {
        reveal_strlit("place");
    }
    join_path(session_dir, "place")
}

/// A place's sealed-secrets directory under its session directory.
pub fn place_secrets_dir(session_dir: &str) -> (p: String)
    ensures
        joined(session_dir@, "place-secrets"@, p@),
{
    proof {
        reveal_strlit("place-secrets");
    }
    join_path(session_dir, "place-secrets")
}

/// A place's store and its sealed secrets never nest: for a session
/// directory without a verbatim prefix, neither directory is the other or
/// lies beneath it.
pub proof fn lemma_place_dirs_apart(session_dir: Seq<char>, store: Seq<char>, secrets: Seq<char>)
    requires
        no_verbatim(session_dir),
        joined(session_dir, "place"@, store),
        joined(session_dir, "place-secrets"@, secrets),
    ensures
        !within(secrets, store),
        !within(store, secrets),
{
    reveal_strlit("place");
    reveal_strlit("place-secrets");
    let n = session_dir.len() as int;
    let a = "place"@;
    let b = "place-secrets"@;
    assert(a.len() == 5 && b.len() == 13);
    assert(store.len() == n + 5 || store.len() == n + 6);
    assert(secrets.len() == n + 13 || secrets.len() == n + 14);
    assert(store.last() == 'e') by {
        if store != session_dir + a {
            let c = choose|c: char| is_separator(c) && store == session_dir + seq![c] + a;
            assert(store[n + 5] == a[4]);
        } else {
            assert(store[n + 4] == a[4]);
        }
    }
    if within(secrets, store) {
        let s = secrets.subrange(0, store.len() as int);
        if store == session_dir + a {
            assert(s[n] == store[n] && store[n] == 'p');
            if secrets == session_dir + b {
                assert(secrets[n + 5] == '-');
            } else {
                let c = choose|c: char| is_separator(c) && secrets == session_dir + seq![c] + b;
                assert(secrets[n] == c);
            }
        } else {
            let c = choose|c: char| is_separator(c) && store == session_dir + seq![c] + a;
            assert(s[n] == store[n] && store[n] == c);
            if secrets == session_dir + b {
                assert(secrets[n] == 'p');
            } else {
                assert(secrets[n + 6] == '-');
            }
        }
    }
}

/// The bytes of an ASCII text.
pub open spec fn ascii_bytes(s: Seq<char>) -> Seq<u8> {
    s.map_values(|c: char| c as u8)
}

fn push_ascii(out: &mut Vec<u8>, text: &str)
    ensures
        final(out)@ == old(out)@ + ascii_bytes(text@),
{
    let cs = chars_of(text);
    let mut i: usize = 0;
    while i < cs.len()
        invariant
            cs@ == text@,
            i <= cs.len(),
            out@ == old(out)@ + ascii_bytes(cs@.take(i as int)),
        decreases cs.len() - i,
    {
        out.push(cs[i] as u8);
        assert(ascii_bytes(cs@.take(i + 1)) =~= ascii_bytes(cs@.take(i as int)).push(cs@[i as int] as u8));
        i = i + 1;
    }
    assert(cs@.take(cs@.len() as int) =~= cs@);
}

fn salted(label: &str, moot: [u8; 32]) -> (salt: Vec<u8>)
    ensures
        salt@ == ascii_bytes(label@) + moot@,
{
    let mut salt: Vec<u8> = Vec::new();
    push_ascii(&mut salt, label);
    let mut i: usize = 0;
    let ghost head = salt@;
    while i < 32
        invariant
            i <= 32,
            salt@ == head + moot@.take(i as int),
        decreases 32 - i,
    {
        salt.push(moot[i]);
        assert(moot@.take(i + 1) =~= moot@.take(i as int).push(moot@[i as int]));
        i = i + 1;
    }
    assert(moot@.take(32) =~= moot@);
    salt
}

/// The domain-separated salt a place's sealed-secrets key derives from.
pub fn place_secret_salt(moot: [u8; 32]) -> (salt: Vec<u8>)
    ensures
        salt@ == ascii_bytes("turnstone.place.secrets.v1/"@) + moot@,
{
    salted("turnstone.place.secrets.v1/", moot)
}

/// The domain-separated salt for a place's transport identity: a derived
/// key, never the master.
pub fn transport_salt(moot: [u8; 32]) -> (salt: Vec<u8>)
    ensures
        salt@ == ascii_bytes("turnstone.place.transport.v1/"@) + moot@,
{
    salted("turnstone.place.transport.v1/", moot)
}

/// The milliseconds since the Unix epoch by the system clock; 0 for a clock
/// behind the epoch (and, past `u64`, the low bits). It depends on the time,
/// so nothing is promised of it.
#[verifier::external_body]
fn system_now_ms() -> u64 {
    std::time::SystemTime::now().duration_since(std::time::UNIX_EPOCH).map_or(0, |elapsed| elapsed.as_millis() as u64)
}

/// Host-set evaluation time for converged authority. Grants and revocations
/// carry absolute windows, so this decides whether an unauthorized
/// operation reads as pending or revoked; tests pin it so a verdict is
/// reproducible.
#[derive(Clone, Copy, Debug, PartialEq, Eq, Structural)]
pub enum AuthorityClock {
    SystemTime,
    Fixed(u64),
}

impl AuthorityClock {
    /// The evaluation time, in milliseconds since the Unix epoch: the pinned
    /// value, or the system clock's reading.
    pub fn now_ms(self) -> (ms: u64)
        ensures
            self matches AuthorityClock::Fixed(at) ==> ms == at,
    {
        match self {
            AuthorityClock::SystemTime => system_now_ms(),
            AuthorityClock::Fixed(at_ms) => at_ms,
        }
    }
}

} // verus!
