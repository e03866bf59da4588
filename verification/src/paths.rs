//! Filesystem locations, held as their text. Every directory and file the
//! application keeps lives under the per-user data root, one plain name
//! adjoined at a time.

use vstd::prelude::*;

verus! {

/// Whether `c` separates path components on a platform std supports.
pub open spec fn is_separator(c: char) -> bool {
    c == '/' || c == '\\'
}

/// A single plain file name: non-empty, neither `.` nor `..`, with no
/// separator and no drive colon.
pub open spec fn is_plain_name(p: Seq<char>) -> bool {
    &&& p.len() > 0
    &&& p != seq!['.'] && p != seq!['.', '.']
    &&& forall|i: int| 0 <= i < p.len() ==> !is_separator(#[trigger] p[i]) && p[i] != ':'
}

/// No character of `p` is a question mark, so `p` carries no verbatim
/// (`\\?\`) prefix.
pub open spec fn no_verbatim(p: Seq<char>) -> bool {
    forall|i: int| 0 <= i < p.len() ==> #[trigger] p[i] != '?'
}

/// A base that a joined name follows after exactly one separator: non-empty,
/// not ending in a separator, with no drive colon and no verbatim prefix.
pub open spec fn separated_base(b: Seq<char>) -> bool {
    &&& b.len() > 0
    &&& !is_separator(b.last())
    &&& forall|i: int| 0 <= i < b.len() ==> #[trigger] b[i] != ':' && b[i] != '?'
}

/// `r` is `base`, one separator, then `part`.
pub open spec fn beneath(base: Seq<char>, part: Seq<char>, r: Seq<char>) -> bool {
    exists|c: char| is_separator(c) && r == base + seq![c] + part
}

/// `r` is `base` with the plain name `part` adjoined: directly (after an
/// empty base or one that already ends in a separator), or after one
/// separator.
pub open spec fn adjoined(base: Seq<char>, part: Seq<char>, r: Seq<char>) -> bool {
    r == base + part || beneath(base, part, r)
}

/// What joining the plain name `part` onto `base` gives: for a base without
/// a verbatim prefix, `part` adjoined; for a base that does not end in a
/// separator (and has no drive colon), `part` after exactly one separator.
pub open spec fn joined(base: Seq<char>, part: Seq<char>, r: Seq<char>) -> bool {
    &&& no_verbatim(base) ==> adjoined(base, part, r)
    &&& separated_base(base) ==> beneath(base, part, r)
}

/// `child` names `parent` itself or a path beneath it, component-wise:
/// `parent` is a prefix of `child` that ends at a separator (in `child`, or
/// as `parent`'s own last character) or at `child`'s end.
pub open spec fn within(child: Seq<char>, parent: Seq<char>) -> bool {
    &&& parent.len() <= child.len()
    &&& child.subrange(0, parent.len() as int) == parent
    &&& {
        ||| child.len() == parent.len()
        ||| is_separator(child[parent.len() as int])
        ||| (parent.len() > 0 && is_separator(parent.last()))
    }
}

/// `Path::join` followed by the path's text. std's documentation of
/// `PathBuf::push` (which `join` performs): a relative path extends `self`,
/// with a separator added when `self` does not already end in one (a bare
/// drive such as `C:` takes none); after a verbatim prefix the result is
/// rebuilt from its components. The contract states that much for a plain
/// name; which separator is added is the platform's and is left unsaid, and
/// so is the text after a verbatim prefix.
#[verifier::external_body]
pub(crate) fn join_path(base: &str, part: &str) -> (p: String)
    ensures
        is_plain_name(part@) ==> joined(base@, part@, p@),
{
    std::path::Path::new(base).join(part).to_string_lossy().into_owned()
}

/// Joining a plain name without a question mark keeps the base's standing:
/// a base without a verbatim prefix gives a path without one, and a
/// separated base gives a separated path.
pub proof fn lemma_joined_keeps(base: Seq<char>, part: Seq<char>, r: Seq<char>)
    requires
        is_plain_name(part),
        no_verbatim(part),
        joined(base, part, r),
    ensures
        no_verbatim(base) ==> no_verbatim(r),
        separated_base(base) ==> separated_base(r),
{
    if separated_base(base) {
        let c = choose|c: char| is_separator(c) && r == base + seq![c] + part;
        assert(r.last() == part[part.len() - 1]);
        assert forall|i: int| 0 <= i < r.len() implies #[trigger] r[i] != ':' && r[i] != '?' by {
            if i < base.len() {
                assert(r[i] == base[i]);
            } else if i == base.len() {
                assert(r[i] == c);
            } else {
                assert(r[i] == part[i - base.len() - 1]);
            }
        }
    }
    if no_verbatim(base) {
        if r == base + part {
            assert forall|i: int| 0 <= i < r.len() implies #[trigger] r[i] != '?' by {
                if i < base.len() {
                    assert(r[i] == base[i]);
                } else {
                    assert(r[i] == part[i - base.len()]);
                }
            }
        } else {
            let c = choose|c: char| is_separator(c) && r == base + seq![c] + part;
            assert forall|i: int| 0 <= i < r.len() implies #[trigger] r[i] != '?' by {
                if i < base.len() {
                    assert(r[i] == base[i]);
                } else if i == base.len() {
                    assert(r[i] == c);
                } else {
                    assert(r[i] == part[i - base.len() - 1]);
                }
            }
        }
    }
}

} // verus!
