//! The profile's root identity: where its master seed lives.

use vstd::prelude::*;

use crate::paths::{beneath, join_path, joined, lemma_joined_keeps, separated_base};

verus! {

/// Where the profile's master seed lives: `identity/master.key` under the
/// data root.
pub fn master_key_path(data_root: &str) -> (p: String)
    ensures
        exists|dir: Seq<char>| joined(data_root@, "identity"@, dir) && joined(dir, "master.key"@, p@),
        separated_base(data_root@) ==> exists|dir: Seq<char>|
            beneath(data_root@, "identity"@, dir) && beneath(dir, "master.key"@, p@),
{
    proof {
        reveal_strlit("identity");
        reveal_strlit("master.key");
    }
    let dir = join_path(data_root, "identity");
    proof {
        lemma_joined_keeps(data_root@, "identity"@, dir@);
    }
    let p = join_path(dir.as_str(), "master.key");
    assert(joined(data_root@, "identity"@, dir@) && joined(dir@, "master.key"@, p@));
    proof {
        if separated_base(data_root@) {
            assert(beneath(data_root@, "identity"@, dir@) && beneath(dir@, "master.key"@, p@));
        }
    }
    p
}

} // verus!
