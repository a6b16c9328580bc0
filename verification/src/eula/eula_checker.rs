//! The `eula.txt` switch.
use crate::text::{contains, occurs_at, seq_contains};
use vstd::prelude::*;

verus! {

pub const EULA_FALSE_TEXT: &'static str = "By changing the value to \"true\" you agree to our end user license agreement and our terms of service!\nYou can find our Terms of service on https://docs.tensamin.net/legal/terms-of-service/.\neula=false";

pub const EULA_TRUE_TEXT: &'static str = "By changing the value to \"true\" you agree to our end user license agreement and our terms of service!\nYou can find our Terms of service on https://docs.tensamin.net/legal/terms-of-service/.\neula=true";

/// Whether the text of `eula.txt` records acceptance: `eula=false` anywhere
/// means no, otherwise `eula=true` anywhere means yes.
pub open spec fn eula_accepted(file: Seq<char>) -> bool {
    !seq_contains(file, "eula=false"@) && seq_contains(file, "eula=true"@)
}

/// Whether `eula.txt` records acceptance of the EULA. An empty file does not;
/// the application then writes `EULA_FALSE_TEXT` to it.
pub fn check_eula(file: &str) -> (r: bool)
    ensures
        r == eula_accepted(file@),
        file@.len() == 0 ==> !r,
{
    proof {
        reveal_strlit("eula=true");
    }
    if contains(file, "eula=false") {
        false
    } else if contains(file, "eula=true") {
        true
    } else {
        false
    }
}

/// Whether `eula.txt` is missing its content and has to be written with
/// `EULA_FALSE_TEXT`.
pub fn needs_default(file: &str) -> (r: bool)
    ensures
        r == (file@.len() == 0),
{
    file.unicode_len() == 0
}

/// The text that records acceptance of the EULA in `eula.txt`.
pub fn accept_eula() -> (r: &'static str)
    ensures
        r@ == EULA_TRUE_TEXT@,
{
    EULA_TRUE_TEXT
}

/// The text `accept_eula` writes is accepted by `check_eula`; the text
/// written to an empty `eula.txt` is not.
pub proof fn lemma_accept_eula_accepted()
    ensures
        eula_accepted(EULA_TRUE_TEXT@),
        !eula_accepted(EULA_FALSE_TEXT@),
{
    reveal_strlit("By changing the value to \"true\" you agree to our end user license agreement and our terms of service!\nYou can find our Terms of service on https://docs.tensamin.net/legal/terms-of-service/.\neula=true");
    reveal_strlit("By changing the value to \"true\" you agree to our end user license agreement and our terms of service!\nYou can find our Terms of service on https://docs.tensamin.net/legal/terms-of-service/.\neula=false");
    reveal_strlit("eula=true");
    reveal_strlit("eula=false");
    let t = EULA_TRUE_TEXT@;
    let f = EULA_FALSE_TEXT@;
    let n = t.len() as int;
    assert(t.subrange(n - 9, n) =~= "eula=true"@);
    assert(occurs_at(t, "eula=true"@, n - 9));
    assert(f.subrange(f.len() - 10, f.len() as int) =~= "eula=false"@);
    assert(occurs_at(f, "eula=false"@, f.len() - 10));
    assert forall|j: int| 0 <= j < n - 5 implies t[j] != '=' by {}
    assert forall|i: int| !occurs_at(t, "eula=false"@, i) by {
        if occurs_at(t, "eula=false"@, i) {
            assert(t.subrange(i, i + 10)[4] == t[i + 4]);
        }
    }
}

} // verus!
