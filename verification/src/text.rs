//! Comparison of string slices, and what the literals of this crate hold.

use vstd::prelude::*;

verus! {

/// Whether two string slices hold the same text.
pub fn same_text(a: &str, b: &str) -> (same: bool)
    ensures
        same == (a@ == b@),
{
    let x = a.as_bytes();
    let y = b.as_bytes();
    if x.len() != y.len() {
        return false;
    }
    let mut i: usize = 0;
    while i < x.len()
        invariant
            x@ == vstd::utf8::encode_utf8(a@),
            y@ == vstd::utf8::encode_utf8(b@),
            x.len() == y.len(),
            i <= x.len(),
            forall|k: int| 0 <= k < i ==> x@[k] == y@[k],
        decreases x.len() - i,
    {
        if x[i] != y[i] {
            return false;
        }
        i += 1;
    }
    proof {
        // Equal encodings decode to equal texts.
        assert(x@ =~= y@);
        vstd::utf8::encode_utf8_decode_utf8(a@);
        vstd::utf8::encode_utf8_decode_utf8(b@);
    }
    true
}

/// What the texts of this crate hold, as far as its proofs need it: the
/// manager names differ from each other, the verbs differ from each other
/// and are not empty, and the empty literal is the empty text.
pub proof fn lemma_vocabulary()
    ensures
        "npm"@ != "yarn"@,
        "npm"@ != "pnpm"@,
        "yarn"@ != "pnpm"@,
        "install"@ != "add"@,
        "install"@ != "remove"@,
        "add"@ != "remove"@,
        "install"@.len() > 0,
        "add"@.len() > 0,
        "remove"@.len() > 0,
        ""@ == Seq::<char>::empty(),
{
    reveal_strlit("npm");
    reveal_strlit("yarn");
    reveal_strlit("pnpm");
    reveal_strlit("add");
    reveal_strlit("remove");
    reveal_strlit("install");
    reveal_strlit("");
    assert("npm"@.len() == 3 && "yarn"@.len() == 4 && "pnpm"@.len() == 4);
    assert("yarn"@[0] != "pnpm"@[0]);
    assert("install"@.len() == 7 && "add"@.len() == 3 && "remove"@.len() == 6);
    assert(""@ =~= Seq::<char>::empty());
}

} // verus!
