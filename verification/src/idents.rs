//! Fresh identifier generation for the emitted glue code.
//!
//! The trampoline bodies bind each converted argument to a new local; its
//! name is the raw argument's name followed by a random suffix, so the
//! generated locals cannot collide with the names they stand beside.

use vstd::prelude::*;

verus! {

/// The characters a generated identifier suffix draws from: an underscore
/// and the ASCII letters, so appending the suffix to an identifier yields
/// an identifier again.
pub open spec fn ident_charset() -> Seq<char> {
    "_qwertyuiopasdfghjklzxcvbnmQWERTYUIOPASDFGHJKLZXCVBNM"@
}

/// Relies on random_string::generate: the result holds exactly `len`
/// characters, each drawn from `charset`.  The call panics on an empty
/// charset, which the precondition rules out; which characters are drawn
/// is left open.
#[verifier::external_body]
fn random_chars(len: usize, charset: &str) -> (r: String)
    requires
        charset@.len() > 0,
    ensures
        r@.len() == len as nat,
        forall|i: int| 0 <= i < r@.len() ==> charset@.contains(#[trigger] r@[i]),
{
    random_string::generate(len, charset)
}

/// Makes a fresh identifier: the base name followed by ten characters
/// drawn from the identifier charset.
pub fn gen_ident(base: &str) -> (r: String)
    ensures
        r@.len() == base@.len() + 10,
        r@.subrange(0, base@.len() as int) == base@,
        forall|i: int|
            base@.len() <= i < r@.len() ==> ident_charset().contains(#[trigger] r@[i]),
{
    let charset = "_qwertyuiopasdfghjklzxcvbnmQWERTYUIOPASDFGHJKLZXCVBNM";
    proof {
        reveal_strlit("_qwertyuiopasdfghjklzxcvbnmQWERTYUIOPASDFGHJKLZXCVBNM");
    }
    let suffix = random_chars(10, charset);
    let mut r = String::from_str(base);
    r.append(suffix.as_str());
    proof {
        assert(r@.subrange(0, base@.len() as int) =~= base@);
        assert forall|i: int| base@.len() <= i < r@.len() implies ident_charset().contains(
            r@[i],
        ) by {
            assert(r@[i] == suffix@[i - base@.len()]);
            assert(charset@.contains(suffix@[i - base@.len()]));
        }
    }
    r
}

} // verus!
