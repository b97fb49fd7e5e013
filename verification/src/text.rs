//! Text utilities shared by the parsers.
use vstd::prelude::*;
use vstd::string::StringSliceAdditionalSpecFns;
use vstd::utf8::encode_utf8_decode_utf8;
use ident_case::RenameRule;

verus! {

/// Whether two string slices hold the same text.
pub fn str_eq(a: &str, b: &str) -> (same: bool)
    ensures
        same == (a@ == b@),
{
    let x = a.as_bytes();
    let y = b.as_bytes();
    proof {
        encode_utf8_decode_utf8(a@);
        encode_utf8_decode_utf8(b@);
    }
    if x.len() != y.len() {
        return false;
    }
    let mut i: usize = 0;
    while i < x.len()
        invariant
            i <= x.len(),
            x.len() == y.len(),
            x@ == a.spec_bytes(),
            y@ == b.spec_bytes(),
            forall|j: int| 0 <= j < i ==> x@[j] == y@[j],
        decreases x.len() - i,
    {
        if x[i] != y[i] {
            return false;
        }
        i += 1;
    }
    assert(x@ =~= y@);
    true
}

/// The snake-case form that `ident_case` gives a Pascal-case name: what
/// `RenameRule::SnakeCase.apply_to_variant` returns for it.
pub uninterp spec fn snake_case(name: Seq<char>) -> Seq<char>;

/// Calls `ident_case::RenameRule::apply_to_variant` with the rule
/// `SnakeCase`, which writes every character in lower case and puts `_`
/// before each upper-case character but the first.
///
/// This function is not verified. Its contract claims one thing of
/// `ident_case`: that the result depends on the name alone. Proofs know the
/// result only as [`snake_case`] of the name.
#[verifier::external_body]
pub(crate) fn to_snake_case(name: &str) -> (snake: String)
    ensures
        snake@ == snake_case(name@),
{
    RenameRule::SnakeCase.apply_to_variant(name)
}

} // verus!
