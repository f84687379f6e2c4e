//! The one place where the generator leans on the host parser: deciding
//! whether a string holds a well-formed expression.

use vstd::prelude::*;

verus! {

/// Whether the host parser accepts `s` as one complete expression.
pub uninterp spec fn is_valid_expr(s: Seq<char>) -> bool;

/// Relies on `syn::parse_str::<syn::Expr>`: whether the parse succeeds is a
/// function of the characters of `s` alone.
#[verifier::external_body]
pub(crate) fn expr_parses(s: &str) -> (r: bool)
    ensures
        r == is_valid_expr(s@),
{
    syn::parse_str::<syn::Expr>(s).is_ok()
}

} // verus!
