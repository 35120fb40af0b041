//! Re-parsing of the `file_descriptor` argument.
//!
//! The `file_descriptor` argument is a string literal whose contents are an
//! arbitrary expression — a path to a static value, a function call, and so
//! on. Whether the contents parse, and the token text of the parsed
//! expression, are delegated to the host language's expression grammar.

use vstd::prelude::*;

verus! {

/// The result of parsing a string as an expression of the host language:
/// `None` when the string is not an expression, and otherwise the text of the
/// expression's tokens, normalized with one space between tokens.
pub uninterp spec fn parsed_expr(s: Seq<char>) -> Option<Seq<char>>;

/// Relies on `syn::parse_str::<syn::Expr>` and `quote::ToTokens`: whether a
/// string parses as an expression, and the token text of the parsed
/// expression, depend on the string alone. Parsing and rendering are pinned
/// to proc-macro2's fallback implementation, whose token formatter is a pure
/// function of the tokens, so the result is the same in every process —
/// inside or outside a compiler-hosted context.
#[verifier::external_body]
pub(crate) fn parse_expr_tokens(s: &str) -> (r: Option<String>)
    ensures
        r is Some <==> parsed_expr(s@) is Some,
        r matches Some(t) ==> t@ == parsed_expr(s@)->0,
{
    proc_macro2::fallback::force();
    let r = match syn::parse_str::<syn::Expr>(s) {
        Ok(expr) => Some(quote::ToTokens::to_token_stream(&expr).to_string()),
        Err(_) => None,
    };
    proc_macro2::fallback::unforce();
    r
}

} // verus!
