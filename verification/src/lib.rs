//! Build-time generation of HTML-sanitizing record transforms.
//!
//! A record type is analysed field by field: any field whose declared type is
//! (or structurally contains) the text-string type `String` is either rewritten
//! through an HTML-cleaning routine in the generated `sanitize` method, or the
//! generation aborts with a fatal build-time diagnostic.  All other fields are
//! copied unchanged.

use vstd::prelude::*;

pub mod emitter;
pub mod laws;
pub mod planner;
pub mod render;
pub mod semantics;
pub mod signature;

verus! {

/// The result of `ammonia::clean` on a given character sequence.  The cleaning
/// algorithm itself is out of scope here; its result depends on the input
/// characters alone (the default builder is a fixed configuration).
pub uninterp spec fn clean_of(s: Seq<char>) -> Seq<char>;

/// The capability a record gains from a successful generation pass: a method
/// returning a cleaned copy of the record.  Implementations are emitted as
/// source text by the record emitter; the semantics they must follow is the
/// field-wise transform model in `semantics`.
pub trait HtmlSanitize: Sized {
    fn sanitize(&self) -> Self;
}

/// Cleans one HTML string.
///
/// Relies on `ammonia::clean`: sanitizes the fragment with ammonia's default
/// conservative settings; the result is a pure function of the input string.
#[verifier::external_body]
pub fn sanitize_html_string(html_string: &str) -> (r: String)
    ensures
        r@ == clean_of(html_string@),
{
    ammonia::clean(html_string)
}

/// Maps the cleaning routine over a present value and passes absence through.
pub fn sanitize_html_option_string(html_string: Option<&String>) -> (r: Option<String>)
    ensures
        match html_string {
            Some(s) => r matches Some(c) && c@ == clean_of(s@),
            None => r is None,
        },
{
    match html_string {
        Some(s) => Some(sanitize_html_string(s.as_str())),
        None => None,
    }
}

} // verus!
