//! Turning the expansion text into the token stream that the macro hands
//! back to the compiler.
use vstd::prelude::*;

use crate::codegen::{expansion_source, expansion_text};
use crate::event::{events_view, CustomEvent};

verus! {

#[verifier::external_type_specification]
#[verifier::external_body]
pub struct ExTokenStream(proc_macro2::TokenStream);

#[verifier::external_type_specification]
#[verifier::external_body]
pub struct ExLexError(proc_macro2::LexError);

/// Whether proc_macro2's own (fallback) lexer accepts `src`: every token
/// well formed and every delimiter balanced. A function of the text alone.
pub uninterp spec fn fallback_lexes(src: Seq<char>) -> bool;

/// The token trees that proc_macro2's own (fallback) lexer reads from
/// `src`, each by the text its printer gives, in order. A function of the
/// text alone.
pub uninterp spec fn lexed_tokens(src: Seq<char>) -> Seq<Seq<char>>;

/// The token trees of the stream `t`, each by its printed text, in order.
pub uninterp spec fn stream_tokens(t: proc_macro2::TokenStream) -> Seq<Seq<char>>;

/// Whether the stream `t` is held by proc_macro2's own (fallback)
/// implementation rather than by the compiler's.
pub uninterp spec fn stream_is_fallback(t: proc_macro2::TokenStream) -> bool;

/// Calls `<proc_macro2::TokenStream as FromStr>::from_str` on `src`.
/// Trusted, as the source of proc_macro2 shows:
/// - on success the fallback lexer accepted the text (outside a macro it
///   alone decides; inside one it checks the text before the compiler's
///   lexer is asked);
/// - a stream held by the fallback implementation is what the fallback
///   lexer read from `src`.
/// Left unsaid: whether the call succeeds (inside a macro the compiler's
/// lexer may still refuse), and which tokens a compiler-held stream has
/// (the compiler lexes and prints it). The documentation reserves panics
/// for some errors; in the version used, the fallback lexer returns
/// `LexError` and a compiler panic is caught and returned as `LexError`.
#[verifier::external_body]
fn lex_tokens(src: &str) -> (res: Result<proc_macro2::TokenStream, proc_macro2::LexError>)
    ensures
        res is Ok ==> fallback_lexes(src@),
        res matches Ok(t) ==> (stream_is_fallback(t) ==> stream_tokens(t) == lexed_tokens(src@)),
{
    <proc_macro2::TokenStream as core::str::FromStr>::from_str(src)
}

/// Why an expansion could not be turned into tokens.
#[derive(Debug, PartialEq, Eq, Structural)]
pub enum ExpansionError {
    /// The lexer refused the expansion text, which is built from the
    /// events' token texts.
    Unlexable,
}

/// Expands the macro input `events` into the items of the line editor:
/// the support items, the `InputAction` enum with the built-in and the
/// custom actions, `kbd_event` and the `Writer` impl. The tokens are those
/// that the lexer reads from `expansion_source(events)`. Whether the lexer
/// accepts that text is the lexer's to decide; an error is reported as
/// `Unlexable`.
pub fn ragout_custom_events(events: &Vec<CustomEvent>) -> (res: Result<
    proc_macro2::TokenStream,
    ExpansionError,
>)
    ensures
        res is Ok ==> fallback_lexes(expansion_text(events_view(events@))),
        res matches Ok(t) ==> (stream_is_fallback(t) ==> stream_tokens(t) == lexed_tokens(
            expansion_text(events_view(events@)),
        )),
        res is Err ==> res == Err::<proc_macro2::TokenStream, ExpansionError>(
            ExpansionError::Unlexable,
        ),
{
    let src = expansion_source(events);
    match lex_tokens(src.as_str()) {
        Ok(tokens) => Ok(tokens),
        Err(_) => Err(ExpansionError::Unlexable),
    }
}

} // verus!
