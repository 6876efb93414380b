//! From emitted text to the token stream that a compiler takes.
use crate::builder::ModelError;
use crate::compile::{derive_table, derived};
use crate::dialect::Dialect;
use crate::parse::RawRecord;
use crate::patch::{derive_patch, PatchDescriptor};
use proc_macro2::{LexError, TokenStream};
use vstd::prelude::*;

verus! {

/// `proc_macro2::TokenStream`, carried through as an opaque value.
#[verifier::external_type_specification]
#[verifier::external_body]
pub struct ExTokenStream(TokenStream);

/// `proc_macro2::LexError`, carried through as an opaque value.
#[verifier::external_type_specification]
#[verifier::external_body]
pub struct ExLexError(LexError);

/// Why a record yields no token stream.
pub enum DeriveError {
    /// The record was rejected, for these reasons.
    Rejected(Vec<ModelError>),
    /// The emitted text is not a sequence of tokens; a name or a type written
    /// in the record is not one.
    Unlexable,
}

/// Calls `<proc_macro2::TokenStream as FromStr>::from_str`: the tokens of a
/// text, or a lexing error. Trusted. Which of the two comes back depends on
/// the lexer of the process (a compiler's macro host or not): nothing is claimed.
#[verifier::external_body]
fn lex(text: &str) -> (r: Result<TokenStream, LexError>) {
    text.parse::<TokenStream>()
}

/// The tokens that lexing handed back, or the library's own error in place
/// of the lexer's.
pub fn lexed_tokens(lexed: Result<TokenStream, LexError>) -> (r: Result<TokenStream, DeriveError>)
    ensures
        r == (match lexed {
            Ok(tokens) => Ok::<TokenStream, DeriveError>(tokens),
            Err(_) => Err(DeriveError::Unlexable),
        }),
{
    match lexed {
        Ok(tokens) => Ok(tokens),
        Err(_) => Err(DeriveError::Unlexable),
    }
}

/// Lexes a text: its tokens, or `Unlexable` in place of the lexer's error.
pub fn text_tokens(text: &str) -> (r: Result<TokenStream, DeriveError>)
    ensures
        r is Err ==> r->Err_0 == DeriveError::Unlexable,
{
    lexed_tokens(lex(text))
}

/// Compiles a record as written into tokens. A record that is rejected yields
/// every reason for it; one that is accepted yields the tokens of its text,
/// unless the text cannot be lexed.
pub fn derive_table_tokens(raw: &RawRecord, dialect: Dialect) -> (r: Result<
    TokenStream,
    DeriveError,
>)
    ensures
        match derived(raw@, dialect) {
            Err(errors) => r is Err && r->Err_0 is Rejected && r->Err_0->Rejected_0@ == errors,
            Ok(_) => r is Ok || r == Err::<TokenStream, DeriveError>(DeriveError::Unlexable),
        },
{
    match derive_table(raw, dialect) {
        Err(errors) => Err(DeriveError::Rejected(errors)),
        Ok(text) => text_tokens(text.as_str()),
    }
}

/// Emits the patch operation of a patch type as tokens.
pub fn derive_patch_tokens(patch: &PatchDescriptor, dialect: Dialect) -> (r: Result<
    TokenStream,
    DeriveError,
>)
    requires
        patch.fields.len() < usize::MAX,
    ensures
        r is Err ==> r->Err_0 == DeriveError::Unlexable,
{
    lexed_tokens(lex(derive_patch(patch, dialect).as_str()))
}

} // verus!
