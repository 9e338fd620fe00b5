//! The boundary between text that came from outside and code that goes into
//! the build: generated text is handed on only if it is well-formed code.

use crate::error::{Failure, FailureView};
use vstd::prelude::*;

verus! {

/// Whether `text` is a sequence of top-level items of the host language.
pub uninterp spec fn is_well_formed(text: Seq<char>) -> bool;

/// Asks `syn::parse_str::<syn::File>` whether `text` parses. The contract
/// gives the answer the name `is_well_formed(text)`; what makes text
/// well-formed is the parser's business and is not stated here. To give it a
/// name is to trust that the parser judges one text the same way wherever it
/// runs, inside the compiler and outside of it.
#[verifier::external_body]
pub(crate) fn parses_as_items(text: &str) -> (well_formed: bool)
    ensures
        well_formed == is_well_formed(text@),
{
    syn::parse_str::<syn::File>(text).is_ok()
}

/// What becomes of generated text once it is known whether it is
/// well-formed: well-formed text is the code, to the letter; other text is
/// a failure that holds the text.
pub open spec fn settled(raw: Seq<char>, well_formed: bool) -> Result<Seq<char>, FailureView> {
    if well_formed {
        Ok(raw)
    } else {
        Err(FailureView::GenerationParseFailure(raw))
    }
}

/// The outcome of a validation, as contracts see it.
pub open spec fn code_outcome(outcome: Result<String, Failure>) -> Result<Seq<char>, FailureView> {
    match outcome {
        Ok(code) => Ok(code@),
        Err(failure) => Err(failure@),
    }
}

/// Decides what becomes of the generated text `raw`, given whether it is
/// well-formed.
pub fn settle(raw: String, well_formed: bool) -> (outcome: Result<String, Failure>)
    ensures
        code_outcome(outcome) == settled(raw@, well_formed),
{
    if well_formed {
        Ok(raw)
    } else {
        Err(Failure::GenerationParseFailure(raw))
    }
}

/// Checks the generated text `raw` and hands it on unchanged if it is
/// well-formed code.
pub fn validate_response(raw: String) -> (outcome: Result<String, Failure>)
    ensures
        code_outcome(outcome) == settled(raw@, is_well_formed(raw@)),
{
    let well_formed = parses_as_items(raw.as_str());
    settle(raw, well_formed)
}

} // verus!
