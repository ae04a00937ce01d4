//! Token counting with the `cl100k_base` encoding.

use vstd::prelude::*;

verus! {

/// What counting a text with the `cl100k_base` encoding comes to: the
/// number of tokens that the encoding splits the text into, or nothing
/// where the tokenizer cannot be built.
pub uninterp spec fn cl100k_token_count(text: Seq<char>) -> Option<usize>;

/// The longest text, in characters, that is handed to the tokenizer.
pub const TOKENIZER_TEXT_LIMIT: usize = 500_000;

/// Builds the `cl100k_base` tokenizer with `tiktoken_rs::cl100k_base` and
/// counts the tokens that `CoreBPE::encode_ordinary` returns for `text`.
/// What comes back depends on the text alone; the contract gives it a name
/// and claims nothing else of it. `None` means that the tokenizer could not
/// be built.
///
/// The encoder unwraps what its pattern matcher returns, and the matcher
/// fails once its backtracking stack of a million entries is full; it pushes
/// one entry for each character of a run of white space. The length bound
/// keeps every text well below that.
#[verifier::external_body]
fn count_cl100k_tokens(text: &str) -> (count: Option<usize>)
    requires
        text@.len() <= TOKENIZER_TEXT_LIMIT,
    ensures
        count == cl100k_token_count(text@),
{
    match tiktoken_rs::cl100k_base() {
        Ok(bpe) => Some(bpe.encode_ordinary(text).len()),
        Err(_) => None,
    }
}

/// What counting a text comes to: what the tokenizer makes of a text
/// within the limit, and nothing for a longer one, which the tokenizer is
/// not given.
pub open spec fn counted_tokens(text: Seq<char>) -> Option<usize> {
    if text.len() <= TOKENIZER_TEXT_LIMIT {
        cl100k_token_count(text)
    } else {
        None
    }
}

/// Counts the tokens of a text. `None` means that the text was not counted:
/// it is longer than what the tokenizer is given, or the tokenizer could not
/// be built.
pub fn calculate_token_count(text: &str) -> (count: Option<usize>)
    ensures
        count == counted_tokens(text@),
{
    if text.unicode_len() <= TOKENIZER_TEXT_LIMIT {
        count_cl100k_tokens(text)
    } else {
        None
    }
}

} // verus!
