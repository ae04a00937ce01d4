//! Request assembly: token accounting for a prompt, and the ceiling that a
//! request must stay under before it is sent.

use vstd::prelude::*;
use crate::error::ToolError;
use crate::text::{chars_of, is_whitespace, is_whitespace_char};
use crate::tokens::{calculate_token_count, counted_tokens};
use crate::tools::ToolSchema;

verus! {

/// Prompts of fewer words than this are estimated from their word count;
/// longer ones are counted by the tokenizer.
pub const EXACT_COUNT_THRESHOLD: usize = 200;

/// The token cost of the default system message.
pub const DEFAULT_SYSTEM_MESSAGE_TOKENS: usize = 7;

/// Position `i` begins a word: a character that is not white space, at the
/// start of the text or after white space.
pub open spec fn starts_word(text: Seq<char>, i: int) -> bool {
    &&& 0 <= i < text.len()
    &&& !is_whitespace_char(text[i])
    &&& (i == 0 || is_whitespace_char(text[i - 1]))
}

/// The number of words that begin before position `end`.
pub open spec fn words_before(text: Seq<char>, end: int) -> nat
    decreases end,
{
    if end <= 0 {
        0
    } else {
        words_before(text, end - 1) + if starts_word(text, end - 1) {
            1nat
        } else {
            0nat
        }
    }
}

/// The number of words of a text: its maximal runs of characters that are
/// not white space.
pub open spec fn word_count(text: Seq<char>) -> nat {
    words_before(text, text.len() as int)
}

/// The whole number nearest to `words / 0.75`.
pub open spec fn rounded_estimate(words: nat) -> nat {
    ((4 * words + 1) / 3) as nat
}

/// The token cost that a prompt is charged: the rounded estimate from its
/// word count below the threshold, and from there on what counting the
/// prompt comes to, which is nothing where the prompt is not counted.
pub open spec fn prompt_tokens(prompt: Seq<char>) -> Option<usize> {
    if word_count(prompt) < EXACT_COUNT_THRESHOLD {
        Some(rounded_estimate(word_count(prompt)) as usize)
    } else {
        counted_tokens(prompt)
    }
}

/// The rounded estimate is the nearest whole number to four thirds of the
/// word count, and no other whole number is as near.
pub proof fn lemma_rounded_estimate_is_nearest(words: nat, other: int)
    ensures
        -1 <= 3 * rounded_estimate(words) - 4 * words <= 1,
        other != rounded_estimate(words) ==> 3 * other - 4 * words >= 2 || 3 * other - 4 * words
            <= -2,
{
}

/// Counts the words of a text, as splitting at white space would.
pub fn count_words(text: &str) -> (words: usize)
    ensures
        words == word_count(text@),
{
    let chars = chars_of(text);
    let mut words: usize = 0;
    let mut after_space = true;
    let mut i: usize = 0;
    while i < chars.len()
        invariant
            i <= chars.len(),
            chars@ == text@,
            words == words_before(text@, i as int),
            words <= i,
            after_space == (i == 0 || is_whitespace_char(text@[i - 1])),
        decreases chars.len() - i,
    {
        let white = is_whitespace(chars[i]);
        if !white && after_space {
            words = words + 1;
        }
        after_space = white;
        i = i + 1;
    }
    words
}

/// The estimate for a prompt of `words` words: `words / 0.75`, rounded to
/// the nearest whole number.
pub fn estimate_from_word_count(words: usize) -> (tokens: usize)
    requires
        4 * words + 1 <= usize::MAX,
    ensures
        tokens == rounded_estimate(words as nat),
{
    (4 * words + 1) / 3
}

/// The token cost of a prompt. Below the threshold it is the rounded
/// estimate from the word count; from the threshold on, the tokenizer counts.
/// `None` means that the tokenizer was needed and did not count: it could
/// not be built, or the prompt is longer than what it is given.
pub fn estimate_prompt_tokens(prompt: &str) -> (tokens: Option<usize>)
    ensures
        tokens == prompt_tokens(prompt@),
{
    let words = count_words(prompt);
    if words < EXACT_COUNT_THRESHOLD {
        Some(estimate_from_word_count(words))
    } else {
        calculate_token_count(prompt)
    }
}

/// The system message to send and its token cost: the caller's own, or the
/// default.
pub fn system_message_or_default(custom: Option<(String, usize)>) -> (message: (String, usize))
    ensures
        match custom {
            Some((text, tokens)) => message.0@ == text@ && message.1 == tokens,
            None => message.0@ == "You are a helpful function calling bot."@ && message.1
                == DEFAULT_SYSTEM_MESSAGE_TOKENS,
        },
{
    match custom {
        Some((text, tokens)) => (text, tokens),
        None => (
            "You are a helpful function calling bot.".to_owned(),
            DEFAULT_SYSTEM_MESSAGE_TOKENS,
        ),
    }
}

/// What a request costs: the tools on offer, the system message and the
/// prompt together.
pub open spec fn request_total(
    tool_tokens: usize,
    system_tokens: usize,
    prompt_tokens: usize,
) -> int {
    tool_tokens + system_tokens + prompt_tokens
}

/// Holds a request's token total against its ceiling. Within the ceiling the
/// total is returned; above it the request fails before anything is sent.
pub fn check_request_budget(
    tool_tokens: usize,
    system_tokens: usize,
    prompt_tokens: usize,
    ceiling: usize,
) -> (outcome: Result<usize, ToolError>)
    ensures
        request_total(tool_tokens, system_tokens, prompt_tokens) <= ceiling ==> outcome == Ok::<
            usize,
            ToolError,
        >(request_total(tool_tokens, system_tokens, prompt_tokens) as usize),
        request_total(tool_tokens, system_tokens, prompt_tokens) > ceiling ==> outcome == Err::<
            usize,
            ToolError,
        >(ToolError::TokenBudgetExceeded),
{
    if tool_tokens > ceiling {
        return Err(ToolError::TokenBudgetExceeded);
    }
    let room = ceiling - tool_tokens;
    if system_tokens > room {
        return Err(ToolError::TokenBudgetExceeded);
    }
    let room = room - system_tokens;
    if prompt_tokens > room {
        return Err(ToolError::TokenBudgetExceeded);
    }
    Ok(tool_tokens + system_tokens + prompt_tokens)
}

/// The limits that apply where a call names none of its own.
#[derive(Clone, Copy, Debug)]
pub struct RequestLimits {
    /// The most tokens that a request may cost.
    pub max_request_tokens: usize,
    /// The most tokens that the model may answer with.
    pub max_response_tokens: u16,
    /// The most tokens that the functions on offer may cost together, where
    /// functions are filtered.
    pub max_func_tokens: usize,
    /// Whether the functions on offer are held to `max_func_tokens`.
    pub function_filtering: bool,
}

/// A request, ready to be sent.
#[derive(Clone, Debug, PartialEq, Eq)]
pub struct ChatRequest {
    pub model: String,
    pub system_message: String,
    pub user_prompt: String,
    pub tools: Vec<ToolSchema>,
    pub max_response_tokens: u16,
    /// The tokens that the request was charged: tools, system message and
    /// prompt.
    pub request_tokens: usize,
}

/// The ceiling that a request is held to: the call's own, or the default.
pub open spec fn effective_ceiling(
    request_token_limit: Option<usize>,
    limits: RequestLimits,
) -> usize {
    match request_token_limit {
        Some(limit) => limit,
        None => limits.max_request_tokens,
    }
}

/// The response limit that a request carries: the call's own, or the default.
pub open spec fn effective_response_limit(
    max_response_tokens: Option<u16>,
    limits: RequestLimits,
) -> u16 {
    match max_response_tokens {
        Some(limit) => limit,
        None => limits.max_response_tokens,
    }
}

/// The request that the given parts make up, charged `prompt_cost` tokens
/// for the prompt: within the ceiling the request itself, above it the
/// failure.
pub open spec fn is_assembled(
    system: (Seq<char>, usize),
    user_prompt: Seq<char>,
    model: Seq<char>,
    tools: Seq<ToolSchema>,
    tool_tokens: usize,
    prompt_cost: usize,
    ceiling: usize,
    response_limit: u16,
    outcome: Result<ChatRequest, ToolError>,
) -> bool {
    if request_total(tool_tokens, system.1, prompt_cost) <= ceiling {
        &&& outcome matches Ok(request)
        &&& request.model@ == model
        &&& request.system_message@ == system.0
        &&& request.user_prompt@ == user_prompt
        &&& request.tools@ == tools
        &&& request.max_response_tokens == response_limit
        &&& request.request_tokens == request_total(tool_tokens, system.1, prompt_cost)
    } else {
        outcome == Err::<ChatRequest, ToolError>(ToolError::TokenBudgetExceeded)
    }
}

/// The system message as contracts read it.
pub open spec fn system_of(custom: Option<(String, usize)>) -> (Seq<char>, usize) {
    match custom {
        Some((text, tokens)) => (text@, tokens),
        None => ("You are a helpful function calling bot."@, DEFAULT_SYSTEM_MESSAGE_TOKENS),
    }
}

/// Puts a request together from its parts, the prompt's token cost given.
/// The request is made only if tools, system message and prompt together
/// stay within the ceiling.
pub fn assemble_with_prompt_cost(
    system_message: Option<(String, usize)>,
    user_prompt: &str,
    model: &str,
    tools: Vec<ToolSchema>,
    tool_tokens: usize,
    prompt_cost: usize,
    request_token_limit: Option<usize>,
    max_response_tokens: Option<u16>,
    limits: &RequestLimits,
) -> (outcome: Result<ChatRequest, ToolError>)
    ensures
        is_assembled(
            system_of(system_message),
            user_prompt@,
            model@,
            tools@,
            tool_tokens,
            prompt_cost,
            effective_ceiling(request_token_limit, *limits),
            effective_response_limit(max_response_tokens, *limits),
            outcome,
        ),
{
    let (system_text, system_tokens) = system_message_or_default(system_message);
    let ceiling = match request_token_limit {
        Some(limit) => limit,
        None => limits.max_request_tokens,
    };
    let response_limit = match max_response_tokens {
        Some(limit) => limit,
        None => limits.max_response_tokens,
    };
    match check_request_budget(tool_tokens, system_tokens, prompt_cost, ceiling) {
        Ok(total) => Ok(
            ChatRequest {
                model: model.to_owned(),
                system_message: system_text,
                user_prompt: user_prompt.to_owned(),
                tools,
                max_response_tokens: response_limit,
                request_tokens: total,
            },
        ),
        Err(e) => Err(e),
    }
}

/// Puts a request together from its parts. The prompt is charged its
/// estimated token cost; the request is made only if tools, system message
/// and prompt together stay within the ceiling. A prompt that only the
/// tokenizer can count fails with `PromptNotCounted` where the tokenizer
/// does not count it.
pub fn assemble(
    system_message: Option<(String, usize)>,
    user_prompt: &str,
    model: &str,
    tools: Vec<ToolSchema>,
    tool_tokens: usize,
    request_token_limit: Option<usize>,
    max_response_tokens: Option<u16>,
    limits: &RequestLimits,
) -> (outcome: Result<ChatRequest, ToolError>)
    ensures
        match prompt_tokens(user_prompt@) {
            Some(prompt_cost) => is_assembled(
                system_of(system_message),
                user_prompt@,
                model@,
                tools@,
                tool_tokens,
                prompt_cost,
                effective_ceiling(request_token_limit, *limits),
                effective_response_limit(max_response_tokens, *limits),
                outcome,
            ),
            None => outcome == Err::<ChatRequest, ToolError>(ToolError::PromptNotCounted),
        },
{
    match estimate_prompt_tokens(user_prompt) {
        Some(prompt_cost) => assemble_with_prompt_cost(
            system_message,
            user_prompt,
            model,
            tools,
            tool_tokens,
            prompt_cost,
            request_token_limit,
            max_response_tokens,
            limits,
        ),
        None => Err(ToolError::PromptNotCounted),
    }
}

} // verus!
