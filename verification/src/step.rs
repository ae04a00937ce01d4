//! One step up to the point where its request is sent: which tools are
//! offered, and the request that carries them.

use vstd::prelude::*;
use crate::assemble::{
    assemble, effective_ceiling, effective_response_limit, is_assembled, system_of, ChatRequest,
    RequestLimits,
};
use crate::assemble::prompt_tokens;
use crate::descriptor::FunctionDescriptor;
use crate::error::ToolError;
use crate::select::{
    all_functions, candidates, cost_of, fill, required_texts, select_allowed_with_required,
    select_with_required_under_limit, walk,
};
use crate::text::texts;
use crate::tools::{tool_schemas_of, tools_for, ToolSchema};

verus! {

/// The ceiling that the functions on offer are held to: the configured one
/// where functions are filtered, else none but the largest machine word.
pub open spec fn offer_ceiling(limits: RequestLimits) -> int {
    if limits.function_filtering {
        limits.max_func_tokens as int
    } else {
        usize::MAX as int
    }
}

/// The descriptors that a step offers. Where the caller allows some
/// functions by name, the required ones and then the allowed ones are
/// selected under the offer ceiling; where the caller names none, the whole
/// catalog is on offer.
pub open spec fn offered(
    catalog: Seq<FunctionDescriptor>,
    allowed: Option<Vec<String>>,
    required: Option<Vec<String>>,
    limits: RequestLimits,
) -> Seq<FunctionDescriptor> {
    match allowed {
        Some(names) => if names@.len() > 0 {
            walk(
                catalog,
                candidates(required_texts(required), texts(names@)),
                Some(offer_ceiling(limits)),
            )
        } else {
            fill(catalog, Some(usize::MAX as int))
        },
        None => fill(catalog, Some(usize::MAX as int)),
    }
}

/// Chooses the tools of a step and counts what they cost. The free-text
/// fallback is never among the tools, though its cost is counted where it
/// was selected.
pub fn offer_tools(
    catalog: &Vec<FunctionDescriptor>,
    allowed_functions: Option<Vec<String>>,
    required_functions: Option<Vec<String>>,
    limits: &RequestLimits,
) -> (offer: (Vec<ToolSchema>, usize))
    ensures
        offer.0@ == tool_schemas_of(
            offered(catalog@, allowed_functions, required_functions, *limits),
        ),
        offer.1 == cost_of(offered(catalog@, allowed_functions, required_functions, *limits)),
{
    let (chosen, total) = match allowed_functions {
        Some(names) => {
            if names.len() > 0 {
                if limits.function_filtering {
                    select_with_required_under_limit(
                        catalog,
                        &names,
                        required_functions,
                        limits.max_func_tokens,
                    )
                } else {
                    select_allowed_with_required(catalog, &names, required_functions)
                }
            } else {
                all_functions(catalog)
            }
        },
        None => all_functions(catalog),
    };
    (tools_for(&chosen), total)
}

/// Prepares the request of a step: chooses the tools, charges them, the
/// system message and the prompt, and puts the request together if the
/// total stays within the ceiling. Nothing is sent here, so a request over
/// its ceiling is never sent at all.
pub fn prepare_request(
    catalog: &Vec<FunctionDescriptor>,
    prompt: &str,
    model_name: &str,
    request_token_limit: Option<usize>,
    max_response_tokens: Option<u16>,
    custom_system_message: Option<(String, usize)>,
    allowed_functions: Option<Vec<String>>,
    required_functions: Option<Vec<String>>,
    limits: &RequestLimits,
) -> (outcome: Result<ChatRequest, ToolError>)
    ensures
        match prompt_tokens(prompt@) {
            Some(prompt_cost) => {
                let chosen = offered(catalog@, allowed_functions, required_functions, *limits);
                is_assembled(
                    system_of(custom_system_message),
                    prompt@,
                    model_name@,
                    tool_schemas_of(chosen),
                    cost_of(chosen) as usize,
                    prompt_cost,
                    effective_ceiling(request_token_limit, *limits),
                    effective_response_limit(max_response_tokens, *limits),
                    outcome,
                )
            },
            None => outcome == Err::<ChatRequest, ToolError>(ToolError::PromptNotCounted),
        },
{
    let (tools, tool_tokens) = offer_tools(catalog, allowed_functions, required_functions, limits);
    assemble(
        custom_system_message,
        prompt,
        model_name,
        tools,
        tool_tokens,
        request_token_limit,
        max_response_tokens,
        limits,
    )
}

} // verus!
