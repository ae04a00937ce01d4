//! Tool schemas: what a request tells the model about each function on offer.

use vstd::prelude::*;
use crate::descriptor::FunctionDescriptor;
use crate::error::FuncEnumsError;

verus! {

/// A function as a request describes it.
#[derive(Clone, Debug, PartialEq, Eq)]
pub struct FunctionSchema {
    pub name: String,
    pub description: String,
    /// The parameter schema, as JSON text.
    pub parameters: String,
}

/// A tool of the request. Every tool is a function.
#[derive(Clone, Debug, PartialEq, Eq)]
pub struct ToolSchema {
    pub function: FunctionSchema,
}

/// What a descriptor source hands over: one descriptor, a list of them, or
/// something that is neither.
#[derive(Clone, Debug, PartialEq, Eq)]
pub enum DescriptorPayload {
    One(FunctionDescriptor),
    Many(Vec<FunctionDescriptor>),
    Other,
}

/// The schema that a request carries for a descriptor.
pub open spec fn schema_of(descriptor: FunctionDescriptor) -> FunctionSchema {
    FunctionSchema {
        name: descriptor.name,
        description: descriptor.description,
        parameters: descriptor.schema,
    }
}

/// The descriptors that a payload holds, if it is one descriptor or a list.
pub open spec fn payload_descriptors(payload: DescriptorPayload) -> Option<
    Seq<FunctionDescriptor>,
> {
    match payload {
        DescriptorPayload::One(d) => Some(seq![d]),
        DescriptorPayload::Many(ds) => Some(ds@),
        DescriptorPayload::Other => None,
    }
}

/// The descriptor stands for the free-text fallback, which is never offered
/// as a tool.
pub open spec fn is_fallback(descriptor: FunctionDescriptor) -> bool {
    descriptor.name@ == "GPT"@
}

/// The function schemas of a list of descriptors, one for one.
pub open spec fn function_schemas_of(descriptors: Seq<FunctionDescriptor>) -> Seq<FunctionSchema> {
    descriptors.map_values(|d: FunctionDescriptor| schema_of(d))
}

/// The tools of a list of descriptors: one for each descriptor but the
/// free-text fallback, in the same order.
pub open spec fn tool_schemas_of(descriptors: Seq<FunctionDescriptor>) -> Seq<ToolSchema> {
    descriptors.filter(|d: FunctionDescriptor| !is_fallback(d)).map_values(
        |d: FunctionDescriptor| (ToolSchema { function: schema_of(d) }),
    )
}

/// The outcome of turning a payload into function schemas.
pub open spec fn function_args_of(payload: DescriptorPayload, total_tokens: usize) -> Option<
    (Seq<FunctionSchema>, usize),
> {
    match payload_descriptors(payload) {
        Some(ds) => Some((function_schemas_of(ds), total_tokens)),
        None => None,
    }
}

/// The outcome of turning a payload into tools.
pub open spec fn tool_args_of(payload: DescriptorPayload, total_tokens: usize) -> Option<
    (Seq<ToolSchema>, usize),
> {
    match payload_descriptors(payload) {
        Some(ds) => Some((tool_schemas_of(ds), total_tokens)),
        None => None,
    }
}

/// `outcome` is what `expected` asks for: the same schemas and token count,
/// or, where the payload was neither a descriptor nor a list, the error that
/// says so.
pub open spec fn is_args_outcome<S>(
    expected: Option<(Seq<S>, usize)>,
    outcome: Result<(Vec<S>, usize), FuncEnumsError>,
) -> bool {
    match expected {
        Some((schemas, tokens)) => outcome matches Ok((got, count)) && got@ == schemas && count
            == tokens,
        None => outcome matches Err(FuncEnumsError::OpenAIError(text)) && text@
            == "Something went wrong parsing the json"@,
    }
}

fn schema_for(descriptor: &FunctionDescriptor) -> (schema: FunctionSchema)
    ensures
        schema == schema_of(*descriptor),
{
    FunctionSchema {
        name: descriptor.name.clone(),
        description: descriptor.description.clone(),
        parameters: descriptor.schema.clone(),
    }
}

fn payload_list(payload: DescriptorPayload) -> (list: Option<Vec<FunctionDescriptor>>)
    ensures
        match payload_descriptors(payload) {
            Some(ds) => list matches Some(v) && v@ == ds,
            None => list is None,
        },
{
    match payload {
        DescriptorPayload::One(d) => {
            let mut v: Vec<FunctionDescriptor> = Vec::new();
            v.push(d);
            assert(v@ =~= seq![d]);
            Some(v)
        },
        DescriptorPayload::Many(ds) => Some(ds),
        DescriptorPayload::Other => None,
    }
}

fn shape_error() -> (error: FuncEnumsError)
    ensures
        error matches FuncEnumsError::OpenAIError(text) && text@
            == "Something went wrong parsing the json"@,
{
    FuncEnumsError::OpenAIError("Something went wrong parsing the json".to_owned())
}

/// Turns a payload into the function schemas of a request, one for each
/// descriptor, and hands the token count through.
pub fn function_schemas(payload: DescriptorPayload, total_tokens: usize) -> (outcome: Result<
    (Vec<FunctionSchema>, usize),
    FuncEnumsError,
>)
    ensures
        is_args_outcome(function_args_of(payload, total_tokens), outcome),
{
    match payload_list(payload) {
        Some(descriptors) => {
            let mut schemas: Vec<FunctionSchema> = Vec::new();
            let mut i: usize = 0;
            while i < descriptors.len()
                invariant
                    i <= descriptors.len(),
                    schemas@ == function_schemas_of(descriptors@.take(i as int)),
                decreases descriptors.len() - i,
            {
                schemas.push(schema_for(&descriptors[i]));
                assert(schemas@ =~= function_schemas_of(descriptors@.take(i + 1)));
                i = i + 1;
            }
            assert(descriptors@.take(i as int) =~= descriptors@);
            Ok((schemas, total_tokens))
        },
        None => Err(shape_error()),
    }
}

/// The tools for a list of descriptors: one for each descriptor but the
/// free-text fallback, in the same order.
pub fn tools_for(descriptors: &Vec<FunctionDescriptor>) -> (tools: Vec<ToolSchema>)
    ensures
        tools@ == tool_schemas_of(descriptors@),
{
    let fallback = "GPT".to_owned();
    let ghost offered = |d: FunctionDescriptor| !is_fallback(d);
    let mut tools: Vec<ToolSchema> = Vec::new();
    let mut i: usize = 0;
    while i < descriptors.len()
        invariant
            i <= descriptors.len(),
            fallback@ == "GPT"@,
            offered == |d: FunctionDescriptor| !is_fallback(d),
            tools@ == descriptors@.take(i as int).filter(offered).map_values(
                |d: FunctionDescriptor| (ToolSchema { function: schema_of(d) }),
            ),
        decreases descriptors.len() - i,
    {
        proof {
            assert(descriptors@.take(i + 1).drop_last() =~= descriptors@.take(i as int));
            reveal(Seq::filter);
        }
        if descriptors[i].name != fallback {
            tools.push(ToolSchema { function: schema_for(&descriptors[i]) });
        }
        assert(tools@ =~= descriptors@.take(i + 1).filter(offered).map_values(
            |d: FunctionDescriptor| (ToolSchema { function: schema_of(d) }),
        ));
        i = i + 1;
    }
    assert(descriptors@.take(i as int) =~= descriptors@);
    tools
}

/// Turns a payload into the tools of a request: one for each descriptor but
/// the free-text fallback. The token count is handed through unchanged.
pub fn tool_schemas(payload: DescriptorPayload, total_tokens: usize) -> (outcome: Result<
    (Vec<ToolSchema>, usize),
    FuncEnumsError,
>)
    ensures
        is_args_outcome(tool_args_of(payload, total_tokens), outcome),
{
    match payload_list(payload) {
        Some(descriptors) => Ok((tools_for(&descriptors), total_tokens)),
        None => Err(shape_error()),
    }
}

/// The function schemas for what `func` hands over.
pub fn get_function_chat_completion_args(func: impl Fn() -> (DescriptorPayload, usize)) -> (outcome:
    Result<(Vec<FunctionSchema>, usize), FuncEnumsError>)
    requires
        call_requires(func, ()),
    ensures
        exists|payload: DescriptorPayload, total_tokens: usize|
            call_ensures(func, (), (payload, total_tokens)) && is_args_outcome(
                function_args_of(payload, total_tokens),
                outcome,
            ),
{
    let (payload, total_tokens) = func();
    function_schemas(payload, total_tokens)
}

/// The tools for what `tool_func` hands over.
pub fn get_tool_chat_completion_args(
    tool_func: impl Fn() -> (DescriptorPayload, usize),
) -> (outcome: Result<(Vec<ToolSchema>, usize), FuncEnumsError>)
    requires
        call_requires(tool_func, ()),
    ensures
        exists|payload: DescriptorPayload, total_tokens: usize|
            call_ensures(tool_func, (), (payload, total_tokens)) && is_args_outcome(
                tool_args_of(payload, total_tokens),
                outcome,
            ),
{
    let (payload, total_tokens) = tool_func();
    tool_schemas(payload, total_tokens)
}

/// The tools for what `tool_func` selects from the allowed and the required
/// names.
pub fn get_tools_limited(
    tool_func: impl Fn(Vec<String>, Option<Vec<String>>) -> (DescriptorPayload, usize),
    allowed_func_names: Vec<String>,
    required_func_names: Option<Vec<String>>,
) -> (outcome: Result<(Vec<ToolSchema>, usize), FuncEnumsError>)
    requires
        call_requires(tool_func, (allowed_func_names, required_func_names)),
    ensures
        exists|payload: DescriptorPayload, total_tokens: usize|
            call_ensures(
                tool_func,
                (allowed_func_names, required_func_names),
                (payload, total_tokens),
            ) && is_args_outcome(tool_args_of(payload, total_tokens), outcome),
{
    let (payload, total_tokens) = tool_func(allowed_func_names, required_func_names);
    tool_schemas(payload, total_tokens)
}

} // verus!
