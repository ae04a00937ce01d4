//! The error types of the library.

use vstd::prelude::*;
use vstd::string::StringExecFns;

verus! {

/// Failures of the embedding side: the remote service, or the stored archive.
#[derive(Debug, PartialEq, Eq)]
pub enum FuncEnumsError {
    OpenAIError(String),
    RkyvError(String),
}

/// The failure of a command, with the reason in words.
#[derive(Debug)]
pub struct CommandError {
    details: String,
}

impl View for CommandError {
    type V = Seq<char>;

    closed spec fn view(&self) -> Seq<char> {
        self.details@
    }
}

impl CommandError {
    /// An error that carries `msg`.
    pub fn new(msg: &str) -> (error: CommandError)
        ensures
            error@ == msg@,
    {
        CommandError { details: msg.to_owned() }
    }

    /// The reason, as it would be shown.
    pub fn details(&self) -> (text: &String)
        ensures
            text@ == self@,
    {
        &self.details
    }

    /// The error for a failure reported by the chat service, whose own
    /// account of it is `report`.
    pub fn from_service_report(report: &str) -> (error: CommandError)
        ensures
            error@ == "OpenAI Error: "@ + report@,
    {
        let mut details = "OpenAI Error: ".to_owned();
        details.append(report);
        CommandError { details }
    }
}

/// What can go wrong while a request is prepared and its tool calls are
/// dispatched.
#[derive(Debug, PartialEq, Eq)]
pub enum ToolError {
    /// The request would cost more tokens than its ceiling allows.
    TokenBudgetExceeded,
    /// The model named a function outside the known set.
    UnknownFunction,
    /// The arguments could not be decoded, even after the key rewrite.
    ArgumentParseError,
    /// The embedding service returned no vector.
    EmbeddingUnavailable,
    /// The network or the service failed; its own account is carried along.
    TransportError(String),
    /// A single call could not be parsed, which fails its step.
    StepFailed,
    /// A long prompt was not counted: the tokenizer could not be set up, or
    /// the prompt is longer than what the tokenizer is given.
    PromptNotCounted,
}

/// The words in which a failure is reported.
pub open spec fn error_text(error: ToolError) -> Seq<char> {
    match error {
        ToolError::TokenBudgetExceeded => "Request token count is too high"@,
        ToolError::UnknownFunction => "Unknown function name"@,
        ToolError::ArgumentParseError => "There was an issue deserializing function arguments."@,
        ToolError::EmbeddingUnavailable => "Didn't get embedding vector back."@,
        ToolError::TransportError(report) => "OpenAI Error: "@ + report@,
        ToolError::StepFailed => "Error running GPT command"@,
        ToolError::PromptNotCounted => "The prompt could not be counted"@,
    }
}

impl ToolError {
    /// The command error that reports this failure.
    pub fn into_command_error(self) -> (error: CommandError)
        ensures
            error@ == error_text(self),
    {
        match self {
            ToolError::TokenBudgetExceeded => CommandError::new("Request token count is too high"),
            ToolError::UnknownFunction => CommandError::new("Unknown function name"),
            ToolError::ArgumentParseError => CommandError::new(
                "There was an issue deserializing function arguments.",
            ),
            ToolError::EmbeddingUnavailable => CommandError::new(
                "Didn't get embedding vector back.",
            ),
            ToolError::TransportError(report) => CommandError::from_service_report(
                report.as_str(),
            ),
            ToolError::StepFailed => CommandError::new("Error running GPT command"),
            ToolError::PromptNotCounted => CommandError::new("The prompt could not be counted"),
        }
    }
}

} // verus!
