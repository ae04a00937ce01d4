//! Function selection and dispatch for chat models that call tools: ranking a
//! catalog of callable functions by relevance, choosing the ones that fit a
//! token budget, checking a request against its ceiling, recovering tool-call
//! arguments and threading results through a chain of prompts.

pub mod text;
pub mod error;
pub mod tokens;
pub mod descriptor;
pub mod schema;
pub mod rank;
pub mod select;
pub mod tools;
pub mod assemble;
pub mod step;
pub mod rewrite;
pub mod dispatch;
pub mod chain;
