//! Tool-call dispatch: decoding what the model asked for, deciding how a
//! batch of calls is run, and folding the results into the chain state.

use vstd::prelude::*;
use crate::error::ToolError;
use crate::rewrite::{rewrite_argument_keys, rewritten_arguments};
use crate::text::{contains_name, texts};

verus! {

/// How the calls of one step are run.
#[derive(Clone, Copy, Debug, PartialEq, Eq, Structural)]
pub enum ToolCallExecutionStrategy {
    /// Each call on an operating-system thread of its own.
    Parallel,
    /// All calls as cooperative tasks of one scheduler.
    Async,
    /// One call after the other.
    Synchronous,
}

/// A call as the model returned it: the function it names and the raw
/// argument text.
#[derive(Clone, Debug, PartialEq, Eq)]
pub struct ToolCall {
    pub name: String,
    pub arguments: String,
}

/// The decoder, run for function `name` on an argument text that reads
/// `text`, may answer `outcome`.
pub open spec fn decodes<T, F: Fn(&String, &String) -> Option<T>>(
    decode: F,
    name: String,
    text: Seq<char>,
    outcome: Option<T>,
) -> bool {
    exists|arguments: String|
        arguments@ == text && #[trigger] call_ensures(decode, (&name, &arguments), outcome)
}

/// What parsing comes to, given whether the function is known and what the
/// decoder made of the arguments as they came and as rewritten.
pub open spec fn resolved<T>(known: bool, direct: Option<T>, retried: Option<T>) -> Result<
    T,
    ToolError,
> {
    if !known {
        Err(ToolError::UnknownFunction)
    } else if direct is Some {
        Ok(direct->0)
    } else if retried is Some {
        Ok(retried->0)
    } else {
        Err(ToolError::ArgumentParseError)
    }
}

/// Settles a parse from its parts: an unknown function fails as such; a
/// known one yields the direct decoding, else the decoding of the rewritten
/// arguments, else fails as unparsable.
pub fn resolve_decoding<T>(known: bool, direct: Option<T>, retried: Option<T>) -> (outcome: Result<
    T,
    ToolError,
>)
    ensures
        outcome == resolved(known, direct, retried),
{
    if !known {
        return Err(ToolError::UnknownFunction);
    }
    match direct {
        Some(invocation) => Ok(invocation),
        None => match retried {
            Some(invocation) => Ok(invocation),
            None => Err(ToolError::ArgumentParseError),
        },
    }
}

/// `outcome` is what parsing `call` may come to. A function outside the
/// known names fails as unknown. For a known one the decoder is run on the
/// arguments as they came, and only if that fails, once more on the
/// arguments with their keys rewritten; the outcome is resolved from the two.
pub open spec fn is_parse_outcome<T, F: Fn(&String, &String) -> Option<T>>(
    decode: F,
    known: Seq<Seq<char>>,
    call: ToolCall,
    outcome: Result<T, ToolError>,
) -> bool {
    if !known.contains(call.name@) {
        outcome == Err::<T, ToolError>(ToolError::UnknownFunction)
    } else {
        exists|direct: Option<T>|
            {
                &&& #[trigger] decodes(decode, call.name, call.arguments@, direct)
                &&& direct is Some ==> outcome == resolved(true, direct, None)
                &&& direct is None ==> exists|retried: Option<T>|
                    {
                        &&& #[trigger] decodes(
                            decode,
                            call.name,
                            rewritten_arguments(call.arguments@),
                            retried,
                        )
                        &&& outcome == resolved(true, direct, retried)
                    }
            }
    }
}

/// Parses one tool call into a typed invocation. The function must be among
/// the known names. Its arguments are decoded as they came; if that fails
/// they are decoded once more with their keys rewritten to snake case.
pub fn parse_function_call<T, F: Fn(&String, &String) -> Option<T>>(
    known_names: &Vec<String>,
    call: &ToolCall,
    decode: &F,
) -> (outcome: Result<T, ToolError>)
    requires
        forall|name: &String, arguments: &String| call_requires(*decode, (name, arguments)),
    ensures
        is_parse_outcome(*decode, texts(known_names@), *call, outcome),
{
    if !contains_name(known_names, &call.name) {
        return resolve_decoding(false, None, None);
    }
    let direct = decode(&call.name, &call.arguments);
    assert(decodes(*decode, call.name, call.arguments@, direct)) by {
        assert(call_ensures(*decode, (&call.name, &call.arguments), direct));
    }
    match direct {
        Some(invocation) => resolve_decoding(true, Some(invocation), None),
        None => {
            let rewritten = rewrite_argument_keys(call.arguments.as_str());
            let retried = decode(&call.name, &rewritten);
            assert(decodes(*decode, call.name, rewritten_arguments(call.arguments@), retried)) by {
                assert(call_ensures(*decode, (&call.name, &rewritten), retried));
            }
            resolve_decoding(true, None, retried)
        },
    }
}

/// How a step goes about the calls that the model returned.
#[derive(Clone, Copy, Debug, PartialEq, Eq, Structural)]
pub enum DispatchMode {
    /// The model returned no calls: there is nothing to run.
    Nothing,
    /// A single call, run in place; its update goes back to the caller.
    Inline,
    /// One call after the other, each seeing what the one before left.
    Sequential,
    /// All calls as concurrent tasks, each writing its update when done.
    ConcurrentTasks,
    /// Each call on a thread of its own, each writing its update when done.
    ParallelThreads,
}

/// What a step does with the calls of a response.
#[derive(Clone, Copy, Debug, PartialEq, Eq, Structural)]
pub struct DispatchPlan {
    pub mode: DispatchMode,
    /// How many of the calls are attempted: all of them.
    pub scheduled: usize,
    /// The strategy handed to each invocation for steps of its own.
    pub nested_strategy: ToolCallExecutionStrategy,
    /// Whether the invocation is given the chain's prior command.
    pub passes_prior_command: bool,
    /// Whether a call that cannot be parsed fails the step. In a batch it is
    /// logged and the other calls go on.
    pub parse_failure_fails_step: bool,
}

/// The plan for a response with the given number of calls (`None` where the
/// response carried no list of calls at all) under a strategy.
pub open spec fn plan_of(
    calls: Option<usize>,
    strategy: ToolCallExecutionStrategy,
) -> DispatchPlan {
    match calls {
        None => DispatchPlan {
            mode: DispatchMode::Nothing,
            scheduled: 0,
            nested_strategy: strategy,
            passes_prior_command: false,
            parse_failure_fails_step: false,
        },
        Some(count) => if count == 1 {
            DispatchPlan {
                mode: DispatchMode::Inline,
                scheduled: 1,
                nested_strategy: strategy,
                passes_prior_command: true,
                parse_failure_fails_step: true,
            }
        } else {
            DispatchPlan {
                mode: match strategy {
                    ToolCallExecutionStrategy::Parallel => DispatchMode::ParallelThreads,
                    ToolCallExecutionStrategy::Async => DispatchMode::ConcurrentTasks,
                    ToolCallExecutionStrategy::Synchronous => DispatchMode::Sequential,
                },
                scheduled: count,
                nested_strategy: match strategy {
                    ToolCallExecutionStrategy::Parallel => ToolCallExecutionStrategy::Async,
                    ToolCallExecutionStrategy::Async => ToolCallExecutionStrategy::Async,
                    ToolCallExecutionStrategy::Synchronous => {
                        ToolCallExecutionStrategy::Synchronous
                    },
                },
                passes_prior_command: false,
                parse_failure_fails_step: false,
            }
        },
    }
}

/// Decides how the calls of a response are run. A single call runs in
/// place. A batch runs as the strategy says; calls that run on threads of
/// their own hand the concurrent-task strategy down, so that no step
/// beneath them starts further threads.
pub fn plan_dispatch(calls: Option<usize>, strategy: ToolCallExecutionStrategy) -> (plan:
    DispatchPlan)
    ensures
        plan == plan_of(calls, strategy),
        calls matches Some(count) ==> plan.scheduled == count,
{
    match calls {
        None => DispatchPlan {
            mode: DispatchMode::Nothing,
            scheduled: 0,
            nested_strategy: strategy,
            passes_prior_command: false,
            parse_failure_fails_step: false,
        },
        Some(count) => {
            if count == 1 {
                DispatchPlan {
                    mode: DispatchMode::Inline,
                    scheduled: 1,
                    nested_strategy: strategy,
                    passes_prior_command: true,
                    parse_failure_fails_step: true,
                }
            } else {
                let (mode, nested_strategy) = match strategy {
                    ToolCallExecutionStrategy::Parallel => (
                        DispatchMode::ParallelThreads,
                        ToolCallExecutionStrategy::Async,
                    ),
                    ToolCallExecutionStrategy::Async => (
                        DispatchMode::ConcurrentTasks,
                        ToolCallExecutionStrategy::Async,
                    ),
                    ToolCallExecutionStrategy::Synchronous => (
                        DispatchMode::Sequential,
                        ToolCallExecutionStrategy::Synchronous,
                    ),
                };
                DispatchPlan {
                    mode,
                    scheduled: count,
                    nested_strategy,
                    passes_prior_command: false,
                    parse_failure_fails_step: false,
                }
            }
        },
    }
}

/// Whatever the strategy, the same calls are attempted: every call of the
/// response, once, and under the same rules for what an invocation is given
/// and for what a parse failure does. The strategy decides only how the
/// calls are scheduled and what strategy they hand down.
pub proof fn lemma_strategy_keeps_invocations(
    calls: Option<usize>,
    first: ToolCallExecutionStrategy,
    second: ToolCallExecutionStrategy,
)
    ensures
        plan_of(calls, first).scheduled == plan_of(calls, second).scheduled,
        calls matches Some(count) ==> plan_of(calls, first).scheduled == count,
        plan_of(calls, first).passes_prior_command == plan_of(
            calls,
            second,
        ).passes_prior_command,
        plan_of(calls, first).parse_failure_fails_step == plan_of(
            calls,
            second,
        ).parse_failure_fails_step,
{
}

/// No plan for calls that run on threads hands the thread strategy down.
pub proof fn lemma_threads_do_not_nest(calls: Option<usize>, strategy: ToolCallExecutionStrategy)
    ensures
        plan_of(calls, strategy).mode == DispatchMode::ParallelThreads ==> plan_of(
            calls,
            strategy,
        ).nested_strategy == ToolCallExecutionStrategy::Async,
{
}

/// Where one call stands on its way through a step.
#[derive(Clone, Copy, Debug, PartialEq, Eq, Structural)]
pub enum CallStage {
    /// The call is being parsed.
    Parsed,
    /// The call was parsed and its command is being run.
    Executed,
    /// The command ran and its update was written to the chain state.
    ChainUpdated,
    /// The call could not be parsed. Nothing more happens to it.
    ParseFailed,
    /// The command failed. Nothing more happens to it.
    ExecutionFailed,
}

/// The stage is final: the call has written its update or has failed.
pub open spec fn is_terminal(stage: CallStage) -> bool {
    stage == CallStage::ChainUpdated || stage == CallStage::ParseFailed || stage
        == CallStage::ExecutionFailed
}

/// The stage that follows when what the call was doing has succeeded or
/// failed. A final stage stays.
pub open spec fn next_stage(stage: CallStage, succeeded: bool) -> CallStage {
    match stage {
        CallStage::Parsed => if succeeded {
            CallStage::Executed
        } else {
            CallStage::ParseFailed
        },
        CallStage::Executed => if succeeded {
            CallStage::ChainUpdated
        } else {
            CallStage::ExecutionFailed
        },
        CallStage::ChainUpdated => CallStage::ChainUpdated,
        CallStage::ParseFailed => CallStage::ParseFailed,
        CallStage::ExecutionFailed => CallStage::ExecutionFailed,
    }
}

impl CallStage {
    /// Moves a call on, given whether what it was doing succeeded.
    pub fn advance(self, succeeded: bool) -> (next: CallStage)
        ensures
            next == next_stage(self, succeeded),
    {
        match self {
            CallStage::Parsed => if succeeded {
                CallStage::Executed
            } else {
                CallStage::ParseFailed
            },
            CallStage::Executed => if succeeded {
                CallStage::ChainUpdated
            } else {
                CallStage::ExecutionFailed
            },
            CallStage::ChainUpdated => CallStage::ChainUpdated,
            CallStage::ParseFailed => CallStage::ParseFailed,
            CallStage::ExecutionFailed => CallStage::ExecutionFailed,
        }
    }

    /// Whether the call has come to its end.
    pub fn is_final(self) -> (done: bool)
        ensures
            done == is_terminal(self),
    {
        match self {
            CallStage::Parsed => false,
            CallStage::Executed => false,
            CallStage::ChainUpdated => true,
            CallStage::ParseFailed => true,
            CallStage::ExecutionFailed => true,
        }
    }
}

/// Every call comes to an end: whatever succeeds or fails, two events take
/// a call from parsing to a final stage, and a final stage is never left.
pub proof fn lemma_calls_settle(stage: CallStage, first: bool, second: bool)
    ensures
        is_terminal(next_stage(next_stage(CallStage::Parsed, first), second)),
        is_terminal(stage) ==> next_stage(stage, first) == stage,
        next_stage(stage, first) == CallStage::ChainUpdated ==> stage == CallStage::ChainUpdated
            || (stage == CallStage::Executed && first),
{
}

/// What an invocation leaves for the next step: a textual result and the
/// arguments of a command, either of which may be absent.
#[derive(Clone, Debug, PartialEq, Eq)]
pub struct ChainUpdate {
    pub result: Option<String>,
    pub command: Option<Vec<String>>,
}

/// The state threaded through the steps of a chain.
#[derive(Clone, Debug, PartialEq, Eq)]
pub struct ChainState {
    pub prior_result: Option<String>,
    pub prior_command: Option<Vec<String>>,
}

/// The state that an update leaves: the update's contents, nothing kept.
pub open spec fn state_after(update: ChainUpdate) -> ChainState {
    ChainState { prior_result: update.result, prior_command: update.command }
}

/// The state once an invocation's outcome is recorded: the update's
/// contents, or the state as it was where the invocation failed.
pub open spec fn recorded(state: ChainState, outcome: Option<ChainUpdate>) -> ChainState {
    match outcome {
        Some(update) => state_after(update),
        None => state,
    }
}

/// The arguments are those that an invocation is given under the plan.
pub open spec fn is_given(
    state: ChainState,
    plan: DispatchPlan,
    arguments: Option<Vec<String>>,
) -> bool {
    if plan.passes_prior_command {
        match state.prior_command {
            Some(command) => arguments matches Some(given) && given@ == command@,
            None => arguments is None,
        }
    } else {
        arguments is None
    }
}

/// The state after a batch whose invocations finished in the given order,
/// `None` standing for one that failed: the update that arrived last, or the
/// incoming state if none arrived.
pub open spec fn last_writer(state: ChainState, arrivals: Seq<Option<ChainUpdate>>) -> ChainState
    decreases arrivals.len(),
{
    if arrivals.len() == 0 {
        state
    } else {
        match arrivals.last() {
            Some(update) => state_after(update),
            None => last_writer(state, arrivals.drop_last()),
        }
    }
}

/// Last writer wins: the state after a batch is what recording each
/// outcome in turn, in the order of arrival, leaves.
pub proof fn lemma_last_writer_records_in_turn(
    state: ChainState,
    arrivals: Seq<Option<ChainUpdate>>,
    next: Option<ChainUpdate>,
)
    ensures
        last_writer(state, Seq::<Option<ChainUpdate>>::empty()) == state,
        last_writer(state, arrivals.push(next)) == recorded(last_writer(state, arrivals), next),
{
    assert(arrivals.push(next).drop_last() =~= arrivals);
}

impl ChainState {
    /// The state at the start of a chain: nothing behind it.
    pub fn new() -> (state: ChainState)
        ensures
            state.prior_result is None,
            state.prior_command is None,
    {
        ChainState { prior_result: None, prior_command: None }
    }

    /// Records what an invocation came to. An update replaces the state
    /// whole; a failed invocation leaves it as it was.
    pub fn record(&mut self, outcome: Option<ChainUpdate>)
        ensures
            *final(self) == recorded(*old(self), outcome),
    {
        match outcome {
            Some(update) => {
                self.prior_result = update.result;
                self.prior_command = update.command;
            },
            None => {},
        }
    }

    /// The arguments that an invocation is given under a plan: the prior
    /// command where the plan passes it on, none otherwise.
    pub fn invocation_arguments(&self, plan: &DispatchPlan) -> (arguments: Option<Vec<String>>)
        ensures
            is_given(*self, *plan, arguments),
    {
        if plan.passes_prior_command {
            match &self.prior_command {
                Some(command) => Some(copy_names(command)),
                None => None,
            }
        } else {
            None
        }
    }
}

fn copy_names(names: &Vec<String>) -> (copy: Vec<String>)
    ensures
        copy@ == names@,
{
    let mut copy: Vec<String> = Vec::new();
    let mut i: usize = 0;
    while i < names.len()
        invariant
            i <= names.len(),
            copy@ == names@.take(i as int),
        decreases names.len() - i,
    {
        copy.push(names[i].clone());
        assert(copy@ =~= names@.take(i + 1));
        i = i + 1;
    }
    assert(names@.take(i as int) =~= names@);
    copy
}

/// Folds a batch into the chain state, the outcomes taken in the order in
/// which the invocations finished: every update replaces what was there, so
/// the last one stands.
pub fn settle(state: ChainState, arrivals: Vec<Option<ChainUpdate>>) -> (settled: ChainState)
    ensures
        settled == last_writer(state, arrivals@),
{
    let mut settled = state;
    let mut arrivals = arrivals;
    let ghost all = arrivals@;
    while arrivals.len() > 0
        invariant
            last_writer(settled, arrivals@) == last_writer(state, all),
        decreases arrivals.len(),
    {
        let ghost before = arrivals@;
        let last = arrivals.pop();
        assert(arrivals@ =~= before.drop_last());
        match last {
            Some(Some(update)) => {
                settled = ChainState { prior_result: update.result, prior_command: update.command };
                arrivals.clear();
            },
            _ => {},
        }
    }
    settled
}

/// Taking the calls from position `from` on, one after the other, with the
/// chain in `state`, may end in `outcome`. A call that does not parse is
/// passed over, unless the plan says that it fails the step. A parsed call
/// is run, and what it leaves is recorded before the next call is taken up:
/// a failed run changes nothing and stops nothing.
pub open spec fn dispatched_from<
    T,
    D: Fn(&String, &String) -> Option<T>,
    R: Fn(T, ToolCallExecutionStrategy, Option<Vec<String>>) -> Option<ChainUpdate>,
>(
    decode: D,
    run: R,
    known: Seq<Seq<char>>,
    calls: Seq<ToolCall>,
    plan: DispatchPlan,
    from: int,
    state: ChainState,
    outcome: Result<ChainState, ToolError>,
) -> bool
    decreases calls.len() - from,
{
    if from < 0 || from >= calls.len() {
        outcome == Ok::<ChainState, ToolError>(state)
    } else {
        exists|parsed: Result<T, ToolError>|
            {
                &&& #[trigger] is_parse_outcome(decode, known, calls[from], parsed)
                &&& match parsed {
                    Err(_) => if plan.parse_failure_fails_step {
                        outcome == Err::<ChainState, ToolError>(ToolError::StepFailed)
                    } else {
                        dispatched_from(decode, run, known, calls, plan, from + 1, state, outcome)
                    },
                    Ok(command) => exists|
                        arguments: Option<Vec<String>>,
                        update: Option<ChainUpdate>,
                    |
                        {
                            &&& is_given(state, plan, arguments)
                            &&& #[trigger] call_ensures(
                                run,
                                (command, plan.nested_strategy, arguments),
                                update,
                            )
                            &&& dispatched_from(
                                decode,
                                run,
                                known,
                                calls,
                                plan,
                                from + 1,
                                recorded(state, update),
                                outcome,
                            )
                        },
                }
            }
    }
}

/// Once every call is taken, the state that the calls have left is the
/// outcome; in particular an empty batch leaves the state as it was.
pub proof fn lemma_dispatch_ends<
    T,
    D: Fn(&String, &String) -> Option<T>,
    R: Fn(T, ToolCallExecutionStrategy, Option<Vec<String>>) -> Option<ChainUpdate>,
>(
    decode: D,
    run: R,
    known: Seq<Seq<char>>,
    calls: Seq<ToolCall>,
    plan: DispatchPlan,
    from: int,
    state: ChainState,
    outcome: Result<ChainState, ToolError>,
)
    requires
        from >= calls.len(),
    ensures
        dispatched_from(decode, run, known, calls, plan, from, state, outcome) <==> outcome
            == Ok::<ChainState, ToolError>(state),
{
}

/// Runs the calls of a response one after the other, as the plan for their
/// number and the strategy says, and returns the chain state that they
/// leave. Each call is parsed and run; what it leaves replaces the state
/// before the next call is taken up. In a batch, a call that does not parse
/// or whose run fails is passed over and the others go on; a single call
/// that does not parse fails the step.
pub fn dispatch_in_order<
    T,
    D: Fn(&String, &String) -> Option<T>,
    R: Fn(T, ToolCallExecutionStrategy, Option<Vec<String>>) -> Option<ChainUpdate>,
>(
    known_names: &Vec<String>,
    calls: &Vec<ToolCall>,
    strategy: ToolCallExecutionStrategy,
    state: ChainState,
    decode: D,
    run: R,
) -> (outcome: Result<ChainState, ToolError>)
    requires
        forall|name: &String, arguments: &String| call_requires(decode, (name, arguments)),
        forall|command: T, nested: ToolCallExecutionStrategy, arguments: Option<Vec<String>>|
            call_requires(run, (command, nested, arguments)),
    ensures
        dispatched_from(
            decode,
            run,
            texts(known_names@),
            calls@,
            plan_of(Some(calls.len()), strategy),
            0,
            state,
            outcome,
        ),
{
    let plan = plan_dispatch(Some(calls.len()), strategy);
    let ghost known = texts(known_names@);
    let ghost start = state;
    let mut state = state;
    let mut i: usize = 0;
    while i < calls.len()
        invariant
            i <= calls.len(),
            known == texts(known_names@),
            plan == plan_of(Some(calls.len()), strategy),
            forall|name: &String, arguments: &String| call_requires(decode, (name, arguments)),
            forall|command: T, nested: ToolCallExecutionStrategy, arguments: Option<Vec<String>>|
                call_requires(run, (command, nested, arguments)),
            forall|o: Result<ChainState, ToolError>| #[trigger]
                dispatched_from(decode, run, known, calls@, plan, i as int, state, o)
                    ==> dispatched_from(decode, run, known, calls@, plan, 0, start, o),
        decreases calls.len() - i,
    {
        let ghost before = state;
        let parsed = parse_function_call(known_names, &calls[i], &decode);
        let ghost parse = parsed;
        match parsed {
            Err(_) => {
                if plan.parse_failure_fails_step {
                    assert(dispatched_from(
                        decode,
                        run,
                        known,
                        calls@,
                        plan,
                        i as int,
                        before,
                        Err::<ChainState, ToolError>(ToolError::StepFailed),
                    )) by {
                        assert(is_parse_outcome(decode, known, calls@[i as int], parse));
                    }
                    return Err(ToolError::StepFailed);
                }
            },
            Ok(command) => {
                let ghost taken = command;
                let arguments = state.invocation_arguments(&plan);
                let ghost given = arguments;
                let update = run(command, plan.nested_strategy, arguments);
                state.record(update);
                assert(is_given(before, plan, given));
                assert(call_ensures(run, (taken, plan.nested_strategy, given), update));
                assert(state == recorded(before, update));
            },
        }
        assert forall|o: Result<ChainState, ToolError>| #[trigger]
            dispatched_from(decode, run, known, calls@, plan, i + 1, state, o)
            implies dispatched_from(decode, run, known, calls@, plan, i as int, before, o) by {
            assert(is_parse_outcome(decode, known, calls@[i as int], parse));
        }
        i = i + 1;
    }
    assert(dispatched_from(
        decode,
        run,
        known,
        calls@,
        plan,
        i as int,
        state,
        Ok::<ChainState, ToolError>(state),
    ));
    Ok(state)
}

} // verus!
