//! Chains of prompts: each step's textual result is fed into the next prompt.

use vstd::prelude::*;
use vstd::string::StringExecFns;
use crate::dispatch::ChainState;
use crate::error::ToolError;

verus! {

/// The text of a state's prior result, if it has one.
pub open spec fn prior_text(state: ChainState) -> Option<Seq<char>> {
    match state.prior_result {
        Some(text) => Some(text@),
        None => None,
    }
}

/// The prompt that a step sends. The first step sends its prompt as it is.
/// A later step sends it after a sentence that states the prior result, and
/// sends nothing where there is no prior result.
pub open spec fn step_text(step: nat, prior: Option<Seq<char>>, prompt: Seq<char>) -> Option<
    Seq<char>,
> {
    if step == 0 {
        Some(prompt)
    } else {
        match prior {
            Some(result) => Some("The prior result was: "@ + result + ". "@ + prompt),
            None => None,
        }
    }
}

/// The state in which a chain starts: nothing behind it.
pub open spec fn initial_state() -> ChainState {
    ChainState { prior_result: None, prior_command: None }
}

/// Running the steps from `from` on, in a chain that has reached `state`,
/// may end in `outcome`. A step without a prompt to send is passed over and
/// leaves the state as it is; a step that fails ends the chain with its
/// error; the last state is the chain's result.
pub open spec fn chain_from<F: Fn(&String, ChainState) -> Result<ChainState, ToolError>>(
    run_step: F,
    prompts: Seq<String>,
    from: int,
    state: ChainState,
    outcome: Result<ChainState, ToolError>,
) -> bool
    decreases prompts.len() - from,
{
    if from < 0 || from >= prompts.len() {
        outcome == Ok::<ChainState, ToolError>(state)
    } else {
        match step_text(from as nat, prior_text(state), prompts[from]@) {
            None => chain_from(run_step, prompts, from + 1, state, outcome),
            Some(text) => exists|prompt: String, result: Result<ChainState, ToolError>|
                {
                    &&& prompt@ == text
                    &&& #[trigger] call_ensures(run_step, (&prompt, state), result)
                    &&& match result {
                        Ok(next) => chain_from(run_step, prompts, from + 1, next, outcome),
                        Err(error) => outcome == Err::<ChainState, ToolError>(error),
                    }
                },
        }
    }
}

/// A chain that is through its prompts ends in the state that it has
/// reached; in particular a chain of no prompts ends in the state in which
/// it started.
pub proof fn lemma_chain_ends<F: Fn(&String, ChainState) -> Result<ChainState, ToolError>>(
    run_step: F,
    prompts: Seq<String>,
    from: int,
    state: ChainState,
    outcome: Result<ChainState, ToolError>,
)
    requires
        from >= prompts.len(),
    ensures
        chain_from(run_step, prompts, from, state, outcome) <==> outcome == Ok::<
            ChainState,
            ToolError,
        >(state),
{
}

/// A chain without a prior result halts: past the first step, every
/// remaining step is passed over and the state comes back as it was.
pub proof fn lemma_chain_halts<F: Fn(&String, ChainState) -> Result<ChainState, ToolError>>(
    run_step: F,
    prompts: Seq<String>,
    from: int,
    state: ChainState,
    outcome: Result<ChainState, ToolError>,
)
    requires
        from >= 1,
        state.prior_result is None,
    ensures
        chain_from(run_step, prompts, from, state, outcome) <==> outcome == Ok::<
            ChainState,
            ToolError,
        >(state),
    decreases prompts.len() - from,
{
    if from < prompts.len() {
        lemma_chain_halts(run_step, prompts, from + 1, state, outcome);
    }
}

/// The prompt to send at a step, if the step is to run at all.
pub fn step_prompt(step: usize, prior_result: &Option<String>, prompt: &str) -> (sent: Option<
    String,
>)
    ensures
        match step_text(
            step as nat,
            match *prior_result {
                Some(text) => Some(text@),
                None => None,
            },
            prompt@,
        ) {
            Some(text) => sent matches Some(s) && s@ == text,
            None => sent is None,
        },
{
    if step == 0 {
        Some(prompt.to_owned())
    } else {
        match prior_result {
            Some(result) => {
                let mut sent = "The prior result was: ".to_owned();
                sent.append(result.as_str());
                sent.append(". ");
                sent.append(prompt);
                Some(sent)
            },
            None => None,
        }
    }
}

/// Runs a chain of prompts from an empty state, one step after the other.
/// Each step that has a prompt to send is handed to `run_step` with the
/// state so far, and gives the next state; a step without one is passed
/// over. The first failure ends the chain.
pub fn run_chain<F: Fn(&String, ChainState) -> Result<ChainState, ToolError>>(
    prompts: &Vec<String>,
    run_step: F,
) -> (outcome: Result<ChainState, ToolError>)
    requires
        forall|prompt: &String, state: ChainState| call_requires(run_step, (prompt, state)),
    ensures
        chain_from(run_step, prompts@, 0, initial_state(), outcome),
{
    let mut state = ChainState::new();
    assert(state == initial_state());
    let mut i: usize = 0;
    while i < prompts.len()
        invariant
            i <= prompts.len(),
            forall|prompt: &String, state: ChainState| call_requires(run_step, (prompt, state)),
            forall|o: Result<ChainState, ToolError>| #[trigger]
                chain_from(run_step, prompts@, i as int, state, o) ==> chain_from(
                    run_step,
                    prompts@,
                    0,
                    initial_state(),
                    o,
                ),
        decreases prompts.len() - i,
    {
        let ghost before = state;
        let ghost text = step_text(i as nat, prior_text(before), prompts@[i as int]@);
        match step_prompt(i, &state.prior_result, prompts[i].as_str()) {
            None => {
                assert(text is None);
                assert forall|o: Result<ChainState, ToolError>| #[trigger]
                    chain_from(run_step, prompts@, i + 1, state, o) implies chain_from(
                    run_step,
                    prompts@,
                    i as int,
                    before,
                    o,
                ) by {}
            },
            Some(sent) => {
                assert(text == Some(sent@));
                let result = run_step(&sent, state);
                assert(call_ensures(run_step, (&sent, before), result));
                match result {
                    Ok(next) => {
                        state = next;
                        assert forall|o: Result<ChainState, ToolError>| #[trigger]
                            chain_from(run_step, prompts@, i + 1, state, o) implies chain_from(
                            run_step,
                            prompts@,
                            i as int,
                            before,
                            o,
                        ) by {
                            assert(call_ensures(run_step, (&sent, before), result));
                        }
                    },
                    Err(error) => {
                        assert(chain_from(
                            run_step,
                            prompts@,
                            i as int,
                            before,
                            Err::<ChainState, ToolError>(error),
                        ));
                        return Err(error);
                    },
                }
            },
        }
        i = i + 1;
    }
    assert(chain_from(run_step, prompts@, i as int, state, Ok::<ChainState, ToolError>(state)));
    Ok(state)
}

} // verus!
