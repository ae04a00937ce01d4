use openai_func_enums::assemble::{
    assemble, assemble_with_prompt_cost, check_request_budget, count_words,
    estimate_from_word_count, estimate_prompt_tokens, system_message_or_default, ChatRequest,
    RequestLimits, DEFAULT_SYSTEM_MESSAGE_TOKENS, EXACT_COUNT_THRESHOLD,
};
use openai_func_enums::descriptor::FunctionDescriptor;
use openai_func_enums::error::{CommandError, ToolError};
use openai_func_enums::step::{offer_tools, prepare_request};
use openai_func_enums::text::{chars_of, contains_name, string_of};
use openai_func_enums::tools::{FunctionSchema, ToolSchema};

fn words(count: usize, word: &str) -> String {
    vec![word; count].join(" ")
}

fn tool(name: &str) -> ToolSchema {
    ToolSchema {
        function: FunctionSchema {
            name: name.to_string(),
            description: String::new(),
            parameters: "{}".to_string(),
        },
    }
}

fn limits() -> RequestLimits {
    RequestLimits {
        max_request_tokens: 4000,
        max_response_tokens: 1000,
        max_func_tokens: 25,
        function_filtering: true,
    }
}

fn descriptor(name: &str, cost: usize) -> FunctionDescriptor {
    FunctionDescriptor {
        name: name.to_string(),
        description: String::new(),
        schema: "{}".to_string(),
        token_cost: cost,
    }
}

fn catalog() -> Vec<FunctionDescriptor> {
    vec![descriptor("A", 10), descriptor("GPT", 10), descriptor("B", 10), descriptor("C", 10)]
}

fn names(list: &[&str]) -> Vec<String> {
    list.iter().map(|s| s.to_string()).collect()
}

#[test]
fn offer_is_the_whole_catalog_where_no_function_is_named() {
    let expected = vec![tool("A"), tool("B"), tool("C")];
    assert_eq!(offer_tools(&catalog(), None, None, &limits()), (expected.clone(), 40));
    assert_eq!(offer_tools(&catalog(), Some(vec![]), None, &limits()), (expected.clone(), 40));
    let required = Some(names(&["A"]));
    assert_eq!(offer_tools(&catalog(), None, required, &limits()), (expected, 40));
}

#[test]
fn offer_is_filtered_under_the_function_ceiling() {
    let offer = offer_tools(
        &catalog(),
        Some(names(&["B", "A", "C"])),
        Some(names(&["GPT"])),
        &limits(),
    );
    assert_eq!(offer, (vec![tool("B")], 20));
    let mut unfiltered = limits();
    unfiltered.function_filtering = false;
    let offer = offer_tools(
        &catalog(),
        Some(names(&["B", "A", "C"])),
        Some(names(&["GPT"])),
        &unfiltered,
    );
    assert_eq!(offer, (vec![tool("B"), tool("A"), tool("C")], 40));
}

#[test]
fn prepared_request_carries_the_offer_and_its_cost() {
    let prompt = words(3, "word");
    let request = prepare_request(
        &catalog(),
        &prompt,
        "gpt-4",
        None,
        None,
        None,
        Some(names(&["C"])),
        Some(names(&["A"])),
        &limits(),
    )
    .unwrap();
    assert_eq!(request.tools, vec![tool("A"), tool("C")]);
    assert_eq!(request.request_tokens, 20 + 7 + 4);
    let refused = prepare_request(
        &catalog(),
        &prompt,
        "gpt-4",
        Some(30),
        None,
        None,
        Some(names(&["C"])),
        Some(names(&["A"])),
        &limits(),
    );
    assert_eq!(refused, Err(ToolError::TokenBudgetExceeded));
}

#[test]
fn words_are_runs_between_white_space() {
    assert_eq!(count_words(""), 0);
    assert_eq!(count_words("   \t\n"), 0);
    assert_eq!(count_words("one"), 1);
    assert_eq!(count_words("  one two\tthree\nfour  "), 4);
    assert_eq!(count_words("a\u{00A0}b\u{3000}c"), 3);
    assert_eq!(count_words(&words(150, "word")), 150);
}

#[test]
fn estimate_rounds_words_over_three_quarters() {
    assert_eq!(estimate_from_word_count(0), 0);
    assert_eq!(estimate_from_word_count(1), 1);
    assert_eq!(estimate_from_word_count(2), 3);
    assert_eq!(estimate_from_word_count(3), 4);
    assert_eq!(estimate_from_word_count(150), 200);
    assert_eq!(estimate_from_word_count(199), 265);
    for w in 0..200usize {
        assert_eq!(estimate_from_word_count(w), (w as f64 / 0.75).round() as usize);
    }
}

#[test]
fn short_prompt_is_estimated_from_its_word_count() {
    assert_eq!(estimate_prompt_tokens(&words(150, "word")), Some(200));
    assert_eq!(estimate_prompt_tokens(""), Some(0));
    assert_eq!(estimate_prompt_tokens(&words(199, "a")), Some(265));
}

#[test]
fn long_prompt_is_counted_by_the_tokenizer() {
    assert_eq!(EXACT_COUNT_THRESHOLD, 200);
    assert_eq!(estimate_prompt_tokens(&words(200, "a")), Some(200));
}

#[test]
fn prompt_over_the_tokenizer_limit_is_not_counted() {
    let prompt = words(250_001, "a");
    assert_eq!(prompt.chars().count(), 500_001);
    assert_eq!(estimate_prompt_tokens(&prompt), None);
    let outcome = assemble(None, &prompt, "m", vec![], 0, None, None, &limits());
    assert_eq!(outcome, Err(ToolError::PromptNotCounted));
}

#[test]
fn budget_of_150_words_with_default_system_message() {
    let prompt = words(150, "word");
    let outcome = assemble(None, &prompt, "gpt-4", vec![tool("A")], 93, None, None, &limits());
    let request = outcome.unwrap();
    assert_eq!(request.request_tokens, 93 + 7 + 200);
    assert_eq!(request.system_message, "You are a helpful function calling bot.");
    assert_eq!(request.user_prompt, prompt);
    assert_eq!(request.model, "gpt-4");
    assert_eq!(request.tools, vec![tool("A")]);
    assert_eq!(request.max_response_tokens, 1000);
}

#[test]
fn request_over_the_ceiling_fails_before_sending() {
    let prompt = words(150, "word");
    let outcome = assemble(None, &prompt, "gpt-4", vec![], 93, Some(299), None, &limits());
    assert_eq!(outcome, Err(ToolError::TokenBudgetExceeded));
    let outcome = assemble(None, &prompt, "gpt-4", vec![], 93, Some(300), Some(5), &limits());
    assert_eq!(outcome.unwrap().max_response_tokens, 5);
}

#[test]
fn custom_system_message_is_charged_its_own_cost() {
    let custom = Some(("Be brief.".to_string(), 3usize));
    let outcome =
        assemble_with_prompt_cost(custom, "hi there", "m", vec![], 10, 2, None, None, &limits());
    assert_eq!(
        outcome,
        Ok(ChatRequest {
            model: "m".to_string(),
            system_message: "Be brief.".to_string(),
            user_prompt: "hi there".to_string(),
            tools: vec![],
            max_response_tokens: 1000,
            request_tokens: 15,
        })
    );
}

#[test]
fn default_system_message_costs_seven() {
    assert_eq!(DEFAULT_SYSTEM_MESSAGE_TOKENS, 7);
    assert_eq!(
        system_message_or_default(None),
        ("You are a helpful function calling bot.".to_string(), 7)
    );
    assert_eq!(
        system_message_or_default(Some(("x".to_string(), 1))),
        ("x".to_string(), 1)
    );
}

#[test]
fn budget_check_is_exact_at_the_ceiling() {
    assert_eq!(check_request_budget(10, 7, 200, 217), Ok(217));
    assert_eq!(check_request_budget(10, 7, 200, 216), Err(ToolError::TokenBudgetExceeded));
    assert_eq!(check_request_budget(0, 0, 0, 0), Ok(0));
    assert_eq!(
        check_request_budget(usize::MAX, usize::MAX, usize::MAX, usize::MAX),
        Err(ToolError::TokenBudgetExceeded)
    );
    assert_eq!(check_request_budget(usize::MAX - 1, 1, 0, usize::MAX), Ok(usize::MAX));
}

#[test]
fn every_error_has_its_words() {
    let text = |e: ToolError| e.into_command_error().details().clone();
    assert_eq!(text(ToolError::TokenBudgetExceeded), "Request token count is too high");
    assert_eq!(text(ToolError::UnknownFunction), "Unknown function name");
    assert_eq!(
        text(ToolError::ArgumentParseError),
        "There was an issue deserializing function arguments."
    );
    assert_eq!(text(ToolError::EmbeddingUnavailable), "Didn't get embedding vector back.");
    assert_eq!(
        text(ToolError::TransportError("timeout".to_string())),
        "OpenAI Error: timeout"
    );
    assert_eq!(text(ToolError::PromptNotCounted), "The prompt could not be counted");
}

#[test]
fn command_error_carries_its_message() {
    assert_eq!(CommandError::new("boom").details(), "boom");
    assert_eq!(CommandError::new("").details(), "");
    assert_eq!(
        CommandError::from_service_report("rate limited").details(),
        "OpenAI Error: rate limited"
    );
}

#[test]
fn strings_and_characters_convert_both_ways() {
    assert_eq!(chars_of("héllo"), vec!['h', 'é', 'l', 'l', 'o']);
    assert_eq!(string_of(&vec!['o', 'k', '✓']), "ok✓");
    assert_eq!(string_of(&chars_of("")), "");
    let list = vec!["a".to_string(), "b".to_string()];
    assert!(contains_name(&list, &"b".to_string()));
    assert!(!contains_name(&list, &"c".to_string()));
}
