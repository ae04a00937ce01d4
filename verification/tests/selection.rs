use openai_func_enums::descriptor::{
    enum_argument_token_count, find_descriptor, function_token_count, value_argument_token_count,
    FunctionDescriptor,
};
use openai_func_enums::error::FuncEnumsError;
use openai_func_enums::select::{
    all_functions, candidate_names, select_allowed_with_required, select_by_names,
    select_under_limit, select_with_required_under_limit,
};
use openai_func_enums::tools::{
    function_schemas, get_function_chat_completion_args, get_tool_chat_completion_args,
    get_tools_limited, tool_schemas, DescriptorPayload, FunctionSchema, ToolSchema,
};

fn descriptor(name: &str, cost: usize) -> FunctionDescriptor {
    FunctionDescriptor {
        name: name.to_string(),
        description: format!("does {}", name),
        schema: format!("{{\"type\":\"object\",\"title\":\"{}\"}}", name),
        token_cost: cost,
    }
}

fn names(list: &[&str]) -> Vec<String> {
    list.iter().map(|s| s.to_string()).collect()
}

fn chosen_names(chosen: &[FunctionDescriptor]) -> Vec<String> {
    chosen.iter().map(|d| d.name.clone()).collect()
}

fn schema(d: &FunctionDescriptor) -> FunctionSchema {
    FunctionSchema {
        name: d.name.clone(),
        description: d.description.clone(),
        parameters: d.schema.clone(),
    }
}

#[test]
fn required_first_then_preferred_under_ceiling() {
    let catalog = vec![descriptor("A", 10), descriptor("B", 10), descriptor("C", 10)];
    let (chosen, total) = select_with_required_under_limit(
        &catalog,
        &names(&["B", "A", "C"]),
        Some(names(&["A"])),
        25,
    );
    assert_eq!(chosen_names(&chosen), names(&["A", "B"]));
    assert_eq!(total, 20);
    assert_eq!(chosen[0], catalog[0]);
    assert_eq!(chosen[1], catalog[1]);
}

#[test]
fn selection_never_exceeds_the_ceiling() {
    let catalog = vec![
        descriptor("A", 7),
        descriptor("B", 13),
        descriptor("C", 1),
        descriptor("D", 40),
    ];
    let ranked = names(&["D", "C", "B", "A"]);
    for ceiling in 0..70usize {
        let (chosen, total) =
            select_with_required_under_limit(&catalog, &ranked, Some(names(&["B"])), ceiling);
        assert!(total <= ceiling);
        assert_eq!(total, chosen.iter().map(|d| d.token_cost).sum::<usize>());
    }
}

#[test]
fn selection_is_the_same_when_repeated() {
    let catalog = vec![descriptor("A", 7), descriptor("B", 13), descriptor("C", 1)];
    let ranked = names(&["C", "B", "A"]);
    let first = select_with_required_under_limit(&catalog, &ranked, Some(names(&["A"])), 15);
    let second = select_with_required_under_limit(&catalog, &ranked, Some(names(&["A"])), 15);
    assert_eq!(first, second);
    assert_eq!(chosen_names(&first.0), names(&["A", "C"]));
    assert_eq!(first.1, 8);
}

#[test]
fn walk_goes_on_after_a_name_that_does_not_fit() {
    let catalog = vec![descriptor("Big", 100), descriptor("Small", 5), descriptor("Tiny", 1)];
    let (chosen, total) =
        select_with_required_under_limit(&catalog, &names(&["Big", "Small", "Tiny"]), None, 6);
    assert_eq!(chosen_names(&chosen), names(&["Small", "Tiny"]));
    assert_eq!(total, 6);
}

#[test]
fn required_name_over_the_ceiling_is_dropped() {
    let catalog = vec![descriptor("Must", 50), descriptor("Nice", 5)];
    let (chosen, total) = select_with_required_under_limit(
        &catalog,
        &names(&["Nice"]),
        Some(names(&["Must"])),
        10,
    );
    assert_eq!(chosen_names(&chosen), names(&["Nice"]));
    assert_eq!(total, 5);
}

#[test]
fn unknown_names_are_passed_over() {
    let catalog = vec![descriptor("A", 1)];
    let (chosen, total) = select_with_required_under_limit(
        &catalog,
        &names(&["Nope", "A"]),
        Some(names(&["Missing"])),
        10,
    );
    assert_eq!(chosen_names(&chosen), names(&["A"]));
    assert_eq!(total, 1);
}

#[test]
fn candidates_are_required_then_preferred_without_required() {
    assert_eq!(
        candidate_names(&names(&["A"]), &names(&["B", "A", "C"])),
        names(&["A", "B", "C"])
    );
    assert_eq!(
        candidate_names(&names(&["X", "X"]), &names(&["Y", "Y", "X"])),
        names(&["X", "X", "Y", "Y"])
    );
    assert_eq!(candidate_names(&vec![], &vec![]), Vec::<String>::new());
}

#[test]
fn allowed_with_required_ignores_cost() {
    let catalog = vec![descriptor("A", 1000), descriptor("B", 2000), descriptor("C", 3000)];
    let (chosen, total) =
        select_allowed_with_required(&catalog, &names(&["C", "A"]), Some(names(&["B"])));
    assert_eq!(chosen_names(&chosen), names(&["B", "C", "A"]));
    assert_eq!(total, 6000);
}

#[test]
fn without_a_ceiling_the_largest_word_is_one() {
    let catalog = vec![descriptor("A", usize::MAX - 1), descriptor("B", 2), descriptor("C", 1)];
    let (chosen, total) = select_allowed_with_required(&catalog, &names(&["A", "B", "C"]), None);
    assert_eq!(chosen_names(&chosen), names(&["A", "C"]));
    assert_eq!(total, usize::MAX);
    let (chosen, total) = all_functions(&catalog);
    assert_eq!(chosen_names(&chosen), names(&["A", "C"]));
    assert_eq!(total, usize::MAX);
}

#[test]
fn select_by_names_picks_the_first_descriptor_of_a_name() {
    let mut twin = descriptor("A", 9);
    twin.description = "the second A".to_string();
    let catalog = vec![descriptor("A", 2), twin];
    let (chosen, total) = select_by_names(&catalog, &names(&["A", "A"]), 100);
    assert_eq!(chosen, vec![catalog[0].clone(), catalog[0].clone()]);
    assert_eq!(total, 4);
    assert_eq!(find_descriptor(&catalog, &"A".to_string()), Some(0));
    assert_eq!(find_descriptor(&catalog, &"B".to_string()), None);
}

#[test]
fn under_limit_fills_in_catalog_order() {
    let catalog = vec![descriptor("A", 4), descriptor("B", 10), descriptor("C", 3)];
    let (chosen, total) = select_under_limit(&catalog, 8);
    assert_eq!(chosen_names(&chosen), names(&["A", "C"]));
    assert_eq!(total, 7);
    let (none, zero) = select_under_limit(&catalog, 2);
    assert!(none.is_empty());
    assert_eq!(zero, 0);
}

#[test]
fn all_functions_sums_the_catalog() {
    let catalog = vec![descriptor("A", 4), descriptor("GPT", 10), descriptor("C", 3)];
    let (chosen, total) = all_functions(&catalog);
    assert_eq!(chosen, catalog);
    assert_eq!(total, 17);
}

#[test]
fn tools_leave_out_the_fallback_but_keep_the_token_count() {
    let catalog = vec![descriptor("A", 4), descriptor("GPT", 10), descriptor("C", 3)];
    let outcome = tool_schemas(DescriptorPayload::Many(catalog.clone()), 17);
    let expected = vec![
        ToolSchema { function: schema(&catalog[0]) },
        ToolSchema { function: schema(&catalog[2]) },
    ];
    assert_eq!(outcome, Ok((expected, 17)));
}

#[test]
fn function_schemas_keep_every_descriptor() {
    let catalog = vec![descriptor("A", 4), descriptor("GPT", 10)];
    let outcome = function_schemas(DescriptorPayload::Many(catalog.clone()), 14);
    assert_eq!(outcome, Ok((vec![schema(&catalog[0]), schema(&catalog[1])], 14)));
}

#[test]
fn single_descriptor_payload_gives_one_tool() {
    let d = descriptor("Solo", 5);
    assert_eq!(
        tool_schemas(DescriptorPayload::One(d.clone()), 5),
        Ok((vec![ToolSchema { function: schema(&d) }], 5))
    );
    assert_eq!(tool_schemas(DescriptorPayload::One(descriptor("GPT", 5)), 5), Ok((vec![], 5)));
}

#[test]
fn other_payload_is_an_error() {
    let expected = FuncEnumsError::OpenAIError("Something went wrong parsing the json".to_string());
    assert_eq!(tool_schemas(DescriptorPayload::Other, 0), Err(expected));
    assert_eq!(
        function_schemas(DescriptorPayload::Other, 3),
        Err(FuncEnumsError::OpenAIError("Something went wrong parsing the json".to_string()))
    );
}

#[test]
fn chat_completion_args_come_from_the_source() {
    let catalog = vec![descriptor("A", 4), descriptor("GPT", 10)];
    let source = || (DescriptorPayload::Many(catalog.clone()), 14usize);
    assert_eq!(
        get_function_chat_completion_args(source),
        Ok((vec![schema(&catalog[0]), schema(&catalog[1])], 14))
    );
    let source = || (DescriptorPayload::Many(catalog.clone()), 14usize);
    assert_eq!(
        get_tool_chat_completion_args(source),
        Ok((vec![ToolSchema { function: schema(&catalog[0]) }], 14))
    );
}

#[test]
fn limited_tools_hand_the_names_to_the_source() {
    let catalog = vec![descriptor("A", 10), descriptor("B", 10), descriptor("C", 10)];
    let source = |allowed: Vec<String>, required: Option<Vec<String>>| {
        let (chosen, total) = select_with_required_under_limit(&catalog, &allowed, required, 25);
        (DescriptorPayload::Many(chosen), total)
    };
    let outcome = get_tools_limited(source, names(&["B", "A", "C"]), Some(names(&["A"])));
    let expected = vec![
        ToolSchema { function: schema(&catalog[0]) },
        ToolSchema { function: schema(&catalog[1]) },
    ];
    assert_eq!(outcome, Ok((expected, 20)));
}

#[test]
fn function_token_count_follows_the_formula() {
    assert_eq!(function_token_count(2, 5, &vec![4, 6]), Some(66));
    assert_eq!(function_token_count(0, 0, &vec![]), Some(43));
    assert_eq!(function_token_count(usize::MAX, 0, &vec![]), None);
    assert_eq!(function_token_count(0, 0, &vec![usize::MAX - 45]), None);
    assert_eq!(function_token_count(0, 0, &vec![usize::MAX - 46]), Some(usize::MAX));
}

#[test]
fn enum_argument_token_count_follows_the_formula() {
    assert_eq!(enum_argument_token_count(3, 8, &vec![1, 2, 2]), Some(51));
    assert_eq!(enum_argument_token_count(0, 0, &vec![]), Some(26));
    assert_eq!(enum_argument_token_count(1, usize::MAX - 26, &vec![]), None);
}

#[test]
fn value_argument_token_count_follows_the_formula() {
    assert_eq!(value_argument_token_count(2, 1, false), Some(14));
    assert_eq!(value_argument_token_count(2, 1, true), Some(25));
    assert_eq!(value_argument_token_count(usize::MAX - 11, 1, false), None);
    assert_eq!(value_argument_token_count(usize::MAX - 11, 0, false), Some(usize::MAX));
}
