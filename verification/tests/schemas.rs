use openai_func_enums::descriptor::{EnumDescriptor, ToolSet, VariantDescriptors};
use openai_func_enums::schema::{
    argument_kind, enum_argument_info, generate_enum_info, generate_value_arg_info,
    schema_type_name, ArgumentKind, EnumArgument,
};
use openai_func_enums::tokens::calculate_token_count;

#[derive(Clone, Copy, Debug)]
enum Color {
    Red,
    DarkGreen,
}

const COLOR_NAME: (&str, usize) = ("Color", 1);
const COLOR_DESCRIPTION: (&str, usize) = ("The color to paint with.", 6);
const COLOR_VARIANTS: (&[&str], &[usize], usize, usize) = (&["Red", "DarkGreen"], &[1, 2], 3, 6);

impl EnumDescriptor for Color {
    fn name_with_token_count() -> &'static (&'static str, usize) {
        &COLOR_NAME
    }

    fn arg_description_with_token_count() -> &'static (&'static str, usize) {
        &COLOR_DESCRIPTION
    }
}

impl VariantDescriptors for Color {
    fn variant_names_with_token_counts(
    ) -> &'static (&'static [&'static str], &'static [usize], usize, usize) {
        &COLOR_VARIANTS
    }

    fn variant_name_with_token_count(&self) -> (&'static str, usize) {
        match self {
            Color::Red => ("Red", 1),
            Color::DarkGreen => ("DarkGreen", 2),
        }
    }
}

impl ToolSet for Color {}

#[test]
fn enum_info_lists_the_variants_and_sums_the_tokens() {
    let (argument, tokens) = generate_enum_info::<Color>();
    assert_eq!(
        argument,
        EnumArgument {
            name: "Color".to_string(),
            variants: vec!["Red".to_string(), "DarkGreen".to_string()],
            description: "The color to paint with.".to_string(),
        }
    );
    assert_eq!(tokens, Some(6 + 6 + 6 + 1 + 7 + 7 + 3 + 6));
    assert_eq!(Color::DarkGreen.variant_name_with_token_count(), ("DarkGreen", 2));
    assert_eq!(Color::Red.variant_name_with_token_count().1, 1);
}

#[test]
fn enum_argument_info_follows_the_descriptors() {
    const NAME: (&str, usize) = ("Mode", 2);
    const DESCRIPTION: (&str, usize) = ("", 0);
    const NONE: (&[&str], &[usize], usize, usize) = (&[], &[], 0, 0);
    let (argument, tokens) = enum_argument_info(&NAME, &DESCRIPTION, &NONE);
    assert_eq!(
        argument,
        EnumArgument { name: "Mode".to_string(), variants: vec![], description: String::new() }
    );
    assert_eq!(tokens, Some(28));
    const HUGE: (&[&str], &[usize], usize, usize) = (&["A"], &[1], usize::MAX - 28, 1);
    let (argument, tokens) = enum_argument_info(&NAME, &DESCRIPTION, &HUGE);
    assert_eq!(argument.variants, vec!["A".to_string()]);
    assert_eq!(tokens, None);
    const FULL: (&[&str], &[usize], usize, usize) = (&["A"], &[1], usize::MAX - 28, 0);
    assert_eq!(enum_argument_info(&NAME, &DESCRIPTION, &FULL).1, Some(usize::MAX));
}

#[test]
fn value_argument_maps_the_name_to_its_type() {
    let (schema, tokens) = generate_value_arg_info("a", "a").unwrap();
    assert_eq!(schema, "{\"a\": {\"type\": \"a\"}}");
    assert_eq!(tokens, 13);
    let (schema, tokens) = generate_value_arg_info("integer", "count").unwrap();
    assert_eq!(schema, "{\"count\": {\"type\": \"integer\"}}");
    let parts = calculate_token_count("count").unwrap() + calculate_token_count("integer").unwrap();
    assert_eq!(tokens, parts + 11);
}

#[test]
fn array_argument_is_an_array_of_strings() {
    let (schema, tokens) = generate_value_arg_info("array", "a").unwrap();
    assert_eq!(schema, "{\"a\": {\"type\": \"array\", \"items\": {\"type\": \"string\"}}}");
    assert_eq!(tokens, 1 + calculate_token_count("array").unwrap() + 22);
}

#[test]
fn token_count_is_that_of_the_encoding() {
    assert_eq!(calculate_token_count(""), Some(0));
    assert_eq!(calculate_token_count("a"), Some(1));
    assert_eq!(calculate_token_count("hello world"), Some(2));
    let long = "a".repeat(500_001);
    assert_eq!(calculate_token_count(&long), None);
}

#[test]
fn field_types_map_to_argument_kinds() {
    for ident in ["f32", "f64"] {
        assert_eq!(argument_kind(ident), ArgumentKind::Number);
    }
    for ident in [
        "u8", "u16", "u32", "u64", "u128", "usize", "i8", "i16", "i32", "i64", "i128", "isize",
    ] {
        assert_eq!(argument_kind(ident), ArgumentKind::Integer);
    }
    assert_eq!(argument_kind("String"), ArgumentKind::Text);
    assert_eq!(argument_kind("&str"), ArgumentKind::Text);
    assert_eq!(argument_kind("Vec"), ArgumentKind::Array);
    for ident in ["Color", "", "string", "U8", "bool", "vec"] {
        assert_eq!(argument_kind(ident), ArgumentKind::Enumeration);
    }
}

#[test]
fn argument_kinds_have_their_schema_names() {
    assert_eq!(schema_type_name(ArgumentKind::Number), Some("number".to_string()));
    assert_eq!(schema_type_name(ArgumentKind::Integer), Some("integer".to_string()));
    assert_eq!(schema_type_name(ArgumentKind::Text), Some("string".to_string()));
    assert_eq!(schema_type_name(ArgumentKind::Array), Some("array".to_string()));
    assert_eq!(schema_type_name(ArgumentKind::Enumeration), None);
}
