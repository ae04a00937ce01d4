//! Argument schemas: what a function's schema says of each argument, and
//! what saying it costs in tokens.

use vstd::prelude::*;
use vstd::string::StringExecFns;
use crate::descriptor::{
    fitting, slice_texts, value_argument_token_count, value_argument_tokens, EnumDescriptor,
    VariantDescriptors, ENUM_FRAME_TOKENS,
};
use crate::text::texts;
use crate::tokens::{calculate_token_count, counted_tokens};

verus! {

/// An argument that takes one of an enumeration's variants: a string
/// argument whose values are listed.
#[derive(Clone, Debug, PartialEq, Eq)]
pub struct EnumArgument {
    /// The name of the argument: that of the enumeration.
    pub name: String,
    /// The variants that the argument may take.
    pub variants: Vec<String>,
    /// What the argument means, in words.
    pub description: String,
}

/// The token cost of an enumeration argument, from what its descriptors
/// state: the frame, the description, the name, the variants' names and
/// what listing them adds.
pub open spec fn enum_info_tokens(
    name: (&'static str, usize),
    description: (&'static str, usize),
    variants: (&'static [&'static str], &'static [usize], usize, usize),
) -> int {
    ENUM_FRAME_TOKENS + description.1 + name.1 + variants.2 + variants.3
}

/// `info` is the argument that the descriptors state, with its token cost;
/// the cost is `None` if it does not fit in a machine word.
pub open spec fn is_enum_info(
    name: (&'static str, usize),
    description: (&'static str, usize),
    variants: (&'static [&'static str], &'static [usize], usize, usize),
    info: (EnumArgument, Option<usize>),
) -> bool {
    &&& info.0.name@ == name.0@
    &&& info.0.description@ == description.0@
    &&& texts(info.0.variants@) == slice_texts(variants.0@)
    &&& info.1 == fitting(enum_info_tokens(name, description, variants))
}

/// The argument that an enumeration's descriptors state, and its token cost.
pub fn enum_argument_info(
    name: &'static (&'static str, usize),
    description: &'static (&'static str, usize),
    variants: &'static (&'static [&'static str], &'static [usize], usize, usize),
) -> (info: (EnumArgument, Option<usize>))
    ensures
        is_enum_info(*name, *description, *variants, info),
{
    let mut listed: Vec<String> = Vec::new();
    let mut i: usize = 0;
    while i < variants.0.len()
        invariant
            i <= variants.0.len(),
            listed.len() == i,
            forall|j: int| 0 <= j < i ==> (#[trigger] listed@[j])@ == variants.0@[j]@,
        decreases variants.0.len() - i,
    {
        listed.push(variants.0[i].to_owned());
        i = i + 1;
    }
    assert(texts(listed@) =~= slice_texts(variants.0@));
    let tokens = match ENUM_FRAME_TOKENS.checked_add(description.1) {
        Some(t) => match t.checked_add(name.1) {
            Some(t) => match t.checked_add(variants.2) {
                Some(t) => t.checked_add(variants.3),
                None => None,
            },
            None => None,
        },
        None => None,
    };
    (
        EnumArgument {
            name: name.0.to_owned(),
            variants: listed,
            description: description.0.to_owned(),
        },
        tokens,
    )
}

/// The argument for enumeration `T` and its token cost, from what the
/// descriptors of `T` hand over.
pub fn generate_enum_info<T: EnumDescriptor + VariantDescriptors>() -> (info: (
    EnumArgument,
    Option<usize>,
))
    ensures
        exists|
            name: &'static (&'static str, usize),
            description: &'static (&'static str, usize),
            variants: &'static (&'static [&'static str], &'static [usize], usize, usize),
        |
            {
                &&& call_ensures(T::name_with_token_count, (), name)
                &&& call_ensures(T::arg_description_with_token_count, (), description)
                &&& call_ensures(T::variant_names_with_token_counts, (), variants)
                &&& is_enum_info(*name, *description, *variants, info)
            },
{
    let describe = T::arg_description_with_token_count;
    let identify = T::name_with_token_count;
    let list = T::variant_names_with_token_counts;
    enum_argument_info(identify(), describe(), list())
}

/// The schema text of a plain argument: its name, mapped to its type; an
/// array is an array of strings.
pub open spec fn value_argument_schema(kind: Seq<char>, name: Seq<char>) -> Seq<char> {
    if kind == "array"@ {
        "{\""@ + name + "\": {\"type\": \"array\", \"items\": {\"type\": \"string\"}}}"@
    } else {
        "{\""@ + name + "\": {\"type\": \""@ + kind + "\"}}"@
    }
}

/// What a plain argument costs in tokens: the cost of its name, of its
/// type's name and of the frame, where both names are counted and the sum
/// fits in a machine word; nothing otherwise.
pub open spec fn value_argument_cost(kind: Seq<char>, name: Seq<char>) -> Option<usize> {
    match (counted_tokens(name), counted_tokens(kind)) {
        (Some(name_tokens), Some(type_tokens)) => fitting(
            value_argument_tokens(name_tokens as int, type_tokens as int, kind == "array"@),
        ),
        _ => None,
    }
}

/// The schema text of a plain argument and its token cost. `None` means
/// that the name or the type name was not counted, or that the cost does not
/// fit in a machine word.
pub fn generate_value_arg_info(kind: &str, name: &str) -> (info: Option<(String, usize)>)
    ensures
        match value_argument_cost(kind@, name@) {
            Some(cost) => info matches Some((schema, tokens)) && schema@ == value_argument_schema(
                kind@,
                name@,
            ) && tokens == cost,
            None => info is None,
        },
{
    let name_tokens = match calculate_token_count(name) {
        Some(n) => n,
        None => {
            return None;
        },
    };
    let type_tokens = match calculate_token_count(kind) {
        Some(n) => n,
        None => {
            return None;
        },
    };
    let is_array = kind.to_owned() == "array".to_owned();
    let tokens = match value_argument_token_count(name_tokens, type_tokens, is_array) {
        Some(t) => t,
        None => {
            return None;
        },
    };
    let mut schema = "{\"".to_owned();
    schema.append(name);
    if is_array {
        schema.append("\": {\"type\": \"array\", \"items\": {\"type\": \"string\"}}}");
    } else {
        schema.append("\": {\"type\": \"");
        schema.append(kind);
        schema.append("\"}}");
    }
    Some((schema, tokens))
}

/// What a field of a function's arguments is to its schema.
#[derive(Clone, Copy, Debug, PartialEq, Eq, Structural)]
pub enum ArgumentKind {
    /// A number with a fraction.
    Number,
    /// A whole number.
    Integer,
    /// A text.
    Text,
    /// A list.
    Array,
    /// One of an enumeration's variants.
    Enumeration,
}

/// The field's type is one of the whole-number types.
pub open spec fn is_integer_type(ident: Seq<char>) -> bool {
    ident == "u8"@ || ident == "u16"@ || ident == "u32"@ || ident == "u64"@ || ident == "u128"@
        || ident == "usize"@ || ident == "i8"@ || ident == "i16"@ || ident == "i32"@ || ident
        == "i64"@ || ident == "i128"@ || ident == "isize"@
}

/// The kind of argument that a field makes, from the last segment of its
/// type's path. Any type that is not a number, a text or a vector is taken
/// for an enumeration.
pub open spec fn kind_of_type(ident: Seq<char>) -> ArgumentKind {
    if ident == "f32"@ || ident == "f64"@ {
        ArgumentKind::Number
    } else if is_integer_type(ident) {
        ArgumentKind::Integer
    } else if ident == "String"@ || ident == "&str"@ {
        ArgumentKind::Text
    } else if ident == "Vec"@ {
        ArgumentKind::Array
    } else {
        ArgumentKind::Enumeration
    }
}

fn reads(ident: &String, word: &str) -> (same: bool)
    ensures
        same == (ident@ == word@),
{
    *ident == word.to_owned()
}

/// Tells what kind of argument a field makes, from the last segment of its
/// type's path.
pub fn argument_kind(ident: &str) -> (kind: ArgumentKind)
    ensures
        kind == kind_of_type(ident@),
{
    let ident = ident.to_owned();
    if reads(&ident, "f32") || reads(&ident, "f64") {
        ArgumentKind::Number
    } else if reads(&ident, "u8") || reads(&ident, "u16") || reads(&ident, "u32") || reads(
        &ident,
        "u64",
    ) || reads(&ident, "u128") || reads(&ident, "usize") || reads(&ident, "i8") || reads(
        &ident,
        "i16",
    ) || reads(&ident, "i32") || reads(&ident, "i64") || reads(&ident, "i128") || reads(
        &ident,
        "isize",
    ) {
        ArgumentKind::Integer
    } else if reads(&ident, "String") || reads(&ident, "&str") {
        ArgumentKind::Text
    } else if reads(&ident, "Vec") {
        ArgumentKind::Array
    } else {
        ArgumentKind::Enumeration
    }
}

/// The name by which a schema calls a kind of plain argument; an enumeration
/// has none, as its schema lists the variants.
pub fn schema_type_name(kind: ArgumentKind) -> (name: Option<String>)
    ensures
        match kind {
            ArgumentKind::Number => name matches Some(n) && n@ == "number"@,
            ArgumentKind::Integer => name matches Some(n) && n@ == "integer"@,
            ArgumentKind::Text => name matches Some(n) && n@ == "string"@,
            ArgumentKind::Array => name matches Some(n) && n@ == "array"@,
            ArgumentKind::Enumeration => name is None,
        },
{
    match kind {
        ArgumentKind::Number => Some("number".to_owned()),
        ArgumentKind::Integer => Some("integer".to_owned()),
        ArgumentKind::Text => Some("string".to_owned()),
        ArgumentKind::Array => Some("array".to_owned()),
        ArgumentKind::Enumeration => None,
    }
}

} // verus!
