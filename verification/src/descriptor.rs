//! Function descriptors: the static metadata of one callable function.

use vstd::prelude::*;

verus! {

/// The metadata of one callable function. Descriptors are built once and
/// only read afterwards.
#[derive(Debug, PartialEq, Eq)]
pub struct FunctionDescriptor {
    /// The name the model uses to call the function.
    pub name: String,
    /// What the function does, in words.
    pub description: String,
    /// The parameter schema, as JSON text.
    pub schema: String,
    /// The number of tokens that the descriptor costs in a request.
    pub token_cost: usize,
}

impl Clone for FunctionDescriptor {
    fn clone(&self) -> (copy: Self)
        ensures
            copy == *self,
    {
        FunctionDescriptor {
            name: self.name.clone(),
            description: self.description.clone(),
            schema: self.schema.clone(),
            token_cost: self.token_cost,
        }
    }
}

/// Position `i` holds the first descriptor of `catalog` named `name`.
pub open spec fn is_first_named(catalog: Seq<FunctionDescriptor>, name: Seq<char>, i: int) -> bool {
    &&& 0 <= i < catalog.len()
    &&& catalog[i].name@ == name
    &&& forall|j: int| 0 <= j < i ==> (#[trigger] catalog[j]).name@ != name
}

/// Some descriptor of `catalog` is named `name`.
pub open spec fn has_named(catalog: Seq<FunctionDescriptor>, name: Seq<char>) -> bool {
    exists|i: int| 0 <= i < catalog.len() && (#[trigger] catalog[i]).name@ == name
}

/// The first descriptor of `catalog` named `name`, if there is one.
pub open spec fn first_named(catalog: Seq<FunctionDescriptor>, name: Seq<char>) -> Option<
    FunctionDescriptor,
> {
    if has_named(catalog, name) {
        Some(catalog[choose|i: int| is_first_named(catalog, name, i)])
    } else {
        None
    }
}

/// A first position is the only first position.
pub proof fn lemma_first_named(catalog: Seq<FunctionDescriptor>, name: Seq<char>, i: int)
    requires
        is_first_named(catalog, name, i),
    ensures
        first_named(catalog, name) == Some(catalog[i]),
{
    assert(has_named(catalog, name));
    let c = choose|c: int| is_first_named(catalog, name, c);
    assert(is_first_named(catalog, name, c));
    if c < i {
        assert(catalog[c].name@ != name);
    }
    if i < c {
        assert(catalog[i].name@ != name);
    }
}

/// Looks a name up in the catalog: the position of the first descriptor
/// that carries it.
pub fn find_descriptor(catalog: &Vec<FunctionDescriptor>, name: &String) -> (found: Option<usize>)
    ensures
        match found {
            Some(i) => is_first_named(catalog@, name@, i as int),
            None => !has_named(catalog@, name@),
        },
{
    let mut i: usize = 0;
    while i < catalog.len()
        invariant
            i <= catalog.len(),
            forall|j: int| 0 <= j < i ==> (#[trigger] catalog@[j]).name@ != name@,
        decreases catalog.len() - i,
    {
        if catalog[i].name == *name {
            return Some(i);
        }
        i = i + 1;
    }
    None
}

/// The text of each string slice of a sequence.
pub open spec fn slice_texts(names: Seq<&'static str>) -> Seq<Seq<char>> {
    Seq::new(names.len(), |i: int| names[i]@)
}

/// Describes an enumeration that serves as an argument: its name and the
/// description of the argument, each with its token count.
pub trait EnumDescriptor {
    /// The name of the enumeration and the number of tokens in it.
    fn name_with_token_count() -> &'static (&'static str, usize);

    /// The description of the argument and the number of tokens in it.
    fn arg_description_with_token_count() -> &'static (&'static str, usize);
}

/// Marks an enumeration whose variants are the functions on offer.
pub trait ToolSet {
}

/// Describes the variants of an enumeration that serves as an argument.
pub trait VariantDescriptors {
    /// The names of the variants, the token count of each name, the sum of
    /// those counts, and the tokens that listing the variants adds.
    fn variant_names_with_token_counts() -> &'static (
        &'static [&'static str],
        &'static [usize],
        usize,
        usize,
    );

    /// The name of this variant and the number of tokens in it.
    fn variant_name_with_token_count(&self) -> (&'static str, usize);
}

/// The tokens that the frame of a function schema costs, whatever it holds.
pub const FUNCTION_FRAME_TOKENS: usize = 43;

/// The tokens that the frame of an enumeration argument costs.
pub const ENUM_FRAME_TOKENS: usize = 26;

/// The tokens that listing one more item adds beyond the item's own.
pub const ITEM_TOKENS: usize = 3;

/// The tokens that the frame of an array argument costs.
pub const ARRAY_FRAME_TOKENS: usize = 22;

/// The tokens that the frame of any other plain argument costs.
pub const VALUE_FRAME_TOKENS: usize = 11;

/// The tokens of a list of items: each item's own and what listing it adds.
pub open spec fn listed_tokens(items: Seq<usize>) -> int
    decreases items.len(),
{
    if items.len() == 0 {
        0
    } else {
        listed_tokens(items.drop_last()) + items.last() + ITEM_TOKENS
    }
}

/// The token cost of a function schema: its frame, its name, its
/// description and its arguments as a list.
pub open spec fn function_tokens(
    name_tokens: int,
    description_tokens: int,
    arguments: Seq<usize>,
) -> int {
    FUNCTION_FRAME_TOKENS + name_tokens + description_tokens + listed_tokens(arguments)
}

/// The token cost of an enumeration argument: its frame, its name, its
/// description and its variants as a list.
pub open spec fn enum_argument_tokens(
    name_tokens: int,
    description_tokens: int,
    variants: Seq<usize>,
) -> int {
    ENUM_FRAME_TOKENS + name_tokens + description_tokens + listed_tokens(variants)
}

/// The token cost of a plain argument: its name, the name of its type and
/// the frame, which is larger for an array.
pub open spec fn value_argument_tokens(name_tokens: int, type_tokens: int, is_array: bool) -> int {
    name_tokens + type_tokens + if is_array {
        ARRAY_FRAME_TOKENS as int
    } else {
        VALUE_FRAME_TOKENS as int
    }
}

/// A count as a machine word, if it fits in one.
pub open spec fn fitting(count: int) -> Option<usize> {
    if 0 <= count <= usize::MAX {
        Some(count as usize)
    } else {
        None
    }
}

/// A longer list never costs less.
pub proof fn lemma_listed_tokens_grow(items: Seq<usize>, i: int)
    requires
        0 <= i <= items.len(),
    ensures
        0 <= listed_tokens(items.take(i)) <= listed_tokens(items),
    decreases items.len() - i,
{
    if i == items.len() {
        assert(items.take(i) =~= items);
        lemma_listed_tokens_nonnegative(items);
    } else {
        lemma_listed_tokens_grow(items, i + 1);
        lemma_listed_tokens_nonnegative(items.take(i));
        assert(items.take(i + 1).drop_last() =~= items.take(i));
    }
}

proof fn lemma_listed_tokens_nonnegative(items: Seq<usize>)
    ensures
        0 <= listed_tokens(items),
    decreases items.len(),
{
    if items.len() > 0 {
        lemma_listed_tokens_nonnegative(items.drop_last());
    }
}

fn framed_list_tokens(
    frame: usize,
    name_tokens: usize,
    description_tokens: usize,
    items: &Vec<usize>,
) -> (tokens: Option<usize>)
    ensures
        tokens == fitting(frame + name_tokens + description_tokens + listed_tokens(items@)),
{
    let ghost whole = frame + name_tokens + description_tokens + listed_tokens(items@);
    proof {
        lemma_listed_tokens_grow(items@, 0);
    }
    let mut total: usize = match frame.checked_add(name_tokens) {
        Some(t) => t,
        None => {
            return None;
        },
    };
    total = match total.checked_add(description_tokens) {
        Some(t) => t,
        None => {
            return None;
        },
    };
    let mut i: usize = 0;
    while i < items.len()
        invariant
            i <= items.len(),
            whole == frame + name_tokens + description_tokens + listed_tokens(items@),
            total == frame + name_tokens + description_tokens + listed_tokens(
                items@.take(i as int),
            ),
        decreases items.len() - i,
    {
        proof {
            lemma_listed_tokens_grow(items@, i + 1);
            assert(items@.take(i + 1).drop_last() =~= items@.take(i as int));
        }
        total = match total.checked_add(items[i]) {
            Some(t) => t,
            None => {
                return None;
            },
        };
        total = match total.checked_add(ITEM_TOKENS) {
            Some(t) => t,
            None => {
                return None;
            },
        };
        i = i + 1;
    }
    assert(items@.take(i as int) =~= items@);
    Some(total)
}

/// The token cost of a function schema whose name, description and
/// arguments cost the given tokens; `None` if it does not fit in a machine
/// word.
pub fn function_token_count(
    name_tokens: usize,
    description_tokens: usize,
    arguments: &Vec<usize>,
) -> (tokens: Option<usize>)
    ensures
        tokens == fitting(
            function_tokens(name_tokens as int, description_tokens as int, arguments@),
        ),
{
    framed_list_tokens(FUNCTION_FRAME_TOKENS, name_tokens, description_tokens, arguments)
}

/// The token cost of an enumeration argument whose name, description and
/// variant names cost the given tokens; `None` if it does not fit in a
/// machine word.
pub fn enum_argument_token_count(
    name_tokens: usize,
    description_tokens: usize,
    variants: &Vec<usize>,
) -> (tokens: Option<usize>)
    ensures
        tokens == fitting(
            enum_argument_tokens(name_tokens as int, description_tokens as int, variants@),
        ),
{
    framed_list_tokens(ENUM_FRAME_TOKENS, name_tokens, description_tokens, variants)
}

/// The token cost of a plain argument whose name and type name cost the
/// given tokens; `None` if it does not fit in a machine word.
pub fn value_argument_token_count(
    name_tokens: usize,
    type_tokens: usize,
    is_array: bool,
) -> (tokens: Option<usize>)
    ensures
        tokens == fitting(value_argument_tokens(name_tokens as int, type_tokens as int, is_array)),
{
    let frame: usize = if is_array {
        ARRAY_FRAME_TOKENS
    } else {
        VALUE_FRAME_TOKENS
    };
    match name_tokens.checked_add(type_tokens) {
        Some(named) => named.checked_add(frame),
        None => None,
    }
}

} // verus!
