//! Budgeted selection: which descriptors to offer the model, and at what cost.

use vstd::prelude::*;
use crate::descriptor::{FunctionDescriptor, find_descriptor, first_named, lemma_first_named};
use crate::text::{contains_name, texts};

verus! {

/// The names to consider, in order: the required ones, then the preferred
/// ones that are not required.
pub open spec fn candidates(required: Seq<Seq<char>>, preferred: Seq<Seq<char>>) -> Seq<Seq<char>> {
    required + preferred.filter(|name: Seq<char>| !required.contains(name))
}

/// The summed token cost of a list of descriptors.
pub open spec fn cost_of(chosen: Seq<FunctionDescriptor>) -> int
    decreases chosen.len(),
{
    if chosen.len() == 0 {
        0
    } else {
        cost_of(chosen.drop_last()) + chosen.last().token_cost
    }
}

/// Whether one more descriptor of cost `cost` may join a selection that
/// already costs `total`. Without a ceiling everything may.
pub open spec fn fits(total: int, cost: int, ceiling: Option<int>) -> bool {
    match ceiling {
        Some(c) => total + cost <= c,
        None => true,
    }
}

/// The selection that walking `names` in order gives: each name's descriptor
/// joins if it is known and still fits; a name that is unknown or too costly
/// is passed over and the walk goes on.
pub open spec fn walk(
    catalog: Seq<FunctionDescriptor>,
    names: Seq<Seq<char>>,
    ceiling: Option<int>,
) -> Seq<FunctionDescriptor>
    decreases names.len(),
{
    if names.len() == 0 {
        Seq::empty()
    } else {
        let earlier = walk(catalog, names.drop_last(), ceiling);
        match first_named(catalog, names.last()) {
            Some(d) => if fits(cost_of(earlier), d.token_cost as int, ceiling) {
                earlier.push(d)
            } else {
                earlier
            },
            None => earlier,
        }
    }
}

/// The descriptors that filling in catalog order keeps: each one joins if the
/// running total stays within the ceiling.
pub open spec fn fill(catalog: Seq<FunctionDescriptor>, ceiling: Option<int>) -> Seq<
    FunctionDescriptor,
>
    decreases catalog.len(),
{
    if catalog.len() == 0 {
        Seq::empty()
    } else {
        let earlier = fill(catalog.drop_last(), ceiling);
        if fits(cost_of(earlier), catalog.last().token_cost as int, ceiling) {
            earlier.push(catalog.last())
        } else {
            earlier
        }
    }
}

/// The required names as contracts read them: none where the caller named
/// none.
pub open spec fn required_texts(required: Option<Vec<String>>) -> Seq<Seq<char>> {
    match required {
        Some(names) => texts(names@),
        None => Seq::empty(),
    }
}

/// `chosen` with `total` is the selection for a catalog, a preferred and a
/// required name list and a ceiling: the walk over the candidate names, and
/// what it costs.
pub open spec fn is_selection(
    catalog: Seq<FunctionDescriptor>,
    preferred: Seq<Seq<char>>,
    required: Seq<Seq<char>>,
    ceiling: Option<int>,
    chosen: Seq<FunctionDescriptor>,
    total: int,
) -> bool {
    &&& chosen == walk(catalog, candidates(required, preferred), ceiling)
    &&& total == cost_of(chosen)
}

/// What one more descriptor adds to a cost.
proof fn lemma_cost_of_push(chosen: Seq<FunctionDescriptor>, d: FunctionDescriptor)
    ensures
        cost_of(chosen.push(d)) == cost_of(chosen) + d.token_cost,
{
    assert(chosen.push(d).drop_last() =~= chosen);
}

/// A walk under a ceiling never costs more than the ceiling.
pub proof fn lemma_walk_within_ceiling(
    catalog: Seq<FunctionDescriptor>,
    names: Seq<Seq<char>>,
    ceiling: int,
)
    requires
        0 <= ceiling,
    ensures
        0 <= cost_of(walk(catalog, names, Some(ceiling))) <= ceiling,
    decreases names.len(),
{
    if names.len() > 0 {
        lemma_walk_within_ceiling(catalog, names.drop_last(), ceiling);
        match first_named(catalog, names.last()) {
            Some(d) => {
                lemma_cost_of_push(walk(catalog, names.drop_last(), Some(ceiling)), d);
            },
            None => {},
        }
    }
}

/// Walking one more name never lowers the cost, and no walk costs less than
/// nothing.
pub proof fn lemma_walk_cost_grows(
    catalog: Seq<FunctionDescriptor>,
    names: Seq<Seq<char>>,
    ceiling: Option<int>,
)
    ensures
        0 <= cost_of(walk(catalog, names, ceiling)),
        names.len() > 0 ==> cost_of(walk(catalog, names.drop_last(), ceiling)) <= cost_of(
            walk(catalog, names, ceiling),
        ),
    decreases names.len(),
{
    if names.len() > 0 {
        lemma_walk_cost_grows(catalog, names.drop_last(), ceiling);
        match first_named(catalog, names.last()) {
            Some(d) => {
                lemma_cost_of_push(walk(catalog, names.drop_last(), ceiling), d);
            },
            None => {},
        }
    }
}

/// A ceiling that the unbounded walk stays under changes nothing.
pub proof fn lemma_walk_under_wide_ceiling(
    catalog: Seq<FunctionDescriptor>,
    names: Seq<Seq<char>>,
    ceiling: int,
)
    requires
        cost_of(walk(catalog, names, None)) <= ceiling,
    ensures
        walk(catalog, names, Some(ceiling)) == walk(catalog, names, None),
    decreases names.len(),
{
    if names.len() > 0 {
        lemma_walk_cost_grows(catalog, names, None);
        lemma_walk_under_wide_ceiling(catalog, names.drop_last(), ceiling);
        match first_named(catalog, names.last()) {
            Some(d) => {
                lemma_cost_of_push(walk(catalog, names.drop_last(), None), d);
            },
            None => {},
        }
    }
}

/// Filling one more descriptor never lowers the cost, and no fill costs
/// less than nothing.
pub proof fn lemma_fill_cost_grows(catalog: Seq<FunctionDescriptor>, ceiling: Option<int>)
    ensures
        0 <= cost_of(fill(catalog, ceiling)),
        catalog.len() > 0 ==> cost_of(fill(catalog.drop_last(), ceiling)) <= cost_of(
            fill(catalog, ceiling),
        ),
    decreases catalog.len(),
{
    if catalog.len() > 0 {
        lemma_fill_cost_grows(catalog.drop_last(), ceiling);
        lemma_cost_of_push(fill(catalog.drop_last(), ceiling), catalog.last());
    }
}

/// Without a ceiling, filling keeps the whole catalog.
pub proof fn lemma_fill_all(catalog: Seq<FunctionDescriptor>)
    ensures
        fill(catalog, None) == catalog,
    decreases catalog.len(),
{
    if catalog.len() > 0 {
        lemma_fill_all(catalog.drop_last());
        assert(catalog.drop_last().push(catalog.last()) =~= catalog);
    } else {
        assert(catalog =~= Seq::empty());
    }
}

/// A ceiling that the whole catalog stays under keeps the whole catalog.
pub proof fn lemma_fill_under_wide_ceiling(catalog: Seq<FunctionDescriptor>, ceiling: int)
    requires
        cost_of(catalog) <= ceiling,
    ensures
        fill(catalog, Some(ceiling)) == catalog,
    decreases catalog.len(),
{
    if catalog.len() > 0 {
        lemma_fill_all(catalog.drop_last());
        lemma_fill_cost_grows(catalog.drop_last(), None);
        lemma_fill_under_wide_ceiling(catalog.drop_last(), ceiling);
        assert(catalog.drop_last().push(catalog.last()) =~= catalog);
    } else {
        assert(catalog =~= Seq::empty());
    }
}

/// Selection is a function of its inputs: two selections for the same
/// catalog, name lists and ceiling agree in order and in total.
pub proof fn lemma_selection_deterministic(
    catalog: Seq<FunctionDescriptor>,
    preferred: Seq<Seq<char>>,
    required: Seq<Seq<char>>,
    ceiling: Option<int>,
    first: (Seq<FunctionDescriptor>, int),
    second: (Seq<FunctionDescriptor>, int),
)
    requires
        is_selection(catalog, preferred, required, ceiling, first.0, first.1),
        is_selection(catalog, preferred, required, ceiling, second.0, second.1),
    ensures
        first == second,
{
}

/// A selection under a ceiling never costs more than the ceiling.
pub proof fn lemma_selection_within_ceiling(
    catalog: Seq<FunctionDescriptor>,
    preferred: Seq<Seq<char>>,
    required: Seq<Seq<char>>,
    ceiling: nat,
    chosen: Seq<FunctionDescriptor>,
    total: int,
)
    requires
        is_selection(catalog, preferred, required, Some(ceiling as int), chosen, total),
    ensures
        cost_of(chosen) == total <= ceiling,
{
    lemma_walk_within_ceiling(catalog, candidates(required, preferred), ceiling as int);
}

/// Builds the candidate sequence: `required`, then each name of `preferred`
/// that `required` does not hold.
pub fn candidate_names(required: &Vec<String>, preferred: &Vec<String>) -> (names: Vec<String>)
    ensures
        texts(names@) == candidates(texts(required@), texts(preferred@)),
{
    let ghost req = texts(required@);
    let ghost keep = |name: Seq<char>| !req.contains(name);
    let mut names: Vec<String> = Vec::new();
    let mut i: usize = 0;
    while i < required.len()
        invariant
            i <= required.len(),
            names.len() == i,
            forall|j: int| 0 <= j < i ==> (#[trigger] names@[j])@ == required@[j]@,
        decreases required.len() - i,
    {
        names.push(required[i].clone());
        i = i + 1;
    }
    assert(texts(names@) =~= req);
    let mut k: usize = 0;
    while k < preferred.len()
        invariant
            k <= preferred.len(),
            req == texts(required@),
            keep == |name: Seq<char>| !req.contains(name),
            texts(names@) == req + texts(preferred@).take(k as int).filter(keep),
        decreases preferred.len() - k,
    {
        let ghost before = texts(names@);
        let ghost held = names@;
        proof {
            assert(texts(preferred@).take(k + 1).drop_last() =~= texts(preferred@).take(k as int));
            reveal(Seq::filter);
        }
        if !contains_name(required, &preferred[k]) {
            names.push(preferred[k].clone());
            assert forall|j: int| 0 <= j < before.len() implies texts(names@)[j] == before[j] by {
                assert(texts(held)[j] == before[j]);
            }
            assert(texts(names@) =~= before.push(preferred@[k as int]@));
        }
        assert(texts(names@) =~= req + texts(preferred@).take(k + 1).filter(keep));
        k = k + 1;
    }
    assert(texts(preferred@).take(k as int) =~= texts(preferred@));
    names
}

/// Walks `names` over the catalog and collects what fits under the ceiling,
/// with the summed cost.
pub fn select_by_names(
    catalog: &Vec<FunctionDescriptor>,
    names: &Vec<String>,
    token_ceiling: usize,
) -> (selection: (Vec<FunctionDescriptor>, usize))
    ensures
        selection.0@ == walk(catalog@, texts(names@), Some(token_ceiling as int)),
        selection.1 == cost_of(selection.0@),
        selection.1 <= token_ceiling,
{
    let ghost all = texts(names@);
    let ghost ceiling = Some(token_ceiling as int);
    let mut chosen: Vec<FunctionDescriptor> = Vec::new();
    let mut total: usize = 0;
    let mut i: usize = 0;
    while i < names.len()
        invariant
            i <= names.len(),
            all == texts(names@),
            ceiling == Some(token_ceiling as int),
            chosen@ == walk(catalog@, all.take(i as int), ceiling),
            total == cost_of(chosen@),
            total <= token_ceiling,
        decreases names.len() - i,
    {
        proof {
            assert(all.take(i + 1).drop_last() =~= all.take(i as int));
            assert(all.take(i + 1).last() == names@[i as int]@);
        }
        match find_descriptor(catalog, &names[i]) {
            Some(at) => {
                proof {
                    lemma_first_named(catalog@, names@[i as int]@, at as int);
                }
                let cost: usize = catalog[at].token_cost;
                if cost <= token_ceiling - total {
                    proof {
                        lemma_cost_of_push(chosen@, catalog@[at as int]);
                    }
                    chosen.push(catalog[at].clone());
                    total = total + cost;
                }
            },
            None => {},
        }
        i = i + 1;
    }
    assert(all.take(i as int) =~= all);
    (chosen, total)
}

fn required_or_empty(required: Option<Vec<String>>) -> (names: Vec<String>)
    ensures
        texts(names@) == required_texts(required),
{
    match required {
        Some(names) => names,
        None => {
            let names: Vec<String> = Vec::new();
            assert(texts(names@) =~= Seq::<Seq<char>>::empty());
            names
        },
    }
}

/// Chooses the descriptors to offer under a token ceiling. The required
/// names come first, then the ranked names that are not required; each
/// name's descriptor joins if it is known and the running total stays
/// within `token_ceiling`, and is passed over otherwise. Required names get
/// no exemption from the ceiling. The result is in candidate order.
pub fn select_with_required_under_limit(
    catalog: &Vec<FunctionDescriptor>,
    ranked_func_names: &Vec<String>,
    required_func_names: Option<Vec<String>>,
    token_ceiling: usize,
) -> (selection: (Vec<FunctionDescriptor>, usize))
    ensures
        is_selection(
            catalog@,
            texts(ranked_func_names@),
            required_texts(required_func_names),
            Some(token_ceiling as int),
            selection.0@,
            selection.1 as int,
        ),
        selection.1 <= token_ceiling,
{
    let required = required_or_empty(required_func_names);
    let names = candidate_names(&required, ranked_func_names);
    select_by_names(catalog, &names, token_ceiling)
}

/// Chooses every known descriptor among the required names and the allowed
/// names that are not required, in that order. No ceiling is set; as totals
/// are counted in machine words, the largest word is one, and a selection
/// whose cost fits in a word is not cut short by it.
pub fn select_allowed_with_required(
    catalog: &Vec<FunctionDescriptor>,
    allowed_func_names: &Vec<String>,
    required_func_names: Option<Vec<String>>,
) -> (selection: (Vec<FunctionDescriptor>, usize))
    ensures
        is_selection(
            catalog@,
            texts(allowed_func_names@),
            required_texts(required_func_names),
            Some(usize::MAX as int),
            selection.0@,
            selection.1 as int,
        ),
        cost_of(
            walk(
                catalog@,
                candidates(required_texts(required_func_names), texts(allowed_func_names@)),
                None,
            ),
        ) <= usize::MAX ==> is_selection(
            catalog@,
            texts(allowed_func_names@),
            required_texts(required_func_names),
            None,
            selection.0@,
            selection.1 as int,
        ),
{
    let required = required_or_empty(required_func_names);
    let names = candidate_names(&required, allowed_func_names);
    proof {
        if cost_of(walk(catalog@, texts(names@), None)) <= usize::MAX {
            lemma_walk_under_wide_ceiling(catalog@, texts(names@), usize::MAX as int);
        }
    }
    select_by_names(catalog, &names, usize::MAX)
}

/// Offers the catalog in its own order, as far as the ceiling allows: each
/// descriptor joins if the running total stays within `token_ceiling`.
pub fn select_under_limit(catalog: &Vec<FunctionDescriptor>, token_ceiling: usize) -> (selection: (
    Vec<FunctionDescriptor>,
    usize,
))
    ensures
        selection.0@ == fill(catalog@, Some(token_ceiling as int)),
        selection.1 == cost_of(selection.0@),
        selection.1 <= token_ceiling,
{
    let ghost ceiling = Some(token_ceiling as int);
    let mut chosen: Vec<FunctionDescriptor> = Vec::new();
    let mut total: usize = 0;
    let mut i: usize = 0;
    while i < catalog.len()
        invariant
            i <= catalog.len(),
            ceiling == Some(token_ceiling as int),
            chosen@ == fill(catalog@.take(i as int), ceiling),
            total == cost_of(chosen@),
            total <= token_ceiling,
        decreases catalog.len() - i,
    {
        proof {
            assert(catalog@.take(i + 1).drop_last() =~= catalog@.take(i as int));
        }
        let cost: usize = catalog[i].token_cost;
        if cost <= token_ceiling - total {
            proof {
                lemma_cost_of_push(chosen@, catalog@[i as int]);
            }
            chosen.push(catalog[i].clone());
            total = total + cost;
        }
        i = i + 1;
    }
    assert(catalog@.take(i as int) =~= catalog@);
    (chosen, total)
}

/// Offers the whole catalog, with its summed cost. As totals are counted in
/// machine words, the largest word is a ceiling; a catalog whose cost fits
/// in a word is offered whole.
pub fn all_functions(catalog: &Vec<FunctionDescriptor>) -> (selection: (
    Vec<FunctionDescriptor>,
    usize,
))
    ensures
        selection.0@ == fill(catalog@, Some(usize::MAX as int)),
        selection.1 == cost_of(selection.0@),
        cost_of(catalog@) <= usize::MAX ==> selection.0@ == catalog@,
{
    proof {
        if cost_of(catalog@) <= usize::MAX {
            lemma_fill_under_wide_ceiling(catalog@, usize::MAX as int);
        }
    }
    select_under_limit(catalog, usize::MAX)
}

} // verus!
