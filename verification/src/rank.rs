//! Relevance ranking: a stable ordering of catalog entries by descending
//! similarity to the prompt.

use vstd::prelude::*;
use vstd::string::StringExecFns;
use crate::error::{FuncEnumsError, ToolError};
use crate::text::texts;

verus! {

/// One catalog entry as the ranker sees it: the function's name and the
/// similarity of its stored embedding to the prompt, as an integer key.
/// A larger key means a closer match.
#[derive(Clone, Debug, PartialEq, Eq)]
pub struct ScoredFunction {
    pub name: String,
    pub score: i64,
}

/// The bits of a similarity that say how large it is, its sign left out.
pub open spec fn magnitude_bits(bits: u32) -> u32 {
    bits & 0x7fff_ffff
}

/// The bits stand for no number at all.
pub open spec fn is_not_a_number(bits: u32) -> bool {
    magnitude_bits(bits) > 0x7f80_0000
}

/// The bits carry a minus sign.
pub open spec fn is_negative(bits: u32) -> bool {
    bits & 0x8000_0000 != 0
}

/// The key by which a similarity is ordered, from the bits of its 32-bit
/// binary floating-point form: the magnitude bits, negated under a minus
/// sign. Keys compare as the similarities do; both zeros share the key 0,
/// which is also the key of bits that stand for no number.
pub open spec fn key_of_bits(bits: u32) -> int {
    if is_not_a_number(bits) {
        0
    } else if is_negative(bits) {
        -(magnitude_bits(bits) as int)
    } else {
        magnitude_bits(bits) as int
    }
}

/// Turns the bits of a similarity into the key by which it is ranked.
pub fn similarity_key(bits: u32) -> (key: i64)
    ensures
        key == key_of_bits(bits),
        -0x7f80_0000 <= key <= 0x7f80_0000,
{
    let magnitude: u32 = bits & 0x7fff_ffff;
    if magnitude > 0x7f80_0000 {
        0
    } else if bits & 0x8000_0000 != 0 {
        -(magnitude as i64)
    } else {
        magnitude as i64
    }
}

/// The scores of a catalog, in catalog order.
pub open spec fn scores_of(catalog: Seq<ScoredFunction>) -> Seq<i64> {
    Seq::new(catalog.len(), |i: int| catalog[i].score)
}

/// The names of a catalog, in catalog order.
pub open spec fn names_of(catalog: Seq<ScoredFunction>) -> Seq<Seq<char>> {
    Seq::new(catalog.len(), |i: int| catalog[i].name@)
}

/// Index `k` occurs in `order`.
pub open spec fn lists(order: Seq<usize>, k: int) -> bool {
    exists|i: int| 0 <= i < order.len() && #[trigger] order[i] == k
}

/// `order` lists every index below `n` exactly once.
pub open spec fn is_permutation(order: Seq<usize>, n: nat) -> bool {
    &&& order.len() == n
    &&& forall|i: int| 0 <= i < order.len() ==> (#[trigger] order[i]) < n
    &&& forall|i: int, j: int| 0 <= i < j < order.len() ==> order[i] != order[j]
    &&& forall|k: int| 0 <= k < n ==> #[trigger] lists(order, k)
}

/// Entry `a` is placed ahead of entry `b`: it scores higher, or scores the
/// same and stands earlier in the catalog.
pub open spec fn ranks_ahead(scores: Seq<i64>, a: int, b: int) -> bool {
    scores[a] > scores[b] || (scores[a] == scores[b] && a < b)
}

/// `order` is the ranking of `scores`: a permutation of the catalog's
/// indices in which every entry is ahead of all that follow it.
pub open spec fn is_ranking(scores: Seq<i64>, order: Seq<usize>) -> bool {
    &&& is_permutation(order, scores.len())
    &&& forall|i: int, j: int|
        0 <= i < j < order.len() ==> ranks_ahead(scores, order[i] as int, order[j] as int)
}

/// `ranked` holds the catalog's names rearranged by the ranking of its scores.
pub open spec fn is_ranked_names(catalog: Seq<ScoredFunction>, ranked: Seq<Seq<char>>) -> bool {
    exists|order: Seq<usize>|
        {
            &&& is_ranking(scores_of(catalog), order)
            &&& ranked.len() == catalog.len()
            &&& forall|i: int|
                0 <= i < ranked.len() ==> ranked[i] == catalog[order[i] as int].name@
        }
}

/// A list of scores has at most one ranking.
pub proof fn lemma_ranking_unique(scores: Seq<i64>, a: Seq<usize>, b: Seq<usize>)
    requires
        is_ranking(scores, a),
        is_ranking(scores, b),
    ensures
        a == b,
{
    assert forall|i: int| 0 <= i < a.len() implies a[i] == b[i] by {
        lemma_ranking_agree(scores, a, b, i);
    }
    assert(a =~= b);
}

proof fn lemma_ranking_agree(scores: Seq<i64>, a: Seq<usize>, b: Seq<usize>, i: int)
    requires
        is_ranking(scores, a),
        is_ranking(scores, b),
        0 <= i < a.len(),
    ensures
        a[i] == b[i],
    decreases i,
{
    assert forall|k: int| 0 <= k < i implies a[k] == b[k] by {
        lemma_ranking_agree(scores, a, b, k);
    }
    let x = a[i];
    let y = b[i];
    assert(x < scores.len());
    assert(y < scores.len());
    assert(lists(b, x as int));
    assert(lists(a, y as int));
    let j = choose|j: int| 0 <= j < b.len() && b[j] == x;
    let m = choose|m: int| 0 <= m < a.len() && a[m] == y;
    if j < i {
        assert(a[j] == b[j]);
        assert(a[j] != a[i]);
    }
    if m < i {
        assert(a[m] == b[m]);
        assert(b[m] != b[i]);
    }
    if j > i && m > i {
        assert(ranks_ahead(scores, b[i] as int, b[j] as int));
        assert(ranks_ahead(scores, a[i] as int, a[m] as int));
    }
}

/// What `order` makes of `names`: the name at each listed index, in turn.
pub open spec fn arranged(order: Seq<usize>, names: Seq<Seq<char>>) -> Seq<Seq<char>> {
    Seq::new(order.len(), |i: int| names[order[i] as int])
}

/// Arranging names by a permutation of their indices neither loses nor adds
/// a name.
pub proof fn lemma_arranged_keeps_names(order: Seq<usize>, names: Seq<Seq<char>>)
    requires
        is_permutation(order, names.len()),
    ensures
        arranged(order, names).to_multiset() == names.to_multiset(),
    decreases names.len(),
{
    broadcast use vstd::seq_lib::group_to_multiset_ensures;

    if names.len() == 0 {
        assert(arranged(order, names) =~= names);
    } else {
        let top = names.len() - 1;
        assert(lists(order, top));
        let x = choose|i: int| 0 <= i < order.len() && order[i] == top;
        let fewer = order.remove(x);
        let rest = names.drop_last();
        assert forall|i: int| 0 <= i < fewer.len() implies (#[trigger] fewer[i]) < rest.len() by {
            let orig = if i < x { i } else { i + 1 };
            assert(fewer[i] == order[orig]);
            assert(order[orig] < names.len());
            if orig < x {
                assert(order[orig] != order[x]);
            } else {
                assert(order[x] != order[orig]);
            }
        }
        assert forall|i: int, j: int| 0 <= i < j < fewer.len() implies fewer[i] != fewer[j] by {
            let oi = if i < x { i } else { i + 1 };
            let oj = if j < x { j } else { j + 1 };
            assert(order[oi] != order[oj]);
        }
        assert forall|k: int| 0 <= k < rest.len() implies #[trigger] lists(fewer, k) by {
            assert(lists(order, k));
            let j = choose|j: int| 0 <= j < order.len() && order[j] == k;
            let at = if j < x { j } else { j - 1 };
            assert(fewer[at] == k);
        }
        lemma_arranged_keeps_names(fewer, rest);
        assert(arranged(order, names) =~= arranged(fewer, rest).insert(x, names[top]));
        assert(rest.push(names[top]) =~= names);
    }
}

/// A ranking is a permutation of the catalog's names: every name comes out
/// as often as it went in.
pub proof fn lemma_ranked_names_permute(catalog: Seq<ScoredFunction>, ranked: Seq<Seq<char>>)
    requires
        is_ranked_names(catalog, ranked),
    ensures
        ranked.to_multiset() == names_of(catalog).to_multiset(),
{
    let order = choose|order: Seq<usize>|
        {
            &&& is_ranking(scores_of(catalog), order)
            &&& ranked.len() == catalog.len()
            &&& forall|i: int|
                0 <= i < ranked.len() ==> ranked[i] == catalog[order[i] as int].name@
        };
    lemma_arranged_keeps_names(order, names_of(catalog));
    assert(ranked =~= arranged(order, names_of(catalog)));
}

/// A catalog has one ranking of its names and no other.
pub proof fn lemma_ranked_names_unique(
    catalog: Seq<ScoredFunction>,
    first: Seq<Seq<char>>,
    second: Seq<Seq<char>>,
)
    requires
        is_ranked_names(catalog, first),
        is_ranked_names(catalog, second),
    ensures
        first == second,
{
    let a = choose|order: Seq<usize>|
        {
            &&& is_ranking(scores_of(catalog), order)
            &&& first.len() == catalog.len()
            &&& forall|i: int| 0 <= i < first.len() ==> first[i] == catalog[order[i] as int].name@
        };
    let b = choose|order: Seq<usize>|
        {
            &&& is_ranking(scores_of(catalog), order)
            &&& second.len() == catalog.len()
            &&& forall|i: int|
                0 <= i < second.len() ==> second[i] == catalog[order[i] as int].name@
        };
    lemma_ranking_unique(scores_of(catalog), a, b);
    assert(first =~= second);
}

/// Catalogs of at most one entry rank to themselves.
pub proof fn lemma_small_catalog_keeps_order(catalog: Seq<ScoredFunction>, ranked: Seq<Seq<char>>)
    requires
        catalog.len() <= 1,
        is_ranked_names(catalog, ranked),
    ensures
        ranked == names_of(catalog),
{
    let order = choose|order: Seq<usize>|
        {
            &&& is_ranking(scores_of(catalog), order)
            &&& ranked.len() == catalog.len()
            &&& forall|i: int|
                0 <= i < ranked.len() ==> ranked[i] == catalog[order[i] as int].name@
        };
    if catalog.len() == 1 {
        assert(order[0] < 1);
    }
    assert(ranked =~= names_of(catalog));
}

/// The ranking of `scores`: the catalog's indices by descending score, equal
/// scores in catalog order.
pub fn rank_order(scores: &Vec<i64>) -> (order: Vec<usize>)
    ensures
        is_ranking(scores@, order@),
{
    let mut order: Vec<usize> = Vec::new();
    let mut k: usize = 0;
    while k < scores.len()
        invariant
            k <= scores.len(),
            is_permutation(order@, k as nat),
            forall|i: int, j: int|
                0 <= i < j < order.len() ==> ranks_ahead(scores@, order[i] as int, order[j] as int),
        decreases scores.len() - k,
    {
        let mut p: usize = 0;
        while p < order.len() && scores[order[p]] >= scores[k]
            invariant
                p <= order.len(),
                k < scores.len(),
                is_permutation(order@, k as nat),
                forall|i: int| 0 <= i < p ==> scores[order[i] as int] >= scores[k as int],
            decreases order.len() - p,
        {
            p = p + 1;
        }
        let ghost before = order@;
        order.insert(p, k);
        proof {
            let after = order@;
            assert forall|i: int| 0 <= i < after.len() implies (#[trigger] after[i]) < k + 1 by {
                if i < p {
                    assert(after[i] == before[i]);
                } else if i > p {
                    assert(after[i] == before[i - 1]);
                }
            }
            assert forall|i: int, j: int| 0 <= i < j < after.len() implies after[i] != after[j]
                && ranks_ahead(scores@, after[i] as int, after[j] as int) by {
                let bi = if i < p { i } else { i - 1 };
                let bj = if j < p { j } else { j - 1 };
                if i != p {
                    assert(after[i] == before[bi]);
                    assert(before[bi] < k);
                }
                if j != p {
                    assert(after[j] == before[bj]);
                    assert(before[bj] < k);
                }
                if i == p {
                    assert(p < before.len());
                    if bj > p {
                        assert(ranks_ahead(scores@, before[p as int] as int, before[bj] as int));
                    }
                }
            }
            assert forall|x: int| 0 <= x < k + 1 implies #[trigger] lists(after, x) by {
                if x == k {
                    assert(after[p as int] == x);
                } else {
                    assert(lists(before, x));
                    let i0 = choose|i: int| 0 <= i < before.len() && before[i] == x;
                    let i1 = if i0 < p { i0 } else { i0 + 1 };
                    assert(after[i1] == x);
                }
            }
        }
        k = k + 1;
    }
    order
}

/// Ranks a catalog: its names by descending score, entries of equal score in
/// catalog order. An empty catalog gives an empty ranking.
pub fn rank_functions(catalog: &Vec<ScoredFunction>) -> (ranked: Vec<String>)
    ensures
        is_ranked_names(catalog@, texts(ranked@)),
        texts(ranked@).to_multiset() == names_of(catalog@).to_multiset(),
        catalog.len() <= 1 ==> texts(ranked@) == names_of(catalog@),
{
    let mut scores: Vec<i64> = Vec::new();
    let mut i: usize = 0;
    while i < catalog.len()
        invariant
            i <= catalog.len(),
            scores@ == scores_of(catalog@).take(i as int),
        decreases catalog.len() - i,
    {
        scores.push(catalog[i].score);
        assert(scores@ =~= scores_of(catalog@).take(i + 1));
        i = i + 1;
    }
    assert(scores@ =~= scores_of(catalog@));
    let order = rank_order(&scores);
    let mut ranked: Vec<String> = Vec::new();
    let mut r: usize = 0;
    while r < order.len()
        invariant
            r <= order.len(),
            order.len() == catalog.len(),
            is_ranking(scores_of(catalog@), order@),
            ranked.len() == r,
            forall|i: int| 0 <= i < r ==> ranked[i]@ == catalog[order[i] as int].name@,
        decreases order.len() - r,
    {
        assert(order@[r as int] < catalog.len());
        ranked.push(catalog[order[r]].name.clone());
        r = r + 1;
    }
    proof {
        let out = texts(ranked@);
        assert(is_ranking(scores_of(catalog@), order@) && out.len() == catalog.len()
            && forall|i: int| 0 <= i < out.len() ==> out[i] == catalog[order@[i] as int].name@);
        if catalog.len() <= 1 {
            lemma_small_catalog_keeps_order(catalog@, out);
        }
        lemma_ranked_names_permute(catalog@, out);
    }
    ranked
}

/// What reading the stored embeddings came to.
#[derive(Clone, Debug, PartialEq, Eq)]
pub enum EmbeddingArchive {
    /// There is no archive.
    Missing,
    /// The archive did not pass validation; the validator's report is kept.
    Invalid(String),
    /// The entries of the archive, each scored against the prompt.
    Loaded(Vec<ScoredFunction>),
}

/// The ranked names for a prompt, from what reading the archive came to.
/// Without an archive the ranking is empty; an archive that failed
/// validation is an error; a loaded one is ranked.
pub fn get_ranked_function_names(archive: &EmbeddingArchive) -> (outcome: Result<
    Vec<String>,
    FuncEnumsError,
>)
    ensures
        match *archive {
            EmbeddingArchive::Missing => outcome matches Ok(ranked) && ranked@.len() == 0,
            EmbeddingArchive::Invalid(report) => outcome matches Err(
                FuncEnumsError::RkyvError(text),
            ) && text@ == "Archive processing failed: "@ + report@,
            EmbeddingArchive::Loaded(catalog) => outcome matches Ok(ranked) && is_ranked_names(
                catalog@,
                texts(ranked@),
            ),
        },
{
    match archive {
        EmbeddingArchive::Missing => Ok(Vec::new()),
        EmbeddingArchive::Invalid(report) => {
            let mut text = "Archive processing failed: ".to_owned();
            text.append(report.as_str());
            Err(FuncEnumsError::RkyvError(text))
        },
        EmbeddingArchive::Loaded(catalog) => Ok(rank_functions(catalog)),
    }
}

/// Takes the embedding out of an embedding response: the first vector that
/// the service returned. A response without any is an error of its own kind.
pub fn first_embedding<E>(data: Vec<E>) -> (embedding: Result<E, ToolError>)
    ensures
        data.len() > 0 ==> embedding == Ok::<E, ToolError>(data[0]),
        data.len() == 0 ==> embedding == Err::<E, ToolError>(ToolError::EmbeddingUnavailable),
{
    let mut data = data;
    if data.len() > 0 {
        Ok(data.remove(0))
    } else {
        Err(ToolError::EmbeddingUnavailable)
    }
}

} // verus!
