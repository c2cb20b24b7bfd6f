//! Which candidates the popup lists for a given input.
//!
//! A candidate is listed when filtering is switched off, when nothing has
//! been typed, or when its text holds the typed text somewhere inside it,
//! both taken in lower case.

use vstd::prelude::*;

verus! {

/// The lower-case form of a text, as `str::to_lowercase` produces it.
pub uninterp spec fn lowercase(text: Seq<char>) -> Seq<char>;

/// `needle` stands in `hay` starting at position `at`.
pub open spec fn occurs_at(hay: Seq<char>, needle: Seq<char>, at: int) -> bool {
    &&& 0 <= at
    &&& at + needle.len() <= hay.len()
    &&& hay.subrange(at, at + needle.len()) == needle
}

/// `needle` stands somewhere in `hay` as a contiguous run of characters.
pub open spec fn occurs_in(hay: Seq<char>, needle: Seq<char>) -> bool {
    exists|at: int| occurs_at(hay, needle, at)
}

/// The rule of the popup: is an item with text `item` listed while the
/// edited value reads `current`?
pub open spec fn listed(item: Seq<char>, current: Seq<char>, filter_by_input: bool) -> bool {
    ||| !filter_by_input
    ||| current.len() == 0
    ||| occurs_in(lowercase(item), lowercase(current))
}

/// The positions of the listed items among `texts`, in rising order.
pub open spec fn listing(texts: Seq<Seq<char>>, current: Seq<char>, filter_by_input: bool) -> Seq<
    int,
>
    decreases texts.len(),
{
    if texts.len() == 0 {
        Seq::empty()
    } else {
        let head = listing(texts.drop_last(), current, filter_by_input);
        if listed(texts.last(), current, filter_by_input) {
            head.push(texts.len() - 1)
        } else {
            head
        }
    }
}

/// With nothing typed, an item is listed whatever its text and whether or
/// not filtering is switched on.
pub proof fn lemma_empty_input_lists_item(item: Seq<char>, current: Seq<char>, filter_by_input: bool)
    requires
        current.len() == 0,
    ensures
        listed(item, current, filter_by_input),
{
}

/// With nothing typed, the listing holds every position, in order.
pub proof fn lemma_empty_input_lists_all(
    texts: Seq<Seq<char>>,
    current: Seq<char>,
    filter_by_input: bool,
)
    requires
        current.len() == 0,
    ensures
        listing(texts, current, filter_by_input) == Seq::new(texts.len(), |i: int| i),
    decreases texts.len(),
{
    if texts.len() > 0 {
        lemma_empty_input_lists_all(texts.drop_last(), current, filter_by_input);
        assert(Seq::new(texts.drop_last().len(), |i: int| i).push(texts.len() - 1) =~= Seq::new(
            texts.len(),
            |i: int| i,
        ));
    } else {
        assert(Seq::<int>::empty() =~= Seq::new(texts.len(), |i: int| i));
    }
}

/// Once something has been typed, an item is listed exactly when filtering
/// is off or its lower-case text holds the lower-case input.
pub proof fn lemma_listed_iff_contains(item: Seq<char>, current: Seq<char>, filter_by_input: bool)
    requires
        current.len() > 0,
    ensures
        listed(item, current, filter_by_input) <==> (!filter_by_input || occurs_in(
            lowercase(item),
            lowercase(current),
        )),
{
}

/// The listing holds exactly the positions of the listed items, each once
/// and in rising order.
pub proof fn lemma_listing_members(texts: Seq<Seq<char>>, current: Seq<char>, filter_by_input: bool)
    ensures
        forall|p: int|
            #![trigger listing(texts, current, filter_by_input).contains(p)]
            #![trigger texts[p]]
            listing(texts, current, filter_by_input).contains(p) <==> (0 <= p < texts.len()
                && listed(texts[p], current, filter_by_input)),
        forall|a: int, b: int|
            0 <= a < b < listing(texts, current, filter_by_input).len() ==> listing(
                texts,
                current,
                filter_by_input,
            )[a] < listing(texts, current, filter_by_input)[b],
    decreases texts.len(),
{
    let all = listing(texts, current, filter_by_input);
    if texts.len() > 0 {
        let front = texts.drop_last();
        let head = listing(front, current, filter_by_input);
        let end = texts.len() - 1;
        lemma_listing_members(front, current, filter_by_input);
        assert forall|p: int| 0 <= p < front.len() implies front[p] == texts[p] by {}
        assert forall|p: int|
            #![trigger all.contains(p)]
            #![trigger texts[p]]
            all.contains(p) <==> (0 <= p < texts.len() && listed(
                texts[p],
                current,
                filter_by_input,
            )) by {
            if all.contains(p) {
                let k = choose|k: int| 0 <= k < all.len() && all[k] == p;
                if k < head.len() {
                    assert(head[k] == p);
                    assert(head.contains(p));
                }
            }
            if 0 <= p < texts.len() && listed(texts[p], current, filter_by_input) {
                if p < end {
                    assert(front[p] == texts[p]);
                    assert(head.contains(p));
                    let k = choose|k: int| 0 <= k < head.len() && head[k] == p;
                    assert(all[k] == p);
                } else {
                    assert(all[all.len() - 1] == p);
                }
            }
        }
        assert forall|a: int, b: int| 0 <= a < b < all.len() implies all[a] < all[b] by {
            assert(head[a] == all[a]);
            assert(head.contains(all[a]));
            if b < head.len() {
                assert(head[a] < head[b]);
            }
        }
    } else {
        assert forall|p: int| !all.contains(p) by {
            if all.contains(p) {
                let k = choose|k: int| 0 <= k < all.len() && all[k] == p;
            }
        }
    }
}

/// The listing depends on the items' texts, the input and the switch alone:
/// two frames that agree on them list the same items.
pub proof fn lemma_listing_repeats(
    first: Seq<Seq<char>>,
    second: Seq<Seq<char>>,
    current_first: Seq<char>,
    current_second: Seq<char>,
    filter_by_input: bool,
)
    requires
        first =~= second,
        current_first =~= current_second,
    ensures
        listing(first, current_first, filter_by_input) == listing(
            second,
            current_second,
            filter_by_input,
        ),
{
}

/// Calls `str::to_lowercase`. Trusted: the result is the lower-case form of
/// the argument, which `lowercase` names.
#[verifier::external_body]
fn to_lowercase(text: &str) -> (folded: String)
    ensures
        folded@ == lowercase(text@),
{
    text.to_lowercase()
}

/// Calls `str::contains` with a string pattern. Trusted: the result tells
/// whether `needle` matches a contiguous part of `hay`.
#[verifier::external_body]
fn contains(hay: &str, needle: &str) -> (found: bool)
    ensures
        found == occurs_in(hay@, needle@),
{
    hay.contains(needle)
}

/// Decides the rule once both texts have been brought to lower case:
/// `item_folded` and `current_folded` are the folded forms, `current` the
/// text as typed.
pub fn listed_folded(
    item_folded: &str,
    current: &str,
    current_folded: &str,
    filter_by_input: bool,
) -> (shown: bool)
    ensures
        shown == (!filter_by_input || current@.len() == 0 || occurs_in(
            item_folded@,
            current_folded@,
        )),
{
    !filter_by_input || current.is_empty() || contains(item_folded, current_folded)
}

/// Decides whether an item with text `item` is listed while the edited value
/// reads `current`.
pub fn is_listed(item: &str, current: &str, filter_by_input: bool) -> (shown: bool)
    ensures
        shown == listed(item@, current@, filter_by_input),
{
    if filter_by_input && !current.is_empty() {
        let item_folded = to_lowercase(item);
        let current_folded = to_lowercase(current);
        listed_folded(item_folded.as_str(), current, current_folded.as_str(), filter_by_input)
    } else {
        true
    }
}

/// The positions of the items of `texts` that are listed while the edited
/// value reads `current`, in rising order.
pub fn listed_positions(texts: &Vec<String>, current: &str, filter_by_input: bool) -> (positions:
    Vec<usize>)
    ensures
        positions@.map_values(|p: usize| p as int) == listing(
            texts.deep_view(),
            current@,
            filter_by_input,
        ),
{
    let mut positions: Vec<usize> = Vec::new();
    let mut i: usize = 0;
    while i < texts.len()
        invariant
            i <= texts.len(),
            positions@.map_values(|p: usize| p as int) == listing(
                texts.deep_view().take(i as int),
                current@,
                filter_by_input,
            ),
        decreases texts.len() - i,
    {
        proof {
            let upto = texts.deep_view().take(i + 1);
            assert(upto.drop_last() =~= texts.deep_view().take(i as int));
            assert(upto.last() == texts[i as int]@);
        }
        if is_listed(texts[i].as_str(), current, filter_by_input) {
            proof {
                assert(positions@.push(i).map_values(|p: usize| p as int) =~= positions@.map_values(
                    |p: usize| p as int,
                ).push(i as int));
            }
            positions.push(i);
        }
        i += 1;
    }
    proof {
        assert(texts.deep_view().take(texts.len() as int) =~= texts.deep_view());
    }
    positions
}

} // verus!
