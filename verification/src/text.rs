//! Text as sequences of characters, and the substring relation the picker
//! filters by.

use vstd::prelude::*;

verus! {

/// The character sequences of a list of strings, in order.
pub open spec fn texts(v: Seq<String>) -> Seq<Seq<char>> {
    v.map_values(|s: String| s@)
}

/// `needle` occurs in `hay` as a contiguous run of characters. Matching is
/// exact, so it is case-sensitive.
pub open spec fn occurs_in(needle: Seq<char>, hay: Seq<char>) -> bool {
    exists|i: int|
        0 <= i && i + needle.len() <= hay.len() && #[trigger] hay.subrange(
            i,
            i + needle.len(),
        ) == needle
}

/// The predicate "contains `needle`", as a value to filter with.
pub open spec fn containing(needle: Seq<char>) -> spec_fn(Seq<char>) -> bool {
    |s: Seq<char>| occurs_in(needle, s)
}

/// The items that contain `needle`, in the order in which they stand.
pub open spec fn matching(items: Seq<Seq<char>>, needle: Seq<char>) -> Seq<Seq<char>> {
    items.filter(containing(needle))
}

/// The empty text occurs in every text.
pub proof fn lemma_empty_occurs_everywhere(hay: Seq<char>)
    ensures
        occurs_in(Seq::<char>::empty(), hay),
{
    let needle = Seq::<char>::empty();
    assert(hay.subrange(0, 0 + needle.len() as int) =~= needle);
}

/// Filtering by the empty text keeps every item.
pub proof fn lemma_matching_empty_is_all(items: Seq<Seq<char>>)
    ensures
        matching(items, Seq::<char>::empty()) == items,
    decreases items.len(),
{
    reveal(Seq::filter);
    if items.len() > 0 {
        lemma_matching_empty_is_all(items.drop_last());
        lemma_empty_occurs_everywhere(items.last());
        assert(items.drop_last().push(items.last()) =~= items);
    }
}

/// An item is kept by the filter exactly when it is one of the items and
/// contains the needle.
pub proof fn lemma_matching_exact(items: Seq<Seq<char>>, needle: Seq<char>, s: Seq<char>)
    ensures
        matching(items, needle).contains(s) <==> items.contains(s) && occurs_in(needle, s),
{
    let kept = matching(items, needle);
    if kept.contains(s) {
        let k = choose|k: int| 0 <= k < kept.len() && kept[k] == s;
        items.lemma_filter_contains_rev(containing(needle), s);
        items.lemma_filter_pred(containing(needle), k);
    }
    if items.contains(s) && occurs_in(needle, s) {
        let i = choose|i: int| 0 <= i < items.len() && items[i] == s;
        items.lemma_filter_contains(containing(needle), i);
    }
}

/// Calls `str::contains` of std with a string pattern, which reports whether
/// the pattern matches some sub-slice of the text. The contract states that
/// over characters: the result is `occurs_in`.
#[verifier::external_body]
pub(crate) fn str_contains(hay: &str, needle: &str) -> (r: bool)
    ensures
        r == occurs_in(needle@, hay@),
{
    hay.contains(needle)
}

/// The items that contain `needle`, in the order in which they stand.
pub fn filter_items(items: &Vec<String>, needle: &str) -> (kept: Vec<String>)
    ensures
        texts(kept@) == matching(texts(items@), needle@),
{
    let mut kept: Vec<String> = Vec::new();
    let mut i: usize = 0;
    proof {
        reveal(Seq::filter);
        assert(texts(items@).take(0) =~= Seq::<Seq<char>>::empty());
        assert(texts(kept@) =~= Seq::<Seq<char>>::empty());
    }
    while i < items.len()
        invariant
            i <= items.len(),
            texts(kept@) == matching(texts(items@).take(i as int), needle@),
        decreases items.len() - i,
    {
        let ghost before = texts(items@).take(i as int);
        let ghost kept_before = texts(kept@);
        proof {
            before.lemma_filter_push(items@[i as int]@, containing(needle@));
            assert(texts(items@).take(i + 1) =~= before.push(items@[i as int]@));
        }
        if str_contains(items[i].as_str(), needle) {
            kept.push(items[i].clone());
            proof {
                assert(texts(kept@) =~= kept_before.push(items@[i as int]@));
            }
        }
        i = i + 1;
    }
    proof {
        assert(texts(items@).take(items.len() as int) =~= texts(items@));
    }
    kept
}

} // verus!
