//! Sequence helpers for "the first problem found" and "seen before" checks.

use vstd::prelude::*;

verus! {

/// The first present entry of `steps`, if any.
pub open spec fn first_some<E>(steps: Seq<Option<E>>) -> Option<E>
    decreases steps.len(),
{
    if steps.len() == 0 {
        None
    } else if steps[0] is Some {
        steps[0]
    } else {
        first_some(steps.drop_first())
    }
}

/// When every entry before `i` is absent, the first present entry is found
/// at or after `i`.
pub proof fn lemma_first_some_skip<E>(steps: Seq<Option<E>>, i: int)
    requires
        0 <= i <= steps.len(),
        forall|j: int| 0 <= j < i ==> steps[j] is None,
    ensures
        first_some(steps) == first_some(steps.subrange(i, steps.len() as int)),
    decreases i,
{
    if i > 0 {
        let rest = steps.drop_first();
        assert forall|j: int| 0 <= j < i - 1 implies rest[j] is None by {
            assert(rest[j] == steps[j + 1]);
        }
        lemma_first_some_skip(rest, i - 1);
        assert(rest.subrange(i - 1, rest.len() as int) =~= steps.subrange(i, steps.len() as int));
    } else {
        assert(steps.subrange(0, steps.len() as int) =~= steps);
    }
}

/// The first present entry is the one at `i` when all before it are absent.
pub proof fn lemma_first_some_at<E>(steps: Seq<Option<E>>, i: int)
    requires
        0 <= i < steps.len(),
        forall|j: int| 0 <= j < i ==> steps[j] is None,
        steps[i] is Some,
    ensures
        first_some(steps) == steps[i],
{
    lemma_first_some_skip(steps, i);
    assert(steps.subrange(i, steps.len() as int)[0] == steps[i]);
}

/// Nothing is present when every entry is absent.
pub proof fn lemma_first_some_none<E>(steps: Seq<Option<E>>)
    requires
        forall|j: int| 0 <= j < steps.len() ==> steps[j] is None,
    ensures
        first_some(steps) is None,
{
    lemma_first_some_skip(steps, steps.len() as int);
}

/// The texts held by a sequence of strings.
pub open spec fn texts(items: Seq<String>) -> Seq<Seq<char>> {
    items.map_values(|s: String| s@)
}

/// Whether `item` equals one of the texts in `seen`.
pub open spec fn seen_before(seen: Seq<Seq<char>>, item: Seq<char>) -> bool {
    exists|j: int| 0 <= j < seen.len() && seen[j] == item
}

/// Whether `item` equals one of the texts held in `seen`.
pub fn contains_text(seen: &Vec<String>, item: &str) -> (found: bool)
    ensures
        found == seen_before(texts(seen@), item@),
{
    let ghost held = texts(seen@);
    let mut i: usize = 0;
    while i < seen.len()
        invariant
            held == texts(seen@),
            i <= seen.len(),
            forall|j: int| 0 <= j < i ==> held[j] != item@,
        decreases seen.len() - i,
    {
        if crate::text::same_text(seen[i].as_str(), item) {
            assert(held[i as int] == item@);
            return true;
        }
        i = i + 1;
    }
    false
}

/// The first position at or after `from` where `items` holds `item`; the
/// length of `items` when there is none.
pub open spec fn first_position_from(items: Seq<Seq<char>>, item: Seq<char>, from: int) -> int
    decreases items.len() - from,
{
    if from >= items.len() {
        items.len() as int
    } else if items[from] == item {
        from
    } else {
        first_position_from(items, item, from + 1)
    }
}

/// The first position where `items` holds `item`.
pub open spec fn first_position(items: Seq<Seq<char>>, item: Seq<char>) -> int {
    first_position_from(items, item, 0)
}

/// The first position in `seen` of the text `item`, if it occurs.
pub fn position_of_text(seen: &Vec<String>, item: &str) -> (position: Option<usize>)
    ensures
        position is Some <==> seen_before(texts(seen@), item@),
        position matches Some(j) ==> j == first_position(texts(seen@), item@) && j < seen@.len(),
{
    let ghost held = texts(seen@);
    let mut i: usize = 0;
    while i < seen.len()
        invariant
            held == texts(seen@),
            i <= seen.len(),
            forall|j: int| 0 <= j < i ==> held[j] != item@,
            first_position(held, item@) == first_position_from(held, item@, i as int),
        decreases seen.len() - i,
    {
        if crate::text::same_text(seen[i].as_str(), item) {
            assert(held[i as int] == item@);
            return Some(i);
        }
        assert(held[i as int] != item@);
        i = i + 1;
    }
    None
}

} // verus!
