//! Codepoint coverage under a limit.

use crate::engine::{charmap_codepoints, mapped_codepoints};
use crate::error::{
    all_load, first_load_failure, is_load_error, open_font, CoordinateError, FontFile,
};
use vstd::prelude::*;

verus! {

/// The test "is below `limit`".
pub open spec fn below(limit: u32) -> spec_fn(u32) -> bool {
    |codepoint: u32| codepoint < limit
}

/// The codepoints of `mapped` that are below `limit`, in the order of
/// `mapped`.
pub open spec fn covered(mapped: Seq<u32>, limit: u32) -> Seq<u32> {
    mapped.filter(below(limit))
}

/// The coverage that `coverage` reports for one font.
pub open spec fn font_coverage(file: FontFile, limit: u32) -> Seq<u32> {
    covered(mapped_codepoints(file.data()), limit)
}

/// Keeps the codepoints of `mapped` that are strictly below `limit`, in order.
pub fn codepoints_under_limit(mapped: &Vec<u32>, limit: u32) -> (kept: Vec<u32>)
    ensures
        kept@ == covered(mapped@, limit),
{
    let mut kept: Vec<u32> = Vec::new();
    let mut i: usize = 0;
    proof {
        reveal(Seq::filter);
        assert(mapped@.take(0) =~= Seq::<u32>::empty());
    }
    while i < mapped.len()
        invariant
            i <= mapped.len(),
            kept@ == covered(mapped@.take(i as int), limit),
        decreases mapped.len() - i,
    {
        let codepoint: u32 = mapped[i];
        proof {
            reveal(Seq::filter);
            let next = mapped@.take(i + 1);
            assert(next.drop_last() =~= mapped@.take(i as int));
            assert(next.last() == codepoint);
        }
        if codepoint < limit {
            kept.push(codepoint);
        }
        i += 1;
    }
    assert(mapped@.take(i as int) =~= mapped@);
    kept
}

/// A codepoint is covered under a limit exactly when it is mapped and below
/// the limit.
pub proof fn lemma_covered_contains(mapped: Seq<u32>, limit: u32, codepoint: u32)
    ensures
        covered(mapped, limit).contains(codepoint) <==> mapped.contains(codepoint) && codepoint
            < limit,
    decreases mapped.len(),
{
    reveal(Seq::filter);
    if mapped.len() > 0 {
        let front = mapped.drop_last();
        lemma_covered_contains(front, limit, codepoint);
        let kept = covered(mapped, limit);
        if mapped.contains(codepoint) && codepoint < limit {
            let i = choose|i: int| 0 <= i < mapped.len() && mapped[i] == codepoint;
            if i < front.len() {
                assert(front[i] == codepoint);
                assert(front.contains(codepoint));
                let j = choose|j: int|
                    0 <= j < covered(front, limit).len() && covered(front, limit)[j] == codepoint;
                assert(kept[j] == codepoint);
            } else {
                assert(kept.last() == codepoint);
            }
        }
        if kept.contains(codepoint) {
            let j = choose|j: int| 0 <= j < kept.len() && kept[j] == codepoint;
            if j < covered(front, limit).len() {
                assert(covered(front, limit)[j] == codepoint);
                assert(covered(front, limit).contains(codepoint));
                let i = choose|i: int| 0 <= i < front.len() && front[i] == codepoint;
                assert(mapped[i] == codepoint);
            } else {
                assert(mapped.last() == codepoint);
            }
        }
    }
}

/// Coverage grows with the limit: what is covered under a limit is covered
/// under every larger one, and filtering the larger coverage by the smaller
/// limit gives the smaller coverage, order included.
pub proof fn lemma_coverage_monotonic(mapped: Seq<u32>, low: u32, high: u32)
    requires
        low <= high,
    ensures
        forall|codepoint: u32| #[trigger]
            covered(mapped, low).contains(codepoint) ==> covered(mapped, high).contains(codepoint),
        covered(covered(mapped, high), low) == covered(mapped, low),
        covered(mapped, low).len() <= covered(mapped, high).len(),
    decreases mapped.len(),
{
    reveal(Seq::filter);
    assert forall|codepoint: u32| #[trigger]
        covered(mapped, low).contains(codepoint) implies covered(mapped, high).contains(
        codepoint,
    ) by {
        lemma_covered_contains(mapped, low, codepoint);
        lemma_covered_contains(mapped, high, codepoint);
    }
    if mapped.len() > 0 {
        lemma_coverage_monotonic(mapped.drop_last(), low, high);
        let front = covered(mapped.drop_last(), high);
        if mapped.last() < high {
            assert(front.push(mapped.last()).drop_last() =~= front);
        }
    }
    covered(mapped, high).lemma_filter_len(below(low));
}

/// Whether `lists` is what `coverage` owes for a batch that loads.
pub open spec fn is_coverage_of(files: Seq<FontFile>, limit: u32, lists: Seq<Seq<u32>>) -> bool {
    &&& lists.len() == files.len()
    &&& forall|i: int| 0 <= i < files.len() ==> lists[i] == font_coverage(#[trigger] files[i], limit)
}

/// The coverage of a batch is fixed by its files and the limit, and each list
/// depends on its own file only: two results owed for the same batch are
/// equal, and the coverage of a batch made of two batches is that of the first
/// followed by that of the second.
pub proof fn lemma_coverage_follows_files(
    front: Seq<FontFile>,
    back: Seq<FontFile>,
    limit: u32,
    front_lists: Seq<Seq<u32>>,
    back_lists: Seq<Seq<u32>>,
    other: Seq<Seq<u32>>,
)
    requires
        is_coverage_of(front, limit, front_lists),
        is_coverage_of(back, limit, back_lists),
    ensures
        is_coverage_of(front + back, limit, front_lists + back_lists),
        is_coverage_of(front, limit, other) ==> other == front_lists,
{
    let files = front + back;
    let lists = front_lists + back_lists;
    assert forall|i: int| 0 <= i < files.len() implies lists[i] == font_coverage(
        #[trigger] files[i],
        limit,
    ) by {
        if i < front.len() {
            assert(files[i] == front[i]);
        } else {
            assert(files[i] == back[i - front.len()]);
        }
    }
    if is_coverage_of(front, limit, other) {
        assert forall|i: int| 0 <= i < other.len() implies other[i] == front_lists[i] by {
            let file = front[i];
        }
        assert(other =~= front_lists);
    }
}

/// The covered codepoints of each font, one list per font in the order given:
/// the font's mapped codepoints below `limit`, in the order in which the
/// character map enumerates them. Fails with the error of the first file that
/// cannot be loaded.
pub fn coverage(fonts: Vec<FontFile>, limit: u32) -> (result: Result<Vec<Vec<u32>>, CoordinateError>)
    ensures
        match result {
            Ok(lists) => {
                &&& all_load(fonts@)
                &&& is_coverage_of(fonts@, limit, lists.deep_view())
            },
            Err(error) => is_load_error(fonts@, error),
        },
{
    let mut lists: Vec<Vec<u32>> = Vec::with_capacity(fonts.len());
    let mut i: usize = 0;
    while i < fonts.len()
        invariant
            i <= fonts.len(),
            lists@.len() == i,
            forall|j: int| 0 <= j < i ==> (#[trigger] fonts@[j]).load_failure() is None,
            forall|j: int| 0 <= j < i ==> lists@[j]@ == font_coverage(#[trigger] fonts@[j], limit),
        decreases fonts.len() - i,
    {
        let font = match open_font(&fonts[i]) {
            Ok(font) => font,
            Err(error) => {
                assert(first_load_failure(fonts@, i as int));
                return Err(error);
            },
        };
        let mapped = charmap_codepoints(&font);
        lists.push(codepoints_under_limit(&mapped, limit));
        i += 1;
    }
    assert(lists.deep_view().len() == fonts@.len());
    assert forall|j: int| 0 <= j < fonts@.len() implies lists.deep_view()[j] == font_coverage(
        #[trigger] fonts@[j],
        limit,
    ) by {
        assert(lists.deep_view()[j] == lists@[j]@);
    }
    Ok(lists)
}

} // verus!
