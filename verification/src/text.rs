//! Small facts about texts as sequences of characters.

use vstd::prelude::*;

verus! {

/// Whether `needle` occurs in `text` as a run of consecutive characters.
pub open spec fn contains_text(text: Seq<char>, needle: Seq<char>) -> bool {
    exists|at: int|
        0 <= at && at + needle.len() <= text.len() && #[trigger] text.subrange(
            at,
            at + needle.len(),
        ) == needle
}

/// A text put between two others occurs in the whole.
pub proof fn lemma_middle_is_contained(before: Seq<char>, middle: Seq<char>, after: Seq<char>)
    ensures
        contains_text(before + middle + after, middle),
{
    let whole = before + middle + after;
    let at = before.len() as int;
    assert(whole.subrange(at, at + middle.len()) =~= middle);
}

/// The last of two joined texts occurs in the whole.
pub proof fn lemma_end_is_contained(before: Seq<char>, end: Seq<char>)
    ensures
        contains_text(before + end, end),
{
    let whole = before + end;
    let at = before.len() as int;
    assert(whole.subrange(at, at + end.len()) =~= end);
}

} // verus!
