//! One text inside another.

use vstd::prelude::*;

verus! {

/// Whether `part` stands in `whole` at position `at`, character for character.
pub open spec fn occurs_at(part: Seq<char>, whole: Seq<char>, at: int) -> bool {
    &&& 0 <= at
    &&& at + part.len() <= whole.len()
    &&& whole.subrange(at, at + part.len()) == part
}

/// Whether `part` stands somewhere in `whole`, character for character.
pub open spec fn occurs_in(part: Seq<char>, whole: Seq<char>) -> bool {
    exists|at: int| occurs_at(part, whole, at)
}

/// A text stands in whatever is written around it.
pub proof fn lemma_occurs_between(before: Seq<char>, part: Seq<char>, after: Seq<char>)
    ensures
        occurs_in(part, before + part + after),
{
    let whole = before + part + after;
    let at = before.len() as int;
    assert(whole.subrange(at, at + part.len()) =~= part);
    assert(occurs_at(part, whole, at));
}

/// A text stands at the end of whatever is written before it.
pub proof fn lemma_occurs_last(before: Seq<char>, part: Seq<char>)
    ensures
        occurs_in(part, before + part),
{
    lemma_occurs_between(before, part, Seq::empty());
    assert(before + part + Seq::<char>::empty() =~= before + part);
}

} // verus!
