//! Lists that are read front to back: what was read so far, and what
//! reading the rest gives.

use vstd::prelude::*;

verus! {

/// `rest` after `front`, where there is a `rest`.
pub open spec fn prepend<A>(front: Seq<A>, rest: Option<Seq<A>>) -> Option<Seq<A>> {
    match rest {
        Some(rest) => Some(front + rest),
        None => None,
    }
}

/// `rest` after `front`, where there is a `rest`, with the position where
/// the rest ends.
pub open spec fn prepend_to<A>(front: Seq<A>, rest: Option<(Seq<A>, int)>) -> Option<
    (Seq<A>, int),
> {
    match rest {
        Some((rest, end)) => Some((front + rest, end)),
        None => None,
    }
}

/// Nothing in front leaves the rest as it is, and nothing behind leaves
/// the front.
pub proof fn lemma_prepend_empty<A>(front: Seq<A>, rest: Option<Seq<A>>)
    ensures
        prepend(Seq::empty(), rest) == rest,
        prepend(front, Some(Seq::empty())) == Some(front),
{
    if let Some(rest) = rest {
        assert(Seq::<A>::empty() + rest =~= rest);
    }
    assert(front + Seq::empty() =~= front);
}

/// One more in front of the rest is one more at the back of the front.
pub proof fn lemma_prepend_one<A>(front: Seq<A>, one: A, rest: Option<Seq<A>>)
    ensures
        prepend(front, prepend(seq![one], rest)) == prepend(front.push(one), rest),
{
    if let Some(rest) = rest {
        assert(front + (seq![one] + rest) =~= front.push(one) + rest);
    }
}

/// The same, with the position where the rest ends.
pub proof fn lemma_prepend_to_empty<A>(front: Seq<A>, rest: Option<(Seq<A>, int)>, end: int)
    ensures
        prepend_to(Seq::empty(), rest) == rest,
        prepend_to(front, Some((Seq::empty(), end))) == Some((front, end)),
{
    if let Some((rest, end)) = rest {
        assert(Seq::<A>::empty() + rest =~= rest);
    }
    assert(front + Seq::empty() =~= front);
}

/// The same, with the position where the rest ends.
pub proof fn lemma_prepend_to_one<A>(front: Seq<A>, one: A, rest: Option<(Seq<A>, int)>)
    ensures
        prepend_to(front, prepend_to(seq![one], rest)) == prepend_to(front.push(one), rest),
{
    if let Some((rest, end)) = rest {
        assert(front + (seq![one] + rest) =~= front.push(one) + rest);
    }
}

} // verus!
