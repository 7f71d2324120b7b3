use vstd::prelude::*;

verus! {

/// The elements of `s` that stand before position `index`.
pub open spec fn before<T>(s: Seq<T>, index: int) -> Seq<T> {
    s.subrange(0, index)
}

/// The elements of `s` that stand after position `index`.
pub open spec fn after<T>(s: Seq<T>, index: int) -> Seq<T> {
    s.subrange(index + 1, s.len() as int)
}

/// Every element of `s` but the one at position `index`, in the order of `s`.
pub open spec fn others<T>(s: Seq<T>, index: int) -> Seq<T> {
    before(s, index) + after(s, index)
}

/// The sequence made of `prefix`, then `focal`, then `suffix`.
pub open spec fn rejoin<T>(prefix: Seq<T>, focal: T, suffix: Seq<T>) -> Seq<T> {
    prefix.push(focal) + suffix
}

/// Leaving out one element leaves one element fewer: the two runs around a
/// position of `s` hold `s.len() - 1` elements between them.
pub proof fn law_remainder_count<T>(s: Seq<T>, index: int)
    requires
        0 <= index < s.len(),
    ensures
        before(s, index).len() == index,
        after(s, index).len() == s.len() - 1 - index,
        before(s, index).len() + after(s, index).len() == s.len() - 1,
        others(s, index).len() == s.len() - 1,
{
}

/// The remainder keeps the order of `s` and skips nothing but `index`: its
/// `k`-th element is the `k`-th element of `s` before `index`, and the one
/// at `k + 1` from there on. So the elements before `index` come first, then
/// those after it, each one once.
pub proof fn law_remainder_order<T>(s: Seq<T>, index: int)
    requires
        0 <= index < s.len(),
    ensures
        others(s, index) == s.remove(index),
        forall|k: int| 0 <= k < index ==> #[trigger] others(s, index)[k] == s[k],
        forall|k: int| index <= k < s.len() - 1 ==> #[trigger] others(s, index)[k] == s[k + 1],
        forall|j: int| 0 <= j < index ==> #[trigger] s[j] == before(s, index)[j],
        forall|j: int| index < j < s.len() ==> #[trigger] s[j] == after(s, index)[j - index - 1],
{
    assert(others(s, index) =~= s.remove(index));
}

/// Taking a sequence apart at a position and putting the three parts
/// together again, untouched, gives the sequence back.
pub proof fn law_rejoin_unchanged<T>(s: Seq<T>, index: int)
    requires
        0 <= index < s.len(),
    ensures
        rejoin(before(s, index), s[index], after(s, index)) == s,
{
    assert(rejoin(before(s, index), s[index], after(s, index)) =~= s);
}

/// No write is lost and none lands twice: in the sequence put together
/// again, the position after `prefix` holds `focal`, every position before
/// it holds the element of `prefix` at that position, and every position
/// after it holds the element of `suffix` that stands as far behind the
/// focal position.
pub proof fn law_rejoin_positions<T>(prefix: Seq<T>, focal: T, suffix: Seq<T>)
    ensures
        rejoin(prefix, focal, suffix).len() == prefix.len() + 1 + suffix.len(),
        rejoin(prefix, focal, suffix)[prefix.len() as int] == focal,
        forall|j: int|
            0 <= j < prefix.len() ==> #[trigger] rejoin(prefix, focal, suffix)[j] == prefix[j],
        forall|j: int|
            prefix.len() < j <= prefix.len() + suffix.len() ==> #[trigger] rejoin(
                prefix,
                focal,
                suffix,
            )[j] == suffix[j - prefix.len() - 1],
        before(rejoin(prefix, focal, suffix), prefix.len() as int) == prefix,
        after(rejoin(prefix, focal, suffix), prefix.len() as int) == suffix,
{
    let whole = rejoin(prefix, focal, suffix);
    assert(before(whole, prefix.len() as int) =~= prefix);
    assert(after(whole, prefix.len() as int) =~= suffix);
}

/// At the first position nothing stands before the focal element, and all
/// the other elements stand after it.
pub proof fn law_first_position<T>(s: Seq<T>)
    requires
        s.len() >= 1,
    ensures
        before(s, 0) == Seq::<T>::empty(),
        after(s, 0) == s.skip(1),
        after(s, 0).len() == s.len() - 1,
{
    assert(before(s, 0) =~= Seq::<T>::empty());
    assert(after(s, 0) =~= s.skip(1));
}

/// At the last position nothing stands after the focal element, and all the
/// other elements stand before it.
pub proof fn law_last_position<T>(s: Seq<T>)
    requires
        s.len() >= 1,
    ensures
        after(s, s.len() - 1) == Seq::<T>::empty(),
        before(s, s.len() - 1) == s.drop_last(),
        before(s, s.len() - 1).len() == s.len() - 1,
{
    assert(after(s, s.len() - 1) =~= Seq::<T>::empty());
    assert(before(s, s.len() - 1) =~= s.drop_last());
}

} // verus!
