use vstd::prelude::*;

verus! {

/// A single pass over what is left of a collection once one element has been
/// borrowed out of it: first the run of elements before that element, then
/// the run after it.
///
/// The pass is lazy and cannot be restarted; each element is handed out once,
/// as an exclusive reference into the collection itself.
pub struct Remainder<'a, T> {
    /// The elements before the borrowed one that have not been handed out yet.
    pub prefix: &'a mut [T],
    /// The elements after the borrowed one that have not been handed out yet.
    pub suffix: &'a mut [T],
}

impl<'a, T> Remainder<'a, T> {
    /// The elements still to be handed out, in the order in which they will be.
    pub open spec fn pending(&self) -> Seq<T> {
        self.prefix@ + self.suffix@
    }

    /// Hands out the next element, or `None` once every element has been
    /// handed out.
    ///
    /// The element comes from the front of `prefix` as long as `prefix` has
    /// one, and from the front of `suffix` after that. Whatever the caller
    /// writes through the reference becomes the first value of that run in
    /// the collection; the rest of the run is what the pass goes on to hold.
    pub fn next(&mut self) -> (item: Option<&'a mut T>)
        ensures
            item is Some <==> old(self).pending().len() > 0,
            item is Some ==> *item.unwrap() == old(self).pending()[0],
            item is Some ==> final(self).pending() == old(self).pending().skip(1),
            old(self).prefix@.len() > 0 ==> {
                &&& final(self).prefix@ == old(self).prefix@.skip(1)
                &&& final(old(self).prefix)@ == seq![*final(item.unwrap())] + final(final(self).prefix)@
                &&& final(self).suffix == old(self).suffix
            },
            old(self).prefix@.len() == 0 && old(self).suffix@.len() > 0 ==> {
                &&& final(self).prefix == old(self).prefix
                &&& final(self).suffix@ == old(self).suffix@.skip(1)
                &&& final(old(self).suffix)@ == seq![*final(item.unwrap())] + final(final(self).suffix)@
            },
            item is None ==> *final(self) == *old(self),
    {
        let mut run: &'a mut [T] = &mut [];
        if self.prefix.len() > 0 {
            core::mem::swap(&mut self.prefix, &mut run);
            let (head, rest) = run.split_at_mut(1);
            let ghost head_after = final(head)@;
            self.prefix = rest;
            let item = head.first_mut();
            proof {
                assert(self.pending() =~= old(self).pending().skip(1));
                assert(head_after =~= seq![*final(item.unwrap())]);
            }
            item
        } else if self.suffix.len() > 0 {
            core::mem::swap(&mut self.suffix, &mut run);
            let (head, rest) = run.split_at_mut(1);
            let ghost head_after = final(head)@;
            self.suffix = rest;
            let item = head.first_mut();
            proof {
                assert(self.pending() =~= old(self).pending().skip(1));
                assert(head_after =~= seq![*final(item.unwrap())]);
            }
            item
        } else {
            None
        }
    }
}

} // verus!
