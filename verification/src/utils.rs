//! Small things used across the crate.

use vstd::prelude::*;

verus! {

/// Whether the focused control was activated in the current frame.
#[derive(Clone, Copy, Debug, Default, PartialEq, Eq, Structural)]
pub struct Activated(pub bool);

/// The same items in the opposite order.
pub fn reversed<T>(items: Vec<T>) -> (turned: Vec<T>)
    ensures
        turned@ == items@.reverse(),
{
    let ghost all = items@;
    let mut rest = items;
    let mut turned: Vec<T> = Vec::new();
    while rest.len() > 0
        invariant
            rest@.len() <= all.len(),
            rest@ == all.take(rest@.len() as int),
            turned@.len() == all.len() - rest@.len(),
            forall|j: int| 0 <= j < turned@.len() ==> turned@[j] == all[all.len() - 1 - j],
        decreases rest@.len(),
    {
        let item = rest.pop().unwrap();
        turned.push(item);
    }
    assert(turned@ =~= all.reverse());
    turned
}

/// What taking the last item off a reversed tail amounts to: the item
/// is the first of the tail, and what is left is the rest of the tail,
/// reversed.
pub proof fn reversed_tail_pops_first<T>(all: Seq<T>, i: int)
    requires
        0 <= i < all.len(),
    ensures
        all.skip(i).reverse().last() == all[i],
        all.skip(i).reverse().drop_last() == all.skip(i + 1).reverse(),
        all.skip(i).first() == all[i],
        all.skip(i).drop_first() == all.skip(i + 1),
{
    let tail = all.skip(i);
    assert(tail.reverse()[tail.len() - 1] == tail[0]);
    assert(tail.reverse().drop_last() =~= all.skip(i + 1).reverse());
    assert(tail.drop_first() =~= all.skip(i + 1));
}

} // verus!
