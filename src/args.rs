//! The arguments of one call that have not been claimed yet.
use vstd::prelude::*;
use vstd::string::*;

use crate::span::{Span, Spanned};

verus! {

/// A keyed argument: `key: value`.
#[derive(Debug)]
pub struct Pair<V> {
    pub key: Spanned<String>,
    pub value: Spanned<V>,
}

/// The unclaimed arguments of a call.
///
/// Positional arguments keep their order at the call site; keyed arguments
/// keep the order in which the producer inserted them. Whoever builds the bag
/// decides what a repeated key means; claiming a key takes its first entry.
#[derive(Debug)]
pub struct FuncArgs<V> {
    pub pos: Vec<Spanned<V>>,
    pub key: Vec<Spanned<Pair<V>>>,
}

/// The spans of a sequence of positional arguments, in order.
pub open spec fn pos_spans<V>(pos: Seq<Spanned<V>>) -> Seq<Span> {
    pos.map_values(|a: Spanned<V>| a.span)
}

/// The spans of a sequence of keyed arguments, in order.
pub open spec fn key_spans<V>(key: Seq<Spanned<Pair<V>>>) -> Seq<Span> {
    key.map_values(|a: Spanned<Pair<V>>| a.span)
}

/// Whether the keyed entry at index `i` has the name `name`.
pub open spec fn key_is<V>(key: Seq<Spanned<Pair<V>>>, i: int, name: Seq<char>) -> bool {
    key[i].v.key.v@ == name
}

impl<V> FuncArgs<V> {
    /// A bag with no arguments.
    pub fn new() -> (r: FuncArgs<V>)
        ensures
            r.pos@ == Seq::<Spanned<V>>::empty(),
            r.key@ == Seq::<Spanned<Pair<V>>>::empty(),
    {
        FuncArgs { pos: Vec::new(), key: Vec::new() }
    }

    /// Claims the first positional argument, if there is one.
    pub fn take_pos(&mut self) -> (r: Option<Spanned<V>>)
        ensures
            final(self).key@ == old(self).key@,
            old(self).pos@.len() == 0 ==> r is None && final(self).pos@ == old(self).pos@,
            old(self).pos@.len() > 0 ==> r == Some(old(self).pos@[0]) && final(self).pos@
                == old(self).pos@.drop_first(),
    {
        if self.pos.len() == 0 {
            None
        } else {
            let a = self.pos.remove(0);
            proof {
                assert(final(self).pos@ =~= old(self).pos@.drop_first());
            }
            Some(a)
        }
    }

    /// Claims the value of the first keyed argument named `name`, if there is
    /// one.
    pub fn take_key(&mut self, name: &str) -> (r: Option<Spanned<V>>)
        ensures
            final(self).pos@ == old(self).pos@,
            (forall|i: int| 0 <= i < old(self).key@.len() ==> !key_is(old(self).key@, i, name@))
                ==> r is None && final(self).key@ == old(self).key@,
            forall|i: int|
                0 <= i < old(self).key@.len() && key_is(old(self).key@, i, name@) && (forall|j: int|
                    0 <= j < i ==> !key_is(old(self).key@, j, name@)) ==> r == Some(
                    old(self).key@[i].v.value,
                ) && final(self).key@ == old(self).key@.remove(i),
    {
        let wanted = String::from_str(name);
        let mut i: usize = 0;
        while i < self.key.len()
            invariant
                *self == *old(self),
                wanted@ == name@,
                0 <= i <= self.key@.len(),
                forall|j: int| 0 <= j < i ==> !key_is(self.key@, j, name@),
            decreases self.key@.len() - i,
        {
            if self.key[i].v.key.v == wanted {
                proof {
                    let ghost old_key = old(self).key@;
                    assert(key_is(old_key, i as int, name@));
                    assert forall|k: int|
                        0 <= k < old_key.len() && key_is(old_key, k, name@) && (forall|j: int|
                            0 <= j < k ==> !key_is(old_key, j, name@)) implies k == i by {
                        if k > i {
                            assert(!key_is(old_key, i as int, name@));
                        }
                    }
                }
                let entry = self.key.remove(i);
                return Some(entry.v.value);
            }
            i = i + 1;
        }
        None
    }
}

} // verus!
