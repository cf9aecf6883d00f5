use vstd::prelude::*;

use crate::text::{append, decimal, joined, list_text};

verus! {

/// A stack of at most `N` items kept in a fixed array, with the number of
/// items held beside it. Items are pushed at index `n_items` and popped from
/// the top, so the buffer hands out the most recent item first.
pub struct BoundedBuffer<const N: usize> {
    array: [isize; N],
    n_items: usize,
}

impl<const N: usize> View for BoundedBuffer<N> {
    type V = Seq<isize>;

    /// The items held, bottom first.
    closed spec fn view(&self) -> Seq<isize> {
        self.array@.subrange(0, self.n_items as int)
    }
}

impl<const N: usize> BoundedBuffer<N> {
    #[verifier::type_invariant]
    spec fn inv(self) -> bool {
        self.n_items <= N
    }

    /// An empty buffer.
    pub fn new() -> (r: Self)
        ensures
            r@ == Seq::<isize>::empty(),
    {
        BoundedBuffer { array: [0; N], n_items: 0 }
    }

    /// Whether no item is held.
    pub fn empty(&self) -> (r: bool)
        ensures
            r == (self@.len() == 0),
            self@.len() <= N,
    {
        proof {
            use_type_invariant(self);
        }
        self.n_items == 0
    }

    /// Whether all `N` slots are taken.
    pub fn full(&self) -> (r: bool)
        ensures
            r == (self@.len() == N),
            self@.len() <= N,
    {
        proof {
            use_type_invariant(self);
        }
        self.n_items == N
    }

    /// The number of items held.
    pub fn len(&self) -> (r: usize)
        ensures
            r == self@.len(),
            r <= N,
    {
        proof {
            use_type_invariant(self);
        }
        self.n_items
    }

    /// Puts `item` on top of the held items.
    pub fn push(&mut self, item: isize)
        requires
            old(self)@.len() < N,
        ensures
            final(self)@ == old(self)@.push(item),
    {
        proof {
            use_type_invariant(&*self);
        }
        self.array[self.n_items] = item;
        self.n_items = self.n_items + 1;
        assert(self@ =~= old(self)@.push(item));
    }

    /// Takes the top item off and returns it.
    pub fn pop(&mut self) -> (r: isize)
        requires
            old(self)@.len() > 0,
        ensures
            r == old(self)@.last(),
            final(self)@ == old(self)@.drop_last(),
    {
        proof {
            use_type_invariant(&*self);
        }
        self.n_items = self.n_items - 1;
        assert(self@ =~= old(self)@.drop_last());
        self.array[self.n_items]
    }

    /// The held items, bottom first, as a bracketed list separated by
    /// commas: `[1, 2, 3]`, or `[]` when the buffer is empty.
    pub fn to_string(&self) -> (r: String)
        ensures
            r@ == list_text(self@),
    {
        proof {
            use_type_invariant(self);
            reveal_strlit("[");
            reveal_strlit("]");
        }
        let mut s = String::new();
        append(&mut s, "[");
        let mut i: usize = 0;
        while i < self.n_items
            invariant
                i <= self.n_items <= N,
                s@ == seq!['['] + joined(self@.subrange(0, i as int)),
            decreases self.n_items - i,
        {
            let ghost before = s@;
            proof {
                reveal_strlit(", ");
            }
            if i > 0 {
                append(&mut s, ", ");
            }
            let d = decimal(self.array[i]);
            append(&mut s, d.as_str());
            proof {
                let prev = self@.subrange(0, i as int);
                let next = self@.subrange(0, i + 1);
                assert(next.drop_last() =~= prev);
                assert(next.last() == self.array@[i as int]);
                if i == 0 {
                    assert(s@ =~= seq!['['] + joined(next));
                } else {
                    assert(s@ =~= before + seq![',', ' '] + d@);
                    assert(s@ =~= seq!['['] + joined(next));
                }
            }
            i = i + 1;
        }
        assert(self@.subrange(0, i as int) =~= self@);
        append(&mut s, "]");
        s
    }
}

impl<const N: usize> Default for BoundedBuffer<N> {
    fn default() -> (r: Self)
        ensures
            r@ == Seq::<isize>::empty(),
    {
        Self::new()
    }
}

} // verus!
