//! A vector with a fixed capacity, for the parameters of an escape sequence.
use vstd::prelude::*;

use crate::ui::screen::join_seq;

verus! {

/// At most `N` items.
pub struct Vec<T, const N: usize> {
    items: std::vec::Vec<T>,
}

impl<T, const N: usize> View for Vec<T, N> {
    type V = Seq<T>;

    closed spec fn view(&self) -> Seq<T> {
        self.items@
    }
}

impl<T, const N: usize> Vec<T, N> {
    pub fn new() -> (v: Self)
        ensures
            v@ == Seq::<T>::empty(),
    {
        Vec { items: std::vec::Vec::new() }
    }

    /// Appends an item if there is room; otherwise the item is refused.
    pub fn push(&mut self, value: T) -> (r: Result<(), ()>)
        ensures
            old(self)@.len() < N ==> r is Ok && final(self)@ == old(self)@.push(value),
            old(self)@.len() >= N ==> r is Err && final(self)@ == old(self)@,
    {
        if self.items.len() < N {
            self.items.push(value);
            Ok(())
        } else {
            Err(())
        }
    }

    pub fn is_empty(&self) -> (b: bool)
        ensures
            b == (self@.len() == 0),
    {
        self.items.len() == 0
    }
}

impl<'a, const N: usize> Vec<&'a str, N> {
    /// The texts held.
    pub open spec fn str_views(&self) -> Seq<Seq<char>> {
        self@.map_values(|s: &str| s@)
    }

    /// The items joined by `sep`.
    pub fn join(&self, sep: &str) -> (out: String)
        ensures
            out@ == join_seq(self.str_views(), sep@),
    {
        let mut out = String::new();
        let mut i: usize = 0;
        let ghost parts = self.str_views();
        assert(parts.take(0) =~= Seq::<Seq<char>>::empty());
        while i < self.items.len()
            invariant
                i <= self.items.len(),
                parts == self.str_views(),
                self@ == self.items@,
                out@ == join_seq(parts.take(i as int), sep@),
            decreases self.items.len() - i,
        {
            if i > 0 {
                out.append(sep);
            }
            out.append(self.items[i]);
            proof {
                assert(parts.take(i + 1).drop_last() =~= parts.take(i as int));
                if i == 0 {
                    assert(out@ =~= join_seq(parts.take(1), sep@));
                }
            }
            i = i + 1;
        }
        assert(parts.take(i as int) =~= parts);
        out
    }
}

} // verus!
