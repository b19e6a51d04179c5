//! A list with a fixed capacity that is stored inline and can be copied.
use vstd::prelude::*;

verus! {

/// An ordered list of at most `N` items.
///
/// Its view is the sequence of the items, oldest first.
#[derive(Copy, Debug)]
pub struct Array<T: Copy, const N: usize> {
    slots: [Option<T>; N],
    len: usize,
}

impl<T: Copy, const N: usize> Clone for Array<T, N> {
    fn clone(&self) -> (array: Self)
        ensures
            array == *self,
    {
        *self
    }
}

impl<T: Copy, const N: usize> View for Array<T, N> {
    type V = Seq<T>;

    closed spec fn view(&self) -> Seq<T> {
        Seq::new(self.len as nat, |i: int| self.slots@[i]->0)
    }
}

impl<T: Copy, const N: usize> Array<T, N> {
    #[verifier::type_invariant]
    spec fn well_formed(self) -> bool {
        &&& self.len <= N
        &&& forall|i: int| 0 <= i < self.len ==> (#[trigger] self.slots@[i]) is Some
    }

    /// The empty list.
    pub fn new() -> (array: Self)
        ensures
            array@ == Seq::<T>::empty(),
    {
        let array = Array { slots: [None; N], len: 0 };
        assert(array@ =~= Seq::<T>::empty());
        array
    }

    /// The number of items.
    pub fn len(&self) -> (n: usize)
        ensures
            n == self@.len(),
            n <= N,
    {
        proof {
            use_type_invariant(self);
        }
        self.len
    }

    pub fn is_empty(&self) -> (empty: bool)
        ensures
            empty == (self@.len() == 0),
    {
        self.len == 0
    }

    /// The item at `index`, if there is one.
    pub fn get(&self, index: usize) -> (item: Option<T>)
        ensures
            item == if index < self@.len() {
                Some(self@[index as int])
            } else {
                None
            },
    {
        proof {
            use_type_invariant(self);
        }
        if index < self.len {
            self.slots[index]
        } else {
            None
        }
    }

    /// The list with `value` added at the end; a full list is returned as it is.
    pub fn pushed(self, value: T) -> (array: Self)
        ensures
            array@ == if self@.len() < N {
                self@.push(value)
            } else {
                self@
            },
    {
        proof {
            use_type_invariant(self);
        }
        if self.len < N {
            let mut slots = self.slots;
            slots[self.len] = Some(value);
            let array = Array { slots, len: self.len + 1 };
            assert(array@ =~= self@.push(value));
            array
        } else {
            self
        }
    }

    /// Adds `value` at the end, unless the list is full.
    pub fn push(&mut self, value: T)
        ensures
            final(self)@ == if old(self)@.len() < N {
                old(self)@.push(value)
            } else {
                old(self)@
            },
    {
        *self = self.pushed(value);
    }

    /// The first `N` items of `items`, in their order.
    pub fn from_slice(items: &[T]) -> (array: Self)
        ensures
            array@ == if items@.len() <= N {
                items@
            } else {
                items@.take(N as int)
            },
    {
        let mut array = Self::new();
        let mut i: usize = 0;
        while i < items.len() && i < N
            invariant
                i <= items@.len(),
                i <= N,
                array@ == items@.take(i as int),
            decreases items@.len() - i,
        {
            array = array.pushed(items[i]);
            assert(array@ =~= items@.take(i + 1));
            i = i + 1;
        }
        assert(items@.len() <= N ==> items@.take(i as int) =~= items@);
        array
    }
}

} // verus!
