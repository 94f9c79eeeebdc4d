//! A sequence that allocates only once it holds two items.
use vstd::prelude::*;

verus! {

pub enum MaybeVec<T> {
    Empty,
    One(T),
    Vec(Vec<T>),
}

impl<T> View for MaybeVec<T> {
    type V = Seq<T>;

    open spec fn view(&self) -> Seq<T> {
        match self {
            MaybeVec::Empty => Seq::empty(),
            MaybeVec::One(x) => seq![*x],
            MaybeVec::Vec(v) => v@,
        }
    }
}

impl<T> Default for MaybeVec<T> {
    fn default() -> (r: Self)
        ensures
            r@ == Seq::<T>::empty(),
    {
        MaybeVec::Empty
    }
}

impl<T> MaybeVec<T> {
    /// Adds `value` at the end.
    #[must_use]
    pub fn push(self, value: T) -> (r: Self)
        ensures
            r@ == self@.push(value),
    {
        match self {
            MaybeVec::Empty => {
                assert(seq![value] =~= Seq::<T>::empty().push(value));
                MaybeVec::One(value)
            },
            MaybeVec::One(previous) => {
                let mut list = Vec::new();
                list.push(previous);
                list.push(value);
                assert(list@ =~= seq![previous].push(value));
                MaybeVec::Vec(list)
            },
            MaybeVec::Vec(mut list) => {
                list.push(value);
                MaybeVec::Vec(list)
            },
        }
    }

    /// Takes the last item off, if there is one.
    #[must_use]
    pub fn pop(self) -> (r: (Self, Option<T>))
        ensures
            self@.len() == 0 ==> r.0@ == self@ && r.1 is None,
            self@.len() > 0 ==> r.0@ == self@.drop_last() && r.1 == Some(self@.last()),
    {
        match self {
            MaybeVec::Empty => (MaybeVec::Empty, None),
            MaybeVec::One(previous) => {
                assert(seq![previous].drop_last() =~= Seq::<T>::empty());
                (MaybeVec::Empty, Some(previous))
            },
            MaybeVec::Vec(mut list) => {
                let value = list.pop();
                (MaybeVec::Vec(list), value)
            },
        }
    }
}

} // verus!
