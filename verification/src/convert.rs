//! Conversion of a whole sequence, element by element.
//!
//! Wherever `U: From<T>` is defined, a `Vec<T>` converts into a `Vec<U>`, and
//! wherever `U: From<&T>` is defined, so does a borrowed slice of `T`. The
//! result has one element for each element of the source, in the same order.

use vstd::prelude::*;
use vstd::std_specs::convert::FromSpec;

verus! {

/// A sequence of `T` that converts into a `Vec<U>` element by element.
pub trait VecConvert<T, U> {
    /// The elements that `convert_vec` converts, in order.
    spec fn source(self) -> Seq<T>;

    /// Whether `u` is a result of the element conversion on `t`.
    spec fn converts(t: T, u: U) -> bool;

    /// Converts every element, keeping length and order.
    fn convert_vec(self) -> (out: Vec<U>)
        ensures
            out@.len() == self.source().len(),
            forall|i: int|
                0 <= i < out@.len() ==> Self::converts(self.source()[i], #[trigger] out@[i]),
    ;
}

impl<T, U> VecConvert<T, U> for Vec<T> where U: From<T> {
    open spec fn source(self) -> Seq<T> {
        self@
    }

    open spec fn converts(t: T, u: U) -> bool {
        call_ensures(U::from, (t,), u)
    }

    /// Converts the vector, consuming it: element `i` of the result is
    /// `U::from` of element `i` of the vector.
    fn convert_vec(self) -> (out: Vec<U>)
        ensures
            out@.len() == self@.len(),
            forall|i: int|
                0 <= i < self@.len() ==> call_ensures(U::from, (self@[i],), #[trigger] out@[i]),
            U::obeys_from_spec() ==> out@ == self@.map_values(|t: T| U::from_spec(t)),
            self@.len() == 0 ==> out@ == Seq::<U>::empty(),
    {
        let ghost src = self@;
        let mut out: Vec<U> = Vec::new();
        for x in it: self.into_iter()
            invariant
                it.seq() == src,
                out@.len() == it.index(),
                forall|i: int|
                    0 <= i < out@.len() ==> call_ensures(U::from, (src[i],), #[trigger] out@[i]),
        {
            out.push(U::from(x));
        }
        assert(U::obeys_from_spec() ==> out@ =~= src.map_values(|t: T| U::from_spec(t)));
        out
    }
}

impl<'a, T, U> VecConvert<&'a T, U> for &'a [T] where U: From<&'a T> {
    open spec fn source(self) -> Seq<&'a T> {
        self@.as_ref()
    }

    open spec fn converts(t: &'a T, u: U) -> bool {
        call_ensures(U::from, (t,), u)
    }

    /// Converts the slice, leaving it with its owner: element `i` of the
    /// result is `U::from` of a reference to element `i` of the slice.
    fn convert_vec(self) -> (out: Vec<U>)
        ensures
            out@.len() == self@.len(),
            forall|i: int|
                0 <= i < self@.len() ==> call_ensures(U::from, (&self@[i],), #[trigger] out@[i]),
            U::obeys_from_spec() ==> out@ == self@.map_values(|t: T| U::from_spec(&t)),
            self@.len() == 0 ==> out@ == Seq::<U>::empty(),
    {
        let mut out: Vec<U> = Vec::new();
        let mut i: usize = 0;
        while i < self.len()
            invariant
                i <= self.len(),
                out@.len() == i,
                forall|k: int|
                    0 <= k < out@.len() ==> call_ensures(U::from, (&self@[k],), #[trigger] out@[k]),
            decreases self.len() - i,
        {
            out.push(U::from(&self[i]));
            i += 1;
        }
        assert(U::obeys_from_spec() ==> out@ =~= self@.map_values(|t: T| U::from_spec(&t)));
        out
    }
}

} // verus!
