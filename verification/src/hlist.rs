//! Heterogeneous lists whose length and element types are part of the type.
//!
//! `HNil` is the empty list and `HCons<Head, Tail>` puts one element in front
//! of the list `Tail`. Concatenation, length and lookup are defined by
//! recursion on that shape, each as a trait with one impl for every shape it
//! accepts. A lookup past the end of a list has no impl, so it does not
//! compile; `Nth::lemma_nth_in_range` states this as a theorem.

use crate::peano::{Nat, Succ, Zero};
use vstd::prelude::*;

verus! {

/// The empty list.
#[derive(PartialEq, Eq, Debug)]
pub struct HNil;

/// A list with the element `.0` in front of the list `.1`.
#[derive(PartialEq, Eq, Debug)]
pub struct HCons<Head, Tail: HList>(pub Head, pub Tail);

/// A heterogeneous list.
pub trait HList {
    /// The number of elements: how many `HCons` layers the list has.
    spec fn length(&self) -> nat;
}

impl HList for HNil {
    open spec fn length(&self) -> nat {
        0
    }
}

impl<Head, Tail: HList> HList for HCons<Head, Tail> {
    open spec fn length(&self) -> nat {
        self.1.length() + 1
    }
}

/// Concatenation: the elements of `self`, then those of `Other`, in order.
///
/// `Result` is the type of the concatenation, so the element types of the
/// result are known before the program runs.
pub trait Append<Other: HList>: HList {
    /// The type of the concatenation.
    type Result: HList;

    /// The concatenation as a value, for use in contracts.
    spec fn append_spec(self, other: Other) -> Self::Result;

    /// The concatenation has the elements of both lists and no more.
    proof fn lemma_append_length(self, other: Other)
        ensures
            self.append_spec(other).length() == self.length() + other.length(),
    ;

    /// Puts `other` behind `self`.
    #[verifier::when_used_as_spec(append_spec)]
    fn append(self, other: Other) -> (joined: Self::Result)
        ensures
            joined == self.append_spec(other),
            joined.length() == self.length() + other.length(),
    ;
}

impl<Other: HList> Append<Other> for HNil {
    type Result = Other;

    open spec fn append_spec(self, other: Other) -> Other {
        other
    }

    proof fn lemma_append_length(self, other: Other) {
    }

    fn append(self, other: Other) -> (joined: Other)
        ensures
            joined == other,
    {
        other
    }
}

impl<Head, Tail: HList + Append<Other>, Other: HList> Append<Other> for HCons<Head, Tail> {
    type Result = HCons<Head, <Tail as Append<Other>>::Result>;

    open spec fn append_spec(self, other: Other) -> Self::Result {
        HCons(self.0, self.1.append_spec(other))
    }

    proof fn lemma_append_length(self, other: Other) {
        self.1.lemma_append_length(other);
    }

    fn append(self, other: Other) -> (joined: Self::Result)
        ensures
            joined.0 == self.0,
            joined.1 == self.1.append_spec(other),
    {
        HCons(self.0, self.1.append(other))
    }
}

/// The length of a list as a unary number whose type is fixed by the list's type.
pub trait Len: HList {
    /// The type of the length.
    type Result: Nat;

    /// The length as a value, for use in contracts.
    spec fn len_spec(&self) -> Self::Result;

    /// The length stands for the number of elements.
    proof fn lemma_len_view(&self)
        ensures
            self.len_spec()@ == self.length(),
    ;

    /// Counts the elements. The list is only read.
    #[verifier::when_used_as_spec(len_spec)]
    fn len(&self) -> (n: Self::Result)
        ensures
            n == self.len_spec(),
            n@ == self.length(),
    ;
}

impl Len for HNil {
    type Result = Zero;

    open spec fn len_spec(&self) -> Zero {
        Zero
    }

    proof fn lemma_len_view(&self) {
    }

    fn len(&self) -> (n: Zero)
        ensures
            n@ == 0,
    {
        Zero
    }
}

impl<Head, Tail: HList + Len> Len for HCons<Head, Tail> {
    type Result = Succ<<Tail as Len>::Result>;

    open spec fn len_spec(&self) -> Self::Result {
        Succ(self.1.len_spec())
    }

    proof fn lemma_len_view(&self) {
        self.1.lemma_len_view();
    }

    fn len(&self) -> (n: Self::Result)
        ensures
            n@ == self.1.length() + 1,
    {
        Succ(self.1.len())
    }
}

/// Lookup by a unary index `N`, counting from zero at the head.
///
/// The trait has an impl only where the index is less than the length of the
/// list, so `Result`, the type of the element found, always exists.
pub trait Nth<N: Nat>: HList {
    /// The type of the element at index `N`.
    type Result;

    /// The element at index `n`, for use in contracts.
    spec fn nth_spec(&self, n: &N) -> &Self::Result;

    /// Every index that a list accepts lies inside the list.
    proof fn lemma_nth_in_range(&self, n: &N)
        ensures
            n@ < self.length(),
    ;

    /// Borrows the element at index `n`.
    #[verifier::when_used_as_spec(nth_spec)]
    fn nth(&self, n: &N) -> (found: &Self::Result)
        ensures
            found == self.nth_spec(n),
    ;
}

impl<Head, Tail: HList> Nth<Zero> for HCons<Head, Tail> {
    type Result = Head;

    open spec fn nth_spec(&self, n: &Zero) -> &Head {
        &self.0
    }

    proof fn lemma_nth_in_range(&self, n: &Zero) {
    }

    fn nth(&self, _n: &Zero) -> (found: &Head)
        ensures
            *found == self.0,
    {
        &self.0
    }
}

impl<Nested: Nat, Head, Tail: HList + Nth<Nested>> Nth<Succ<Nested>> for HCons<Head, Tail> {
    type Result = <Tail as Nth<Nested>>::Result;

    open spec fn nth_spec(&self, n: &Succ<Nested>) -> &Self::Result {
        self.1.nth_spec(&n.0)
    }

    proof fn lemma_nth_in_range(&self, n: &Succ<Nested>) {
        self.1.lemma_nth_in_range(&n.0);
    }

    fn nth(&self, n: &Succ<Nested>) -> (found: &Self::Result)
        ensures
            found == self.1.nth_spec(&n.0),
    {
        self.1.nth(&n.0)
    }
}

} // verus!
