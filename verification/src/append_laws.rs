//! What concatenation does, stated for lists of every shape.
//!
//! It forms a monoid: the empty list is its unit on both sides and it is
//! associative. And it is what lookup sees: an index that `a` accepts finds
//! in `a.append(b)` what it finds in `a`, and the length of `a` plus an index
//! that `b` accepts finds what that index finds in `b`.
//!
//! Each law is an equation between two values, so both sides must have one
//! type. For a list given only as a type parameter, `Append` and `Nth` alone
//! do not say so; it is shown by induction on the shape of the list. An
//! induction over types is a trait: its supertraits and `where` clause equate
//! the types, an impl for the shortest list is the base case, and an impl for
//! `HCons` is the step, which uses the law for the tail. Every list built
//! from `HNil` and `HCons` has each of these traits wherever the equation can
//! be written down at all.

use crate::hlist::{Append, HCons, HList, HNil, Len, Nth};
use crate::peano::{Add, Nat, Succ, Zero};
use vstd::prelude::*;

verus! {

/// The empty list in front changes nothing.
pub proof fn lemma_append_nil_left<A: HList>(a: A)
    ensures
        HNil.append(a) == a,
{
}

/// Lists that stay the same, in type and value, when the empty list is put
/// behind them.
pub trait AppendNil: Append<HNil, Result = Self> {
    /// The empty list behind changes nothing.
    proof fn lemma_append_nil_right(self)
        ensures
            self.append(HNil) == self,
    ;
}

impl AppendNil for HNil {
    proof fn lemma_append_nil_right(self) {
    }
}

impl<Head, Tail: AppendNil> AppendNil for HCons<Head, Tail> {
    proof fn lemma_append_nil_right(self) {
        self.1.lemma_append_nil_right();
    }
}

/// Lists for which it makes no difference whether `B` is put behind them
/// before `C` is put behind the two, or after `C` was put behind `B`: both
/// ways give one type and one value.
pub trait AppendAssoc<B, C>:
    Append<B>
    + Append<<B as Append<C>>::Result, Result = <<Self as Append<B>>::Result as Append<C>>::Result>
where
    B: Append<C>,
    C: HList,
    <Self as Append<B>>::Result: Append<C>,
{
    /// Concatenation is associative.
    proof fn lemma_append_assoc(self, b: B, c: C)
        ensures
            self.append(b).append(c) == self.append(b.append(c)),
    ;
}

impl<B: Append<C>, C: HList> AppendAssoc<B, C> for HNil {
    proof fn lemma_append_assoc(self, b: B, c: C) {
    }
}

impl<Head, Tail, B, C> AppendAssoc<B, C> for HCons<Head, Tail>
where
    Tail: AppendAssoc<B, C>,
    B: Append<C>,
    C: HList,
    <Tail as Append<B>>::Result: Append<C>,
{
    proof fn lemma_append_assoc(self, b: B, c: C) {
        self.1.lemma_append_assoc(b, c);
    }
}

/// Lists that accept the index `N`, and still do, with the same element
/// type, once `B` is put behind them.
pub trait NthInFront<N: Nat, B: HList>: Nth<N> + Append<B>
where
    <Self as Append<B>>::Result: Nth<N, Result = <Self as Nth<N>>::Result>,
{
    /// An index into `self` finds in `self.append(b)` what it finds in `self`.
    proof fn lemma_nth_in_front(self, b: B, n: &N)
        ensures
            self.append(b).nth(n) == self.nth(n),
    ;
}

impl<Head, Tail: Append<B>, B: HList> NthInFront<Zero, B> for HCons<Head, Tail> {
    proof fn lemma_nth_in_front(self, b: B, n: &Zero) {
    }
}

impl<Head, Tail, M, B> NthInFront<Succ<M>, B> for HCons<Head, Tail>
where
    M: Nat,
    B: HList,
    Tail: NthInFront<M, B>,
    <Tail as Append<B>>::Result: Nth<M, Result = <Tail as Nth<M>>::Result>,
{
    proof fn lemma_nth_in_front(self, b: B, n: &Succ<M>) {
        self.1.lemma_nth_in_front(b, &n.0);
    }
}

/// Lists behind which `B` keeps its element at index `M`: the concatenation
/// accepts the length of `self` plus `M` and has the same element type there.
pub trait NthBehind<B, M>: Append<B> + Len
where
    B: Nth<M>,
    M: Nat,
    <Self as Len>::Result: Add<M>,
    <Self as Append<B>>::Result:
        Nth<<<Self as Len>::Result as Add<M>>::Result, Result = <B as Nth<M>>::Result>,
{
    /// The length of `self` plus an index into `b` finds in `self.append(b)`
    /// what that index finds in `b`.
    proof fn lemma_nth_behind(self, b: B, m: M)
        ensures
            self.append(b).nth(&self.len().add(m)) == b.nth(&m),
            self.len().add(m)@ == self.length() + m@,
    ;
}

impl<B: Nth<M>, M: Nat> NthBehind<B, M> for HNil {
    proof fn lemma_nth_behind(self, b: B, m: M) {
    }
}

impl<Head, Tail, B, M> NthBehind<B, M> for HCons<Head, Tail>
where
    B: Nth<M>,
    M: Nat,
    Tail: NthBehind<B, M>,
    <Tail as Len>::Result: Add<M>,
    <Tail as Append<B>>::Result:
        Nth<<<Tail as Len>::Result as Add<M>>::Result, Result = <B as Nth<M>>::Result>,
{
    proof fn lemma_nth_behind(self, b: B, m: M) {
        self.1.lemma_nth_behind(b, m);
    }
}

} // verus!
