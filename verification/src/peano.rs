//! Unary natural numbers, one type for each number.
//!
//! `Zero` is the number 0 and `Succ<T>` is one more than `T`, so the depth of
//! the `Succ` nesting is the number. The view of such a value is that number
//! as a mathematical `nat`, and every contract here is stated over it.

use vstd::prelude::*;

verus! {

/// The number zero.
pub struct Zero;

/// One more than the number it wraps.
pub struct Succ<T: Nat>(pub T);

/// A unary natural number. Its view is the number it stands for.
pub trait Nat: View<V = nat> {
    /// The number as a machine integer.
    ///
    /// A nesting deeper than `u32::MAX` has no machine integer, so the caller
    /// has to rule it out.
    fn to_int(&self) -> (n: u32)
        requires
            self@ <= u32::MAX,
        ensures
            n == self@,
    ;
}

impl View for Zero {
    type V = nat;

    open spec fn view(&self) -> nat {
        0
    }
}

impl<T: Nat> View for Succ<T> {
    type V = nat;

    open spec fn view(&self) -> nat {
        self.0@ + 1
    }
}

impl Nat for Zero {
    fn to_int(&self) -> (n: u32)
        ensures
            n == 0,
    {
        0
    }
}

impl<T: Nat> Nat for Succ<T> {
    fn to_int(&self) -> (n: u32)
        ensures
            n == self.0@ + 1,
    {
        self.0.to_int() + 1
    }
}

/// Addition of unary numbers, by recursion on the left operand.
///
/// `Result` is the type of the sum, so the sum of two numbers is known
/// before the program runs.
pub trait Add<Other: Nat>: Nat {
    /// The type of the sum.
    type Result: Nat;

    /// The sum as a value, for use in contracts.
    spec fn add_spec(self, other: Other) -> Self::Result;

    /// Addition maps to addition of mathematical numbers.
    proof fn lemma_add_view(self, other: Other)
        ensures
            self.add_spec(other)@ == self@ + other@,
    ;

    /// Adds `other` to `self`.
    #[verifier::when_used_as_spec(add_spec)]
    fn add(self, other: Other) -> (total: Self::Result)
        ensures
            total == self.add_spec(other),
            total@ == self@ + other@,
    ;
}

impl<Other: Nat> Add<Other> for Zero {
    type Result = Other;

    open spec fn add_spec(self, other: Other) -> Other {
        other
    }

    proof fn lemma_add_view(self, other: Other) {
    }

    fn add(self, other: Other) -> (total: Other)
        ensures
            total == other,
    {
        other
    }
}

impl<Nested: Nat + Add<Other>, Other: Nat> Add<Other> for Succ<Nested> {
    type Result = Succ<<Nested as Add<Other>>::Result>;

    open spec fn add_spec(self, other: Other) -> Self::Result {
        Succ(self.0.add_spec(other))
    }

    proof fn lemma_add_view(self, other: Other) {
        self.0.lemma_add_view(other);
    }

    fn add(self, other: Other) -> (total: Self::Result)
        ensures
            total.0 == self.0.add_spec(other),
    {
        Succ(self.0.add(other))
    }
}

/// Zero on the left changes nothing: the sum is the right operand itself.
pub proof fn lemma_add_zero_left<M: Nat>(m: M)
    ensures
        Zero.add(m) == m,
        Zero.add(m)@ == m@,
{
}

/// Zero on the right changes nothing: the sum stands for the same number.
pub proof fn lemma_add_zero_right<M: Add<Zero>>(m: M)
    ensures
        m.add(Zero)@ == m@,
{
    m.lemma_add_view(Zero);
}

/// The order of the operands does not change the number that the sum stands for.
pub proof fn lemma_add_commutes<M: Add<N>, N: Add<M>>(m: M, n: N)
    ensures
        m.add(n)@ == n.add(m)@,
{
    m.lemma_add_view(n);
    n.lemma_add_view(m);
}

} // verus!
