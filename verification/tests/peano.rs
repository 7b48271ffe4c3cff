use hlist::peano::{Add, Nat, Succ, Zero};

#[test]
fn zero_plus_zero() {
    assert_eq!(Zero.add(Zero).to_int(), 0);
}

#[test]
fn zero_plus_one() {
    assert_eq!(Zero.add(Succ(Zero)).to_int(), 1);
}

#[test]
fn one_plus_zero() {
    assert_eq!(Succ(Zero).add(Zero).to_int(), 1);
}

#[test]
fn one_plus_one() {
    assert_eq!(Succ(Zero).add(Succ(Zero)).to_int(), 2);
}

#[test]
fn three_plus_four() {
    let three = Succ(Succ(Succ(Zero)));
    let four = Succ(Succ(Succ(Succ(Zero))));
    assert_eq!(three.add(four).to_int(), 7);
}

#[test]
fn to_int_counts_the_nesting() {
    assert_eq!(Zero.to_int(), 0);
    assert_eq!(Succ(Zero).to_int(), 1);
    assert_eq!(Succ(Succ(Succ(Succ(Succ(Zero))))).to_int(), 5);
}

#[test]
fn zero_is_the_unit_of_add() {
    let two = Succ(Succ(Zero));
    assert_eq!(two.add(Zero).to_int(), 2);
    let two = Succ(Succ(Zero));
    assert_eq!(Zero.add(two).to_int(), 2);
}

#[test]
fn add_commutes_on_two_and_three() {
    let left = Succ(Succ(Zero)).add(Succ(Succ(Succ(Zero))));
    let right = Succ(Succ(Succ(Zero))).add(Succ(Succ(Zero)));
    assert_eq!(left.to_int(), 5);
    assert_eq!(right.to_int(), 5);
}

#[test]
fn add_is_plus_on_machine_integers() {
    let m = Succ(Succ(Succ(Succ(Zero))));
    let n = Succ(Succ(Zero));
    let expected = m.to_int() + n.to_int();
    assert_eq!(expected, 6);
    assert_eq!(m.add(n).to_int(), expected);
}

#[test]
fn add_gives_the_sum_as_a_type() {
    let sum: Succ<Succ<Succ<Zero>>> = Succ(Zero).add(Succ(Succ(Zero)));
    assert_eq!(sum.to_int(), 3);
    let nested: Succ<Succ<Zero>> = Succ(Zero).add(Zero).add(Succ(Zero));
    assert_eq!(nested.to_int(), 2);
}
