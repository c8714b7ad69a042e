use vstd::prelude::*;
use vstd::std_specs::ops::{AddSpec, DivSpec, MulSpec, RemSpec, SubSpec};

verus! {

/// The sum of `a` and `b`.
pub fn add<T: core::ops::Add<Output = T> + Copy>(a: T, b: T) -> (r: T)
    requires
        a.add_req(b),
    ensures
        T::obeys_add_spec() ==> r == a.add_spec(b),
{
    a + b
}

/// `a` less `b`.
pub fn subtract<T: core::ops::Sub<Output = T> + Copy>(a: T, b: T) -> (r: T)
    requires
        a.sub_req(b),
    ensures
        T::obeys_sub_spec() ==> r == a.sub_spec(b),
{
    a - b
}

/// The product of `a` and `b`.
pub fn multiply<T: core::ops::Mul<Output = T> + Copy>(a: T, b: T) -> (r: T)
    requires
        a.mul_req(b),
    ensures
        T::obeys_mul_spec() ==> r == a.mul_spec(b),
{
    a * b
}

/// `a` divided by `b`.
pub fn divide<T: core::ops::Div<Output = T> + Copy>(a: T, b: T) -> (r: T)
    requires
        a.div_req(b),
    ensures
        T::obeys_div_spec() ==> r == a.div_spec(b),
{
    a / b
}

/// The remainder of `a` divided by `b`.
pub fn modulo<T: core::ops::Rem<Output = T> + Copy>(a: T, b: T) -> (r: T)
    requires
        a.rem_req(b),
    ensures
        T::obeys_rem_spec() ==> r == a.rem_spec(b),
{
    a % b
}

} // verus!
