use std::cell::OnceCell;
use vstd::prelude::*;

verus! {

/// `std::cell::OnceCell`, which `Lazy` carries without looking inside.
#[verifier::external_type_specification]
#[verifier::external_body]
#[verifier::reject_recursive_types(T)]
pub struct ExOnceCell<T>(OnceCell<T>);

/// A value that is either known from the start or computed on first use and kept.
#[derive(Debug)]
#[verifier::reject_recursive_types(T)]
pub enum Lazy<T> {
    Lazy(OnceCell<T>),
    Eager(T),
}

impl<T: Copy> Lazy<T> {
    /// The held value; a lazy cell that is still empty takes `value` first.
    pub fn get_or_init(&self, value: T) -> (r: T)
        ensures
            self matches Lazy::Eager(v) ==> r == v,
    {
        match self {
            Lazy::Lazy(inner) => cell_get_or_init(inner, value),
            Lazy::Eager(inner) => *inner,
        }
    }
}

/// Relies on `std::cell::OnceCell::get_or_init`: it hands back what the cell holds, storing
/// `value` first where the cell is empty. What an earlier call stored is not visible here, so
/// nothing is stated of the result.
#[verifier::external_body]
fn cell_get_or_init<T: Copy>(cell: &OnceCell<T>, value: T) -> T {
    *cell.get_or_init(|| value)
}

} // verus!
