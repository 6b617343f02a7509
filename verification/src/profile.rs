//! The flat encoding in which the propagation model takes a terrain profile.
//!
//! The model reads a profile from one array: the number of elevation
//! samples, the distance between two samples, and then the samples in path
//! order. The position of each number is part of the model's interface.

use vstd::prelude::*;

verus! {

/// A number handed to the model, described by how it comes from the values
/// of the caller. The caller's measurements may be of any type that converts
/// to double precision without loss; the boundary that calls the model
/// evaluates each quantity in double precision, and up to there no
/// arithmetic on a measurement takes place.
#[derive(Debug, PartialEq)]
pub enum Quantity<T> {
    /// A number of items.
    Count(usize),
    /// A measurement as the caller gave it.
    Measured(T),
    /// A measurement divided by a whole number, which changes its unit.
    Scaled { value: T, divisor: u32 },
}

impl<T: Copy> Clone for Quantity<T> {
    fn clone(&self) -> (copy: Self)
        ensures
            copy == *self,
    {
        *self
    }
}

impl<T: Copy> Copy for Quantity<T> {

}

/// The encoding of the profile with the given sample spacing and elevation
/// samples: the count, the spacing, then every sample in its place.
pub open spec fn profile_layout<T>(spacing: T, samples: Seq<T>) -> Seq<Quantity<T>> {
    Seq::new(
        samples.len() + 2,
        |i: int|
            if i == 0 {
                Quantity::Count(samples.len() as usize)
            } else if i == 1 {
                Quantity::Measured(spacing)
            } else {
                Quantity::Measured(samples[i - 2])
            },
    )
}

/// Encodes a terrain profile for the model. Neither the spacing nor the
/// samples are judged here: the model validates them and reports through its
/// status code.
pub fn encode_profile<T: Copy>(terrain_delta_m: T, terrain: &[T]) -> (pfl: Vec<Quantity<T>>)
    ensures
        pfl@ == profile_layout(terrain_delta_m, terrain@),
        pfl@.len() == terrain@.len() + 2,
        pfl@[0] == Quantity::<T>::Count(terrain@.len() as usize),
        pfl@[1] == Quantity::Measured(terrain_delta_m),
        forall|i: int| 0 <= i < terrain@.len() ==> pfl@[i + 2] == Quantity::Measured(terrain@[i]),
{
    let count: usize = terrain.len();
    let mut pfl: Vec<Quantity<T>> = Vec::new();
    pfl.push(Quantity::Count(count));
    pfl.push(Quantity::Measured(terrain_delta_m));
    let mut next: usize = 0;
    while next < count
        invariant
            count == terrain@.len(),
            next <= count,
            pfl@.len() == next + 2,
            forall|i: int| 0 <= i < pfl@.len() ==> pfl@[i] == profile_layout(terrain_delta_m, terrain@)[i],
        decreases count - next,
    {
        pfl.push(Quantity::Measured(terrain[next]));
        next = next + 1;
    }
    pfl
}

} // verus!
