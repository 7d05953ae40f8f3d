//! The shader-data capability contract: an indexable array of typed
//! values a shading stage can see, updated in place and never resized.
//!
//! Point access past the capacity is a normal "no value" result, never an
//! error: the caller checks the boundary. A ranged update overwrites
//! exactly its half-open interval and is refused — leaving every element
//! untouched — when the interval would leave the capacity.

use vstd::prelude::*;

verus! {

/// Errors that might happen when working with shader data.
#[non_exhaustive]
#[derive(Clone, Debug, Eq, PartialEq)]
pub enum ShaderDataError {
    /// The backend could not allocate the array; the payload says why.
    AllocationFailed(String),
    /// A ranged update would leave the capacity; the payload says why.
    UpdateError(String),
}

/// The shader-data capability contract: what any backend must do for a
/// shader-visible array of values of type `T`.
pub trait ShaderData<T: Copy>: Sized {
    /// The backend's representation of one shader-visible array.
    type ShaderDataRepr;

    /// Well-formedness of a representation.
    spec fn data_inv(d: &Self::ShaderDataRepr) -> bool;

    /// The values the array holds. Its length is the capacity, fixed at
    /// construction for the lifetime of the resource.
    spec fn data_view(d: &Self::ShaderDataRepr) -> Seq<T>;

    /// Whether the backend can allocate another array.
    spec fn can_allocate_data(&self) -> bool;

    /// Build a new shader-visible array from initial values; their
    /// number fixes the capacity once and for all.
    fn new_shader_data(&mut self, values: Vec<T>) -> (r: Result<
        Self::ShaderDataRepr,
        ShaderDataError,
    >)
        ensures
            r is Ok <==> old(self).can_allocate_data(),
            r matches Ok(d) ==> Self::data_inv(&d) && Self::data_view(&d) == values@,
            r matches Err(e) ==> e is AllocationFailed && *final(self) == *old(self),
    ;

    /// The value at index `i`, or no value when `i` is at or past the
    /// capacity. Never an error.
    fn get_shader_data(d: &Self::ShaderDataRepr, i: usize) -> (r: Option<T>)
        requires
            Self::data_inv(d),
        ensures
            r == if i < Self::data_view(d).len() {
                Some(Self::data_view(d)[i as int])
            } else {
                Option::<T>::None
            },
    ;

    /// Set the value at index `i`; no value is set, and none is
    /// reported, when `i` is at or past the capacity. Never an error.
    fn set_shader_data(d: &mut Self::ShaderDataRepr, i: usize, x: T) -> (r: Option<()>)
        requires
            Self::data_inv(old(d)),
        ensures
            Self::data_inv(final(d)),
            i < Self::data_view(old(d)).len() ==> r == Some(()) && Self::data_view(final(d))
                == Self::data_view(old(d)).update(i as int, x),
            i >= Self::data_view(old(d)).len() ==> r is None && Self::data_view(final(d))
                == Self::data_view(old(d)),
    ;

    /// Overwrite exactly the interval `[i, i + values.len())`, leaving
    /// every element outside it untouched; refused, with nothing
    /// changed, when the interval would leave the capacity.
    fn update_shader_data(d: &mut Self::ShaderDataRepr, i: usize, values: Vec<T>) -> (r: Result<
        (),
        ShaderDataError,
    >)
        requires
            Self::data_inv(old(d)),
        ensures
            Self::data_inv(final(d)),
            r is Ok <==> i + values@.len() <= Self::data_view(old(d)).len(),
            r matches Err(e) ==> e is UpdateError && Self::data_view(final(d)) == Self::data_view(
                old(d),
            ),
            r is Ok ==> {
                &&& Self::data_view(final(d)).len() == Self::data_view(old(d)).len()
                &&& forall|j: int|
                    0 <= j < i ==> #[trigger] Self::data_view(final(d))[j] == Self::data_view(
                        old(d),
                    )[j]
                &&& forall|j: int|
                    i <= j < i + values@.len() ==> #[trigger] Self::data_view(final(d))[j]
                        == values@[j - i]
                &&& forall|j: int|
                    i + values@.len() <= j < Self::data_view(old(d)).len()
                        ==> #[trigger] Self::data_view(final(d))[j] == Self::data_view(old(d))[j]
            },
    ;
}

} // verus!
