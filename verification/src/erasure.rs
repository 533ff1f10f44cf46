//! References whose type is forgotten, and their recovery.
//!
//! This is the one place where the crate relies on `core::any::Any`, a
//! trait that the verifier does not know. A reference to a `dyn Any` is
//! kept out of its sight, inside [`Erased`] and [`ErasedMut`]. What such a
//! reference refers to is spoken of by a [`Token`]: a value together with
//! its type. Two tokens are the same where they are of one type and of
//! equal values, and nowhere else; of the two, the verifier knows the
//! first.

use core::any::Any;
use vstd::prelude::*;

verus! {

/// Any value at all. The trait has no methods; it serves to speak of a
/// value without naming its type.
pub trait Witness: 'static {

}

impl<T: 'static> Witness for T {

}

/// A value together with its type, as contracts speak of it where the type
/// is not named. It is made by [`token_of`] alone.
pub struct Token<'a> {
    pub value: &'a dyn Witness,
}

/// The token of `value`, a `T`.
pub open spec fn token_of<T: 'static>(value: &T) -> Token<'_> {
    Token { value }
}

/// A shared reference to a value of a type that is no longer named.
///
/// It holds a `&dyn Any`. The trait `Any` is not known to the verifier, so
/// the reference is kept out of its sight.
#[verifier::external_body]
pub struct Erased<'a> {
    value: &'a dyn Any,
}

/// The value that an erased reference refers to, with its type.
pub uninterp spec fn referent(erased: Erased) -> Token;

/// Converts a reference into a `&dyn Any`. The conversion is an unsizing
/// coercion: the result refers to `value`, and knows that it is a `T`.
#[verifier::external_body]
pub(crate) fn erase<'a, T: 'static>(value: &'a T) -> (erased: Erased<'a>)
    ensures
        referent(erased) == token_of::<T>(value),
{
    Erased { value }
}

/// Calls `<dyn Any>::downcast_ref`, which returns a reference to the value
/// that the erased reference refers to where that value is an `N`, and
/// `None` where it is not.
#[verifier::external_body]
pub(crate) fn recall<'a, N: 'static>(erased: Erased<'a>) -> (r: Option<&'a N>)
    ensures
        r matches Some(value) ==> referent(erased) == token_of::<N>(value),
        forall|value: &N| referent(erased) == #[trigger] token_of::<N>(value) ==> r == Some(value),
{
    erased.value.downcast_ref::<N>()
}

/// An exclusive reference to a value of a type that is no longer named.
///
/// It holds a `&mut dyn Any`, kept out of the verifier's sight like that of
/// [`Erased`].
#[verifier::external_body]
pub struct ErasedMut<'a> {
    value: &'a mut dyn Any,
}

/// The value that an erased exclusive reference refers to as it is made,
/// with its type.
pub uninterp spec fn referent_mut(erased: ErasedMut) -> Token;

/// The value that an erased exclusive reference refers to as it is given
/// up, after all that was done through it.
pub uninterp spec fn referent_at_last(erased: ErasedMut) -> Token;

/// Converts a reference into a `&mut dyn Any`. The conversion is an
/// unsizing coercion: the result refers to `value` and knows that it is a
/// `T`, and `value` changes through the result alone until that is given
/// up.
#[verifier::external_body]
pub(crate) fn erase_mut<'a, T: 'static>(value: &'a mut T) -> (erased: ErasedMut<'a>)
    ensures
        referent_mut(erased) == token_of::<T>(&*old(value)),
        referent_at_last(erased) == token_of::<T>(&*final(value)),
{
    ErasedMut { value }
}

/// Calls `<dyn Any>::downcast_mut`, which returns a reference to the value
/// that the erased reference refers to where that value is an `N`, and
/// `None` where it is not. The value changes through the returned
/// reference alone; where `None` is returned it stays as it was.
#[verifier::external_body]
pub(crate) fn recall_mut<'a, N: 'static>(erased: ErasedMut<'a>) -> (r: Option<&'a mut N>)
    ensures
        r is Some ==> referent_mut(erased) == token_of::<N>(&*r.unwrap())
            && referent_at_last(erased) == token_of::<N>(&*final(r.unwrap())),
        r is None ==> referent_at_last(erased) == referent_mut(erased),
        forall|value: &N|
            referent_mut(erased) == #[trigger] token_of::<N>(value) ==> r is Some && *r.unwrap()
                == *value,
{
    erased.value.downcast_mut::<N>()
}

} // verus!
