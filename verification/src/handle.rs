//! Type-erased handles and the comparison that guards the downcast.
//!
//! A handle is a reference to a value whose concrete type the holder does
//! not know, but which reports the identity of that type. What guards the
//! downcast is the comparison of that identity with the identity of the
//! type asked for: [`StableAnyTrait::is`]. It answers for the identity,
//! not for the type, and two types may share an identity.
//!
//! To hand out the storage behind a handle as whatever type passed the
//! comparison takes a raw cast, which this crate does not hold. What it
//! offers beside the comparison is the recovery of the value as the type
//! it really has: [`StableAnyTrait::exact_ref`] and
//! [`StableAnyTrait::exact_mut`].

use vstd::prelude::*;
use crate::erasure::{
    erase, erase_mut, recall, recall_mut, referent, referent_at_last, referent_mut, token_of,
    Erased, ErasedMut, Token,
};
use crate::identity::StableId;
use crate::registry::{identity_of, StableID};
use crate::signature::identity;

verus! {

/// A value that can stand behind a type-erased handle: it reports the
/// identity of its concrete type.
pub trait StableAny: 'static {
    /// The identity that the value reports.
    spec fn reported_identity(&self) -> StableId;

    /// Reports the identity of the value's concrete type.
    fn stable_id(&self) -> (id: StableId)
        ensures
            id == self.reported_identity(),
    ;

    /// The value itself, with its type.
    spec fn token(&self) -> Token<'_>;

    /// The value, with its type forgotten: a reference to this very value.
    fn erased(&self) -> (erased: Erased<'_>)
        ensures
            referent(erased) == self.token(),
    ;

    /// The value, with its type forgotten, for exclusive access: a
    /// reference to this very value, through which alone it changes.
    fn erased_mut(&mut self) -> (erased: ErasedMut<'_>)
        ensures
            referent_mut(erased) == old(self).token(),
            referent_at_last(erased) == final(self).token(),
            final(self).reported_identity() == old(self).reported_identity(),
    ;
}

/// Every type with a stable identity can stand behind a handle, and reports
/// there the identity that it has statically.
impl<T: StableID + 'static> StableAny for T {
    open spec fn reported_identity(&self) -> StableId {
        identity(T::shape())
    }

    open spec fn token(&self) -> Token<'_> {
        token_of::<T>(self)
    }

    fn stable_id(&self) -> (id: StableId) {
        identity_of::<T>()
    }

    fn erased(&self) -> Erased<'_> {
        erase(self)
    }

    fn erased_mut(&mut self) -> ErasedMut<'_> {
        erase_mut(self)
    }
}

/// The handle that a value is seen through once its type is forgotten.
pub open spec fn handle_of<T: StableID + 'static>(value: &T) -> &dyn StableAny {
    value
}

/// The safety gate of the downcast: the candidate passes where the
/// identities were found equal, and nothing passes where they were not.
pub fn gate<R>(identities_match: bool, candidate: Option<R>) -> (r: Option<R>)
    ensures
        r == if identities_match {
            candidate
        } else {
            None
        },
{
    if identities_match {
        candidate
    } else {
        None
    }
}

/// What a holder of a type-erased handle can ask of it.
pub trait StableAnyTrait {
    /// The identity that the handle reports.
    spec fn handle_identity(&self) -> StableId;

    /// The value behind the handle, with its type.
    spec fn handle_token(&self) -> Token<'_>;

    /// Whether the handle reports the identity of `T`.
    fn is<T>(&self) -> (b: bool)
        where T: StableID
        ensures
            b == (identity(T::shape()) == self.handle_identity()),
    ;

    /// A reference to the value behind the handle, where the handle
    /// reports the identity of `N` and the value is an `N`; `None`
    /// otherwise. A value of another type that shares the identity of `N`
    /// passes the comparison, but is not handed out here.
    fn exact_ref<N>(&self) -> (r: Option<&N>)
        where N: StableID + 'static
        ensures
            identity(N::shape()) != self.handle_identity() ==> r is None,
            r matches Some(value) ==> self.handle_token() == token_of::<N>(value),
            forall|value: &N|
                identity(N::shape()) == self.handle_identity() && self.handle_token()
                    == #[trigger] token_of::<N>(value) ==> r == Some(value),
    ;

    /// An exclusive reference to the value behind the handle, where the
    /// handle reports the identity of `N` and the value is an `N`; `None`
    /// otherwise. A value of another type that shares the identity of `N`
    /// passes the comparison, but is not handed out here. The value behind
    /// the handle becomes what is written through the reference; the
    /// handle reports the same identity as before.
    fn exact_mut<N>(&mut self) -> (r: Option<&mut N>)
        where N: StableID + 'static
        ensures
            identity(N::shape()) != old(self).handle_identity() ==> r is None,
            r is Some ==> old(self).handle_token() == token_of::<N>(&*r.unwrap())
                && final(self).handle_token() == token_of::<N>(&*final(r.unwrap())),
            r is None ==> final(self).handle_token() == old(self).handle_token(),
            final(self).handle_identity() == old(self).handle_identity(),
            forall|value: &N|
                identity(N::shape()) == old(self).handle_identity() && old(self).handle_token()
                    == #[trigger] token_of::<N>(value) ==> r is Some && *r.unwrap() == *value,
    ;
}

impl StableAnyTrait for dyn StableAny {
    open spec fn handle_identity(&self) -> StableId {
        self.reported_identity()
    }

    open spec fn handle_token(&self) -> Token<'_> {
        self.token()
    }

    fn is<T>(&self) -> (b: bool)
        where T: StableID
    {
        identity_of::<T>() == self.stable_id()
    }

    fn exact_ref<N>(&self) -> (r: Option<&N>)
        where N: StableID + 'static
    {
        gate(self.is::<N>(), recall::<N>(self.erased()))
    }

    fn exact_mut<N>(&mut self) -> (r: Option<&mut N>)
        where N: StableID + 'static
    {
        if self.is::<N>() {
            recall_mut::<N>(self.erased_mut())
        } else {
            None
        }
    }
}

} // verus!
