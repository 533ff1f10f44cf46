//! Stable type identity.
//!
//! A type's identity is a 64-bit fingerprint of its canonical signature: of
//! its name, the names and types of its fields, the shapes of its variants.
//! It does not depend on anything a compiler assigns, so it is the same in
//! every build. On top of it stands what guards a checked downcast: a
//! type-erased handle reports the identity of the value behind it, and
//! [`StableAnyTrait::is`] tells whether that is the identity of the type
//! asked for.
//!
//! The identity is a hash, and two types may share one. Nothing here
//! reports that: `is` answers for the identity, not for the type. A
//! downcast that hands out whatever passed the comparison reinterprets
//! storage and is no part of this crate; [`StableAnyTrait::exact_ref`] and
//! [`StableAnyTrait::exact_mut`] hand out the value only where its type is
//! the one asked for as well.

pub mod description;
pub mod erasure;
pub mod handle;
pub mod hash;
pub mod identity;
pub mod laws;
pub mod ordering;
pub mod registry;
pub mod signature;
pub mod text;

pub use description::{Field, Fields, Positional, Shape, Template, TypeDescription, Variant};
pub use handle::{StableAny, StableAnyTrait};
pub use identity::StableId;
pub use ordering::{identify, sort, stable_sorted_type};
pub use registry::{identity_of, StableID};
pub use signature::{
    build_signature, stable_id, stable_id_impl, stable_id_impl_array, MalformedDescription,
    Signature,
};
