//! The identity registry: the association of each type with its shape, and
//! through it with its one identity.

use std::collections::HashMap;
use vstd::prelude::*;
use vstd::string::*;
use crate::description::{Shape, Template, TypeDescription};
use crate::identity::StableId;
use crate::signature::{all_recognized, arity, identity, recognized, sign};

verus! {

/// A type that has a stable identity.
///
/// An implementation says what the type looks like; its identity follows
/// from that and from nothing else. `shape` is what contracts know of the
/// type, `describe` is what runs, and the two have to agree. `shape` is
/// never run: an implementation that is compiled without being verified
/// still has to give it a body, and may give it any.
pub trait StableID {
    /// The shape of the implementing type.
    spec fn shape() -> Shape;

    /// Describes the implementing type. The description is one for which
    /// a signature is defined.
    fn describe() -> (description: TypeDescription)
        ensures
            description@ == Self::shape(),
            recognized(Self::shape()),
    ;
}

/// The identity of `T`.
pub fn identity_of<T: StableID>() -> (id: StableId)
    ensures
        id == identity(T::shape()),
{
    sign(&T::describe()).identity()
}

/// Describes a leaf type of the given canonical name.
pub fn primitive(name: &str) -> (description: TypeDescription)
    ensures
        description@ == (Shape::Primitive { name: name@ }),
{
    TypeDescription::Primitive { name: String::from_str(name) }
}

/// Describes the tuple of the given components.
pub fn tuple_of(components: Vec<TypeDescription>) -> (description: TypeDescription)
    ensures
        description@ == (Shape::Tuple { components: TypeDescription::shapes(components@) }),
        all_recognized(TypeDescription::shapes(components@)) ==> recognized(description@),
{
    TypeDescription::Tuple { components }
}

/// Describes a container applied to the given type arguments.
pub fn container_of(template: Template, arguments: Vec<TypeDescription>) -> (description:
    TypeDescription)
    ensures
        description@ == (Shape::Container {
            template,
            arguments: TypeDescription::shapes(arguments@),
        }),
        arguments.len() == arity(template) && all_recognized(TypeDescription::shapes(arguments@))
            ==> recognized(description@),
{
    TypeDescription::Container { template, arguments }
}

impl StableID for bool {
    open spec fn shape() -> Shape {
        Shape::Primitive { name: "bool"@ }
    }

    fn describe() -> (description: TypeDescription) {
        primitive("bool")
    }
}

impl StableID for char {
    open spec fn shape() -> Shape {
        Shape::Primitive { name: "char"@ }
    }

    fn describe() -> (description: TypeDescription) {
        primitive("char")
    }
}

impl StableID for u8 {
    open spec fn shape() -> Shape {
        Shape::Primitive { name: "u8"@ }
    }

    fn describe() -> (description: TypeDescription) {
        primitive("u8")
    }
}

impl StableID for u16 {
    open spec fn shape() -> Shape {
        Shape::Primitive { name: "u16"@ }
    }

    fn describe() -> (description: TypeDescription) {
        primitive("u16")
    }
}

impl StableID for u32 {
    open spec fn shape() -> Shape {
        Shape::Primitive { name: "u32"@ }
    }

    fn describe() -> (description: TypeDescription) {
        primitive("u32")
    }
}

impl StableID for u64 {
    open spec fn shape() -> Shape {
        Shape::Primitive { name: "u64"@ }
    }

    fn describe() -> (description: TypeDescription) {
        primitive("u64")
    }
}

impl StableID for u128 {
    open spec fn shape() -> Shape {
        Shape::Primitive { name: "u128"@ }
    }

    fn describe() -> (description: TypeDescription) {
        primitive("u128")
    }
}

impl StableID for usize {
    open spec fn shape() -> Shape {
        Shape::Primitive { name: "usize"@ }
    }

    fn describe() -> (description: TypeDescription) {
        primitive("usize")
    }
}

impl StableID for i8 {
    open spec fn shape() -> Shape {
        Shape::Primitive { name: "i8"@ }
    }

    fn describe() -> (description: TypeDescription) {
        primitive("i8")
    }
}

impl StableID for i16 {
    open spec fn shape() -> Shape {
        Shape::Primitive { name: "i16"@ }
    }

    fn describe() -> (description: TypeDescription) {
        primitive("i16")
    }
}

impl StableID for i32 {
    open spec fn shape() -> Shape {
        Shape::Primitive { name: "i32"@ }
    }

    fn describe() -> (description: TypeDescription) {
        primitive("i32")
    }
}

impl StableID for i64 {
    open spec fn shape() -> Shape {
        Shape::Primitive { name: "i64"@ }
    }

    fn describe() -> (description: TypeDescription) {
        primitive("i64")
    }
}

impl StableID for i128 {
    open spec fn shape() -> Shape {
        Shape::Primitive { name: "i128"@ }
    }

    fn describe() -> (description: TypeDescription) {
        primitive("i128")
    }
}

impl StableID for isize {
    open spec fn shape() -> Shape {
        Shape::Primitive { name: "isize"@ }
    }

    fn describe() -> (description: TypeDescription) {
        primitive("isize")
    }
}

impl StableID for String {
    open spec fn shape() -> Shape {
        Shape::Primitive { name: "alloc::string::String"@ }
    }

    fn describe() -> (description: TypeDescription) {
        primitive("alloc::string::String")
    }
}

impl StableID for () {
    open spec fn shape() -> Shape {
        Shape::Tuple { components: Seq::empty() }
    }

    fn describe() -> (description: TypeDescription) {
        let components: Vec<TypeDescription> = Vec::new();
        assert(TypeDescription::shapes(components@) =~= Seq::empty());
        tuple_of(components)
    }
}

impl<A: StableID> StableID for (A,) {
    open spec fn shape() -> Shape {
        Shape::Tuple { components: seq![A::shape()] }
    }

    fn describe() -> (description: TypeDescription) {
        let mut components: Vec<TypeDescription> = Vec::new();
        components.push(A::describe());
        assert(TypeDescription::shapes(components@) =~= seq![A::shape()]);
        tuple_of(components)
    }
}

impl<A: StableID, B: StableID> StableID for (A, B) {
    open spec fn shape() -> Shape {
        Shape::Tuple { components: seq![A::shape(), B::shape()] }
    }

    fn describe() -> (description: TypeDescription) {
        let mut components: Vec<TypeDescription> = Vec::new();
        components.push(A::describe());
        components.push(B::describe());
        assert(TypeDescription::shapes(components@) =~= seq![A::shape(), B::shape()]);
        tuple_of(components)
    }
}

impl<A: StableID, B: StableID, C: StableID> StableID for (A, B, C) {
    open spec fn shape() -> Shape {
        Shape::Tuple { components: seq![A::shape(), B::shape(), C::shape()] }
    }

    fn describe() -> (description: TypeDescription) {
        let mut components: Vec<TypeDescription> = Vec::new();
        components.push(A::describe());
        components.push(B::describe());
        components.push(C::describe());
        assert(TypeDescription::shapes(components@) =~= seq![A::shape(), B::shape(), C::shape()]);
        tuple_of(components)
    }
}

impl<A: StableID, B: StableID, C: StableID, D: StableID> StableID for (A, B, C, D) {
    open spec fn shape() -> Shape {
        Shape::Tuple { components: seq![A::shape(), B::shape(), C::shape(), D::shape()] }
    }

    fn describe() -> (description: TypeDescription) {
        let mut components: Vec<TypeDescription> = Vec::new();
        components.push(A::describe());
        components.push(B::describe());
        components.push(C::describe());
        components.push(D::describe());
        assert(TypeDescription::shapes(components@) =~= seq![
            A::shape(), B::shape(), C::shape(), D::shape(),
        ]);
        tuple_of(components)
    }
}

impl<A: StableID, B: StableID, C: StableID, D: StableID, E: StableID> StableID for (A, B, C, D, E) {
    open spec fn shape() -> Shape {
        Shape::Tuple {
            components: seq![
                A::shape(), B::shape(), C::shape(), D::shape(), E::shape(),
            ],
        }
    }

    fn describe() -> (description: TypeDescription) {
        let mut components: Vec<TypeDescription> = Vec::new();
        components.push(A::describe());
        components.push(B::describe());
        components.push(C::describe());
        components.push(D::describe());
        components.push(E::describe());
        assert(TypeDescription::shapes(components@) =~= seq![
            A::shape(), B::shape(), C::shape(), D::shape(), E::shape(),
        ]);
        tuple_of(components)
    }
}

impl<
    A: StableID, B: StableID, C: StableID, D: StableID, E: StableID, F: StableID,
> StableID for (A, B, C, D, E, F) {
    open spec fn shape() -> Shape {
        Shape::Tuple {
            components: seq![
                A::shape(), B::shape(), C::shape(), D::shape(), E::shape(), F::shape(),
            ],
        }
    }

    fn describe() -> (description: TypeDescription) {
        let mut components: Vec<TypeDescription> = Vec::new();
        components.push(A::describe());
        components.push(B::describe());
        components.push(C::describe());
        components.push(D::describe());
        components.push(E::describe());
        components.push(F::describe());
        assert(TypeDescription::shapes(components@) =~= seq![
            A::shape(), B::shape(), C::shape(), D::shape(), E::shape(), F::shape(),
        ]);
        tuple_of(components)
    }
}

impl<
    A: StableID, B: StableID, C: StableID, D: StableID, E: StableID, F: StableID, G: StableID,
> StableID for (A, B, C, D, E, F, G) {
    open spec fn shape() -> Shape {
        Shape::Tuple {
            components: seq![
                A::shape(), B::shape(), C::shape(), D::shape(), E::shape(), F::shape(), G::shape(),
            ],
        }
    }

    fn describe() -> (description: TypeDescription) {
        let mut components: Vec<TypeDescription> = Vec::new();
        components.push(A::describe());
        components.push(B::describe());
        components.push(C::describe());
        components.push(D::describe());
        components.push(E::describe());
        components.push(F::describe());
        components.push(G::describe());
        assert(TypeDescription::shapes(components@) =~= seq![
            A::shape(), B::shape(), C::shape(), D::shape(), E::shape(), F::shape(), G::shape(),
        ]);
        tuple_of(components)
    }
}

impl<
    A: StableID, B: StableID, C: StableID, D: StableID, E: StableID, F: StableID, G: StableID,
    H: StableID,
> StableID for (A, B, C, D, E, F, G, H) {
    open spec fn shape() -> Shape {
        Shape::Tuple {
            components: seq![
                A::shape(), B::shape(), C::shape(), D::shape(), E::shape(), F::shape(), G::shape(),
                H::shape(),
            ],
        }
    }

    fn describe() -> (description: TypeDescription) {
        let mut components: Vec<TypeDescription> = Vec::new();
        components.push(A::describe());
        components.push(B::describe());
        components.push(C::describe());
        components.push(D::describe());
        components.push(E::describe());
        components.push(F::describe());
        components.push(G::describe());
        components.push(H::describe());
        assert(TypeDescription::shapes(components@) =~= seq![
            A::shape(), B::shape(), C::shape(), D::shape(), E::shape(), F::shape(), G::shape(),
            H::shape(),
        ]);
        tuple_of(components)
    }
}

impl<
    A: StableID, B: StableID, C: StableID, D: StableID, E: StableID, F: StableID, G: StableID,
    H: StableID, I: StableID,
> StableID for (A, B, C, D, E, F, G, H, I) {
    open spec fn shape() -> Shape {
        Shape::Tuple {
            components: seq![
                A::shape(), B::shape(), C::shape(), D::shape(), E::shape(), F::shape(), G::shape(),
                H::shape(), I::shape(),
            ],
        }
    }

    fn describe() -> (description: TypeDescription) {
        let mut components: Vec<TypeDescription> = Vec::new();
        components.push(A::describe());
        components.push(B::describe());
        components.push(C::describe());
        components.push(D::describe());
        components.push(E::describe());
        components.push(F::describe());
        components.push(G::describe());
        components.push(H::describe());
        components.push(I::describe());
        assert(TypeDescription::shapes(components@) =~= seq![
            A::shape(), B::shape(), C::shape(), D::shape(), E::shape(), F::shape(), G::shape(),
            H::shape(), I::shape(),
        ]);
        tuple_of(components)
    }
}

impl<
    A: StableID, B: StableID, C: StableID, D: StableID, E: StableID, F: StableID, G: StableID,
    H: StableID, I: StableID, J: StableID,
> StableID for (A, B, C, D, E, F, G, H, I, J) {
    open spec fn shape() -> Shape {
        Shape::Tuple {
            components: seq![
                A::shape(), B::shape(), C::shape(), D::shape(), E::shape(), F::shape(), G::shape(),
                H::shape(), I::shape(), J::shape(),
            ],
        }
    }

    fn describe() -> (description: TypeDescription) {
        let mut components: Vec<TypeDescription> = Vec::new();
        components.push(A::describe());
        components.push(B::describe());
        components.push(C::describe());
        components.push(D::describe());
        components.push(E::describe());
        components.push(F::describe());
        components.push(G::describe());
        components.push(H::describe());
        components.push(I::describe());
        components.push(J::describe());
        assert(TypeDescription::shapes(components@) =~= seq![
            A::shape(), B::shape(), C::shape(), D::shape(), E::shape(), F::shape(), G::shape(),
            H::shape(), I::shape(), J::shape(),
        ]);
        tuple_of(components)
    }
}

impl<
    A: StableID, B: StableID, C: StableID, D: StableID, E: StableID, F: StableID, G: StableID,
    H: StableID, I: StableID, J: StableID, K: StableID,
> StableID for (A, B, C, D, E, F, G, H, I, J, K) {
    open spec fn shape() -> Shape {
        Shape::Tuple {
            components: seq![
                A::shape(), B::shape(), C::shape(), D::shape(), E::shape(), F::shape(), G::shape(),
                H::shape(), I::shape(), J::shape(), K::shape(),
            ],
        }
    }

    fn describe() -> (description: TypeDescription) {
        let mut components: Vec<TypeDescription> = Vec::new();
        components.push(A::describe());
        components.push(B::describe());
        components.push(C::describe());
        components.push(D::describe());
        components.push(E::describe());
        components.push(F::describe());
        components.push(G::describe());
        components.push(H::describe());
        components.push(I::describe());
        components.push(J::describe());
        components.push(K::describe());
        assert(TypeDescription::shapes(components@) =~= seq![
            A::shape(), B::shape(), C::shape(), D::shape(), E::shape(), F::shape(), G::shape(),
            H::shape(), I::shape(), J::shape(), K::shape(),
        ]);
        tuple_of(components)
    }
}

impl<
    A: StableID, B: StableID, C: StableID, D: StableID, E: StableID, F: StableID, G: StableID,
    H: StableID, I: StableID, J: StableID, K: StableID, L: StableID,
> StableID for (A, B, C, D, E, F, G, H, I, J, K, L) {
    open spec fn shape() -> Shape {
        Shape::Tuple {
            components: seq![
                A::shape(), B::shape(), C::shape(), D::shape(), E::shape(), F::shape(), G::shape(),
                H::shape(), I::shape(), J::shape(), K::shape(), L::shape(),
            ],
        }
    }

    fn describe() -> (description: TypeDescription) {
        let mut components: Vec<TypeDescription> = Vec::new();
        components.push(A::describe());
        components.push(B::describe());
        components.push(C::describe());
        components.push(D::describe());
        components.push(E::describe());
        components.push(F::describe());
        components.push(G::describe());
        components.push(H::describe());
        components.push(I::describe());
        components.push(J::describe());
        components.push(K::describe());
        components.push(L::describe());
        assert(TypeDescription::shapes(components@) =~= seq![
            A::shape(), B::shape(), C::shape(), D::shape(), E::shape(), F::shape(), G::shape(),
            H::shape(), I::shape(), J::shape(), K::shape(), L::shape(),
        ]);
        tuple_of(components)
    }
}

impl<T: StableID> StableID for Option<T> {
    open spec fn shape() -> Shape {
        Shape::Container { template: Template::Optional, arguments: seq![T::shape()] }
    }

    fn describe() -> (description: TypeDescription) {
        let mut arguments: Vec<TypeDescription> = Vec::new();
        arguments.push(T::describe());
        assert(TypeDescription::shapes(arguments@) =~= seq![T::shape()]);
        container_of(Template::Optional, arguments)
    }
}

impl<T: StableID> StableID for Vec<T> {
    open spec fn shape() -> Shape {
        Shape::Container { template: Template::Sequence, arguments: seq![T::shape()] }
    }

    fn describe() -> (description: TypeDescription) {
        let mut arguments: Vec<TypeDescription> = Vec::new();
        arguments.push(T::describe());
        assert(TypeDescription::shapes(arguments@) =~= seq![T::shape()]);
        container_of(Template::Sequence, arguments)
    }
}

impl<K: StableID, V: StableID> StableID for HashMap<K, V> {
    open spec fn shape() -> Shape {
        Shape::Container { template: Template::Mapping, arguments: seq![K::shape(), V::shape()] }
    }

    fn describe() -> (description: TypeDescription) {
        let mut arguments: Vec<TypeDescription> = Vec::new();
        arguments.push(K::describe());
        arguments.push(V::describe());
        assert(TypeDescription::shapes(arguments@) =~= seq![K::shape(), V::shape()]);
        container_of(Template::Mapping, arguments)
    }
}

impl<T: StableID, const N: usize> StableID for [T; N] {
    open spec fn shape() -> Shape {
        Shape::Array { element: Box::new(T::shape()), length: N as u64 }
    }

    fn describe() -> (description: TypeDescription) {
        TypeDescription::Array { element: Box::new(T::describe()), length: N as u64 }
    }
}

} // verus!
