//! The data model: what is known of a type's shape.
//!
//! A description is metadata about a type, handed over by whatever inspects
//! the declaration. Each type here has a view that holds the same content
//! over `Seq<char>` texts; the contracts of the crate are stated over views.

use vstd::prelude::*;

verus! {

/// A named field of a struct.
#[derive(Debug, PartialEq, Eq)]
pub struct Field {
    /// The field's identifier.
    pub name: String,
    /// The field's declared type, as rendered text.
    pub ty: String,
}

/// The view of a [`Field`].
pub struct FieldView {
    pub name: Seq<char>,
    pub ty: Seq<char>,
}

impl View for Field {
    type V = FieldView;

    open spec fn view(&self) -> FieldView {
        FieldView { name: self.name@, ty: self.ty@ }
    }
}

/// A field of a tuple struct. Such a field is known by its position unless
/// it carries a label.
#[derive(Debug, PartialEq, Eq)]
pub struct Positional {
    /// The field's label, if it has one.
    pub label: Option<String>,
    /// The field's declared type, as rendered text.
    pub ty: String,
}

/// The view of a [`Positional`].
pub struct PositionalView {
    pub label: Option<Seq<char>>,
    pub ty: Seq<char>,
}

impl View for Positional {
    type V = PositionalView;

    open spec fn view(&self) -> PositionalView {
        PositionalView {
            label: match self.label {
                Some(l) => Some(l@),
                None => None,
            },
            ty: self.ty@,
        }
    }
}

/// A variant of an enum.
#[derive(Debug, PartialEq, Eq)]
pub struct Variant {
    /// The variant's identifier.
    pub name: String,
    /// The variant's field list as rendered text; empty for a unit variant.
    pub fields: String,
}

/// The view of a [`Variant`].
pub struct VariantView {
    pub name: Seq<char>,
    pub fields: Seq<char>,
}

impl View for Variant {
    type V = VariantView;

    open spec fn view(&self) -> VariantView {
        VariantView { name: self.name@, fields: self.fields@ }
    }
}

/// The fields of a struct.
#[derive(Debug, PartialEq, Eq)]
pub enum Fields {
    Named(Vec<Field>),
    Positional(Vec<Positional>),
    Unit,
}

/// The view of a [`Fields`].
pub enum FieldsView {
    Named(Seq<FieldView>),
    Positional(Seq<PositionalView>),
    Unit,
}

impl View for Fields {
    type V = FieldsView;

    open spec fn view(&self) -> FieldsView {
        match self {
            Fields::Named(fields) => FieldsView::Named(fields@.map_values(|f: Field| f@)),
            Fields::Positional(fields) => FieldsView::Positional(
                fields@.map_values(|f: Positional| f@),
            ),
            Fields::Unit => FieldsView::Unit,
        }
    }
}

/// The well-known generic containers.
#[derive(Debug, Clone, Copy, PartialEq, Eq, Structural)]
pub enum Template {
    /// An optional value; one argument.
    Optional,
    /// A growable sequence; one argument.
    Sequence,
    /// A key/value mapping; two arguments.
    Mapping,
}

/// The structured description of a type.
#[derive(Debug, PartialEq, Eq)]
pub enum TypeDescription {
    /// A leaf type with a canonical name.
    Primitive { name: String },
    /// A tuple of the given components, in order.
    Tuple { components: Vec<TypeDescription> },
    /// A fixed-size array.
    Array { element: Box<TypeDescription>, length: u64 },
    /// A well-known container applied to type arguments.
    Container { template: Template, arguments: Vec<TypeDescription> },
    /// A user-defined struct of the given package.
    Struct { package: String, name: String, fields: Fields },
    /// A user-defined enum of the given package.
    Enum { package: String, name: String, variants: Vec<Variant> },
    /// Any other shape, such as a union. No identity is defined for it.
    Unknown,
}

/// The view of a [`TypeDescription`].
pub enum Shape {
    Primitive { name: Seq<char> },
    Tuple { components: Seq<Shape> },
    Array { element: Box<Shape>, length: u64 },
    Container { template: Template, arguments: Seq<Shape> },
    Struct { package: Seq<char>, name: Seq<char>, fields: FieldsView },
    Enum { package: Seq<char>, name: Seq<char>, variants: Seq<VariantView> },
    Unknown,
}

impl TypeDescription {
    /// The shape that this description stands for.
    pub open spec fn shape(&self) -> Shape
        decreases self,
    {
        match self {
            TypeDescription::Primitive { name } => Shape::Primitive { name: name@ },
            TypeDescription::Tuple { components } => Shape::Tuple {
                components: Self::shapes(components@),
            },
            TypeDescription::Array { element, length } => Shape::Array {
                element: Box::new((**element).shape()),
                length: *length,
            },
            TypeDescription::Container { template, arguments } => Shape::Container {
                template: *template,
                arguments: Self::shapes(arguments@),
            },
            TypeDescription::Struct { package, name, fields } => Shape::Struct {
                package: package@,
                name: name@,
                fields: fields@,
            },
            TypeDescription::Enum { package, name, variants } => Shape::Enum {
                package: package@,
                name: name@,
                variants: variants@.map_values(|v: Variant| v@),
            },
            TypeDescription::Unknown => Shape::Unknown,
        }
    }

    /// The shapes of a sequence of descriptions.
    pub open spec fn shapes(descriptions: Seq<TypeDescription>) -> Seq<Shape>
        decreases descriptions,
    {
        Seq::new(
            descriptions.len(),
            |i: int|
                if 0 <= i < descriptions.len() {
                    descriptions[i].shape()
                } else {
                    Shape::Unknown
                },
        )
    }
}

impl View for TypeDescription {
    type V = Shape;

    open spec fn view(&self) -> Shape {
        self.shape()
    }
}

} // verus!
