//! The signature builder: from a type's shape to its canonical signature,
//! and from there to its identity.
//!
//! User-defined types are identified structurally, by what their
//! declaration spells out:
//!
//! - a struct with named fields is `package%struct~Name{a:A;b:B}`,
//! - a struct with positional fields is `package%struct~Name(0,1)`,
//! - a struct without fields is `package%struct~Name`,
//! - an enum is `package%enum~Name{V1,V2(..)}`, each variant being its name
//!   followed by its field list as it is written.
//!
//! Tuples and containers are identified nominally, by the name under which
//! they are rendered. The renderer is the one defined here by [`rendered`],
//! and it is part of every identity built on it:
//!
//! - a leaf is its canonical name,
//! - a tuple is `()`, `(A,)` or `(A, B)`,
//! - a container is its path and its arguments, as in
//!   `alloc::vec::Vec<A>`,
//! - an array is `[A; 4]`,
//! - a struct or an enum is `package::Name`.
//!
//! An array has no signature text of its own: its identity is composed
//! from the identity of its element and its length.

use vstd::prelude::*;
use vstd::string::*;
use crate::description::{
    Field, FieldView, Fields, FieldsView, Positional, PositionalView, Shape, Template,
    TypeDescription, Variant, VariantView,
};
use crate::hash::{hash_text, text_hash};
use crate::identity::StableId;
use crate::text::{append_decimal, append_joined, decimal, join, texts};

verus! {

/// A canonical signature.
#[derive(Debug, PartialEq, Eq)]
pub enum Signature {
    /// The signature of a type that is identified by text.
    Text(String),
    /// The signature of an array: that of its element, and its length.
    Composed { element: Box<Signature>, length: u64 },
}

/// The view of a [`Signature`].
pub enum SignatureView {
    Text(Seq<char>),
    Composed { element: Box<SignatureView>, length: u64 },
}

impl Signature {
    /// What the signature holds.
    pub open spec fn content(&self) -> SignatureView
        decreases self,
    {
        match self {
            Signature::Text(text) => SignatureView::Text(text@),
            Signature::Composed { element, length } => SignatureView::Composed {
                element: Box::new((**element).content()),
                length: *length,
            },
        }
    }
}

impl View for Signature {
    type V = SignatureView;

    open spec fn view(&self) -> SignatureView {
        self.content()
    }
}

/// The error of every operation that needs a signature: the description
/// holds a shape for which none is defined.
#[derive(Debug, Clone, Copy, PartialEq, Eq, Structural)]
pub struct MalformedDescription;

/// The number of type arguments that a container takes.
pub open spec fn arity(template: Template) -> nat {
    match template {
        Template::Optional => 1,
        Template::Sequence => 1,
        Template::Mapping => 2,
    }
}

/// The name of a container, without its arguments.
pub open spec fn template_name(template: Template) -> Seq<char> {
    match template {
        Template::Optional => "core::option::Option"@,
        Template::Sequence => "alloc::vec::Vec"@,
        Template::Mapping => "std::collections::hash::map::HashMap"@,
    }
}

/// Whether a signature is defined for the shape: it is one of the known
/// shapes, each container has as many arguments as it takes, and the same
/// holds of every shape inside it.
pub open spec fn recognized(shape: Shape) -> bool
    decreases shape,
{
    match shape {
        Shape::Primitive { .. } => true,
        Shape::Tuple { components } => all_recognized(components),
        Shape::Array { element, .. } => recognized(*element),
        Shape::Container { template, arguments } => arguments.len() == arity(template)
            && all_recognized(arguments),
        Shape::Struct { .. } => true,
        Shape::Enum { .. } => true,
        Shape::Unknown => false,
    }
}

/// Whether each of the shapes is recognized.
pub open spec fn all_recognized(shapes: Seq<Shape>) -> bool
    decreases shapes,
{
    forall|i: int| 0 <= i < shapes.len() ==> recognized(#[trigger] shapes[i])
}

/// The text of a tuple whose components are rendered as `parts`.
pub open spec fn tuple_text(parts: Seq<Seq<char>>) -> Seq<char> {
    if parts.len() == 0 {
        "()"@
    } else if parts.len() == 1 {
        "("@ + parts[0] + ",)"@
    } else {
        "("@ + join(parts, ", "@) + ")"@
    }
}

/// The text of a container whose arguments are rendered as `parts`.
pub open spec fn container_text(template: Template, parts: Seq<Seq<char>>) -> Seq<char> {
    template_name(template) + "<"@ + join(parts, ", "@) + ">"@
}

/// The name of an array, given that of its element.
pub open spec fn array_text(element: Seq<char>, length: u64) -> Seq<char> {
    "["@ + element + "; "@ + decimal(length as nat) + "]"@
}

/// The name of a user-defined type.
pub open spec fn path_text(package: Seq<char>, name: Seq<char>) -> Seq<char> {
    package + "::"@ + name
}

/// The name under which a shape appears inside the text of a tuple, of a
/// container or of an array.
pub open spec fn rendered(shape: Shape) -> Seq<char>
    decreases shape,
{
    match shape {
        Shape::Primitive { name } => name,
        Shape::Tuple { components } => tuple_text(rendered_each(components)),
        Shape::Array { element, length } => array_text(rendered(*element), length),
        Shape::Container { template, arguments } => container_text(
            template,
            rendered_each(arguments),
        ),
        Shape::Struct { package, name, .. } => path_text(package, name),
        Shape::Enum { package, name, .. } => path_text(package, name),
        Shape::Unknown => Seq::empty(),
    }
}

/// The names of the shapes, in order.
pub open spec fn rendered_each(shapes: Seq<Shape>) -> Seq<Seq<char>>
    decreases shapes,
{
    Seq::new(
        shapes.len(),
        |i: int|
            if 0 <= i < shapes.len() {
                rendered(shapes[i])
            } else {
                Seq::empty()
            },
    )
}

/// The text of a named field: its name, a colon, its type.
pub open spec fn field_text(field: FieldView) -> Seq<char> {
    field.name + ":"@ + field.ty
}

/// The text of a positional field: its label, or else its position.
pub open spec fn positional_text(field: PositionalView, position: int) -> Seq<char> {
    match field.label {
        Some(label) => label,
        None => decimal(position as nat),
    }
}

/// The text of a variant: its name, then its field list.
pub open spec fn variant_text(variant: VariantView) -> Seq<char> {
    variant.name + variant.fields
}

/// The texts of named fields, in order.
pub open spec fn field_texts(fields: Seq<FieldView>) -> Seq<Seq<char>> {
    Seq::new(fields.len(), |i: int| field_text(fields[i]))
}

/// The texts of positional fields, in order.
pub open spec fn positional_texts(fields: Seq<PositionalView>) -> Seq<Seq<char>> {
    Seq::new(fields.len(), |i: int| positional_text(fields[i], i))
}

/// The texts of variants, in order.
pub open spec fn variant_texts(variants: Seq<VariantView>) -> Seq<Seq<char>> {
    Seq::new(variants.len(), |i: int| variant_text(variants[i]))
}

/// The text of a struct's fields: named fields between braces with `;`
/// between them, positional fields between parentheses with `,` between
/// them, nothing for a struct without fields.
pub open spec fn fields_text(fields: FieldsView) -> Seq<char> {
    match fields {
        FieldsView::Named(fields) => "{"@ + join(field_texts(fields), ";"@) + "}"@,
        FieldsView::Positional(fields) => "("@ + join(positional_texts(fields), ","@) + ")"@,
        FieldsView::Unit => Seq::empty(),
    }
}

/// The signature text of a struct.
pub open spec fn struct_text(package: Seq<char>, name: Seq<char>, fields: FieldsView) -> Seq<
    char,
> {
    package + "%"@ + "struct~"@ + name + fields_text(fields)
}

/// The signature text of an enum.
pub open spec fn enum_text(package: Seq<char>, name: Seq<char>, variants: Seq<VariantView>) -> Seq<
    char,
> {
    package + "%"@ + "enum~"@ + name + "{"@ + join(variant_texts(variants), ","@) + "}"@
}

/// The canonical signature of a shape.
pub open spec fn signature(shape: Shape) -> SignatureView
    decreases shape,
{
    match shape {
        Shape::Array { element, length } => SignatureView::Composed {
            element: Box::new(signature(*element)),
            length,
        },
        Shape::Struct { package, name, fields } => SignatureView::Text(
            struct_text(package, name, fields),
        ),
        Shape::Enum { package, name, variants } => SignatureView::Text(
            enum_text(package, name, variants),
        ),
        _ => SignatureView::Text(rendered(shape)),
    }
}

/// The identity that a signature stands for: the hash of its text, or for
/// an array the identity of its element XOR its length.
pub open spec fn signature_identity(signature: SignatureView) -> u64
    decreases signature,
{
    match signature {
        SignatureView::Text(text) => text_hash(text),
        SignatureView::Composed { element, length } => signature_identity(*element) ^ length,
    }
}

/// The identity of a shape.
pub open spec fn identity(shape: Shape) -> StableId {
    StableId(signature_identity(signature(shape)))
}

impl Template {
    /// The number of type arguments that the container takes.
    pub fn arguments_taken(&self) -> (n: usize)
        ensures
            n == arity(*self),
    {
        match self {
            Template::Optional => 1,
            Template::Sequence => 1,
            Template::Mapping => 2,
        }
    }

    /// The name of the container, without its arguments.
    pub fn name(&self) -> (name: &'static str)
        ensures
            name@ == template_name(*self),
    {
        match self {
            Template::Optional => "core::option::Option",
            Template::Sequence => "alloc::vec::Vec",
            Template::Mapping => "std::collections::hash::map::HashMap",
        }
    }
}

impl TypeDescription {
    /// Whether a signature is defined for this description.
    pub fn is_recognized(&self) -> (b: bool)
        ensures
            b == recognized(self@),
        decreases self,
    {
        match self {
            TypeDescription::Primitive { .. } => true,
            TypeDescription::Tuple { components } => are_recognized(components),
            TypeDescription::Array { element, .. } => element.is_recognized(),
            TypeDescription::Container { template, arguments } => {
                arguments.len() == template.arguments_taken() && are_recognized(arguments)
            },
            TypeDescription::Struct { .. } => true,
            TypeDescription::Enum { .. } => true,
            TypeDescription::Unknown => false,
        }
    }
}

fn are_recognized(descriptions: &Vec<TypeDescription>) -> (b: bool)
    ensures
        b == all_recognized(TypeDescription::shapes(descriptions@)),
    decreases descriptions,
{
    let ghost shapes = TypeDescription::shapes(descriptions@);
    let mut i: usize = 0;
    while i < descriptions.len()
        invariant
            i <= descriptions.len(),
            shapes == TypeDescription::shapes(descriptions@),
            forall|k: int| 0 <= k < i ==> recognized(#[trigger] shapes[k]),
        decreases descriptions.len() - i,
    {
        if !descriptions[i].is_recognized() {
            assert(!recognized(shapes[i as int]));
            return false;
        }
        i += 1;
    }
    true
}

/// Renders the name under which the described type appears inside the
/// text of a tuple, of a container or of an array.
pub fn render(description: &TypeDescription) -> (name: String)
    ensures
        name@ == rendered(description@),
    decreases description,
{
    match description {
        TypeDescription::Primitive { name } => name.clone(),
        TypeDescription::Tuple { components } => {
            let parts = render_each(components);
            if parts.len() == 0 {
                String::from_str("()")
            } else if parts.len() == 1 {
                let mut out = String::from_str("(");
                out.append(parts[0].as_str());
                out.append(",)");
                out
            } else {
                let mut out = String::from_str("(");
                append_joined(&mut out, &parts, ", ");
                out.append(")");
                out
            }
        },
        TypeDescription::Array { element, length } => {
            let mut out = String::from_str("[");
            let inner = render(element);
            out.append(inner.as_str());
            out.append("; ");
            append_decimal(&mut out, *length);
            out.append("]");
            out
        },
        TypeDescription::Container { template, arguments } => {
            let parts = render_each(arguments);
            let mut out = String::from_str(template.name());
            out.append("<");
            append_joined(&mut out, &parts, ", ");
            out.append(">");
            out
        },
        TypeDescription::Struct { package, name, .. } => path(package, name),
        TypeDescription::Enum { package, name, .. } => path(package, name),
        TypeDescription::Unknown => String::new(),
    }
}

fn path(package: &String, name: &String) -> (out: String)
    ensures
        out@ == path_text(package@, name@),
{
    let mut out = package.clone();
    out.append("::");
    out.append(name.as_str());
    out
}

fn render_each(descriptions: &Vec<TypeDescription>) -> (parts: Vec<String>)
    ensures
        texts(parts@) == rendered_each(TypeDescription::shapes(descriptions@)),
    decreases descriptions,
{
    let ghost shapes = TypeDescription::shapes(descriptions@);
    let mut parts: Vec<String> = Vec::new();
    let mut i: usize = 0;
    while i < descriptions.len()
        invariant
            i <= descriptions.len(),
            parts.len() == i,
            shapes == TypeDescription::shapes(descriptions@),
            forall|k: int| 0 <= k < i ==> (#[trigger] parts@[k])@ == rendered(shapes[k]),
        decreases descriptions.len() - i,
    {
        let part = render(&descriptions[i]);
        parts.push(part);
        i += 1;
    }
    assert(texts(parts@) =~= rendered_each(shapes));
    parts
}

fn render_fields(fields: &Vec<Field>) -> (parts: Vec<String>)
    ensures
        texts(parts@) == field_texts(fields@.map_values(|f: Field| f@)),
{
    let ghost views = fields@.map_values(|f: Field| f@);
    let mut parts: Vec<String> = Vec::new();
    let mut i: usize = 0;
    while i < fields.len()
        invariant
            i <= fields.len(),
            parts.len() == i,
            views == fields@.map_values(|f: Field| f@),
            forall|k: int| 0 <= k < i ==> (#[trigger] parts@[k])@ == field_text(views[k]),
        decreases fields.len() - i,
    {
        let mut part = fields[i].name.clone();
        part.append(":");
        part.append(fields[i].ty.as_str());
        parts.push(part);
        i += 1;
    }
    assert(texts(parts@) =~= field_texts(views));
    parts
}

fn render_positionals(fields: &Vec<Positional>) -> (parts: Vec<String>)
    ensures
        texts(parts@) == positional_texts(fields@.map_values(|f: Positional| f@)),
{
    let ghost views = fields@.map_values(|f: Positional| f@);
    let mut parts: Vec<String> = Vec::new();
    let mut i: usize = 0;
    while i < fields.len()
        invariant
            i <= fields.len(),
            parts.len() == i,
            views == fields@.map_values(|f: Positional| f@),
            forall|k: int| 0 <= k < i ==> (#[trigger] parts@[k])@ == positional_text(views[k], k),
        decreases fields.len() - i,
    {
        let part = match &fields[i].label {
            Some(label) => label.clone(),
            None => {
                let mut numeral = String::new();
                append_decimal(&mut numeral, i as u64);
                numeral
            },
        };
        parts.push(part);
        i += 1;
    }
    assert(texts(parts@) =~= positional_texts(views));
    parts
}

fn render_variants(variants: &Vec<Variant>) -> (parts: Vec<String>)
    ensures
        texts(parts@) == variant_texts(variants@.map_values(|v: Variant| v@)),
{
    let ghost views = variants@.map_values(|v: Variant| v@);
    let mut parts: Vec<String> = Vec::new();
    let mut i: usize = 0;
    while i < variants.len()
        invariant
            i <= variants.len(),
            parts.len() == i,
            views == variants@.map_values(|v: Variant| v@),
            forall|k: int| 0 <= k < i ==> (#[trigger] parts@[k])@ == variant_text(views[k]),
        decreases variants.len() - i,
    {
        let mut part = variants[i].name.clone();
        part.append(variants[i].fields.as_str());
        parts.push(part);
        i += 1;
    }
    assert(texts(parts@) =~= variant_texts(views));
    parts
}

fn append_fields(out: &mut String, fields: &Fields)
    ensures
        final(out)@ == old(out)@ + fields_text(fields@),
{
    match fields {
        Fields::Named(fields) => {
            let parts = render_fields(fields);
            out.append("{");
            append_joined(out, &parts, ";");
            out.append("}");
        },
        Fields::Positional(fields) => {
            let parts = render_positionals(fields);
            out.append("(");
            append_joined(out, &parts, ",");
            out.append(")");
        },
        Fields::Unit => {},
    }
}

/// The signature of a description, whether or not one is defined for it.
pub(crate) fn sign(description: &TypeDescription) -> (s: Signature)
    ensures
        s@ == signature(description@),
    decreases description,
{
    match description {
        TypeDescription::Array { element, length } => Signature::Composed {
            element: Box::new(sign(element)),
            length: *length,
        },
        TypeDescription::Struct { package, name, fields } => {
            let mut out = package.clone();
            out.append("%");
            out.append("struct~");
            out.append(name.as_str());
            append_fields(&mut out, fields);
            Signature::Text(out)
        },
        TypeDescription::Enum { package, name, variants } => {
            let parts = render_variants(variants);
            let mut out = package.clone();
            out.append("%");
            out.append("enum~");
            out.append(name.as_str());
            out.append("{");
            append_joined(&mut out, &parts, ",");
            out.append("}");
            Signature::Text(out)
        },
        _ => Signature::Text(render(description)),
    }
}

/// Builds the canonical signature of a description. It fails exactly on
/// the descriptions that are not recognized.
pub fn build_signature(description: &TypeDescription) -> (r: Result<
    Signature,
    MalformedDescription,
>)
    ensures
        r is Ok <==> recognized(description@),
        r matches Ok(s) ==> s@ == signature(description@),
{
    if description.is_recognized() {
        Ok(sign(description))
    } else {
        Err(MalformedDescription)
    }
}

impl Signature {
    /// The identity that this signature stands for.
    pub fn identity(&self) -> (id: StableId)
        ensures
            id == StableId(signature_identity(self@)),
        decreases self,
    {
        match self {
            Signature::Text(text) => StableId(hash_text(text.as_str())),
            Signature::Composed { element, length } => stable_id_impl_array(
                element.identity(),
                *length,
            ),
        }
    }
}

/// The identity of an array, composed from the identity of its element and
/// its length.
pub fn stable_id_impl_array(element: StableId, length: u64) -> (id: StableId)
    ensures
        id == StableId(element.0 ^ length),
{
    StableId(element.0 ^ length)
}

/// The identity of the described type. No identity is defined for a
/// description that is not recognized, and none may be asked for;
/// [`TypeDescription::is_recognized`] tells beforehand.
pub fn stable_id(description: &TypeDescription) -> (id: StableId)
    requires
        recognized(description@),
    ensures
        id == identity(description@),
{
    sign(description).identity()
}

/// The identity of a well-known container applied to the given type
/// arguments. It fails where the container takes another number of
/// arguments, or where one of them is not recognized.
pub fn stable_id_impl(template: Template, arguments: Vec<TypeDescription>) -> (r: Result<
    StableId,
    MalformedDescription,
>)
    ensures
        r is Ok <==> arguments.len() == arity(template) && all_recognized(
            TypeDescription::shapes(arguments@),
        ),
        r matches Ok(id) ==> id == identity(
            Shape::Container { template, arguments: TypeDescription::shapes(arguments@) },
        ),
{
    let description = TypeDescription::Container { template, arguments };
    if description.is_recognized() {
        Ok(stable_id(&description))
    } else {
        Err(MalformedDescription)
    }
}

} // verus!
