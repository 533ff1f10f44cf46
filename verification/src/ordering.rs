//! Canonical ordering: the members of a struct or of an enum, sorted by the
//! hash of their identifiers, so that the order in which a declaration
//! lists them no longer shows in its identity.
//!
//! The order is stable: members whose identifiers hash alike keep the order
//! in which they were listed.

use vstd::prelude::*;
use crate::description::{
    Field, FieldView, Fields, FieldsView, Positional, PositionalView, Shape, TypeDescription,
    Variant, VariantView,
};
use crate::hash::{hash_text, text_hash};
use crate::identity::StableId;
use crate::signature::{identity, positional_text, recognized, stable_id};
use crate::text::{append_decimal, decimal};

verus! {

/// Where index `j` goes in `order`: behind every index whose key is not
/// greater than its own, before those that follow.
pub open spec fn slot(order: Seq<int>, keys: Seq<u64>, j: int) -> int
    decreases order.len(),
{
    if order.len() == 0 || keys[order.last()] <= keys[j] {
        order.len() as int
    } else {
        slot(order.drop_last(), keys, j)
    }
}

/// The canonical order of the first `n` keys: their indices, the index of a
/// smaller key first, and of two equal keys the lower index first.
pub open spec fn ranking(keys: Seq<u64>, n: nat) -> Seq<int>
    decreases n,
{
    if n == 0 {
        Seq::empty()
    } else {
        let earlier = ranking(keys, (n - 1) as nat);
        earlier.insert(slot(earlier, keys, n - 1), n - 1)
    }
}

/// The canonical order of `keys`, as a sequence of indices into it.
pub open spec fn canonical_order(keys: Seq<u64>) -> Seq<int> {
    ranking(keys, keys.len())
}

/// The items picked in the given order.
pub open spec fn arranged<T>(items: Seq<T>, order: Seq<int>) -> Seq<T> {
    Seq::new(order.len(), |i: int| items[order[i]])
}

/// The indices held by a vector of positions.
pub open spec fn positions(order: Seq<usize>) -> Seq<int> {
    Seq::new(order.len(), |i: int| order[i] as int)
}

/// `slot` cuts `order` in two: it lies within it, no key before it is
/// greater than that of `j`, and every key from it on is.
pub proof fn lemma_slot(order: Seq<int>, keys: Seq<u64>, j: int)
    requires
        forall|a: int, b: int| 0 <= a < b < order.len() ==> keys[order[a]] <= keys[order[b]],
    ensures
        0 <= slot(order, keys, j) <= order.len(),
        forall|a: int| 0 <= a < slot(order, keys, j) ==> keys[#[trigger] order[a]] <= keys[j],
        forall|a: int|
            slot(order, keys, j) <= a < order.len() ==> keys[#[trigger] order[a]] > keys[j],
    decreases order.len(),
{
    if order.len() == 0 || keys[order.last()] <= keys[j] {
    } else {
        let rest = order.drop_last();
        assert forall|a: int, b: int| 0 <= a < b < rest.len() implies keys[rest[a]]
            <= keys[rest[b]] by {
            assert(rest[a] == order[a] && rest[b] == order[b]);
        }
        lemma_slot(rest, keys, j);
        assert forall|a: int| 0 <= a < slot(order, keys, j) implies keys[#[trigger] order[a]]
            <= keys[j] by {
            assert(order[a] == rest[a]);
        }
        assert forall|a: int| slot(order, keys, j) <= a < order.len() implies keys[#[trigger] order[
            a
        ]] > keys[j] by {
            if a < rest.len() {
                assert(order[a] == rest[a]);
            }
        }
    }
}

/// Whether index `a` comes before index `b` in canonical order: its key is
/// smaller, or the keys are equal and `a` is the lower index.
pub open spec fn precedes(keys: Seq<u64>, a: int, b: int) -> bool {
    keys[a] < keys[b] || (keys[a] == keys[b] && a < b)
}

/// Whether `order` lists indices below `n` in canonical order, each of them
/// once.
pub open spec fn lists_in_order(order: Seq<int>, keys: Seq<u64>, n: nat) -> bool {
    &&& order.len() == n
    &&& forall|a: int| 0 <= a < n ==> 0 <= #[trigger] order[a] < n
    &&& forall|a: int, b: int| 0 <= a < b < n ==> precedes(keys, order[a], order[b])
    &&& forall|j: int| 0 <= j < n ==> order.contains(j)
}

/// The ranking of the first `n` keys lists the indices below `n` in
/// canonical order.
pub proof fn lemma_ranking(keys: Seq<u64>, n: nat)
    requires
        n <= keys.len(),
    ensures
        lists_in_order(ranking(keys, n), keys, n),
    decreases n,
{
    if n > 0 {
        let m = (n - 1) as nat;
        let earlier = ranking(keys, m);
        lemma_ranking(keys, m);
        assert forall|a: int, b: int| 0 <= a < b < earlier.len() implies keys[earlier[a]]
            <= keys[earlier[b]] by {
            assert(precedes(keys, earlier[a], earlier[b]));
        }
        lemma_slot(earlier, keys, m as int);
        let p = slot(earlier, keys, m as int);
        let order = earlier.insert(p, m as int);
        assert(order == ranking(keys, n));
        assert forall|a: int, b: int| 0 <= a < b < n implies precedes(
            keys,
            order[a],
            order[b],
        ) by {
            if b < p {
                assert(precedes(keys, earlier[a], earlier[b]));
            } else if b == p {
                assert(keys[earlier[a]] <= keys[m as int]);
            } else if a < p {
                assert(precedes(keys, earlier[a], earlier[b - 1]));
            } else if a == p {
                assert(keys[earlier[b - 1]] > keys[m as int]);
            } else {
                assert(precedes(keys, earlier[a - 1], earlier[b - 1]));
            }
        }
        assert forall|j: int| 0 <= j < n implies order.contains(j) by {
            if j == m {
                assert(order[p] == j);
            } else {
                assert(earlier.contains(j));
                let a = choose|a: int| 0 <= a < earlier.len() && earlier[a] == j;
                if a < p {
                    assert(order[a] == j);
                } else {
                    assert(order[a + 1] == j);
                }
            }
        }
    }
}

/// Computes the canonical order of `keys`: the indices into it, that of a
/// smaller key first, those of equal keys in rising order.
pub fn order_of(keys: &Vec<u64>) -> (order: Vec<usize>)
    ensures
        positions(order@) == canonical_order(keys@),
        lists_in_order(positions(order@), keys@, keys@.len()),
        order.len() == keys.len(),
        forall|a: int| 0 <= a < order.len() ==> #[trigger] order@[a] < keys.len(),
{
    let mut order: Vec<usize> = Vec::new();
    let mut j: usize = 0;
    while j < keys.len()
        invariant
            j <= keys.len(),
            order.len() == j,
            positions(order@) == ranking(keys@, j as nat),
            forall|a: int| 0 <= a < order.len() ==> 0 <= #[trigger] order@[a] < j,
        decreases keys.len() - j,
    {
        let ghost earlier = positions(order@);
        let mut p: usize = order.len();
        assert(earlier.take(p as int) == earlier);
        while p > 0 && keys[order[p - 1]] > keys[j]
            invariant
                p <= order.len(),
                j < keys.len(),
                earlier == positions(order@),
                forall|a: int| 0 <= a < order.len() ==> 0 <= #[trigger] order@[a] < j,
                slot(earlier, keys@, j as int) == slot(earlier.take(p as int), keys@, j as int),
            decreases p,
        {
            assert(earlier.take(p as int).drop_last() == earlier.take(p - 1));
            p -= 1;
        }
        assert(slot(earlier, keys@, j as int) == p);
        order.insert(p, j);
        assert(positions(order@) == earlier.insert(p as int, j as int));
        j += 1;
    }
    proof {
        lemma_ranking(keys@, keys@.len());
    }
    order
}

/// The keys by which named fields are ordered: the hashes of their names.
pub open spec fn field_keys(fields: Seq<FieldView>) -> Seq<u64> {
    Seq::new(fields.len(), |i: int| text_hash(fields[i].name))
}

/// The keys by which positional fields are ordered: the hashes of their
/// labels, or of their positions where they have none.
pub open spec fn positional_keys(fields: Seq<PositionalView>) -> Seq<u64> {
    Seq::new(fields.len(), |i: int| text_hash(positional_text(fields[i], i)))
}

/// The keys by which variants are ordered: the hashes of their names.
pub open spec fn variant_keys(variants: Seq<VariantView>) -> Seq<u64> {
    Seq::new(variants.len(), |i: int| text_hash(variants[i].name))
}

/// Named fields in canonical order.
pub open spec fn sorted_fields(fields: Seq<FieldView>) -> Seq<FieldView> {
    arranged(fields, canonical_order(field_keys(fields)))
}

/// A positional field that went from one place to another. Such a field is
/// known by its label, or else by its place: one without a label that
/// leaves its place takes the place along as its label.
pub open spec fn moved(field: PositionalView, from: int, to: int) -> PositionalView {
    if field.label is None && from != to {
        PositionalView { label: Some(decimal(from as nat)), ty: field.ty }
    } else {
        field
    }
}

/// Positional fields in canonical order, each known as it was before.
pub open spec fn sorted_positionals(fields: Seq<PositionalView>) -> Seq<PositionalView> {
    let order = canonical_order(positional_keys(fields));
    Seq::new(order.len(), |a: int| moved(fields[order[a]], order[a], a))
}

/// Variants in canonical order.
pub open spec fn sorted_variants(variants: Seq<VariantView>) -> Seq<VariantView> {
    arranged(variants, canonical_order(variant_keys(variants)))
}

/// The keys by which the members of a shape are ordered. A shape without
/// members has none.
pub open spec fn member_keys(shape: Shape) -> Seq<u64> {
    match shape {
        Shape::Struct { fields: FieldsView::Named(fields), .. } => field_keys(fields),
        Shape::Struct { fields: FieldsView::Positional(fields), .. } => positional_keys(fields),
        Shape::Enum { variants, .. } => variant_keys(variants),
        _ => Seq::empty(),
    }
}

/// Whether the members of a shape stand in canonical order already: no key
/// is followed by a smaller one.
pub open spec fn in_canonical_order(shape: Shape) -> bool {
    forall|a: int, b: int|
        0 <= a < b < member_keys(shape).len() ==> member_keys(shape)[a] <= member_keys(shape)[b]
}

/// A shape with its members in canonical order. Only structs and enums
/// have members to order; any other shape is left as it is.
pub open spec fn sorted_shape(shape: Shape) -> Shape {
    match shape {
        Shape::Struct { package, name, fields } => Shape::Struct {
            package,
            name,
            fields: match fields {
                FieldsView::Named(fields) => FieldsView::Named(sorted_fields(fields)),
                FieldsView::Positional(fields) => FieldsView::Positional(
                    sorted_positionals(fields),
                ),
                FieldsView::Unit => FieldsView::Unit,
            },
        },
        Shape::Enum { package, name, variants } => Shape::Enum {
            package,
            name,
            variants: sorted_variants(variants),
        },
        _ => shape,
    }
}

fn sort_fields(fields: &Vec<Field>) -> (sorted: Vec<Field>)
    ensures
        sorted@.map_values(|f: Field| f@) == sorted_fields(fields@.map_values(|f: Field| f@)),
{
    let ghost views = fields@.map_values(|f: Field| f@);
    let mut keys: Vec<u64> = Vec::new();
    let mut i: usize = 0;
    while i < fields.len()
        invariant
            i <= fields.len(),
            keys.len() == i,
            views == fields@.map_values(|f: Field| f@),
            forall|k: int| 0 <= k < i ==> #[trigger] keys@[k] == text_hash(views[k].name),
        decreases fields.len() - i,
    {
        keys.push(hash_text(fields[i].name.as_str()));
        i += 1;
    }
    assert(keys@ == field_keys(views));
    let order = order_of(&keys);
    let mut sorted: Vec<Field> = Vec::new();
    let mut i: usize = 0;
    while i < order.len()
        invariant
            i <= order.len(),
            sorted.len() == i,
            order.len() == fields.len(),
            views == fields@.map_values(|f: Field| f@),
            forall|a: int| 0 <= a < order.len() ==> #[trigger] order@[a] < fields.len(),
            forall|k: int| 0 <= k < i ==> (#[trigger] sorted@[k])@ == views[order@[k] as int],
        decreases order.len() - i,
    {
        let field = &fields[order[i]];
        sorted.push(Field { name: field.name.clone(), ty: field.ty.clone() });
        i += 1;
    }
    assert(sorted@.map_values(|f: Field| f@) =~= arranged(views, positions(order@)));
    sorted
}

fn sort_positionals(fields: &Vec<Positional>) -> (sorted: Vec<Positional>)
    ensures
        sorted@.map_values(|f: Positional| f@) == sorted_positionals(
            fields@.map_values(|f: Positional| f@),
        ),
{
    let ghost views = fields@.map_values(|f: Positional| f@);
    let mut keys: Vec<u64> = Vec::new();
    let mut i: usize = 0;
    while i < fields.len()
        invariant
            i <= fields.len(),
            keys.len() == i,
            views == fields@.map_values(|f: Positional| f@),
            forall|k: int|
                0 <= k < i ==> #[trigger] keys@[k] == text_hash(positional_text(views[k], k)),
        decreases fields.len() - i,
    {
        let key = match &fields[i].label {
            Some(label) => hash_text(label.as_str()),
            None => {
                let mut numeral = String::new();
                append_decimal(&mut numeral, i as u64);
                hash_text(numeral.as_str())
            },
        };
        keys.push(key);
        i += 1;
    }
    assert(keys@ == positional_keys(views));
    let order = order_of(&keys);
    let mut sorted: Vec<Positional> = Vec::new();
    let mut i: usize = 0;
    while i < order.len()
        invariant
            i <= order.len(),
            sorted.len() == i,
            order.len() == fields.len(),
            views == fields@.map_values(|f: Positional| f@),
            forall|a: int| 0 <= a < order.len() ==> #[trigger] order@[a] < fields.len(),
            forall|k: int|
                0 <= k < i ==> (#[trigger] sorted@[k])@ == moved(
                    views[order@[k] as int],
                    order@[k] as int,
                    k,
                ),
        decreases order.len() - i,
    {
        let from = order[i];
        let field = &fields[from];
        let label = match &field.label {
            Some(label) => Some(label.clone()),
            None => {
                if from != i {
                    let mut numeral = String::new();
                    append_decimal(&mut numeral, from as u64);
                    Some(numeral)
                } else {
                    None
                }
            },
        };
        sorted.push(Positional { label, ty: field.ty.clone() });
        i += 1;
    }
    assert(sorted@.map_values(|f: Positional| f@) =~= sorted_positionals(views));
    sorted
}

fn sort_variants(variants: &Vec<Variant>) -> (sorted: Vec<Variant>)
    ensures
        sorted@.map_values(|v: Variant| v@) == sorted_variants(
            variants@.map_values(|v: Variant| v@),
        ),
{
    let ghost views = variants@.map_values(|v: Variant| v@);
    let mut keys: Vec<u64> = Vec::new();
    let mut i: usize = 0;
    while i < variants.len()
        invariant
            i <= variants.len(),
            keys.len() == i,
            views == variants@.map_values(|v: Variant| v@),
            forall|k: int| 0 <= k < i ==> #[trigger] keys@[k] == text_hash(views[k].name),
        decreases variants.len() - i,
    {
        keys.push(hash_text(variants[i].name.as_str()));
        i += 1;
    }
    assert(keys@ == variant_keys(views));
    let order = order_of(&keys);
    let mut sorted: Vec<Variant> = Vec::new();
    let mut i: usize = 0;
    while i < order.len()
        invariant
            i <= order.len(),
            sorted.len() == i,
            order.len() == variants.len(),
            views == variants@.map_values(|v: Variant| v@),
            forall|a: int| 0 <= a < order.len() ==> #[trigger] order@[a] < variants.len(),
            forall|k: int| 0 <= k < i ==> (#[trigger] sorted@[k])@ == views[order@[k] as int],
        decreases order.len() - i,
    {
        let variant = &variants[order[i]];
        sorted.push(Variant { name: variant.name.clone(), fields: variant.fields.clone() });
        i += 1;
    }
    assert(sorted@.map_values(|v: Variant| v@) =~= arranged(views, positions(order@)));
    sorted
}

/// Puts the members of a struct or of an enum in canonical order. No other
/// description has members to order, and none may be given.
pub fn sort(description: TypeDescription) -> (sorted: TypeDescription)
    requires
        description@ is Struct || description@ is Enum,
    ensures
        sorted@ == sorted_shape(description@),
{
    match description {
        TypeDescription::Struct { package, name, fields } => {
            let fields = match fields {
                Fields::Named(fields) => Fields::Named(sort_fields(&fields)),
                Fields::Positional(fields) => Fields::Positional(sort_positionals(&fields)),
                Fields::Unit => Fields::Unit,
            };
            TypeDescription::Struct { package, name, fields }
        },
        TypeDescription::Enum { package, name, variants } => {
            let variants = sort_variants(&variants);
            TypeDescription::Enum { package, name, variants }
        },
        // Not reached: the description is that of a struct or of an enum.
        other => other,
    }
}

/// The shape that a type's identity is taken from: the shape with its
/// members in canonical order where the type opted into canonical
/// ordering, the shape as declared where it did not.
pub open spec fn directed_shape(shape: Shape, canonical_ordering: bool) -> Shape {
    if canonical_ordering {
        sorted_shape(shape)
    } else {
        shape
    }
}

/// The identity of the described type under its ordering directive. Only a
/// struct or an enum can opt into canonical ordering.
pub fn identify(description: TypeDescription, canonical_ordering: bool) -> (id: StableId)
    requires
        recognized(description@),
        canonical_ordering ==> description@ is Struct || description@ is Enum,
    ensures
        id == identity(directed_shape(description@, canonical_ordering)),
{
    if canonical_ordering {
        stable_id(&sort(description))
    } else {
        stable_id(&description)
    }
}

/// Orders the members of the described struct or enum canonically and
/// computes the identity of the result, which is that of the type where it
/// opted into canonical ordering.
pub fn stable_sorted_type(description: TypeDescription) -> (r: (TypeDescription, StableId))
    requires
        description@ is Struct || description@ is Enum,
    ensures
        r.0@ == sorted_shape(description@),
        r.1 == identity(sorted_shape(description@)),
{
    let sorted = sort(description);
    let id = stable_id(&sorted);
    (sorted, id)
}

} // verus!
