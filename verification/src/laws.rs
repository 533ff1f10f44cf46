//! What holds of the library as a whole, proved from its definitions.

use vstd::prelude::*;
use crate::description::{FieldView, FieldsView, Shape, TypeDescription, VariantView};
use crate::erasure::token_of;
use crate::handle::{handle_of, StableAnyTrait};
use crate::hash::text_hash;
use crate::ordering::{
    arranged, canonical_order, field_keys, in_canonical_order, lemma_ranking, lists_in_order,
    member_keys, precedes, sorted_fields, sorted_positionals, sorted_shape, sorted_variants,
    variant_keys,
};
use crate::registry::StableID;
use crate::signature::{field_text, field_texts, identity, signature, struct_text};
use crate::text::join;

verus! {

/// Canonical ordering sorts: the result lists every index once, an index of
/// a smaller key before one of a greater key, and indices of equal keys in
/// rising order.
pub proof fn law_canonical_order_sorts(keys: Seq<u64>)
    ensures
        lists_in_order(canonical_order(keys), keys, keys.len()),
{
    lemma_ranking(keys, keys.len());
}

/// Two sequences that rise strictly under a relation which never holds
/// both ways, and that hold the same elements, are the same sequence.
pub proof fn lemma_rising_sequences_agree<T>(x: Seq<T>, y: Seq<T>, before: spec_fn(T, T) -> bool)
    requires
        forall|a: T, b: T| !(#[trigger] before(a, b) && before(b, a)),
        forall|i: int, j: int| 0 <= i < j < x.len() ==> #[trigger] before(x[i], x[j]),
        forall|i: int, j: int| 0 <= i < j < y.len() ==> #[trigger] before(y[i], y[j]),
        forall|i: int| 0 <= i < x.len() ==> y.contains(#[trigger] x[i]),
        forall|i: int| 0 <= i < y.len() ==> x.contains(#[trigger] y[i]),
    ensures
        x == y,
    decreases x.len(),
{
    if x.len() == 0 {
        if y.len() > 0 {
            assert(x.contains(y[0]));
        }
        assert(x =~= y);
    } else {
        assert(y.contains(x[0]));
        let xm = x.last();
        let ym = y.last();
        assert(x.contains(ym));
        let k = choose|k: int| 0 <= k < x.len() && x[k] == ym;
        assert(y.contains(xm));
        let l = choose|l: int| 0 <= l < y.len() && y[l] == xm;
        if k < x.len() - 1 {
            assert(before(x[k], xm));
            if l < y.len() - 1 {
                assert(before(y[l], ym));
            }
        }
        assert(xm == ym);
        let xs = x.drop_last();
        let ys = y.drop_last();
        assert forall|i: int| 0 <= i < xs.len() implies ys.contains(#[trigger] xs[i]) by {
            assert(y.contains(x[i]));
            let c = choose|c: int| 0 <= c < y.len() && y[c] == x[i];
            assert(before(x[i], xm));
            assert(c < y.len() - 1);
            assert(ys[c] == xs[i]);
        }
        assert forall|i: int| 0 <= i < ys.len() implies xs.contains(#[trigger] ys[i]) by {
            assert(x.contains(y[i]));
            let c = choose|c: int| 0 <= c < x.len() && x[c] == y[i];
            assert(before(y[i], ym));
            assert(c < x.len() - 1);
            assert(xs[c] == ys[i]);
        }
        assert forall|i: int, j: int| 0 <= i < j < xs.len() implies #[trigger] before(
            xs[i],
            xs[j],
        ) by {
            assert(before(x[i], x[j]));
        }
        assert forall|i: int, j: int| 0 <= i < j < ys.len() implies #[trigger] before(
            ys[i],
            ys[j],
        ) by {
            assert(before(y[i], y[j]));
        }
        lemma_rising_sequences_agree(xs, ys, before);
        assert(x =~= xs.push(xm));
        assert(y =~= ys.push(ym));
    }
}

/// Canonical order is the only order that sorts: whatever lists every index
/// once, by rising key and among equal keys by rising index, is it.
pub proof fn law_canonical_order_is_unique(keys: Seq<u64>, order: Seq<int>)
    requires
        lists_in_order(order, keys, keys.len()),
    ensures
        order == canonical_order(keys),
{
    let canonical = canonical_order(keys);
    law_canonical_order_sorts(keys);
    let before = |a: int, b: int| precedes(keys, a, b);
    assert forall|i: int| 0 <= i < order.len() implies canonical.contains(#[trigger] order[i]) by {
        assert(canonical.contains(order[i]));
    }
    assert forall|i: int| 0 <= i < canonical.len() implies order.contains(
        #[trigger] canonical[i],
    ) by {
        assert(order.contains(canonical[i]));
    }
    lemma_rising_sequences_agree(order, canonical, before);
}

/// Ordering what is sorted already changes nothing: where the keys do not
/// fall from one index to the next, the canonical order is the order they
/// stand in.
pub proof fn law_sorted_keys_keep_their_order(keys: Seq<u64>)
    requires
        forall|a: int, b: int| 0 <= a < b < keys.len() ==> keys[a] <= keys[b],
    ensures
        canonical_order(keys) == Seq::new(keys.len(), |i: int| i),
{
    let order = Seq::new(keys.len(), |i: int| i);
    assert forall|j: int| 0 <= j < keys.len() implies order.contains(j) by {
        assert(order[j] == j);
    }
    law_canonical_order_is_unique(keys, order);
}

/// Ordering a shape whose members stand in canonical order already gives
/// the same shape.
pub proof fn law_sorted_shape_is_unchanged(shape: Shape)
    requires
        in_canonical_order(shape),
    ensures
        sorted_shape(shape) == shape,
{
    let keys = member_keys(shape);
    law_sorted_keys_keep_their_order(keys);
    match shape {
        Shape::Struct { fields: FieldsView::Named(fields), .. } => {
            assert(sorted_fields(fields) =~= fields);
        },
        Shape::Struct { fields: FieldsView::Positional(fields), .. } => {
            assert(sorted_positionals(fields) =~= fields);
        },
        Shape::Enum { variants, .. } => {
            assert(sorted_variants(variants) =~= variants);
        },
        _ => {},
    }
}

/// Ordering twice is ordering once: what was ordered stands in canonical
/// order.
pub proof fn law_ordering_is_idempotent(shape: Shape)
    ensures
        in_canonical_order(sorted_shape(shape)),
        sorted_shape(sorted_shape(shape)) == sorted_shape(shape),
{
    let keys = member_keys(shape);
    let order = canonical_order(keys);
    law_canonical_order_sorts(keys);
    let sorted = sorted_shape(shape);
    assert forall|a: int, b: int| 0 <= a < b < member_keys(sorted).len() implies member_keys(
        sorted,
    )[a] <= member_keys(sorted)[b] by {
        assert(precedes(keys, order[a], order[b]));
        assert(member_keys(sorted)[a] == keys[order[a]]);
        assert(member_keys(sorted)[b] == keys[order[b]]);
    }
    law_sorted_shape_is_unchanged(sorted);
}

/// The keys of `items` under `key`.
pub open spec fn keys_of<T>(items: Seq<T>, key: spec_fn(T) -> u64) -> Seq<u64> {
    Seq::new(items.len(), |i: int| key(items[i]))
}

/// Canonical order does not depend on the order in which the items are
/// given: two sequences that hold the same items, no two of them with the
/// same key, are the same sequence once ordered.
pub proof fn lemma_given_order_is_forgotten<T>(
    first: Seq<T>,
    second: Seq<T>,
    key: spec_fn(T) -> u64,
)
    requires
        first.to_multiset() == second.to_multiset(),
        keys_of(first, key).no_duplicates(),
    ensures
        arranged(first, canonical_order(keys_of(first, key))) == arranged(
            second,
            canonical_order(keys_of(second, key)),
        ),
{
    broadcast use vstd::seq_lib::group_to_multiset_ensures;

    let keys1 = keys_of(first, key);
    let keys2 = keys_of(second, key);
    assert(first.no_duplicates()) by {
        assert forall|i: int, j: int|
            0 <= i < first.len() && 0 <= j < first.len() && i != j implies first[i]
            != first[j] by {
            assert(keys1[i] != keys1[j]);
        }
    }
    first.lemma_multiset_has_no_duplicates();
    second.lemma_multiset_has_no_duplicates_conv();
    assert forall|i: int| 0 <= i < second.len() implies first.contains(#[trigger] second[i]) by {
        assert(second.contains(second[i]));
        assert(second.to_multiset().count(second[i]) > 0);
    }
    assert forall|i: int| 0 <= i < first.len() implies second.contains(#[trigger] first[i]) by {
        assert(first.contains(first[i]));
        assert(first.to_multiset().count(first[i]) > 0);
    }
    assert forall|i: int, j: int|
        0 <= i < second.len() && 0 <= j < second.len() && i != j implies keys2[i]
        != keys2[j] by {
        assert(first.contains(second[i]));
        assert(first.contains(second[j]));
        let a = choose|a: int| 0 <= a < first.len() && first[a] == second[i];
        let b = choose|b: int| 0 <= b < first.len() && first[b] == second[j];
        assert(second[i] != second[j]);
        assert(keys1[a] != keys1[b]);
    }
    let order1 = canonical_order(keys1);
    let order2 = canonical_order(keys2);
    law_canonical_order_sorts(keys1);
    law_canonical_order_sorts(keys2);
    let sorted1 = arranged(first, order1);
    let sorted2 = arranged(second, order2);
    let before = |a: T, b: T| key(a) < key(b);
    assert forall|i: int, j: int| 0 <= i < j < sorted1.len() implies #[trigger] before(
        sorted1[i],
        sorted1[j],
    ) by {
        assert(precedes(keys1, order1[i], order1[j]));
    }
    assert forall|i: int, j: int| 0 <= i < j < sorted2.len() implies #[trigger] before(
        sorted2[i],
        sorted2[j],
    ) by {
        assert(precedes(keys2, order2[i], order2[j]));
    }
    assert forall|i: int| 0 <= i < sorted1.len() implies sorted2.contains(
        #[trigger] sorted1[i],
    ) by {
        assert(second.contains(first[order1[i]]));
        let c = choose|c: int| 0 <= c < second.len() && second[c] == first[order1[i]];
        assert(order2.contains(c));
        let d = choose|d: int| 0 <= d < order2.len() && order2[d] == c;
        assert(sorted2[d] == sorted1[i]);
    }
    assert forall|i: int| 0 <= i < sorted2.len() implies sorted1.contains(
        #[trigger] sorted2[i],
    ) by {
        assert(first.contains(second[order2[i]]));
        let c = choose|c: int| 0 <= c < first.len() && first[c] == second[order2[i]];
        assert(order1.contains(c));
        let d = choose|d: int| 0 <= d < order1.len() && order1[d] == c;
        assert(sorted1[d] == sorted2[i]);
    }
    lemma_rising_sequences_agree(sorted1, sorted2, before);
}

/// A struct that opted into canonical ordering has the same identity
/// however its declaration lists its named fields, as long as no two of
/// the names hash alike.
pub proof fn law_field_order_is_forgotten(
    package: Seq<char>,
    name: Seq<char>,
    first: Seq<FieldView>,
    second: Seq<FieldView>,
)
    requires
        first.to_multiset() == second.to_multiset(),
        field_keys(first).no_duplicates(),
    ensures
        sorted_fields(first) == sorted_fields(second),
        identity(sorted_shape(Shape::Struct { package, name, fields: FieldsView::Named(first) }))
            == identity(
            sorted_shape(Shape::Struct { package, name, fields: FieldsView::Named(second) }),
        ),
{
    let key = |f: FieldView| text_hash(f.name);
    assert(keys_of(first, key) =~= field_keys(first));
    assert(keys_of(second, key) =~= field_keys(second));
    lemma_given_order_is_forgotten(first, second, key);
}

/// An enum that opted into canonical ordering has the same identity
/// however its declaration lists its variants, as long as no two of the
/// names hash alike.
pub proof fn law_variant_order_is_forgotten(
    package: Seq<char>,
    name: Seq<char>,
    first: Seq<VariantView>,
    second: Seq<VariantView>,
)
    requires
        first.to_multiset() == second.to_multiset(),
        variant_keys(first).no_duplicates(),
    ensures
        sorted_variants(first) == sorted_variants(second),
        identity(sorted_shape(Shape::Enum { package, name, variants: first })) == identity(
            sorted_shape(Shape::Enum { package, name, variants: second }),
        ),
{
    let key = |v: VariantView| text_hash(v.name);
    assert(keys_of(first, key) =~= variant_keys(first));
    assert(keys_of(second, key) =~= variant_keys(second));
    lemma_given_order_is_forgotten(first, second, key);
}

/// Identity is a function of the shape alone: two descriptions of one
/// shape have one signature and one identity, whenever and wherever they
/// are computed.
pub proof fn law_identity_is_determined_by_shape(first: TypeDescription, second: TypeDescription)
    requires
        first@ == second@,
    ensures
        signature(first@) == signature(second@),
        identity(first@) == identity(second@),
{
}

/// The identity of an array is the identity of its element XOR its length;
/// for a length of zero it is the identity of the element itself.
pub proof fn law_array_identity_is_composed(element: Shape, length: u64)
    ensures
        identity(Shape::Array { element: Box::new(element), length }).0 == identity(element).0
            ^ length,
        length == 0 ==> identity(Shape::Array { element: Box::new(element), length })
            == identity(element),
{
    let id = identity(element).0;
    assert(id ^ 0 == id) by (bit_vector);
}

/// The identity of the array type `[T; N]` is that of `T` XOR `N`.
pub proof fn law_array_type_identity_is_composed<T: StableID, const N: usize>()
    ensures
        identity(<[T; N]>::shape()).0 == identity(T::shape()).0 ^ (N as u64),
{
}

/// A handle reports the identity of the type of the value behind it: the
/// identity that the type has statically.
pub proof fn law_handle_reports_identity_of_its_type<T: StableID + 'static>(value: &T)
    ensures
        handle_of(value).handle_identity() == identity(T::shape()),
{
}

/// The value behind a handle is the value that the handle was made of, so
/// recovering it as its own type hands out that very value.
pub proof fn law_handle_holds_its_value<T: StableID + 'static>(value: &T)
    ensures
        handle_of(value).handle_token() == token_of::<T>(value),
{
}

/// Whether a named field is written plainly: its name holds no colon and
/// no semicolon, and its type holds no semicolon.
pub open spec fn plainly_written(field: FieldView) -> bool {
    &&& !field.name.contains(':')
    &&& !field.name.contains(';')
    &&& !field.ty.contains(';')
}

/// A text is cut at its last separator in one way only.
proof fn lemma_cut_at_last<T>(a: Seq<T>, b: Seq<T>, c: Seq<T>, d: Seq<T>, sep: T)
    requires
        a + seq![sep] + b == c + seq![sep] + d,
        !b.contains(sep),
        !d.contains(sep),
    ensures
        a == c,
        b == d,
{
    let left = a + seq![sep] + b;
    let right = c + seq![sep] + d;
    assert(left.len() == a.len() + 1 + b.len());
    assert(right.len() == c.len() + 1 + d.len());
    assert(left[a.len() as int] == sep);
    assert(right[c.len() as int] == sep);
    if a.len() < c.len() {
        let i = c.len() - a.len() - 1;
        assert(left[c.len() as int] == b[i]);
        assert(b.contains(sep));
    }
    if c.len() < a.len() {
        let i = a.len() - c.len() - 1;
        assert(right[a.len() as int] == d[i]);
        assert(d.contains(sep));
    }
    assert(a =~= left.subrange(0, a.len() as int));
    assert(c =~= right.subrange(0, c.len() as int));
    assert(b =~= left.subrange(a.len() as int + 1, left.len() as int));
    assert(d =~= right.subrange(c.len() as int + 1, right.len() as int));
}

/// A text is cut at its first separator in one way only.
proof fn lemma_cut_at_first<T>(a: Seq<T>, b: Seq<T>, c: Seq<T>, d: Seq<T>, sep: T)
    requires
        a + seq![sep] + b == c + seq![sep] + d,
        !a.contains(sep),
        !c.contains(sep),
    ensures
        a == c,
        b == d,
{
    let left = a + seq![sep] + b;
    let right = c + seq![sep] + d;
    assert(left.len() == a.len() + 1 + b.len());
    assert(right.len() == c.len() + 1 + d.len());
    assert(left[a.len() as int] == sep);
    assert(right[c.len() as int] == sep);
    if a.len() < c.len() {
        assert(right[a.len() as int] == c[a.len() as int]);
        assert(c.contains(sep));
    }
    if c.len() < a.len() {
        assert(left[c.len() as int] == a[c.len() as int]);
        assert(a.contains(sep));
    }
    assert(a =~= left.subrange(0, a.len() as int));
    assert(c =~= right.subrange(0, c.len() as int));
    assert(b =~= left.subrange(a.len() as int + 1, left.len() as int));
    assert(d =~= right.subrange(c.len() as int + 1, right.len() as int));
}

/// Whether each part is a text of its own between separators: not empty,
/// and without a separator in it.
pub open spec fn separable(parts: Seq<Seq<char>>, sep: char) -> bool {
    forall|i: int|
        0 <= i < parts.len() ==> (#[trigger] parts[i]).len() > 0 && !parts[i].contains(sep)
}

/// What is joined of separable parts is empty for no part, free of the
/// separator for one part, and holds the separator for more.
proof fn lemma_joined_parts(parts: Seq<Seq<char>>, sep: char)
    requires
        separable(parts, sep),
    ensures
        parts.len() == 0 <==> join(parts, seq![sep]).len() == 0,
        parts.len() >= 2 <==> join(parts, seq![sep]).contains(sep),
    decreases parts.len(),
{
    if parts.len() >= 2 {
        let front = join(parts.drop_last(), seq![sep]);
        let joined = front + seq![sep] + parts.last();
        assert(joined[front.len() as int] == sep);
    } else if parts.len() == 1 {
        assert(parts[0].len() > 0 && !parts[0].contains(sep));
    }
}

/// Joining separable parts loses nothing: the parts can be read back from
/// the joined text.
pub proof fn lemma_join_is_injective(first: Seq<Seq<char>>, second: Seq<Seq<char>>, sep: char)
    requires
        separable(first, sep),
        separable(second, sep),
        join(first, seq![sep]) == join(second, seq![sep]),
    ensures
        first == second,
    decreases first.len(),
{
    lemma_joined_parts(first, sep);
    lemma_joined_parts(second, sep);
    if first.len() == 0 {
        assert(first =~= second);
    } else if first.len() == 1 {
        assert(first =~= second);
    } else {
        let front1 = first.drop_last();
        let front2 = second.drop_last();
        assert(separable(front1, sep)) by {
            assert forall|i: int| 0 <= i < front1.len() implies (#[trigger] front1[i]).len() > 0
                && !front1[i].contains(sep) by {
                assert(front1[i] == first[i]);
            }
        }
        assert(separable(front2, sep)) by {
            assert forall|i: int| 0 <= i < front2.len() implies (#[trigger] front2[i]).len() > 0
                && !front2[i].contains(sep) by {
                assert(front2[i] == second[i]);
            }
        }
        assert(first.last() == first[first.len() - 1]);
        assert(second.last() == second[second.len() - 1]);
        lemma_cut_at_last(
            join(front1, seq![sep]),
            first.last(),
            join(front2, seq![sep]),
            second.last(),
            sep,
        );
        lemma_join_is_injective(front1, front2, sep);
        assert(first =~= front1.push(first.last()));
        assert(second =~= front2.push(second.last()));
    }
}

/// The signature of a struct tells its named fields. Two structs of one
/// package and one name whose fields are written plainly have the same
/// signature text only if they have the same fields, of the same names and
/// types, in the same order.
pub proof fn law_signature_tells_the_fields(
    package: Seq<char>,
    name: Seq<char>,
    first: Seq<FieldView>,
    second: Seq<FieldView>,
)
    requires
        forall|i: int| 0 <= i < first.len() ==> plainly_written(#[trigger] first[i]),
        forall|i: int| 0 <= i < second.len() ==> plainly_written(#[trigger] second[i]),
        struct_text(package, name, FieldsView::Named(first)) == struct_text(
            package,
            name,
            FieldsView::Named(second),
        ),
    ensures
        first == second,
{
    reveal_strlit(";");
    reveal_strlit(":");
    reveal_strlit("}");
    assert(";"@ =~= seq![';']);
    assert(":"@ =~= seq![':']);
    let texts1 = field_texts(first);
    let texts2 = field_texts(second);
    let joined1 = join(texts1, ";"@);
    let joined2 = join(texts2, ";"@);
    let head = package + "%"@ + "struct~"@ + name + "{"@;
    let whole1 = struct_text(package, name, FieldsView::Named(first));
    let whole2 = struct_text(package, name, FieldsView::Named(second));
    assert(whole1 =~= head + joined1 + "}"@);
    assert(whole2 =~= head + joined2 + "}"@);
    assert(joined1 =~= whole1.subrange(head.len() as int, whole1.len() - 1));
    assert(joined2 =~= whole2.subrange(head.len() as int, whole2.len() - 1));
    assert(separable(texts1, ';')) by {
        assert forall|i: int| 0 <= i < texts1.len() implies (#[trigger] texts1[i]).len() > 0
            && !texts1[i].contains(';') by {
            lemma_field_text(first[i]);
        }
    }
    assert(separable(texts2, ';')) by {
        assert forall|i: int| 0 <= i < texts2.len() implies (#[trigger] texts2[i]).len() > 0
            && !texts2[i].contains(';') by {
            lemma_field_text(second[i]);
        }
    }
    lemma_join_is_injective(texts1, texts2, ';');
    assert(first.len() == texts1.len());
    assert(second.len() == texts2.len());
    assert forall|i: int| 0 <= i < first.len() implies first[i] == second[i] by {
        assert(texts1[i] == field_text(first[i]));
        assert(texts2[i] == field_text(second[i]));
        lemma_cut_at_first(first[i].name, first[i].ty, second[i].name, second[i].ty, ':');
    }
    assert(first =~= second);
}

/// The text of a plainly written field is not empty and holds no
/// semicolon.
proof fn lemma_field_text(field: FieldView)
    requires
        plainly_written(field),
    ensures
        field_text(field).len() > 0,
        !field_text(field).contains(';'),
{
    reveal_strlit(":");
    assert(":"@ =~= seq![':']);
    let text = field_text(field);
    if text.contains(';') {
        let i = choose|i: int| 0 <= i < text.len() && text[i] == ';';
        if i < field.name.len() {
            assert(field.name[i] == ';');
        } else if i > field.name.len() {
            assert(field.ty[i - field.name.len() - 1] == ';');
        }
    }
}

/// Identity is a function of the signature: two shapes of one signature
/// have one identity.
pub proof fn law_identity_is_determined_by_signature(first: Shape, second: Shape)
    requires
        signature(first) == signature(second),
    ensures
        identity(first) == identity(second),
{
}

} // verus!
