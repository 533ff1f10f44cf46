use stable_typeid::signature::render;
use stable_typeid::{
    build_signature, stable_id, stable_id_impl, stable_id_impl_array, Field, Fields,
    MalformedDescription, Positional, Signature, StableId, Template, TypeDescription, Variant,
};

fn primitive(name: &str) -> TypeDescription {
    TypeDescription::Primitive { name: name.to_string() }
}

fn field(name: &str, ty: &str) -> Field {
    Field { name: name.to_string(), ty: ty.to_string() }
}

fn named_struct(package: &str, name: &str, fields: Vec<Field>) -> TypeDescription {
    TypeDescription::Struct {
        package: package.to_string(),
        name: name.to_string(),
        fields: Fields::Named(fields),
    }
}

fn point() -> TypeDescription {
    named_struct("geo", "Point", vec![field("x", "i32"), field("y", "i32")])
}

fn text(signature: &str) -> Result<Signature, MalformedDescription> {
    Ok(Signature::Text(signature.to_string()))
}

#[test]
fn point_signature_is_the_documented_text() {
    assert_eq!(build_signature(&point()), text("geo%struct~Point{x:i32;y:i32}"));
}

#[test]
fn point_identity_is_the_hash_of_its_signature() {
    assert_eq!(stable_id(&point()), StableId(0xdff3_12c4_1f9d_4736));
    assert_eq!(stable_id(&point()), StableId(16137262523351910198));
}

#[test]
fn point_identity_is_the_same_when_computed_again() {
    let first = stable_id(&point());
    let second = stable_id(&point());
    assert_eq!(first, second);
}

#[test]
fn another_field_set_gives_another_identity() {
    let flat = point();
    let solid =
        named_struct("geo", "Point", vec![field("x", "i32"), field("y", "i32"), field("z", "i32")]);
    assert_eq!(build_signature(&solid), text("geo%struct~Point{x:i32;y:i32;z:i32}"));
    assert_eq!(stable_id(&solid), StableId(0x99ff_3cb5_6c19_a621));
    assert_ne!(stable_id(&flat), stable_id(&solid));
}

#[test]
fn declaration_order_shows_in_the_signature() {
    let ab = named_struct("geo", "S", vec![field("a", "i32"), field("b", "bool")]);
    let ba = named_struct("geo", "S", vec![field("b", "bool"), field("a", "i32")]);
    assert_eq!(build_signature(&ab), text("geo%struct~S{a:i32;b:bool}"));
    assert_eq!(build_signature(&ba), text("geo%struct~S{b:bool;a:i32}"));
    assert_eq!(stable_id(&ab), StableId(0xb43a_d3c3_91fd_7bef));
    assert_eq!(stable_id(&ba), StableId(0xbc04_bf3e_dda1_80d3));
}

#[test]
fn package_keeps_like_named_types_apart() {
    let here = named_struct("geo", "S", vec![field("a", "i32"), field("b", "bool")]);
    let nowhere = named_struct("", "S", vec![field("a", "i32"), field("b", "bool")]);
    assert_eq!(build_signature(&nowhere), text("%struct~S{a:i32;b:bool}"));
    assert_eq!(stable_id(&nowhere), StableId(0xaad9_6acf_cfe4_1b9e));
    assert_ne!(stable_id(&here), stable_id(&nowhere));
}

#[test]
fn struct_without_named_fields_keeps_its_braces() {
    let empty = named_struct("geo", "Empty", vec![]);
    assert_eq!(build_signature(&empty), text("geo%struct~Empty{}"));
    assert_eq!(stable_id(&empty), StableId(0xe722_2874_4efb_8f33));
}

#[test]
fn positional_fields_are_rendered_by_position() {
    let pair = TypeDescription::Struct {
        package: "geo".to_string(),
        name: "Pair".to_string(),
        fields: Fields::Positional(vec![
            Positional { label: None, ty: "i32".to_string() },
            Positional { label: None, ty: "bool".to_string() },
        ]),
    };
    assert_eq!(build_signature(&pair), text("geo%struct~Pair(0,1)"));
    assert_eq!(stable_id(&pair), StableId(0xb90c_7246_5c06_c988));
}

#[test]
fn positional_field_with_a_label_is_rendered_by_it() {
    let named = TypeDescription::Struct {
        package: "geo".to_string(),
        name: "Named".to_string(),
        fields: Fields::Positional(vec![
            Positional { label: Some("first".to_string()), ty: "i32".to_string() },
            Positional { label: None, ty: "bool".to_string() },
        ]),
    };
    assert_eq!(build_signature(&named), text("geo%struct~Named(first,1)"));
    assert_eq!(stable_id(&named), StableId(0xdc5b_55a1_e459_5d31));
}

#[test]
fn positions_beyond_nine_take_two_digits() {
    let fields = (0..12).map(|_| Positional { label: None, ty: "u8".to_string() }).collect();
    let wide = TypeDescription::Struct {
        package: "p".to_string(),
        name: "W".to_string(),
        fields: Fields::Positional(fields),
    };
    assert_eq!(build_signature(&wide), text("p%struct~W(0,1,2,3,4,5,6,7,8,9,10,11)"));
}

#[test]
fn unit_struct_is_its_name_alone() {
    let marker = TypeDescription::Struct {
        package: "geo".to_string(),
        name: "Marker".to_string(),
        fields: Fields::Unit,
    };
    assert_eq!(build_signature(&marker), text("geo%struct~Marker"));
    assert_eq!(stable_id(&marker), StableId(0x1bec_90b0_ab48_4db0));
}

#[test]
fn enum_lists_its_variants() {
    let shape = TypeDescription::Enum {
        package: "geo".to_string(),
        name: "Shape".to_string(),
        variants: vec![
            Variant { name: "Circle".to_string(), fields: "(f32)".to_string() },
            Variant { name: "Square".to_string(), fields: "{ side : f32 }".to_string() },
            Variant { name: "Empty".to_string(), fields: String::new() },
        ],
    };
    assert_eq!(
        build_signature(&shape),
        text("geo%enum~Shape{Circle(f32),Square{ side : f32 },Empty}")
    );
    assert_eq!(stable_id(&shape), StableId(0x9998_4e95_28e7_a531));
}

#[test]
fn enum_without_variants_keeps_its_braces() {
    let never = TypeDescription::Enum {
        package: "geo".to_string(),
        name: "Never".to_string(),
        variants: vec![],
    };
    assert_eq!(build_signature(&never), text("geo%enum~Never{}"));
    assert_eq!(stable_id(&never), StableId(0x5abf_9279_bb82_3bb8));
}

#[test]
fn primitive_is_its_canonical_name() {
    assert_eq!(build_signature(&primitive("u32")), text("u32"));
    assert_eq!(stable_id(&primitive("u32")), StableId(0x4d2b_df19_3e85_26d1));
    assert_eq!(stable_id(&primitive("bool")), StableId(0xcd2f_d49b_c6b0_14bd));
}

#[test]
fn empty_tuple_has_the_reserved_token() {
    let unit = TypeDescription::Tuple { components: vec![] };
    assert_eq!(build_signature(&unit), text("()"));
    assert_eq!(stable_id(&unit), StableId(0x07e1_1f07_b4a6_665a));
}

#[test]
fn tuple_is_rendered_by_the_names_of_its_components() {
    let single = TypeDescription::Tuple { components: vec![primitive("i32")] };
    assert_eq!(build_signature(&single), text("(i32,)"));
    assert_eq!(stable_id(&single), StableId(0x0774_3bc8_fa55_1eb4));

    let pair = TypeDescription::Tuple { components: vec![primitive("i32"), primitive("bool")] };
    assert_eq!(build_signature(&pair), text("(i32, bool)"));
    assert_eq!(stable_id(&pair), StableId(0x3ee8_e008_a4da_eee6));

    let nested = TypeDescription::Tuple {
        components: vec![
            primitive("u8"),
            TypeDescription::Tuple { components: vec![primitive("u16"), primitive("u32")] },
        ],
    };
    assert_eq!(build_signature(&nested), text("(u8, (u16, u32))"));
    assert_eq!(stable_id(&nested), StableId(0x4774_2258_b317_158e));
}

#[test]
fn tuples_of_the_same_components_match() {
    let first = TypeDescription::Tuple { components: vec![primitive("i32"), primitive("bool")] };
    let second = TypeDescription::Tuple { components: vec![primitive("i32"), primitive("bool")] };
    assert_eq!(stable_id(&first), stable_id(&second));
}

#[test]
fn user_type_inside_a_tuple_is_rendered_by_its_path() {
    let tuple = TypeDescription::Tuple { components: vec![point(), primitive("u8")] };
    assert_eq!(render(&point()), "geo::Point");
    assert_eq!(build_signature(&tuple), text("(geo::Point, u8)"));
    assert_eq!(stable_id(&tuple), StableId(0x33c1_4c90_6b4b_ad56));
}

#[test]
fn array_inside_a_tuple_is_rendered_with_its_length() {
    let tuple = TypeDescription::Tuple {
        components: vec![
            primitive("u8"),
            TypeDescription::Array { element: Box::new(primitive("u16")), length: 4 },
        ],
    };
    assert_eq!(build_signature(&tuple), text("(u8, [u16; 4])"));
    assert_eq!(stable_id(&tuple), StableId(0x6559_ebe3_9267_596c));
}

#[test]
fn containers_are_rendered_with_their_arguments() {
    let optional = TypeDescription::Container {
        template: Template::Optional,
        arguments: vec![primitive("u8")],
    };
    assert_eq!(build_signature(&optional), text("core::option::Option<u8>"));
    assert_eq!(stable_id(&optional), StableId(0x54ad_67c6_936a_9a33));

    let sequence = TypeDescription::Container {
        template: Template::Sequence,
        arguments: vec![primitive("alloc::string::String")],
    };
    assert_eq!(build_signature(&sequence), text("alloc::vec::Vec<alloc::string::String>"));
    assert_eq!(stable_id(&sequence), StableId(0x2025_03d0_671f_af23));

    let mapping = TypeDescription::Container {
        template: Template::Mapping,
        arguments: vec![primitive("u32"), primitive("alloc::string::String")],
    };
    assert_eq!(
        build_signature(&mapping),
        text("std::collections::hash::map::HashMap<u32, alloc::string::String>")
    );
    assert_eq!(stable_id(&mapping), StableId(0xd799_e43a_fc41_048c));
}

#[test]
fn container_identity_can_be_asked_for_directly() {
    assert_eq!(
        stable_id_impl(Template::Optional, vec![primitive("u8")]),
        Ok(StableId(0x54ad_67c6_936a_9a33))
    );
    assert_eq!(
        stable_id_impl(
            Template::Mapping,
            vec![primitive("u32"), primitive("alloc::string::String")]
        ),
        Ok(StableId(0xd799_e43a_fc41_048c))
    );
}

#[test]
fn array_signature_is_composed() {
    let array = TypeDescription::Array { element: Box::new(primitive("u32")), length: 4 };
    assert_eq!(
        build_signature(&array),
        Ok(Signature::Composed { element: Box::new(Signature::Text("u32".to_string())), length: 4 })
    );
}

#[test]
fn array_identity_is_element_identity_xor_length() {
    let element = stable_id(&primitive("u32"));
    for length in [0u64, 1, 4, 255, u64::MAX] {
        let array = TypeDescription::Array { element: Box::new(primitive("u32")), length };
        assert_eq!(stable_id(&array), StableId(element.0 ^ length));
        assert_eq!(stable_id_impl_array(element, length), StableId(element.0 ^ length));
    }
    let array = TypeDescription::Array { element: Box::new(primitive("u32")), length: 4 };
    assert_eq!(stable_id(&array), StableId(0x4d2b_df19_3e85_26d5));
}

#[test]
fn array_of_length_zero_has_the_identity_of_its_element() {
    let array = TypeDescription::Array { element: Box::new(primitive("u8")), length: 0 };
    assert_eq!(stable_id(&array), stable_id(&primitive("u8")));
    assert_eq!(stable_id(&array), StableId(0x08c4_8207_b567_53d8));
}

#[test]
fn array_of_a_struct_composes_the_identity_of_the_struct() {
    let array = TypeDescription::Array { element: Box::new(point()), length: 2 };
    assert_eq!(stable_id(&array), StableId(0xdff3_12c4_1f9d_4734));
}

#[test]
fn array_of_arrays_composes_twice() {
    let inner = TypeDescription::Array { element: Box::new(primitive("u8")), length: 3 };
    let outer = TypeDescription::Array { element: Box::new(inner), length: 3 };
    assert_eq!(stable_id(&outer), stable_id(&primitive("u8")));
}

#[test]
fn unknown_shape_is_malformed() {
    assert_eq!(build_signature(&TypeDescription::Unknown), Err(MalformedDescription));
    assert!(!TypeDescription::Unknown.is_recognized());
}

#[test]
fn unknown_shape_inside_another_is_malformed() {
    let tuple =
        TypeDescription::Tuple { components: vec![primitive("u8"), TypeDescription::Unknown] };
    assert!(!tuple.is_recognized());
    assert_eq!(build_signature(&tuple), Err(MalformedDescription));
    let array = TypeDescription::Array { element: Box::new(TypeDescription::Unknown), length: 1 };
    assert!(!array.is_recognized());
    assert_eq!(build_signature(&array), Err(MalformedDescription));
    assert_eq!(
        stable_id_impl(Template::Optional, vec![TypeDescription::Unknown]),
        Err(MalformedDescription)
    );
}

#[test]
fn container_with_the_wrong_number_of_arguments_is_malformed() {
    assert_eq!(stable_id_impl(Template::Optional, vec![]), Err(MalformedDescription));
    assert_eq!(
        stable_id_impl(Template::Sequence, vec![primitive("u8"), primitive("u8")]),
        Err(MalformedDescription)
    );
    assert_eq!(stable_id_impl(Template::Mapping, vec![primitive("u8")]), Err(MalformedDescription));
    let mapping = TypeDescription::Container {
        template: Template::Mapping,
        arguments: vec![primitive("u8")],
    };
    assert_eq!(build_signature(&mapping), Err(MalformedDescription));
    assert!(!mapping.is_recognized());
}

#[test]
fn known_shapes_are_recognized() {
    assert!(primitive("u8").is_recognized());
    assert!(point().is_recognized());
    assert!(TypeDescription::Tuple { components: vec![] }.is_recognized());
    assert!(Template::Mapping.arguments_taken() == 2);
    assert!(Template::Optional.arguments_taken() == 1);
    assert!(Template::Sequence.arguments_taken() == 1);
    assert_eq!(Template::Sequence.name(), "alloc::vec::Vec");
}

#[test]
fn signature_identity_is_the_hash_of_the_text() {
    assert_eq!(Signature::Text("foobar".to_string()).identity(), StableId(0x8594_4171_f739_67e8));
    let composed = Signature::Composed {
        element: Box::new(Signature::Text("foobar".to_string())),
        length: 0xff,
    };
    assert_eq!(composed.identity(), StableId(0x8594_4171_f739_67e8 ^ 0xff));
}

#[test]
fn fields_that_hold_separators_can_read_alike() {
    let one = named_struct("p", "S", vec![field("a", "b;c:d")]);
    let two = named_struct("p", "S", vec![field("a", "b"), field("c", "d")]);
    assert_eq!(build_signature(&one), text("p%struct~S{a:b;c:d}"));
    assert_eq!(build_signature(&two), text("p%struct~S{a:b;c:d}"));
    assert_eq!(stable_id(&one), StableId(0xbddc_7da4_f2c3_c08f));
    assert_eq!(stable_id(&one), stable_id(&two));
}

#[test]
fn floating_point_types_are_leaves_like_any_other() {
    assert_eq!(stable_id(&primitive("f32")), StableId(0xdd63_5018_ff70_3544));
    assert_eq!(stable_id(&primitive("f64")), StableId(0xdd74_4c18_ff7e_a1ab));
}
