use stable_typeid::handle::gate;
use stable_typeid::{
    identity_of, Field, Fields, Shape, StableAny, StableAnyTrait, StableID, StableId,
    TypeDescription,
};

struct MyStruct {
    anything: String,
}

impl StableID for MyStruct {
    fn shape() -> Shape {
        unreachable!()
    }

    fn describe() -> TypeDescription {
        TypeDescription::Struct {
            package: "stable_typeid".to_string(),
            name: "MyStruct".to_string(),
            fields: Fields::Named(vec![Field {
                name: "anything".to_string(),
                ty: "String".to_string(),
            }]),
        }
    }
}

#[derive(Debug, PartialEq)]
struct Point {
    x: i32,
    y: i32,
}

impl StableID for Point {
    fn shape() -> Shape {
        unreachable!()
    }

    fn describe() -> TypeDescription {
        TypeDescription::Struct {
            package: "geo".to_string(),
            name: "Point".to_string(),
            fields: Fields::Named(vec![
                Field { name: "x".to_string(), ty: "i32".to_string() },
                Field { name: "y".to_string(), ty: "i32".to_string() },
            ]),
        }
    }
}

fn foo(any: &dyn StableAny) {
    if let Some(my_struct) = any.exact_ref::<MyStruct>() {
        println!("{} {}", my_struct.anything, identity_of::<MyStruct>().to_string());
    }
}

#[test]
fn main_test() {
    let any = MyStruct { anything: "Hello TypeId".to_string() };

    foo(&any);
}

#[test]
fn user_type_has_the_identity_of_its_signature() {
    assert_eq!(identity_of::<MyStruct>(), StableId(0x328b_4dc8_66ba_03fa));
    assert_eq!(identity_of::<Point>(), StableId(0xdff3_12c4_1f9d_4736));
}

#[test]
fn handle_reports_the_identity_of_its_type() {
    let point = Point { x: 1, y: 2 };
    let handle: &dyn StableAny = &point;
    assert_eq!(handle.stable_id(), identity_of::<Point>());
    assert_eq!(handle.stable_id(), StableId(0xdff3_12c4_1f9d_4736));
    let number = 7u32;
    let handle: &dyn StableAny = &number;
    assert_eq!(handle.stable_id(), identity_of::<u32>());
}

#[test]
fn handle_is_of_its_own_type_and_of_no_other() {
    let point = Point { x: 1, y: 2 };
    let handle: &dyn StableAny = &point;
    assert!(handle.is::<Point>());
    assert!(!handle.is::<MyStruct>());
    assert!(!handle.is::<u32>());
    assert!(!handle.is::<(i32, i32)>());
    assert!(!handle.is::<[i32; 2]>());
}

#[test]
fn exact_ref_returns_the_value_behind_the_handle() {
    let any = MyStruct { anything: "Hello TypeId".to_string() };
    let handle: &dyn StableAny = &any;
    let back = handle.exact_ref::<MyStruct>().expect("the handle holds a MyStruct");
    assert_eq!(back.anything, "Hello TypeId");
    assert!(std::ptr::eq(back, &any));

    let point = Point { x: 3, y: -4 };
    let handle: &dyn StableAny = &point;
    assert_eq!(handle.exact_ref::<Point>(), Some(&Point { x: 3, y: -4 }));
}

#[test]
fn exact_ref_to_another_type_is_absent() {
    let point = Point { x: 3, y: -4 };
    let handle: &dyn StableAny = &point;
    assert!(handle.exact_ref::<MyStruct>().is_none());
    assert!(handle.exact_ref::<u32>().is_none());
    assert!(handle.exact_ref::<String>().is_none());
}

#[test]
fn exact_ref_leaves_the_value_as_it_was() {
    let point = Point { x: 3, y: -4 };
    let handle: &dyn StableAny = &point;
    let _ = handle.exact_ref::<Point>();
    let _ = handle.exact_ref::<u32>();
    assert_eq!(point, Point { x: 3, y: -4 });
}

#[test]
fn exact_mut_gives_access_to_the_value() {
    let mut point = Point { x: 3, y: -4 };
    {
        let handle: &mut dyn StableAny = &mut point;
        let inner = handle.exact_mut::<Point>().expect("the handle holds a Point");
        inner.x = 10;
    }
    assert_eq!(point, Point { x: 10, y: -4 });
}

#[test]
fn exact_mut_to_another_type_is_absent() {
    let mut point = Point { x: 3, y: -4 };
    {
        let handle: &mut dyn StableAny = &mut point;
        assert!(handle.exact_mut::<u32>().is_none());
        assert!(handle.exact_mut::<MyStruct>().is_none());
    }
    assert_eq!(point, Point { x: 3, y: -4 });
}

#[test]
fn boxed_handle_can_be_asked() {
    let boxed: Box<dyn StableAny> = Box::new(String::from("owned"));
    assert!(boxed.is::<String>());
    assert_eq!(boxed.exact_ref::<String>().map(|s| s.as_str()), Some("owned"));
    assert!(boxed.exact_ref::<u8>().is_none());
}

#[test]
fn distinct_types_of_one_identity_pass_for_each_other() {
    let empty: [u8; 0] = [];
    assert_eq!(identity_of::<[u8; 0]>(), identity_of::<u8>());
    let handle: &dyn StableAny = &empty;
    assert!(handle.is::<[u8; 0]>());
    assert!(handle.is::<u8>());

    let folded: [[u16; 3]; 3] = [[0; 3]; 3];
    let handle: &dyn StableAny = &folded;
    assert!(handle.is::<u16>());
}

#[test]
fn exact_ref_across_a_collision_hands_out_nothing() {
    let empty: [u8; 0] = [];
    let handle: &dyn StableAny = &empty;
    assert!(handle.is::<u8>());
    assert!(handle.exact_ref::<u8>().is_none());
    assert!(handle.exact_ref::<[u8; 0]>().is_some());
}

#[test]
fn gate_lets_the_candidate_through_on_a_match_only() {
    assert_eq!(gate(true, Some(5)), Some(5));
    assert_eq!(gate(true, None::<i32>), None);
    assert_eq!(gate(false, Some(5)), None);
    assert_eq!(gate(false, None::<i32>), None);
}
