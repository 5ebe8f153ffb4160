//! The property-list protocol over both backends: typed get and set, the
//! update bracket, one-shot versus persistent reads, and the identity check
//! on stored objects.

use aimp::actions::ActionBuilder;
use aimp::actions::ActionFields;
use aimp::actions::ACTION_PROP_DEFAULT_GLOBAL_HOTKEY;
use aimp::actions::ACTION_PROP_DEFAULT_LOCAL_HOTKEY;
use aimp::actions::ACTION_PROP_ENABLED;
use aimp::actions::ACTION_PROP_GROUP_NAME;
use aimp::actions::ACTION_PROP_ID;
use aimp::actions::ACTION_PROP_NAME;
use aimp::iid::universal_base_iid;
use aimp::object::OpenQuerier;
use aimp::prop_list::FloatBits;
use aimp::prop_list::HashedPropertyList;
use aimp::prop_list::ObjectProperty;
use aimp::prop_list::PersistentPropertyList;
use aimp::Iid;
use aimp::InterfaceRegistry;
use aimp::ObjectHeap;
use aimp::PropertyList;

#[test]
fn one_shot_int32_set_then_get() {
    let list = PropertyList(HashedPropertyList::new());
    let mut g = list.update();
    g.set::<Option<i32>>(40, Some(7));
    let mut list = g.end_update();
    // the first read answers what was set; the second finds nothing
    assert_eq!(list.get::<Option<i32>>(40), Some(7));
    assert_eq!(list.get::<Option<i32>>(40), None);
}

#[test]
fn persistent_int32_get_leaves_the_entry() {
    let mut list = PropertyList(PersistentPropertyList::new());
    let mut g = list.update();
    g.set::<Option<i32>>(40, Some(7));
    list = g.end_update();
    assert_eq!(list.get::<Option<i32>>(40), Some(7));
    assert_eq!(list.get::<Option<i32>>(40), Some(7));
}

#[test]
fn absent_is_distinct_from_zero() {
    let mut list = PropertyList(PersistentPropertyList::new());
    let mut g = list.update();
    g.set::<Option<i32>>(1, Some(0));
    list = g.end_update();
    assert_eq!(list.get::<Option<i32>>(1), Some(0));
    assert_eq!(list.get::<Option<i32>>(2), None);
}

#[test]
fn typed_dictionaries_do_not_collide() {
    let mut list = PropertyList(HashedPropertyList::new());
    let mut g = list.update();
    g.set::<Option<i32>>(5, Some(11));
    g.set::<Option<i64>>(5, Some(-22));
    g.set::<Option<FloatBits>>(5, Some(FloatBits(2.5f64.to_bits())));
    list = g.end_update();
    assert_eq!(list.get::<Option<i64>>(5), Some(-22));
    assert_eq!(list.get::<Option<i32>>(5), Some(11));
    let bits = list.get::<Option<FloatBits>>(5).unwrap();
    assert_eq!(f64::from_bits(bits.0), 2.5);
}

#[test]
fn unwrapping_accessors_answer_the_stored_value() {
    let mut list = PropertyList(PersistentPropertyList::new());
    let mut g = list.update();
    g.set::<i32>(8, 625);
    g.set::<i64>(9, 1i64 << 40);
    g.set::<bool>(10, true);
    g.set::<FloatBits>(11, FloatBits(0.5f64.to_bits()));
    list = g.end_update();
    assert_eq!(list.get::<i32>(8), 625);
    assert_eq!(list.get::<i64>(9), 1i64 << 40);
    assert!(list.get::<bool>(10));
    assert_eq!(f64::from_bits(list.get::<FloatBits>(11).0), 0.5);
}

#[test]
fn set_overwrites() {
    let mut list = PropertyList(HashedPropertyList::new());
    let mut g = list.update();
    g.set::<Option<i32>>(3, Some(1));
    g.set::<Option<i32>>(3, Some(2));
    list = g.end_update();
    assert_eq!(list.get::<Option<i32>>(3), Some(2));
}

fn object_setup() -> (InterfaceRegistry, ObjectHeap<OpenQuerier>, usize, Iid) {
    let iid = Iid::new(0x41494D50, 0x5374, 0x7269, 0x6E, 0x67, 0, 0, 0, 0, 0, 0);
    let mut reg = InterfaceRegistry::new();
    let ix = reg.register(iid, 0, 3);
    let mut heap: ObjectHeap<OpenQuerier> = ObjectHeap::new();
    let obj = heap.allocate(&reg, OpenQuerier, &vec![ix]);
    (reg, heap, obj, iid)
}

#[test]
fn object_property_round_trip_with_identity_check() {
    let (reg, mut heap, obj, iid) = object_setup();
    let rc = heap.into_com_rc(obj, 0);
    let stored_ptr = rc.as_raw().ptr;

    let mut list = PropertyList(HashedPropertyList::new());
    list.set_value_as_object(77, rc);

    match list.get_value_as_object(&heap, &reg, 77, &iid) {
        ObjectProperty::Found(back) => assert_eq!(back.as_raw().ptr, stored_ptr),
        _ => panic!("stored object not found"),
    }
    // the read consumed the entry: a second fetch finds nothing
    match list.get_value_as_object(&heap, &reg, 77, &iid) {
        ObjectProperty::Absent => (),
        _ => panic!("entry should have been consumed"),
    }
}

#[test]
fn object_property_of_wrong_interface_is_treated_as_absent() {
    let (reg, mut heap, obj, _iid) = object_setup();
    let rc = heap.into_com_rc(obj, 0);
    let stored_ptr = rc.as_raw().ptr;
    let other = Iid::new(0x99999999, 0, 0, 0, 0, 0, 0, 0, 0, 0, 0);

    let mut list = PropertyList(HashedPropertyList::new());
    list.set_value_as_object(1, rc);
    match list.get_value_as_object(&heap, &reg, 1, &other) {
        ObjectProperty::WrongInterface(back) => {
            // the handle comes back so its reference can be released
            assert_eq!(back.as_raw().ptr, stored_ptr);
            assert_eq!(back.release_in(&mut heap, &reg), 0);
        }
        _ => panic!("the identity check should have failed"),
    }
}

#[test]
fn object_property_satisfies_base_identifier() {
    let (reg, mut heap, obj, _iid) = object_setup();
    let rc = heap.into_com_rc(obj, 0);
    let mut list = PropertyList(PersistentPropertyList::new());
    list.set_value_as_object(2, rc);
    match list.get_value_as_object(&heap, &reg, 2, &universal_base_iid()) {
        ObjectProperty::Found(back) => assert_eq!(back.as_raw().ptr.obj, obj),
        _ => panic!("every stored object satisfies the universal base"),
    }
}

#[test]
fn action_builder_writes_the_property_batch() {
    let (reg, mut heap, obj, iid) = object_setup();
    let id_rc = heap.into_com_rc(obj, 0);
    let name_rc = id_rc.clone_in(&mut heap, &reg);
    let event_rc = id_rc.clone_in(&mut heap, &reg);

    let built = ActionBuilder::new(ActionFields {
        id: id_rc,
        name: name_rc,
        enabled: true,
        event: event_rc,
    })
    .default_local_hotkey(65)
    .default_global_hotkey(66)
    .build(PropertyList(PersistentPropertyList::new()));

    let mut list = built;
    assert_eq!(list.get::<i32>(ACTION_PROP_DEFAULT_LOCAL_HOTKEY), 65);
    assert_eq!(list.get::<i32>(ACTION_PROP_DEFAULT_GLOBAL_HOTKEY), 66);
    assert!(list.get::<bool>(ACTION_PROP_ENABLED));
    match list.get_value_as_object(&heap, &reg, ACTION_PROP_ID, &iid) {
        ObjectProperty::Found(back) => assert_eq!(back.as_raw().ptr.obj, obj),
        _ => panic!("the identifier string should be stored"),
    }
    match list.get_value_as_object(&heap, &reg, ACTION_PROP_NAME, &iid) {
        ObjectProperty::Found(_) => (),
        _ => panic!("the name string should be stored"),
    }
    match list.get_value_as_object(&heap, &reg, ACTION_PROP_GROUP_NAME, &iid) {
        ObjectProperty::Absent => (),
        _ => panic!("no group name was given"),
    }
}
