//! The object model end to end: identity chains, query-interface through
//! generated tables, handle equality, and the reference-count lifecycle.

use aimp::file::FileSystem;
use aimp::handle::EchoValue;
use aimp::iid::universal_base_iid;
use aimp::object::OpenQuerier;
use aimp::object::VetoQuerier;
use aimp::ComPtr;
use aimp::Iid;
use aimp::InterfacePtr;
use aimp::InterfaceRegistry;
use aimp::ObjectHeap;

fn iid_a() -> Iid {
    Iid::new(0x11111111, 0x4874, 0x7470, 0x43, 0x6C, 0x74, 0x45, 0x76, 0x74, 0x73, 0x00)
}

fn iid_b() -> Iid {
    Iid::new(0x44444444, 0x4874, 0x7470, 0x43, 0x6C, 0x74, 0x45, 0x76, 0x74, 0x73, 0x00)
}

fn two_interface_setup() -> (InterfaceRegistry, ObjectHeap<OpenQuerier>, usize, usize, usize) {
    let mut reg = InterfaceRegistry::new();
    let a = reg.register(iid_a(), 0, 1);
    let b = reg.register(iid_b(), 0, 1);
    let mut heap: ObjectHeap<OpenQuerier> = ObjectHeap::new();
    let obj = heap.allocate(&reg, OpenQuerier, &vec![a, b]);
    (reg, heap, a, b, obj)
}

#[test]
fn check_inheritance_chain() {
    let (reg, mut heap, _a, _b, obj) = two_interface_setup();
    assert_eq!(
        heap.query_interface(&reg, obj, &universal_base_iid()),
        Some(InterfacePtr { obj, table: 0 })
    );
    assert_eq!(
        heap.query_interface(&reg, obj, &iid_a()),
        Some(InterfacePtr { obj, table: 0 })
    );
    assert_eq!(
        heap.query_interface(&reg, obj, &iid_b()),
        Some(InterfacePtr { obj, table: 1 })
    );
}

#[test]
fn check_iunknown_inheritance() {
    let (reg, mut heap, a_ix, b_ix, obj) = two_interface_setup();
    let wrapper = heap.into_com_rc(obj, 0);

    let iunknown = wrapper
        .as_raw()
        .query_interface(&mut heap, &reg, &universal_base_iid())
        .unwrap();
    let a = wrapper
        .as_raw()
        .query_interface(&mut heap, &reg, &iid_a())
        .unwrap();
    let b = wrapper
        .as_raw()
        .query_interface(&mut heap, &reg, &iid_b())
        .unwrap();
    assert_eq!(
        ComPtr::from_ptr(iunknown, 0),
        ComPtr::from_ptr(a, a_ix).cast(0)
    );

    let a_iunknown = ComPtr::from_ptr(a, a_ix)
        .query_interface(&mut heap, &reg, &universal_base_iid())
        .unwrap();
    assert_eq!(iunknown, a_iunknown);

    let b_iunknown = ComPtr::from_ptr(b, b_ix)
        .query_interface(&mut heap, &reg, &universal_base_iid())
        .unwrap();
    assert_eq!(iunknown, b_iunknown);
}

#[test]
fn satisfies_own_and_universal_identifier() {
    let mut reg = InterfaceRegistry::new();
    let a = reg.register(iid_a(), 0, 1);
    let b = reg.register(iid_b(), a, 2);
    assert!(reg.check_inheritance_chain(a, &iid_a()));
    assert!(reg.check_inheritance_chain(b, &iid_b()));
    assert!(reg.check_inheritance_chain(a, &universal_base_iid()));
    assert!(reg.check_inheritance_chain(b, &universal_base_iid()));
    // the chain runs upward only: a base does not satisfy a derived identifier
    assert!(reg.check_inheritance_chain(b, &iid_a()));
    assert!(!reg.check_inheritance_chain(a, &iid_b()));
}

#[test]
fn table_layout_base_prefix_and_offsets() {
    let mut reg = InterfaceRegistry::new();
    let a = reg.register(iid_a(), 0, 1);
    let b = reg.register(iid_b(), a, 2);
    let table_b = aimp::vtable::build_table(&reg, b, 4);
    // three universal slots, one slot a adds, two slots b adds
    assert_eq!(table_b.slots.len(), 6);
    let expect = [(0, 0), (0, 1), (0, 2), (a, 0), (b, 0), (b, 1)];
    for (k, (iface, method)) in expect.iter().enumerate() {
        assert_eq!(table_b.slots[k].iface, *iface);
        assert_eq!(table_b.slots[k].method, *method);
        assert_eq!(table_b.slots[k].owner_offset, 4);
    }
}

#[test]
fn refcount_lifecycle_frees_exactly_after_third_drop() {
    let (reg, mut heap, _a, _b, obj) = two_interface_setup();
    assert_eq!(heap.slots[obj].as_ref().unwrap().counter, 0);

    let first = heap.into_com_rc(obj, 0);
    assert_eq!(heap.slots[obj].as_ref().unwrap().counter, 1);

    let second = first.clone_in(&mut heap, &reg);
    let third = first.clone_in(&mut heap, &reg);
    assert_eq!(heap.slots[obj].as_ref().unwrap().counter, 3);

    assert_eq!(first.release_in(&mut heap, &reg), 2);
    assert!(heap.slots[obj].is_some());
    assert_eq!(second.release_in(&mut heap, &reg), 1);
    assert!(heap.slots[obj].is_some());
    assert_eq!(third.release_in(&mut heap, &reg), 0);
    assert!(heap.slots[obj].is_none());
}

#[test]
fn query_for_unsupported_iid_changes_nothing() {
    let (reg, mut heap, _a, _b, obj) = two_interface_setup();
    let _keep = heap.into_com_rc(obj, 0);
    let before = heap.slots[obj].as_ref().unwrap().counter;
    let unknown = Iid::new(0x99999999, 0, 0, 0, 0, 0, 0, 0, 0, 0, 0);
    assert_eq!(heap.query_interface(&reg, obj, &unknown), None);
    assert_eq!(heap.slots[obj].as_ref().unwrap().counter, before);
}

#[test]
fn veto_hides_an_interface() {
    let mut reg = InterfaceRegistry::new();
    let a = reg.register(iid_a(), 0, 1);
    let b = reg.register(iid_b(), 0, 1);
    let mut heap: ObjectHeap<VetoQuerier> = ObjectHeap::new();
    let obj = heap.allocate(&reg, VetoQuerier { hidden: vec![iid_b()] }, &vec![a, b]);
    assert_eq!(
        heap.query_interface(&reg, obj, &iid_a()),
        Some(InterfacePtr { obj, table: 0 })
    );
    assert_eq!(heap.query_interface(&reg, obj, &iid_b()), None);
}

#[test]
fn owning_cast_round_trip_keeps_the_address() {
    let (reg, mut heap, a_ix, b_ix, obj) = two_interface_setup();
    let rc = heap.into_com_rc(obj, 0);
    let via_a = rc.cast(a_ix).cast(0);
    assert_eq!(via_a, rc);
    let as_a_again = rc.cast(a_ix);
    let as_b = rc.cast(b_ix);
    assert_eq!(as_a_again.cast(0).inner.ptr, as_b.cast(0).inner.ptr);
    // a cast is a move of the same owned reference: the count is untouched
    assert_eq!(heap.slots[obj].as_ref().unwrap().counter, 1);
}

#[test]
fn scenario_two_interfaces_one_object() {
    // object O supports X and Y, with identifiers 0x11… and 0x44…
    let mut reg = InterfaceRegistry::new();
    let x = reg.register(iid_a(), 0, 1);
    let y = reg.register(iid_b(), 0, 1);
    let mut heap: ObjectHeap<EchoValue> = ObjectHeap::new();
    let obj = heap.allocate(&reg, EchoValue, &vec![x, y]);
    let _keep = heap.into_com_rc(obj, 0);

    // query(O, 0x11…) succeeds
    let px = heap.query_interface(&reg, obj, &iid_a()).unwrap();
    let hx = ComPtr::from_ptr(px, x);

    // the first three slots of its table are callable: the universal triad
    let q = hx.query_interface(&mut heap, &reg, &iid_a());
    assert_eq!(q, Some(px));
    let up = hx.add_ref(&mut heap, &reg);
    let down = hx.release(&mut heap, &reg);
    assert_eq!(up, down + 1);
    // and the slot beyond the triad dispatches to the native method
    assert_eq!(hx.call_method(&heap, &reg, 3, &vec![625, 7]), 625);

    // both universal-base queries name the same table address: the object
    let x_unknown = hx
        .query_interface(&mut heap, &reg, &universal_base_iid())
        .unwrap();
    let py = heap.query_interface(&reg, obj, &iid_b()).unwrap();
    let hy = ComPtr::from_ptr(py, y);
    let y_unknown = hy
        .query_interface(&mut heap, &reg, &universal_base_iid())
        .unwrap();
    assert_eq!(x_unknown, y_unknown);
    assert_ne!(px, py);
}

#[test]
fn file_system_hides_commands_it_cannot_perform() {
    let delete_iid = Iid::new(0x41465343, 0x6D64, 0x4465, 0x6C, 0x65, 0x74, 0x65, 0, 0, 0, 0);
    let streaming_iid = Iid::new(
        0x41465343, 0x6D64, 0x5374, 0x72, 0x65, 0x61, 0x6D, 0x69, 0x6E, 0x67, 0,
    );
    let mut reg = InterfaceRegistry::new();
    let del = reg.register(delete_iid, 0, 1);
    let strm = reg.register(streaming_iid, 0, 1);
    let fs = FileSystem {
        custom: false,
        copy_to_clipboard: false,
        delete: true,
        drop_source: false,
        file_info: false,
        open_file_folder: false,
        streaming: false,
    };
    let mut heap: ObjectHeap<FileSystem> = ObjectHeap::new();
    let obj = heap.allocate(&reg, fs, &vec![del, strm]);
    // the delete capability is there and answers; streaming has a table
    // but the veto hides it; anything else falls through to the chain
    assert_eq!(
        heap.query_interface(&reg, obj, &delete_iid),
        Some(InterfacePtr { obj, table: 0 })
    );
    assert_eq!(heap.query_interface(&reg, obj, &streaming_iid), None);
    assert_eq!(
        heap.query_interface(&reg, obj, &universal_base_iid()),
        Some(InterfacePtr { obj, table: 0 })
    );
}
