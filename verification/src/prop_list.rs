//! The transactional, numeric-key, typed property-list protocol: four
//! dictionaries per list — float, 32-bit integer, 64-bit integer, object —
//! each keyed by a signed 32-bit property identifier, with `begin_update` /
//! `end_update` bracketing batches of writes. Two in-memory backends
//! implement it: a persistent one, whose reads leave entries in place (the
//! default), and the dictionary-backed one whose reads consume the entry —
//! one-shot semantics, kept as a named alternative. Float values are held
//! and returned as bit patterns; the list never computes on them.

use vstd::prelude::*;

use std::collections::HashMap;

use dashmap::DashMap;

use crate::dash::float_bits_entries;
use crate::dash::insert_float_bits;
use crate::dash::insert_int32;
use crate::dash::insert_int64;
use crate::dash::insert_object;
use crate::dash::int32_entries;
use crate::dash::int64_entries;
use crate::dash::object_entries;
use crate::dash::remove_float_bits;
use crate::dash::remove_int32;
use crate::dash::remove_int64;
use crate::dash::remove_object;
use crate::handle::ComRc;
use crate::iid::Iid;
use crate::iid::InterfaceRegistry;
use crate::object::ComInterfaceQuerier;
use crate::object::InterfacePtr;
use crate::object::ObjectHeap;
use crate::object::qi_on;

verus! {

broadcast use vstd::std_specs::hash::group_hash_axioms;

/// The state of one property list: the four typed dictionaries. A key with
/// no entry is absent, which is distinct from a zero value.
pub struct PropState {
    pub floats: Map<i32, u64>,
    pub int32s: Map<i32, i32>,
    pub int64s: Map<i32, i64>,
    pub objects: Map<i32, (usize, usize)>,
}

impl PropState {
    /// The state with nothing set.
    pub open spec fn empty_state() -> PropState {
        PropState {
            floats: Map::empty(),
            int32s: Map::empty(),
            int64s: Map::empty(),
            objects: Map::empty(),
        }
    }

    /// This state with its float dictionary replaced.
    pub open spec fn with_floats(self, m: Map<i32, u64>) -> PropState {
        PropState { floats: m, int32s: self.int32s, int64s: self.int64s, objects: self.objects }
    }

    /// This state with its 32-bit integer dictionary replaced.
    pub open spec fn with_int32s(self, m: Map<i32, i32>) -> PropState {
        PropState { floats: self.floats, int32s: m, int64s: self.int64s, objects: self.objects }
    }

    /// This state with its 64-bit integer dictionary replaced.
    pub open spec fn with_int64s(self, m: Map<i32, i64>) -> PropState {
        PropState { floats: self.floats, int32s: self.int32s, int64s: m, objects: self.objects }
    }

    /// This state with its object dictionary replaced.
    pub open spec fn with_objects(self, m: Map<i32, (usize, usize)>) -> PropState {
        PropState { floats: self.floats, int32s: self.int32s, int64s: self.int64s, objects: m }
    }
}

/// What a storage backend owes the protocol. `model` is the backend's
/// state; `consumes_on_get` says once and for all whether its reads take
/// the entry out (the one-shot alternative) or leave it in place. A write
/// always succeeds and overwrites.
pub trait PropertyListBackend: Sized {
    spec fn model(&self) -> PropState;

    spec fn consumes_on_get() -> bool;

    /// Opens an update bracket. For an in-memory backend the bracket has no
    /// effect beyond its timing.
    fn begin_update(&mut self)
        ensures
            final(self).model() == old(self).model(),
    ;

    /// Closes an update bracket.
    fn end_update(&mut self)
        ensures
            final(self).model() == old(self).model(),
    ;

    fn set_float_bits(&mut self, id: i32, value: u64)
        ensures
            final(self).model() == old(self).model().with_floats(
                old(self).model().floats.insert(id, value),
            ),
    ;

    fn get_float_bits(&mut self, id: i32) -> (r: Option<u64>)
        ensures
            r == (if old(self).model().floats.dom().contains(id) {
                Some(old(self).model().floats[id])
            } else {
                None::<u64>
            }),
            final(self).model() == (if Self::consumes_on_get() {
                old(self).model().with_floats(old(self).model().floats.remove(id))
            } else {
                old(self).model()
            }),
    ;

    fn set_int32(&mut self, id: i32, value: i32)
        ensures
            final(self).model() == old(self).model().with_int32s(
                old(self).model().int32s.insert(id, value),
            ),
    ;

    fn get_int32(&mut self, id: i32) -> (r: Option<i32>)
        ensures
            r == (if old(self).model().int32s.dom().contains(id) {
                Some(old(self).model().int32s[id])
            } else {
                None::<i32>
            }),
            final(self).model() == (if Self::consumes_on_get() {
                old(self).model().with_int32s(old(self).model().int32s.remove(id))
            } else {
                old(self).model()
            }),
    ;

    fn set_int64(&mut self, id: i32, value: i64)
        ensures
            final(self).model() == old(self).model().with_int64s(
                old(self).model().int64s.insert(id, value),
            ),
    ;

    fn get_int64(&mut self, id: i32) -> (r: Option<i64>)
        ensures
            r == (if old(self).model().int64s.dom().contains(id) {
                Some(old(self).model().int64s[id])
            } else {
                None::<i64>
            }),
            final(self).model() == (if Self::consumes_on_get() {
                old(self).model().with_int64s(old(self).model().int64s.remove(id))
            } else {
                old(self).model()
            }),
    ;

    fn set_object_ptr(&mut self, id: i32, ptr: InterfacePtr)
        ensures
            final(self).model() == old(self).model().with_objects(
                old(self).model().objects.insert(id, (ptr.obj, ptr.table)),
            ),
    ;

    fn get_object_ptr(&mut self, id: i32) -> (r: Option<InterfacePtr>)
        ensures
            r == (if old(self).model().objects.dom().contains(id) {
                Some(
                    InterfacePtr {
                        obj: old(self).model().objects[id].0,
                        table: old(self).model().objects[id].1,
                    },
                )
            } else {
                None::<InterfacePtr>
            }),
            final(self).model() == (if Self::consumes_on_get() {
                old(self).model().with_objects(old(self).model().objects.remove(id))
            } else {
                old(self).model()
            }),
    ;
}

/// The persistent in-memory backend, the default: reads leave entries in
/// place.
pub struct PersistentPropertyList {
    floats: HashMap<i32, u64>,
    int32s: HashMap<i32, i32>,
    int64s: HashMap<i32, i64>,
    objects: HashMap<i32, (usize, usize)>,
}

impl PersistentPropertyList {
    /// A list with nothing set.
    pub fn new() -> (r: PersistentPropertyList)
        ensures
            r.model() == PropState::empty_state(),
    {
        let r = PersistentPropertyList {
            floats: HashMap::new(),
            int32s: HashMap::new(),
            int64s: HashMap::new(),
            objects: HashMap::new(),
        };
        proof {
            assert(r.model().floats =~= Map::<i32, u64>::empty());
            assert(r.model().int32s =~= Map::<i32, i32>::empty());
            assert(r.model().int64s =~= Map::<i32, i64>::empty());
            assert(r.model().objects =~= Map::<i32, (usize, usize)>::empty());
        }
        r
    }
}

impl PropertyListBackend for PersistentPropertyList {
    closed spec fn model(&self) -> PropState {
        PropState {
            floats: self.floats@,
            int32s: self.int32s@,
            int64s: self.int64s@,
            objects: self.objects@,
        }
    }

    open spec fn consumes_on_get() -> bool {
        false
    }

    fn begin_update(&mut self) {
    }

    fn end_update(&mut self) {
    }

    fn set_float_bits(&mut self, id: i32, value: u64) {
        self.floats.insert(id, value);
    }

    fn get_float_bits(&mut self, id: i32) -> (r: Option<u64>) {
        match self.floats.get(&id) {
            Some(v) => Some(*v),
            None => None,
        }
    }

    fn set_int32(&mut self, id: i32, value: i32) {
        self.int32s.insert(id, value);
    }

    fn get_int32(&mut self, id: i32) -> (r: Option<i32>) {
        match self.int32s.get(&id) {
            Some(v) => Some(*v),
            None => None,
        }
    }

    fn set_int64(&mut self, id: i32, value: i64) {
        self.int64s.insert(id, value);
    }

    fn get_int64(&mut self, id: i32) -> (r: Option<i64>) {
        match self.int64s.get(&id) {
            Some(v) => Some(*v),
            None => None,
        }
    }

    fn set_object_ptr(&mut self, id: i32, ptr: InterfacePtr) {
        self.objects.insert(id, (ptr.obj, ptr.table));
    }

    fn get_object_ptr(&mut self, id: i32) -> (r: Option<InterfacePtr>) {
        match self.objects.get(&id) {
            Some(v) => Some(InterfacePtr { obj: v.0, table: v.1 }),
            None => None,
        }
    }
}

/// The dictionary-backed double with one-shot reads: a successful read
/// additionally removes the entry. This consuming behaviour is what its
/// concurrent-map storage gives most cheaply, and it is kept here as a
/// named alternative to the persistent default.
pub struct HashedPropertyList {
    floats: DashMap<i32, u64>,
    int32s: DashMap<i32, i32>,
    int64s: DashMap<i32, i64>,
    objects: DashMap<i32, (usize, usize)>,
}

impl HashedPropertyList {
    /// A list with nothing set. Relies on dashmap::DashMap::new: a new map
    /// has no entries.
    #[verifier::external_body]
    pub fn new() -> (r: HashedPropertyList)
        ensures
            r.model() == PropState::empty_state(),
    {
        HashedPropertyList {
            floats: DashMap::new(),
            int32s: DashMap::new(),
            int64s: DashMap::new(),
            objects: DashMap::new(),
        }
    }
}

impl PropertyListBackend for HashedPropertyList {
    closed spec fn model(&self) -> PropState {
        PropState {
            floats: float_bits_entries(self.floats),
            int32s: int32_entries(self.int32s),
            int64s: int64_entries(self.int64s),
            objects: object_entries(self.objects),
        }
    }

    open spec fn consumes_on_get() -> bool {
        true
    }

    fn begin_update(&mut self) {
    }

    fn end_update(&mut self) {
    }

    fn set_float_bits(&mut self, id: i32, value: u64) {
        let _ = insert_float_bits(&mut self.floats, id, value);
    }

    fn get_float_bits(&mut self, id: i32) -> (r: Option<u64>) {
        remove_float_bits(&mut self.floats, id)
    }

    fn set_int32(&mut self, id: i32, value: i32) {
        let _ = insert_int32(&mut self.int32s, id, value);
    }

    fn get_int32(&mut self, id: i32) -> (r: Option<i32>) {
        remove_int32(&mut self.int32s, id)
    }

    fn set_int64(&mut self, id: i32, value: i64) {
        let _ = insert_int64(&mut self.int64s, id, value);
    }

    fn get_int64(&mut self, id: i32) -> (r: Option<i64>) {
        remove_int64(&mut self.int64s, id)
    }

    fn set_object_ptr(&mut self, id: i32, ptr: InterfacePtr) {
        let _ = insert_object(&mut self.objects, id, (ptr.obj, ptr.table));
    }

    fn get_object_ptr(&mut self, id: i32) -> (r: Option<InterfacePtr>) {
        match remove_object(&mut self.objects, id) {
            Some(v) => Some(InterfacePtr { obj: v.0, table: v.1 }),
            None => None,
        }
    }
}

/// A property list over some backend.
pub struct PropertyList<S: PropertyListBackend>(pub S);

/// A typed view of one property slot: how a value of this type is read
/// from and written into a list state.
pub trait PropertyListAccessor<S: PropertyListBackend>: Sized {
    /// Whether a read of this type is defined on this state and key.
    spec fn get_enabled(m: PropState, id: i32) -> bool;

    /// What a read returns, and the state it leaves behind.
    spec fn get_spec(m: PropState, id: i32) -> (Self, PropState);

    /// The state after a write of `v`.
    spec fn set_spec(m: PropState, id: i32, v: Self) -> PropState;

    fn get(id: i32, list: &mut PropertyList<S>) -> (r: Self)
        requires
            Self::get_enabled(old(list).model(), id),
        ensures
            r == Self::get_spec(old(list).model(), id).0,
            final(list).model() == Self::get_spec(old(list).model(), id).1,
    ;

    fn set(self, id: i32, list: &mut PropertyList<S>)
        ensures
            final(list).model() == Self::set_spec(old(list).model(), id, self),
    ;
}

impl<S: PropertyListBackend> PropertyList<S> {
    /// The list's state.
    pub open spec fn model(&self) -> PropState {
        self.0.model()
    }

    /// Reads the property under `id` at the type the caller asks for.
    pub fn get<U: PropertyListAccessor<S>>(&mut self, id: i32) -> (r: U)
        requires
            U::get_enabled(old(self).model(), id),
        ensures
            r == U::get_spec(old(self).model(), id).0,
            final(self).model() == U::get_spec(old(self).model(), id).1,
    {
        U::get(id, self)
    }

    /// Opens an update bracket, within which writes are batched.
    pub fn update(self) -> (g: PropertyListGuard<S>)
        ensures
            g.0.model() == self.model(),
    {
        let mut this = self;
        this.0.begin_update();
        PropertyListGuard(this)
    }
}

/// An open update bracket over a list; writes go through it, and
/// `end_update` closes the bracket and hands the list back.
pub struct PropertyListGuard<S: PropertyListBackend>(pub PropertyList<S>);

impl<S: PropertyListBackend> PropertyListGuard<S> {
    /// Writes `prop` under `id`; always succeeds and overwrites.
    pub fn set<U: PropertyListAccessor<S>>(&mut self, id: i32, prop: U)
        ensures
            final(self).0.model() == U::set_spec(old(self).0.model(), id, prop),
    {
        U::set(prop, id, &mut self.0);
    }

    /// Closes the bracket and hands the list back.
    pub fn end_update(self) -> (l: PropertyList<S>)
        ensures
            l.model() == self.0.model(),
    {
        let mut list = self.0;
        list.0.end_update();
        list
    }
}

/// An f64 property value, held as its bit pattern: the list stores and
/// returns it untouched and never computes on it.
#[derive(Clone, Copy, PartialEq, Eq, Structural, Debug)]
pub struct FloatBits(pub u64);

impl<S: PropertyListBackend> PropertyListAccessor<S> for Option<i32> {
    open spec fn get_enabled(m: PropState, id: i32) -> bool {
        true
    }

    open spec fn get_spec(m: PropState, id: i32) -> (Option<i32>, PropState) {
        if m.int32s.dom().contains(id) {
            (
                Some(m.int32s[id]),
                if S::consumes_on_get() {
                    m.with_int32s(m.int32s.remove(id))
                } else {
                    m
                },
            )
        } else {
            (None, if S::consumes_on_get() {
                m.with_int32s(m.int32s.remove(id))
            } else {
                m
            })
        }
    }

    open spec fn set_spec(m: PropState, id: i32, v: Option<i32>) -> PropState {
        match v {
            Some(value) => m.with_int32s(m.int32s.insert(id, value)),
            None => m,
        }
    }

    fn get(id: i32, list: &mut PropertyList<S>) -> (r: Option<i32>) {
        list.0.get_int32(id)
    }

    fn set(self, id: i32, list: &mut PropertyList<S>) {
        match self {
            Some(value) => list.0.set_int32(id, value),
            None => (),
        }
    }
}

impl<S: PropertyListBackend> PropertyListAccessor<S> for i32 {
    open spec fn get_enabled(m: PropState, id: i32) -> bool {
        m.int32s.dom().contains(id)
    }

    open spec fn get_spec(m: PropState, id: i32) -> (i32, PropState) {
        (
            m.int32s[id],
            if S::consumes_on_get() {
                m.with_int32s(m.int32s.remove(id))
            } else {
                m
            },
        )
    }

    open spec fn set_spec(m: PropState, id: i32, v: i32) -> PropState {
        m.with_int32s(m.int32s.insert(id, v))
    }

    fn get(id: i32, list: &mut PropertyList<S>) -> (r: i32) {
        let got = list.0.get_int32(id);
        got.unwrap()
    }

    fn set(self, id: i32, list: &mut PropertyList<S>) {
        list.0.set_int32(id, self);
    }
}

impl<S: PropertyListBackend> PropertyListAccessor<S> for Option<i64> {
    open spec fn get_enabled(m: PropState, id: i32) -> bool {
        true
    }

    open spec fn get_spec(m: PropState, id: i32) -> (Option<i64>, PropState) {
        if m.int64s.dom().contains(id) {
            (
                Some(m.int64s[id]),
                if S::consumes_on_get() {
                    m.with_int64s(m.int64s.remove(id))
                } else {
                    m
                },
            )
        } else {
            (None, if S::consumes_on_get() {
                m.with_int64s(m.int64s.remove(id))
            } else {
                m
            })
        }
    }

    open spec fn set_spec(m: PropState, id: i32, v: Option<i64>) -> PropState {
        match v {
            Some(value) => m.with_int64s(m.int64s.insert(id, value)),
            None => m,
        }
    }

    fn get(id: i32, list: &mut PropertyList<S>) -> (r: Option<i64>) {
        list.0.get_int64(id)
    }

    fn set(self, id: i32, list: &mut PropertyList<S>) {
        match self {
            Some(value) => list.0.set_int64(id, value),
            None => (),
        }
    }
}

impl<S: PropertyListBackend> PropertyListAccessor<S> for i64 {
    open spec fn get_enabled(m: PropState, id: i32) -> bool {
        m.int64s.dom().contains(id)
    }

    open spec fn get_spec(m: PropState, id: i32) -> (i64, PropState) {
        (
            m.int64s[id],
            if S::consumes_on_get() {
                m.with_int64s(m.int64s.remove(id))
            } else {
                m
            },
        )
    }

    open spec fn set_spec(m: PropState, id: i32, v: i64) -> PropState {
        m.with_int64s(m.int64s.insert(id, v))
    }

    fn get(id: i32, list: &mut PropertyList<S>) -> (r: i64) {
        let got = list.0.get_int64(id);
        got.unwrap()
    }

    fn set(self, id: i32, list: &mut PropertyList<S>) {
        list.0.set_int64(id, self);
    }
}

impl<S: PropertyListBackend> PropertyListAccessor<S> for Option<FloatBits> {
    open spec fn get_enabled(m: PropState, id: i32) -> bool {
        true
    }

    open spec fn get_spec(m: PropState, id: i32) -> (Option<FloatBits>, PropState) {
        if m.floats.dom().contains(id) {
            (
                Some(FloatBits(m.floats[id])),
                if S::consumes_on_get() {
                    m.with_floats(m.floats.remove(id))
                } else {
                    m
                },
            )
        } else {
            (None, if S::consumes_on_get() {
                m.with_floats(m.floats.remove(id))
            } else {
                m
            })
        }
    }

    open spec fn set_spec(m: PropState, id: i32, v: Option<FloatBits>) -> PropState {
        match v {
            Some(value) => m.with_floats(m.floats.insert(id, value.0)),
            None => m,
        }
    }

    fn get(id: i32, list: &mut PropertyList<S>) -> (r: Option<FloatBits>) {
        match list.0.get_float_bits(id) {
            Some(bits) => Some(FloatBits(bits)),
            None => None,
        }
    }

    fn set(self, id: i32, list: &mut PropertyList<S>) {
        match self {
            Some(value) => list.0.set_float_bits(id, value.0),
            None => (),
        }
    }
}

impl<S: PropertyListBackend> PropertyListAccessor<S> for FloatBits {
    open spec fn get_enabled(m: PropState, id: i32) -> bool {
        m.floats.dom().contains(id)
    }

    open spec fn get_spec(m: PropState, id: i32) -> (FloatBits, PropState) {
        (
            FloatBits(m.floats[id]),
            if S::consumes_on_get() {
                m.with_floats(m.floats.remove(id))
            } else {
                m
            },
        )
    }

    open spec fn set_spec(m: PropState, id: i32, v: FloatBits) -> PropState {
        m.with_floats(m.floats.insert(id, v.0))
    }

    fn get(id: i32, list: &mut PropertyList<S>) -> (r: FloatBits) {
        let got = list.0.get_float_bits(id);
        FloatBits(got.unwrap())
    }

    fn set(self, id: i32, list: &mut PropertyList<S>) {
        list.0.set_float_bits(id, self.0);
    }
}

/// A boolean property, carried in the 32-bit integer dictionary: zero is
/// false, anything else true.
impl<S: PropertyListBackend> PropertyListAccessor<S> for bool {
    open spec fn get_enabled(m: PropState, id: i32) -> bool {
        m.int32s.dom().contains(id)
    }

    open spec fn get_spec(m: PropState, id: i32) -> (bool, PropState) {
        (
            m.int32s[id] != 0,
            if S::consumes_on_get() {
                m.with_int32s(m.int32s.remove(id))
            } else {
                m
            },
        )
    }

    open spec fn set_spec(m: PropState, id: i32, v: bool) -> PropState {
        m.with_int32s(m.int32s.insert(id, if v { 1i32 } else { 0i32 }))
    }

    fn get(id: i32, list: &mut PropertyList<S>) -> (r: bool) {
        let got = list.0.get_int32(id);
        got.unwrap() != 0
    }

    fn set(self, id: i32, list: &mut PropertyList<S>) {
        list.0.set_int32(id, if self { 1 } else { 0 });
    }
}

/// What fetching an object property yields. A stored object that does not
/// satisfy the requested interface is treated as absent rather than being
/// force-cast; the handle still comes back, so the caller can release the
/// reference the entry held.
pub enum ObjectProperty {
    Found(ComRc),
    WrongInterface(ComRc),
    Absent,
}

impl<S: PropertyListBackend> PropertyList<S> {
    /// Stores an owning handle under `id`; the entry takes over the
    /// handle's one reference.
    pub fn set_value_as_object(&mut self, id: i32, rc: ComRc)
        ensures
            final(self).model() == old(self).model().with_objects(
                old(self).model().objects.insert(id, (rc.ptr().obj, rc.ptr().table)),
            ),
    {
        let ptr = rc.as_raw();
        self.0.set_object_ptr(id, ptr.ptr);
    }

    /// Fetches the object stored under `id`, first checking its interface
    /// chain against `riid` as every cast does. The returned handle is
    /// viewed through the universal base; a caller with a successful check
    /// casts it on. Any stored address must still be live: entries hold
    /// references the caller has not released.
    pub fn get_value_as_object<T: ComInterfaceQuerier>(
        &mut self,
        heap: &ObjectHeap<T>,
        reg: &InterfaceRegistry,
        id: i32,
        riid: &Iid,
    ) -> (r: ObjectProperty)
        requires
            reg.wf(),
            heap.wf(reg.defs@),
            old(self).model().objects.dom().contains(id) ==> heap.live(
                old(self).model().objects[id].0 as int,
            ),
        ensures
            ({
                let m0 = old(self).model();
                let stored = InterfacePtr { obj: m0.objects[id].0, table: m0.objects[id].1 };
                match r {
                    ObjectProperty::Found(rc) => m0.objects.dom().contains(id) && rc.ptr()
                        == stored && rc.inner.iface == 0 && qi_on(
                        reg.defs@,
                        heap.slots@,
                        stored.obj as int,
                        *riid,
                    ) is Some,
                    ObjectProperty::WrongInterface(rc) => m0.objects.dom().contains(id) && rc.ptr()
                        == stored && qi_on(
                        reg.defs@,
                        heap.slots@,
                        stored.obj as int,
                        *riid,
                    ) is None,
                    ObjectProperty::Absent => !m0.objects.dom().contains(id),
                }
            }),
            final(self).model() == (if S::consumes_on_get() {
                old(self).model().with_objects(old(self).model().objects.remove(id))
            } else {
                old(self).model()
            }),
    {
        match self.0.get_object_ptr(id) {
            Some(stored) => {
                let rc = ComRc { inner: crate::handle::ComPtr { ptr: stored, iface: 0 } };
                if heap.supports(reg, stored.obj, riid) {
                    ObjectProperty::Found(rc)
                } else {
                    ObjectProperty::WrongInterface(rc)
                }
            },
            None => ObjectProperty::Absent,
        }
    }
}

} // verus!
