//! The object wrapper and its lifecycle: one record per wrapped native
//! value, holding one dispatch table per implemented interface and one
//! shared reference count. Records live in an explicit heap; a table is
//! addressed by the record's index and the table's position in it, and that
//! address is the interface's identity for the object.

use vstd::prelude::*;

use vstd::pervasive::unreached;

use crate::iid::Iid;
use crate::iid::InterfaceDef;
use crate::iid::InterfaceRegistry;
use crate::iid::satisfies_at;
use crate::vtable::DispatchTable;
use crate::vtable::build_table;
use crate::vtable::table_wf;

verus! {

/// The address of one dispatch table of one object: the object record's
/// index in the heap and the table's position within the record. Two
/// addresses are the same interface instance exactly when both fields are
/// equal.
#[derive(Clone, Copy, PartialEq, Eq, Structural, Debug, Hash)]
pub struct InterfacePtr {
    pub obj: usize,
    pub table: usize,
}

/// The per-object veto hook: a wrapped value may conditionally hide an
/// interface it statically supports. `allows` is the hook's meaning;
/// `query_interface` is the hook itself.
pub trait ComInterfaceQuerier: Sized {
    spec fn allows(&self, iid: Iid) -> bool;

    fn query_interface(&self, riid: &Iid) -> (r: bool)
        ensures
            r == self.allows(*riid),
    ;
}

/// A native value that vetoes nothing.
#[derive(Clone, Copy, PartialEq, Eq, Structural, Debug)]
pub struct OpenQuerier;

impl ComInterfaceQuerier for OpenQuerier {
    open spec fn allows(&self, iid: Iid) -> bool {
        true
    }

    fn query_interface(&self, riid: &Iid) -> (r: bool) {
        true
    }
}

/// A native value that hides exactly the identifiers on its list.
pub struct VetoQuerier {
    pub hidden: Vec<Iid>,
}

impl ComInterfaceQuerier for VetoQuerier {
    open spec fn allows(&self, iid: Iid) -> bool {
        !self.hidden@.contains(iid)
    }

    fn query_interface(&self, riid: &Iid) -> (r: bool) {
        let mut j: usize = 0;
        while j < self.hidden.len()
            invariant
                j <= self.hidden@.len(),
                forall|k: int| 0 <= k < j ==> self.hidden@[k] != *riid,
            decreases self.hidden@.len() - j,
        {
            if self.hidden[j] == *riid {
                return false;
            }
            j = j + 1;
        }
        true
    }
}

/// One wrapped object: every table it exposes, the shared reference count,
/// and the native value.
pub struct ComObject<T> {
    pub tables: Vec<DispatchTable>,
    pub counter: u32,
    pub inner: T,
}

/// Well-formedness of one record: at least one table, and the table at
/// position `j` is a correctly generated table whose trampolines carry
/// offset `j` — the statically known offset that recovers the record.
pub open spec fn object_wf<T>(defs: Seq<InterfaceDef>, o: ComObject<T>) -> bool {
    &&& o.tables@.len() >= 1
    &&& forall|j: int| 0 <= j < o.tables@.len() ==> table_wf(defs, #[trigger] o.tables@[j], j)
}

/// The index of the first table in `tables`, from `j` on, whose interface
/// chain satisfies `iid`; `None` when no table from `j` on matches.
pub open spec fn first_match(
    defs: Seq<InterfaceDef>,
    tables: Seq<DispatchTable>,
    iid: Iid,
    j: int,
) -> Option<int>
    decreases tables.len() - j,
{
    if j < 0 || j >= tables.len() {
        None
    } else if satisfies_at(defs, tables[j].iface as int, iid) {
        Some(j)
    } else {
        first_match(defs, tables, iid, j + 1)
    }
}

/// The heap contents after one retain on the record at `obj`: its count up
/// by one, everything else untouched.
pub open spec fn spec_retain<T>(s: Seq<Option<ComObject<T>>>, obj: int) -> Seq<
    Option<ComObject<T>>,
> {
    let o = s[obj].unwrap();
    s.update(
        obj,
        Some(ComObject { tables: o.tables, counter: (o.counter + 1) as u32, inner: o.inner }),
    )
}

/// The heap contents after one release on the record at `obj`: its count
/// down by one, and the record freed — tables, native value and all — the
/// moment the count reaches zero.
pub open spec fn spec_release<T>(s: Seq<Option<ComObject<T>>>, obj: int) -> Seq<
    Option<ComObject<T>>,
> {
    let o = s[obj].unwrap();
    if o.counter == 1 {
        s.update(obj, None)
    } else {
        s.update(
            obj,
            Some(ComObject { tables: o.tables, counter: (o.counter - 1) as u32, inner: o.inner }),
        )
    }
}

/// The heap of wrapped objects. A freed record leaves a permanently empty
/// slot behind, so a stale address can never reach another object.
pub struct ObjectHeap<T> {
    pub slots: Vec<Option<ComObject<T>>>,
}

impl<T> ObjectHeap<T> {
    /// Every live record is well formed against `defs`.
    pub open spec fn wf(self, defs: Seq<InterfaceDef>) -> bool {
        forall|o: int|
            0 <= o < self.slots@.len() && (#[trigger] self.slots@[o]) is Some ==> object_wf(
                defs,
                self.slots@[o].unwrap(),
            )
    }

    /// Whether `obj` addresses a live record.
    pub open spec fn live(self, obj: int) -> bool {
        0 <= obj < self.slots@.len() && self.slots@[obj] is Some
    }

    /// Whether `ptr` addresses a table of a live record.
    pub open spec fn ptr_live(self, ptr: InterfacePtr) -> bool {
        self.live(ptr.obj as int) && ptr.table < self.slots@[ptr.obj as int].unwrap().tables@.len()
    }

    /// The reference count of the record at `obj`.
    pub open spec fn count_of(self, obj: int) -> u32 {
        self.slots@[obj].unwrap().counter
    }

    /// An empty heap.
    pub fn new() -> (r: ObjectHeap<T>)
        ensures
            r.slots@.len() == 0,
    {
        ObjectHeap { slots: Vec::new() }
    }

    /// Allocates one record for `inner`, generating one dispatch table per
    /// interface in `ifaces`, each trampoline carrying its table's offset.
    /// The record starts unretained, with a count of zero.
    pub fn allocate(&mut self, reg: &InterfaceRegistry, inner: T, ifaces: &Vec<usize>) -> (id: usize)
        requires
            reg.wf(),
            old(self).wf(reg.defs@),
            ifaces@.len() >= 1,
            forall|k: int| 0 <= k < ifaces@.len() ==> (#[trigger] ifaces@[k]) < reg.defs@.len(),
        ensures
            final(self).wf(reg.defs@),
            id == old(self).slots@.len(),
            final(self).slots@.len() == old(self).slots@.len() + 1,
            forall|o: int|
                0 <= o < old(self).slots@.len() ==> final(self).slots@[o] == old(self).slots@[o],
            final(self).live(id as int),
            final(self).count_of(id as int) == 0,
            ({
                let o = final(self).slots@[id as int].unwrap();
                &&& o.inner == inner
                &&& o.tables@.len() == ifaces@.len()
                &&& forall|j: int|
                    0 <= j < ifaces@.len() ==> (#[trigger] o.tables@[j]).iface == ifaces@[j]
                        && table_wf(reg.defs@, o.tables@[j], j)
            }),
    {
        let mut tables: Vec<DispatchTable> = Vec::new();
        let mut j: usize = 0;
        while j < ifaces.len()
            invariant
                reg.wf(),
                j <= ifaces@.len(),
                tables@.len() == j,
                forall|k: int| 0 <= k < ifaces@.len() ==> (#[trigger] ifaces@[k]) < reg.defs@.len(),
                forall|k: int|
                    0 <= k < j ==> (#[trigger] tables@[k]).iface == ifaces@[k] && table_wf(
                        reg.defs@,
                        tables@[k],
                        k,
                    ),
            decreases ifaces@.len() - j,
        {
            let t = build_table(reg, ifaces[j], j);
            tables.push(t);
            j = j + 1;
        }
        let id = self.slots.len();
        self.slots.push(Some(ComObject { tables, counter: 0, inner }));
        id
    }

    /// Increments the shared count through a table address; returns the new
    /// count. The record and its tables are untouched.
    pub fn add_ref(&mut self, ptr: InterfacePtr) -> (r: u32)
        requires
            old(self).ptr_live(ptr),
            old(self).count_of(ptr.obj as int) < u32::MAX,
        ensures
            r == old(self).count_of(ptr.obj as int) + 1,
            final(self).slots@ == spec_retain(old(self).slots@, ptr.obj as int),
            forall|defs: Seq<InterfaceDef>| #[trigger]
                old(self).wf(defs) ==> final(self).wf(defs),
    {
        let slot = &mut self.slots[ptr.obj];
        match slot {
            Some(o) => {
                o.counter = o.counter + 1;
                o.counter
            },
            None => unreached(),
        }
    }

    /// Decrements the shared count through a table address; returns the new
    /// count. When the count reaches zero, every table and the record itself
    /// are freed, exactly once: the slot becomes empty and stays so.
    pub fn release(&mut self, ptr: InterfacePtr) -> (r: u32)
        requires
            old(self).ptr_live(ptr),
            old(self).count_of(ptr.obj as int) >= 1,
        ensures
            r == old(self).count_of(ptr.obj as int) - 1,
            final(self).slots@ == spec_release(old(self).slots@, ptr.obj as int),
            r == 0 <==> final(self).slots@[ptr.obj as int] is None,
            forall|defs: Seq<InterfaceDef>| #[trigger]
                old(self).wf(defs) ==> final(self).wf(defs),
    {
        let slot = &mut self.slots[ptr.obj];
        let c: u32;
        match slot {
            Some(o) => {
                o.counter = o.counter - 1;
                c = o.counter;
            },
            None => {
                c = unreached();
            },
        }
        if c == 0 {
            self.slots.set(ptr.obj, None);
        }
        c
    }
}

/// What query-interface answers on the record at `obj` of heap contents
/// `s` for `riid`: the address of the first table whose interface chain
/// satisfies `riid`, unless the native value vetoes the identifier. The
/// reference count plays no part in the answer.
pub open spec fn qi_on<T: ComInterfaceQuerier>(
    defs: Seq<InterfaceDef>,
    s: Seq<Option<ComObject<T>>>,
    obj: int,
    riid: Iid,
) -> Option<InterfacePtr> {
    let o = s[obj].unwrap();
    if o.inner.allows(riid) {
        match first_match(defs, o.tables@, riid, 0) {
            Some(j) => Some(InterfacePtr { obj: obj as usize, table: j as usize }),
            None => None,
        }
    } else {
        None
    }
}

impl<T: ComInterfaceQuerier> ObjectHeap<T> {
    /// What query-interface answers on the record at `obj` for `riid`.
    pub open spec fn qi_result(self, defs: Seq<InterfaceDef>, obj: int, riid: Iid) -> Option<
        InterfacePtr,
    > {
        qi_on(defs, self.slots@, obj, riid)
    }

    /// Probes whether the record at `obj` would answer a query for `riid`,
    /// without touching the reference count: the identity check made before
    /// a stored object property is handed out.
    pub fn supports(&self, reg: &InterfaceRegistry, obj: usize, riid: &Iid) -> (r: bool)
        requires
            reg.wf(),
            self.wf(reg.defs@),
            self.live(obj as int),
        ensures
            r == (qi_on(reg.defs@, self.slots@, obj as int, *riid) is Some),
    {
        let o = self.slots[obj].as_ref().unwrap();
        if !o.inner.query_interface(riid) {
            return false;
        }
        let n = o.tables.len();
        let mut j: usize = 0;
        let mut found = false;
        while j < n && !found
            invariant
                reg.wf(),
                self.wf(reg.defs@),
                self.live(obj as int),
                o == self.slots@[obj as int].unwrap(),
                n == o.tables@.len(),
                j <= n,
                if found {
                    j < n && first_match(reg.defs@, o.tables@, *riid, 0) == Some(j as int)
                } else {
                    first_match(reg.defs@, o.tables@, *riid, 0) == first_match(
                        reg.defs@,
                        o.tables@,
                        *riid,
                        j as int,
                    )
                },
            decreases n - j + (if found { 0int } else { 1int }),
        {
            if reg.check_inheritance_chain(o.tables[j].iface, riid) {
                found = true;
            } else {
                j = j + 1;
            }
        }
        proof {
            if !found {
                assert(first_match(reg.defs@, o.tables@, *riid, n as int) is None);
            }
        }
        found
    }

    /// Asks the record at `obj` for `riid`: on the first table whose chain
    /// satisfies the identifier (and no veto), returns its address and
    /// increments the count; otherwise reports not-found and changes
    /// nothing, the count included.
    pub fn query_interface(&mut self, reg: &InterfaceRegistry, obj: usize, riid: &Iid) -> (r:
        Option<InterfacePtr>)
        requires
            reg.wf(),
            old(self).wf(reg.defs@),
            old(self).live(obj as int),
            old(self).count_of(obj as int) < u32::MAX,
        ensures
            final(self).wf(reg.defs@),
            r == old(self).qi_result(reg.defs@, obj as int, *riid),
            r is Some ==> final(self).slots@ == spec_retain(old(self).slots@, obj as int),
            r is None ==> *final(self) == *old(self),
            r is Some ==> r.unwrap().obj == obj && old(self).ptr_live(r.unwrap()),
    {
        let allowed = {
            let o = self.slots[obj].as_ref().unwrap();
            o.inner.query_interface(riid)
        };
        if !allowed {
            return None;
        }
        let found: Option<usize>;
        {
            let o = self.slots[obj].as_ref().unwrap();
            let n = o.tables.len();
            let mut j: usize = 0;
            let mut res: Option<usize> = None;
            while j < n && res.is_none()
                invariant
                    reg.wf(),
                    self.wf(reg.defs@),
                    self.live(obj as int),
                    o == self.slots@[obj as int].unwrap(),
                    n == o.tables@.len(),
                    j <= n,
                    match res {
                        Some(jj) => jj == j && jj < n && first_match(
                            reg.defs@,
                            o.tables@,
                            *riid,
                            0,
                        ) == Some(jj as int),
                        None => first_match(reg.defs@, o.tables@, *riid, 0) == first_match(
                            reg.defs@,
                            o.tables@,
                            *riid,
                            j as int,
                        ),
                    },
                decreases n - j + (if res is None { 1int } else { 0int }),
            {
                let sat = reg.check_inheritance_chain(o.tables[j].iface, riid);
                if sat {
                    res = Some(j);
                } else {
                    j = j + 1;
                }
            }
            proof {
                if res is None {
                    assert(first_match(reg.defs@, o.tables@, *riid, n as int) is None);
                }
            }
            found = res;
        }
        match found {
            Some(j) => {
                let slot = &mut self.slots[obj];
                match slot {
                    Some(o) => {
                        o.counter = o.counter + 1;
                    },
                    None => unreached(),
                }
                Some(InterfacePtr { obj, table: j })
            },
            None => None,
        }
    }
}

} // verus!
