//! The two handle flavours over a table address: `ComPtr`, a non-owning
//! view that calls through the table and never touches the count, and
//! `ComRc`, the owning handle that retains on clone and releases on drop.
//! Every call through a table first replays what the generated trampoline
//! does: it subtracts the slot's stored offset from the table's position to
//! recover the owning record, and only then forwards the call.

use vstd::prelude::*;

use vstd::pervasive::unreached;

use crate::iid::Iid;
use crate::iid::InterfaceRegistry;
use crate::object::ComInterfaceQuerier;
use crate::object::InterfacePtr;
use crate::object::ObjectHeap;
use crate::vtable::layout_of;

verus! {

/// A native value whose methods the trampolines forward to. Every method
/// takes its arguments as ordered, fixed-width words and returns a single
/// fixed-width result; `method_result` is the meaning of method `method`
/// of interface `iface`.
pub trait NativeValue: Sized {
    spec fn method_result(&self, iface: int, method: int, args: Seq<i64>) -> i64;

    fn dispatch(&self, iface: usize, method: usize, args: &Vec<i64>) -> (r: i64)
        ensures
            r == self.method_result(iface as int, method as int, args@),
    ;
}

/// A non-owning view over one table address, typed by the interface the
/// caller assumes (`iface`). It never changes the reference count; equality
/// is equality of the underlying address.
#[derive(Clone, Copy, PartialEq, Eq, Structural, Debug)]
pub struct ComPtr {
    pub ptr: InterfacePtr,
    pub iface: usize,
}

impl ComPtr {
    /// Lifts a table address into a non-owning view assumed to expose
    /// interface `iface`.
    pub fn from_ptr(ptr: InterfacePtr, iface: usize) -> (r: ComPtr)
        ensures
            r == (ComPtr { ptr, iface }),
    {
        ComPtr { ptr, iface }
    }

    /// The view after an unchecked reinterpretation to another interface:
    /// the same address, reread under `new_iface`. Using it against an
    /// interface the object does not expose at this table is a contract
    /// violation of the caller, not a checked error.
    pub open spec fn cast_spec(self, new_iface: usize) -> ComPtr {
        ComPtr { ptr: self.ptr, iface: new_iface }
    }

    /// Unchecked reinterpretation to another interface.
    pub fn cast(self, new_iface: usize) -> (r: ComPtr)
        ensures
            r == self.cast_spec(new_iface),
    {
        ComPtr { ptr: self.ptr, iface: new_iface }
    }

    /// Calls the first universal slot of the table — query-interface —
    /// exactly as the trampoline does: read the slot, recover the owning
    /// record by subtracting the slot's stored offset, and forward.
    pub fn query_interface<T: ComInterfaceQuerier>(
        &self,
        heap: &mut ObjectHeap<T>,
        reg: &InterfaceRegistry,
        riid: &Iid,
    ) -> (r: Option<InterfacePtr>)
        requires
            reg.wf(),
            old(heap).wf(reg.defs@),
            old(heap).ptr_live(self.ptr),
            old(heap).count_of(self.ptr.obj as int) < u32::MAX,
        ensures
            final(heap).wf(reg.defs@),
            r == old(heap).qi_result(reg.defs@, self.ptr.obj as int, *riid),
            r is None ==> *final(heap) == *old(heap),
            r is Some ==> final(heap).slots@ == crate::object::spec_retain(
                old(heap).slots@,
                self.ptr.obj as int,
            ),
            r is Some ==> r.unwrap().obj == self.ptr.obj && old(heap).ptr_live(r.unwrap()),
    {
        let off: usize;
        {
            let o = heap.slots[self.ptr.obj].as_ref().unwrap();
            let t = &o.tables[self.ptr.table];
            proof {
                crate::vtable::lemma_layout_triad(*reg, t.iface as int);
            }
            let slot = t.slots[0];
            assert(slot.iface == 0 && slot.method == 0);
            off = slot.owner_offset;
        }
        let record = self.ptr.table - off;
        assert(record == 0);
        heap.query_interface(reg, self.ptr.obj, riid)
    }

    /// Calls the second universal slot — add-ref — through the table;
    /// returns the new count.
    pub fn add_ref<T: ComInterfaceQuerier>(
        &self,
        heap: &mut ObjectHeap<T>,
        reg: &InterfaceRegistry,
    ) -> (r: u32)
        requires
            reg.wf(),
            old(heap).wf(reg.defs@),
            old(heap).ptr_live(self.ptr),
            old(heap).count_of(self.ptr.obj as int) < u32::MAX,
        ensures
            final(heap).wf(reg.defs@),
            r == old(heap).count_of(self.ptr.obj as int) + 1,
            final(heap).slots@ == crate::object::spec_retain(old(heap).slots@, self.ptr.obj as int),
    {
        let off: usize;
        {
            let o = heap.slots[self.ptr.obj].as_ref().unwrap();
            let t = &o.tables[self.ptr.table];
            proof {
                crate::vtable::lemma_layout_triad(*reg, t.iface as int);
            }
            let slot = t.slots[1];
            assert(slot.iface == 0 && slot.method == 1);
            off = slot.owner_offset;
        }
        let record = self.ptr.table - off;
        assert(record == 0);
        heap.add_ref(self.ptr)
    }

    /// Calls the third universal slot — release — through the table;
    /// returns the new count. When it returns zero the object has been
    /// freed, and every address into it is dangling from here on.
    pub fn release<T: ComInterfaceQuerier>(
        &self,
        heap: &mut ObjectHeap<T>,
        reg: &InterfaceRegistry,
    ) -> (r: u32)
        requires
            reg.wf(),
            old(heap).wf(reg.defs@),
            old(heap).ptr_live(self.ptr),
            old(heap).count_of(self.ptr.obj as int) >= 1,
        ensures
            final(heap).wf(reg.defs@),
            r == old(heap).count_of(self.ptr.obj as int) - 1,
            final(heap).slots@ == crate::object::spec_release(old(heap).slots@, self.ptr.obj as int),
    {
        let off: usize;
        {
            let o = heap.slots[self.ptr.obj].as_ref().unwrap();
            let t = &o.tables[self.ptr.table];
            proof {
                crate::vtable::lemma_layout_triad(*reg, t.iface as int);
            }
            let slot = t.slots[2];
            assert(slot.iface == 0 && slot.method == 2);
            off = slot.owner_offset;
        }
        let record = self.ptr.table - off;
        assert(record == 0);
        heap.release(self.ptr)
    }

    /// Calls slot `k` of the table — a method beyond the universal triad —
    /// as the trampoline does: recover the record from the slot's offset,
    /// then invoke the native method the slot names on the inner value.
    pub fn call_method<T: ComInterfaceQuerier + NativeValue>(
        &self,
        heap: &ObjectHeap<T>,
        reg: &InterfaceRegistry,
        k: usize,
        args: &Vec<i64>,
    ) -> (r: i64)
        requires
            reg.wf(),
            heap.wf(reg.defs@),
            heap.ptr_live(self.ptr),
            3 <= k < heap.slots@[self.ptr.obj as int].unwrap().tables@[self.ptr.table as int].slots@.len(),
        ensures
            ({
                let table = heap.slots@[self.ptr.obj as int].unwrap().tables@[self.ptr.table as int];
                let entry = layout_of(reg.defs@, table.iface as int)[k as int];
                r == heap.slots@[self.ptr.obj as int].unwrap().inner.method_result(
                    entry.0,
                    entry.1,
                    args@,
                )
            }),
    {
        let o = heap.slots[self.ptr.obj].as_ref().unwrap();
        let t = &o.tables[self.ptr.table];
        let slot = t.slots[k];
        proof {
            crate::vtable::lemma_layout_entries_in_range(*reg, t.iface as int);
        }
        let record = self.ptr.table - slot.owner_offset;
        assert(record == 0);
        o.inner.dispatch(slot.iface, slot.method, args)
    }
}

/// A sample native value for exercising dispatch: every method echoes its
/// argument, and no interface is vetoed.
#[derive(Clone, Copy, PartialEq, Eq, Structural, Debug)]
pub struct EchoValue;

impl ComInterfaceQuerier for EchoValue {
    open spec fn allows(&self, iid: crate::iid::Iid) -> bool {
        true
    }

    fn query_interface(&self, riid: &crate::iid::Iid) -> (r: bool) {
        true
    }
}

impl NativeValue for EchoValue {
    open spec fn method_result(&self, iface: int, method: int, args: Seq<i64>) -> i64 {
        if args.len() > 0 {
            args[0]
        } else {
            0
        }
    }

    fn dispatch(&self, iface: usize, method: usize, args: &Vec<i64>) -> (r: i64) {
        if args.len() > 0 {
            args[0]
        } else {
            0
        }
    }
}

/// The owning, ref-counted handle: exactly one non-owning view, retained on
/// construction and on clone, released on drop. Equality is equality of the
/// underlying address.
#[derive(Clone, Copy, PartialEq, Eq, Structural, Debug)]
pub struct ComRc {
    pub inner: ComPtr,
}

impl ComRc {
    /// The address this handle owns a reference through.
    pub open spec fn ptr(self) -> InterfacePtr {
        self.inner.ptr
    }

    /// The non-owning view under this handle, without touching the count.
    pub fn as_raw(&self) -> (r: ComPtr)
        ensures
            r == self.inner,
    {
        self.inner
    }

    /// The handle after a cast to another interface: a move that keeps the
    /// same address and the same single owned reference, so no count
    /// change.
    pub open spec fn cast_spec(self, new_iface: usize) -> ComRc {
        ComRc { inner: self.inner.cast_spec(new_iface) }
    }

    /// Casts this owning handle to another interface; a move, no count
    /// change.
    pub fn cast(self, new_iface: usize) -> (r: ComRc)
        ensures
            r == self.cast_spec(new_iface),
    {
        ComRc { inner: self.inner.cast(new_iface) }
    }

    /// Duplicates the handle, retaining once on its object.
    pub fn clone_in<T: ComInterfaceQuerier>(
        &self,
        heap: &mut ObjectHeap<T>,
        reg: &InterfaceRegistry,
    ) -> (r: ComRc)
        requires
            reg.wf(),
            old(heap).wf(reg.defs@),
            old(heap).ptr_live(self.inner.ptr),
            old(heap).count_of(self.inner.ptr.obj as int) < u32::MAX,
        ensures
            final(heap).wf(reg.defs@),
            r == *self,
            final(heap).slots@ == crate::object::spec_retain(
                old(heap).slots@,
                self.inner.ptr.obj as int,
            ),
    {
        let _ = self.inner.add_ref(heap, reg);
        ComRc { inner: self.inner }
    }

    /// Ends this handle's ownership, releasing once; returns the new count.
    /// A zero means the object was freed by this very release.
    pub fn release_in<T: ComInterfaceQuerier>(
        self,
        heap: &mut ObjectHeap<T>,
        reg: &InterfaceRegistry,
    ) -> (r: u32)
        requires
            reg.wf(),
            old(heap).wf(reg.defs@),
            old(heap).ptr_live(self.inner.ptr),
            old(heap).count_of(self.inner.ptr.obj as int) >= 1,
        ensures
            final(heap).wf(reg.defs@),
            r == old(heap).count_of(self.inner.ptr.obj as int) - 1,
            final(heap).slots@ == crate::object::spec_release(
                old(heap).slots@,
                self.inner.ptr.obj as int,
            ),
    {
        self.inner.release(heap, reg)
    }
}

impl<T> ObjectHeap<T> {
    /// Turns a freshly wrapped object into its first owning handle, viewed
    /// through its first table under interface `iface`: the one implicit
    /// retain that moves the object from constructed to retained.
    pub fn into_com_rc(&mut self, obj: usize, iface: usize) -> (r: ComRc)
        requires
            old(self).live(obj as int),
            old(self).count_of(obj as int) < u32::MAX,
        ensures
            r == (ComRc { inner: ComPtr { ptr: InterfacePtr { obj, table: 0 }, iface } }),
            final(self).slots@ == crate::object::spec_retain(old(self).slots@, obj as int),
            forall|defs: Seq<crate::iid::InterfaceDef>| #[trigger]
                old(self).wf(defs) ==> final(self).wf(defs),
    {
        let slot = &mut self.slots[obj];
        match slot {
            Some(o) => {
                o.counter = o.counter + 1;
            },
            None => unreached(),
        }
        ComRc { inner: ComPtr { ptr: InterfacePtr { obj, table: 0 }, iface } }
    }
}

} // verus!
