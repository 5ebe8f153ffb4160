//! The object model's laws, stated and proved once over the spec-level
//! state transitions that the executable operations are specified by.

use vstd::prelude::*;

use crate::handle::ComRc;
use crate::iid::Iid;
use crate::iid::InterfaceRegistry;
use crate::iid::lemma_satisfies_universal;
use crate::iid::universal_iid;
use crate::object::ComInterfaceQuerier;
use crate::object::ComObject;
use crate::object::InterfacePtr;
use crate::object::first_match;
use crate::object::object_wf;
use crate::object::qi_on;
use crate::object::spec_release;
use crate::object::spec_retain;
use crate::prop_list::PropState;
use crate::prop_list::PropertyListAccessor;
use crate::prop_list::PropertyListBackend;

verus! {

/// Law: a query for the universal base identifier on a live, unvetoed
/// record answers with the record's first table, whatever was asked before.
pub proof fn lemma_query_universal<T: ComInterfaceQuerier>(
    reg: InterfaceRegistry,
    s: Seq<Option<ComObject<T>>>,
    obj: int,
)
    requires
        reg.wf(),
        0 <= obj < s.len(),
        s[obj] is Some,
        object_wf(reg.defs@, s[obj].unwrap()),
        s[obj].unwrap().inner.allows(universal_iid()),
    ensures
        qi_on(reg.defs@, s, obj, universal_iid()) == Some(
            InterfacePtr { obj: obj as usize, table: 0 },
        ),
{
    let o = s[obj].unwrap();
    assert(o.tables@[0].iface < reg.defs@.len());
    lemma_satisfies_universal(reg, o.tables@[0].iface as int);
    assert(first_match(reg.defs@, o.tables@, universal_iid(), 0) == Some(0int));
}

/// What `first_match` finds really is the first: the found table's chain
/// satisfies the identifier, and no earlier table's chain does.
proof fn lemma_first_match_characterizes(
    defs: Seq<crate::iid::InterfaceDef>,
    tables: Seq<crate::vtable::DispatchTable>,
    iid: Iid,
    j: int,
)
    requires
        0 <= j,
    ensures
        match first_match(defs, tables, iid, j) {
            Some(i) => j <= i < tables.len() && crate::iid::satisfies_at(
                defs,
                tables[i].iface as int,
                iid,
            ) && forall|k: int|
                j <= k < i ==> !crate::iid::satisfies_at(
                    defs,
                    (#[trigger] tables[k]).iface as int,
                    iid,
                ),
            None => forall|k: int|
                j <= k < tables.len() ==> !crate::iid::satisfies_at(
                    defs,
                    (#[trigger] tables[k]).iface as int,
                    iid,
                ),
        },
    decreases tables.len() - j,
{
    if j < tables.len() && !crate::iid::satisfies_at(defs, tables[j].iface as int, iid) {
        lemma_first_match_characterizes(defs, tables, iid, j + 1);
    }
}

/// Law: a successful query answers with the first table whose interface
/// chain satisfies the asked identifier — the handle really is-a what was
/// asked for — and a not-found answer means the identifier was vetoed or
/// no table's chain satisfies it.
pub proof fn lemma_query_finds_first_satisfying_table<T: ComInterfaceQuerier>(
    defs: Seq<crate::iid::InterfaceDef>,
    s: Seq<Option<ComObject<T>>>,
    obj: int,
    riid: Iid,
)
    requires
        0 <= obj < s.len() <= usize::MAX,
        s[obj] is Some,
    ensures
        ({
            let o = s[obj].unwrap();
            match qi_on(defs, s, obj, riid) {
                Some(p) => {
                    &&& o.inner.allows(riid)
                    &&& p.obj == obj
                    &&& p.table < o.tables@.len()
                    &&& crate::iid::satisfies_at(defs, o.tables@[p.table as int].iface as int, riid)
                    &&& forall|k: int|
                        0 <= k < p.table ==> !crate::iid::satisfies_at(
                            defs,
                            (#[trigger] o.tables@[k]).iface as int,
                            riid,
                        )
                },
                None => !o.inner.allows(riid) || forall|k: int|
                    0 <= k < o.tables@.len() ==> !crate::iid::satisfies_at(
                        defs,
                        (#[trigger] o.tables@[k]).iface as int,
                        riid,
                    ),
            }
        }),
{
    let o = s[obj].unwrap();
    vstd::std_specs::vec::axiom_spec_len(&o.tables);
    lemma_first_match_characterizes(defs, o.tables@, riid, 0);
}

/// Law: equality of universal-base handles expresses identity of the
/// object, not of the interface asked for. Querying an object for one
/// supported interface and then asking the result for the universal base
/// gives the same address — the first table — whichever interface the
/// first query named.
pub proof fn lemma_universal_base_identity<T: ComInterfaceQuerier>(
    reg: InterfaceRegistry,
    s: Seq<Option<ComObject<T>>>,
    obj: int,
    iid_a: Iid,
    iid_b: Iid,
)
    requires
        reg.wf(),
        0 <= obj < s.len() <= usize::MAX,
        s[obj] is Some,
        object_wf(reg.defs@, s[obj].unwrap()),
        s[obj].unwrap().inner.allows(universal_iid()),
        s[obj].unwrap().counter < u32::MAX,
        qi_on(reg.defs@, s, obj, iid_a) is Some,
        qi_on(reg.defs@, s, obj, iid_b) is Some,
    ensures
        ({
            // the heap after answering the first query: one retain on the object
            let s_a = spec_retain(s, obj);
            let s_b = spec_retain(s, obj);
            let ha = qi_on(reg.defs@, s, obj, iid_a).unwrap();
            let hb = qi_on(reg.defs@, s, obj, iid_b).unwrap();
            &&& ha.obj == obj && hb.obj == obj
            &&& qi_on(reg.defs@, s_a, ha.obj as int, universal_iid()) == Some(
                InterfacePtr { obj: obj as usize, table: 0 },
            )
            &&& qi_on(reg.defs@, s_b, hb.obj as int, universal_iid()) == Some(
                InterfacePtr { obj: obj as usize, table: 0 },
            )
            &&& qi_on(reg.defs@, s_a, ha.obj as int, universal_iid()) == qi_on(
                reg.defs@,
                s_b,
                hb.obj as int,
                universal_iid(),
            )
        }),
{
    let s_a = spec_retain(s, obj);
    assert(s_a[obj] is Some);
    assert(s_a[obj].unwrap().tables == s[obj].unwrap().tables);
    assert(s_a[obj].unwrap().inner == s[obj].unwrap().inner);
    assert(object_wf(reg.defs@, s_a[obj].unwrap()));
    lemma_query_universal(reg, s_a, obj);
}

/// Law of the reference-counting lifecycle: constructing one owning handle
/// from a fresh object, cloning it twice, and then releasing all three
/// frees the backing object exactly once — only at the third release, never
/// before. The two earlier releases leave the object live, with counts two
/// and one.
pub proof fn lemma_refcount_lifecycle<T>(s: Seq<Option<ComObject<T>>>, obj: int)
    requires
        0 <= obj < s.len(),
        s[obj] is Some,
        s[obj].unwrap().counter == 0,
    ensures
        ({
            let s1 = spec_retain(s, obj);  // first conversion to an owning handle
            let s2 = spec_retain(s1, obj);  // first clone
            let s3 = spec_retain(s2, obj);  // second clone
            let s4 = spec_release(s3, obj);  // first drop
            let s5 = spec_release(s4, obj);  // second drop
            let s6 = spec_release(s5, obj);  // third drop
            &&& s3[obj] is Some && s3[obj].unwrap().counter == 3
            &&& s4[obj] is Some && s4[obj].unwrap().counter == 2
            &&& s5[obj] is Some && s5[obj].unwrap().counter == 1
            &&& s6[obj] is None
        }),
{
}

/// Law of the one-shot property read: on any list state, setting a 32-bit
/// integer under a key and reading that key back yields exactly the value
/// set. On a backend whose reads consume the entry, a second read of the
/// same key finds nothing; on a persistent backend it answers the value
/// again.
pub proof fn lemma_int32_set_then_get<S: PropertyListBackend>(m: PropState, id: i32, v: i32)
    ensures
        ({
            let m1 = <Option<i32> as PropertyListAccessor<S>>::set_spec(m, id, Some(v));
            let first = <Option<i32> as PropertyListAccessor<S>>::get_spec(m1, id);
            let second = <Option<i32> as PropertyListAccessor<S>>::get_spec(first.1, id);
            &&& first.0 == Some(v)
            &&& S::consumes_on_get() ==> second.0 is None
            &&& !S::consumes_on_get() ==> second.0 == Some(v)
        }),
{
}

/// Law: an owning handle survives any chain of casts with its address — and
/// so its owned reference — intact: casting to any interface and back to
/// the universal base compares equal to the handle itself, and two such
/// round trips through different interfaces compare equal to each other.
pub proof fn lemma_owning_cast_round_trip(rc: ComRc, iface_a: usize, iface_b: usize)
    ensures
        rc.cast_spec(iface_a).cast_spec(rc.inner.iface) == rc,
        rc.cast_spec(iface_a).ptr() == rc.ptr(),
        rc.cast_spec(iface_a).cast_spec(0).ptr() == rc.cast_spec(iface_b).cast_spec(0).ptr(),
{
}

} // verus!
