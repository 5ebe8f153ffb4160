//! Dispatch-table layout and generation: every table is the base interface's
//! table verbatim, followed by one slot per method the interface adds. Each
//! slot is a trampoline descriptor that remembers which table of the owning
//! record it sits in, so the record can be recovered from the table alone.

use vstd::prelude::*;

use crate::iid::InterfaceDef;
use crate::iid::InterfaceRegistry;
use crate::iid::universal_iid;

verus! {

/// One function-pointer slot of a dispatch table, modelled as the data the
/// generated trampoline closes over: the interface and method it forwards
/// to, and the offset of its table within the owning object record, which
/// the trampoline subtracts to recover the record.
#[derive(Clone, Copy, PartialEq, Eq, Structural, Debug)]
pub struct Slot {
    pub iface: usize,
    pub method: usize,
    pub owner_offset: usize,
}

/// A dispatch table for one interface of one object: the interface it
/// exposes and its slots, in the fixed layout `layout_of` describes.
#[derive(Clone, PartialEq, Eq, Debug)]
pub struct DispatchTable {
    pub iface: usize,
    pub slots: Vec<Slot>,
}

/// The fixed layout of interface `i`'s table: the base interface's layout,
/// then one `(interface, method)` entry per method `i` adds, in declaration
/// order. The universal base contributes its three slots and ends the
/// recursion.
pub open spec fn layout_of(defs: Seq<InterfaceDef>, i: int) -> Seq<(int, int)>
    decreases i,
{
    let own = Seq::new(defs[i].methods as nat, |k: int| (i, k));
    let b = defs[i].base as int;
    if defs[i].iid == universal_iid() || !(0 <= b < i) {
        own
    } else {
        layout_of(defs, b) + own
    }
}

/// Whether `t` is a correctly generated table: it matches `layout_of` its
/// interface entry for entry, and every trampoline carries `owner_offset`.
pub open spec fn table_wf(defs: Seq<InterfaceDef>, t: DispatchTable, owner_offset: int) -> bool {
    &&& t.iface < defs.len()
    &&& t.slots@.len() == layout_of(defs, t.iface as int).len()
    &&& forall|k: int|
        0 <= k < t.slots@.len() ==> (#[trigger] t.slots@[k]) == (Slot {
            iface: layout_of(defs, t.iface as int)[k].0 as usize,
            method: layout_of(defs, t.iface as int)[k].1 as usize,
            owner_offset: owner_offset as usize,
        })
}

/// Builds the dispatch table of interface `i` for the table field at
/// `owner_offset` of an object record, reusing the base interface's
/// generator for the prefix.
pub fn build_table(reg: &InterfaceRegistry, i: usize, owner_offset: usize) -> (t: DispatchTable)
    requires
        reg.wf(),
        i < reg.defs.len(),
    ensures
        t.iface == i,
        table_wf(reg.defs@, t, owner_offset as int),
    decreases i,
{
    let ghost layout = layout_of(reg.defs@, i as int);
    let def = reg.defs[i];
    let mut slots: Vec<Slot>;
    if def.iid == crate::iid::universal_base_iid() || !(def.base < i) {
        slots = Vec::new();
    } else {
        let base_table = build_table(reg, def.base, owner_offset);
        slots = base_table.slots;
    }
    let ghost prefix_len = slots@.len() as int;
    assert(layout.len() == prefix_len + def.methods);
    assert(forall|k: int| 0 <= k < prefix_len ==> layout[k] == layout_of(
        reg.defs@,
        reg.defs@[i as int].base as int,
    )[k]);
    let mut m: usize = 0;
    while m < def.methods
        invariant
            m <= def.methods,
            slots@.len() == prefix_len + m,
            layout == layout_of(reg.defs@, i as int),
            layout.len() == prefix_len + def.methods,
            forall|k: int|
                0 <= k < slots@.len() ==> (#[trigger] slots@[k]) == (Slot {
                    iface: layout[k].0 as usize,
                    method: layout[k].1 as usize,
                    owner_offset,
                }),
            forall|k: int| prefix_len <= k < layout.len() ==> (#[trigger] layout[k]) == (
            i as int,
            k - prefix_len,
            ),
        decreases def.methods - m,
    {
        slots.push(Slot { iface: i, method: m, owner_offset });
        m = m + 1;
    }
    DispatchTable { iface: i, slots }
}

/// Law: a derived interface's layout is its base's layout verbatim, entry
/// for entry, extended with the derived interface's own slots.
pub proof fn lemma_base_table_is_prefix(defs: Seq<InterfaceDef>, i: int)
    requires
        0 <= i < defs.len(),
        defs[i].iid != universal_iid(),
        0 <= defs[i].base < i,
    ensures
        layout_of(defs, i).len() == layout_of(defs, defs[i].base as int).len() + defs[i].methods,
        forall|k: int|
            0 <= k < layout_of(defs, defs[i].base as int).len() ==> layout_of(defs, i)[k]
                == layout_of(defs, defs[i].base as int)[k],
{
}

/// Every entry of a layout names an interface no later than the table's own
/// and one of that interface's declared methods, so both components round
/// trip through `usize`.
pub proof fn lemma_layout_entries_in_range(reg: InterfaceRegistry, i: int)
    requires
        reg.wf(),
        0 <= i < reg.defs@.len(),
    ensures
        forall|k: int|
            0 <= k < layout_of(reg.defs@, i).len() ==> {
                let entry = #[trigger] layout_of(reg.defs@, i)[k];
                &&& 0 <= entry.0 <= i
                &&& 0 <= entry.1 < reg.defs@[entry.0].methods
            },
    decreases i,
{
    let defs = reg.defs@;
    if defs[i].iid != universal_iid() {
        let b = defs[i].base as int;
        lemma_layout_entries_in_range(reg, b);
        let base_layout = layout_of(defs, b);
        assert forall|k: int| 0 <= k < layout_of(defs, i).len() implies {
            let entry = #[trigger] layout_of(defs, i)[k];
            &&& 0 <= entry.0 <= i
            &&& 0 <= entry.1 < defs[entry.0].methods
        } by {
            if k < base_layout.len() {
                assert(layout_of(defs, i)[k] == base_layout[k]);
            } else {
                assert(layout_of(defs, i)[k] == (i, k - base_layout.len()));
            }
        }
    } else {
        assert forall|k: int| 0 <= k < layout_of(defs, i).len() implies {
            let entry = #[trigger] layout_of(defs, i)[k];
            &&& 0 <= entry.0 <= i
            &&& 0 <= entry.1 < defs[entry.0].methods
        } by {
            assert(layout_of(defs, i)[k] == (i, k));
        }
    }
}

/// Law: in a well-formed registry, every table layout begins with the three
/// universal-base slots — query-interface, add-ref, release — in that order.
pub proof fn lemma_layout_triad(reg: InterfaceRegistry, i: int)
    requires
        reg.wf(),
        0 <= i < reg.defs.len(),
    ensures
        layout_of(reg.defs@, i).len() >= 3,
        layout_of(reg.defs@, i)[0] == (0int, 0int),
        layout_of(reg.defs@, i)[1] == (0int, 1int),
        layout_of(reg.defs@, i)[2] == (0int, 2int),
    decreases i,
{
    if reg.defs@[i].iid != universal_iid() {
        lemma_layout_triad(reg, reg.defs@[i].base as int);
    }
}

} // verus!
