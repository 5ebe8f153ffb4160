//! Interface identity: 128-bit identifiers, the registry of interface
//! definitions, and the inheritance-chain walk behind every "is-a" check.

use vstd::prelude::*;

verus! {

/// A 128-bit interface identifier, laid out as one 32-bit field, two 16-bit
/// fields and eight 8-bit fields. Identifiers carry no order; they are only
/// ever compared byte for byte.
#[derive(Clone, Copy, PartialEq, Eq, Structural, Debug, Hash)]
pub struct Iid {
    pub data1: u32,
    pub data2: u16,
    pub data3: u16,
    pub data4_0: u8,
    pub data4_1: u8,
    pub data4_2: u8,
    pub data4_3: u8,
    pub data4_4: u8,
    pub data4_5: u8,
    pub data4_6: u8,
    pub data4_7: u8,
}

impl Iid {
    /// Builds an identifier from its eleven fields, given in layout order.
    pub fn new(
        data1: u32,
        data2: u16,
        data3: u16,
        data4_0: u8,
        data4_1: u8,
        data4_2: u8,
        data4_3: u8,
        data4_4: u8,
        data4_5: u8,
        data4_6: u8,
        data4_7: u8,
    ) -> (r: Iid)
        ensures
            r == (Iid {
                data1,
                data2,
                data3,
                data4_0,
                data4_1,
                data4_2,
                data4_3,
                data4_4,
                data4_5,
                data4_6,
                data4_7,
            }),
    {
        Iid {
            data1,
            data2,
            data3,
            data4_0,
            data4_1,
            data4_2,
            data4_3,
            data4_4,
            data4_5,
            data4_6,
            data4_7,
        }
    }
}

/// The identifier of the universal base interface, the root of every
/// inheritance chain.
pub open spec fn universal_iid() -> Iid {
    Iid {
        data1: 0,
        data2: 0,
        data3: 0,
        data4_0: 0xC0,
        data4_1: 0,
        data4_2: 0,
        data4_3: 0,
        data4_4: 0,
        data4_5: 0,
        data4_6: 0,
        data4_7: 0x46,
    }
}

/// Returns the universal base identifier.
pub fn universal_base_iid() -> (r: Iid)
    ensures
        r == universal_iid(),
{
    Iid::new(0, 0, 0, 0xC0, 0, 0, 0, 0, 0, 0, 0x46)
}

/// One interface definition: its identifier, the index of its immediate base
/// interface in the registry, and how many method slots the interface adds
/// beyond its base's table.
#[derive(Clone, Copy, PartialEq, Eq, Structural, Debug)]
pub struct InterfaceDef {
    pub iid: Iid,
    pub base: usize,
    pub methods: usize,
}

/// The tree of interface definitions, rooted at the universal base interface
/// (index 0, which is its own base and declares the three universal slots).
pub struct InterfaceRegistry {
    pub defs: Vec<InterfaceDef>,
}

/// Whether `iid` is satisfied by interface `i`: it equals `i`'s own
/// identifier, or (recursively) the base interface satisfies it, the walk
/// stopping at the universal base.
pub open spec fn satisfies_at(defs: Seq<InterfaceDef>, i: int, iid: Iid) -> bool
    decreases i,
{
    iid == defs[i].iid || {
        let b = defs[i].base as int;
        defs[i].iid != universal_iid() && 0 <= b < i && satisfies_at(defs, b, iid)
    }
}

impl InterfaceRegistry {
    /// Well-formedness: the root is the universal base with three method
    /// slots and itself as base; every other definition points at an earlier
    /// base and does not reuse the universal identifier.
    pub open spec fn wf(self) -> bool {
        &&& self.defs.len() >= 1
        &&& self.defs[0].iid == universal_iid()
        &&& self.defs[0].base == 0
        &&& self.defs[0].methods == 3
        &&& forall|i: int|
            1 <= i < self.defs.len() ==> (#[trigger] self.defs[i]).base < i && self.defs[i].iid
                != universal_iid()
    }

    /// A registry holding only the universal base interface.
    pub fn new() -> (r: InterfaceRegistry)
        ensures
            r.wf(),
            r.defs@.len() == 1,
            r.defs@[0] == (InterfaceDef { iid: universal_iid(), base: 0, methods: 3 }),
    {
        let root = InterfaceDef { iid: universal_base_iid(), base: 0, methods: 3 };
        let mut defs: Vec<InterfaceDef> = Vec::new();
        defs.push(root);
        InterfaceRegistry { defs }
    }

    /// Appends a definition for a new interface deriving from `base` and
    /// adding `methods` slots; returns its index.
    pub fn register(&mut self, iid: Iid, base: usize, methods: usize) -> (i: usize)
        requires
            old(self).wf(),
            base < old(self).defs.len(),
            iid != universal_iid(),
        ensures
            final(self).wf(),
            i == old(self).defs@.len(),
            final(self).defs@ == old(self).defs@.push(InterfaceDef { iid, base, methods }),
    {
        let i = self.defs.len();
        self.defs.push(InterfaceDef { iid, base, methods });
        i
    }

    /// The identifier of interface `i`.
    pub fn identifier_of(&self, i: usize) -> (r: Iid)
        requires
            i < self.defs.len(),
        ensures
            r == self.defs@[i as int].iid,
    {
        self.defs[i].iid
    }

    /// Walks interface `i`'s base chain and reports whether any link's
    /// identifier equals `riid`. The walk ends at the universal base, whose
    /// own identifier is the terminating condition.
    pub fn check_inheritance_chain(&self, i: usize, riid: &Iid) -> (r: bool)
        requires
            self.wf(),
            i < self.defs.len(),
        ensures
            r == satisfies_at(self.defs@, i as int, *riid),
        decreases i,
    {
        let def = self.defs[i];
        if def.iid == *riid {
            true
        } else if def.iid == universal_base_iid() {
            false
        } else {
            assert(def.base < i);
            self.check_inheritance_chain(def.base, riid)
        }
    }
}

/// Law: every interface satisfies its own identifier.
pub proof fn lemma_satisfies_self(defs: Seq<InterfaceDef>, i: int)
    requires
        0 <= i < defs.len(),
    ensures
        satisfies_at(defs, i, defs[i].iid),
{
}

/// Law: the universal base's own chain check terminates at once — its base
/// is itself, so it satisfies exactly its own identifier and the walk never
/// recurses past it.
pub proof fn lemma_universal_chain_stops(reg: InterfaceRegistry, iid: Iid)
    requires
        reg.wf(),
    ensures
        satisfies_at(reg.defs@, 0, iid) <==> iid == universal_iid(),
{
}

/// Law: every interface of a well-formed registry satisfies the universal
/// base identifier — each interface is-a universal base.
pub proof fn lemma_satisfies_universal(reg: InterfaceRegistry, i: int)
    requires
        reg.wf(),
        0 <= i < reg.defs.len(),
    ensures
        satisfies_at(reg.defs@, i, universal_iid()),
    decreases i,
{
    if reg.defs@[i].iid != universal_iid() {
        lemma_satisfies_universal(reg, reg.defs@[i].base as int);
    }
}

} // verus!
