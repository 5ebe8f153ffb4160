//! The plugin-side glue the host drives: plugin metadata, the wrapper that
//! carries a plugin through the host's initialize / finalize / notification
//! calls, and the registry of host subsystems, modelled as an explicit
//! store keyed by subsystem identity with install and remove driven by host
//! notifications, in place of ad hoc mutable statics.

use vstd::prelude::*;

use crate::error::E_FAIL;
use crate::error::Hresult;
use crate::error::S_OK;
use crate::iid::Iid;
use crate::object::InterfacePtr;

verus! {

/// The host notification code for a subsystem that was added.
pub const NOTIFY_SERVICE_ADDED: i32 = 1;

/// The host notification code for a subsystem that was removed.
pub const NOTIFY_SERVICE_REMOVED: i32 = 2;

/// What a plugin tells the host about itself.
#[derive(Debug, Clone)]
pub struct PluginInfo {
    pub name: String,
    pub author: String,
    pub short_description: String,
    pub full_description: Option<String>,
    pub category: u32,
}

/// A plugin: what the library's user implements. Construction may fail
/// with the user's own error type; the wrapper turns either outcome into
/// the status the host expects.
pub trait Plugin: Sized {
    type Error;

    fn info() -> PluginInfo;

    fn new() -> Result<Self, Self::Error>;

    fn finish(self) -> Result<(), Self::Error>;
}

/// The plugin's metadata, held in the form the wrapper serves it from.
struct PluginWrapperInfo {
    name: String,
    author: String,
    short_description: String,
    full_description: Option<String>,
    category: u32,
}

impl PluginWrapperInfo {
    /// Lays the given metadata out for serving.
    fn new(info: PluginInfo) -> (r: PluginWrapperInfo)
        ensures
            r.name == info.name,
            r.author == info.author,
            r.short_description == info.short_description,
            r.full_description == info.full_description,
            r.category == info.category,
    {
        PluginWrapperInfo {
            name: info.name,
            author: info.author,
            short_description: info.short_description,
            full_description: info.full_description,
            category: info.category,
        }
    }
}

/// Carries a plugin of type `T` through the host's calls: metadata
/// queries, initialize, finalize and subsystem notifications.
pub struct PluginWrapper<T: Plugin> {
    inner: Option<T>,
    info: PluginWrapperInfo,
}

impl<T: Plugin> PluginWrapper<T> {
    /// Whether the wrapped plugin has been constructed and not yet torn
    /// down.
    pub closed spec fn is_initialized(&self) -> bool {
        self.inner is Some
    }

    /// The metadata the wrapper serves.
    pub closed spec fn spec_info(&self) -> PluginInfo {
        PluginInfo {
            name: self.info.name,
            author: self.info.author,
            short_description: self.info.short_description,
            full_description: self.info.full_description,
            category: self.info.category,
        }
    }

    /// A wrapper around a not-yet-constructed plugin, holding its
    /// metadata.
    pub fn new() -> (r: PluginWrapper<T>)
        ensures
            !r.is_initialized(),
    {
        PluginWrapper { inner: None, info: PluginWrapperInfo::new(T::info()) }
    }

    /// Serves one metadata field by its wire index; an index the wrapper
    /// does not know yields nothing, as does an absent full description.
    pub fn info_get(&self, index: i32) -> (r: Option<String>)
        ensures
            index == 0 ==> r == Some(self.spec_info().name),
            index == 1 ==> r == Some(self.spec_info().author),
            index == 2 ==> r == Some(self.spec_info().short_description),
            index == 3 ==> r == self.spec_info().full_description,
            !(0 <= index <= 3) ==> r is None,
    {
        if index == 0 {
            Some(self.info.name.clone())
        } else if index == 1 {
            Some(self.info.author.clone())
        } else if index == 2 {
            Some(self.info.short_description.clone())
        } else if index == 3 {
            match &self.info.full_description {
                Some(d) => Some(d.clone()),
                None => None,
            }
        } else {
            None
        }
    }

    /// Serves the plugin's category flags.
    pub fn info_get_categories(&self) -> (r: u32)
        ensures
            r == self.spec_info().category,
    {
        self.info.category
    }

    /// Constructs the plugin. Success stores it and answers `S_OK`; a
    /// construction failure of the user's plugin answers `E_FAIL` and
    /// stores nothing.
    pub fn initialize(&mut self) -> (r: Hresult)
        requires
            !old(self).is_initialized(),
        ensures
            r.0 == S_OK || r.0 == E_FAIL,
            r.0 == S_OK <==> final(self).is_initialized(),
            final(self).spec_info() == old(self).spec_info(),
    {
        match T::new() {
            Ok(plugin) => {
                self.inner = Some(plugin);
                Hresult(S_OK)
            },
            Err(_) => {
                self.inner = None;
                Hresult(E_FAIL)
            },
        }
    }

    /// Tears the plugin down. Whatever the plugin's own teardown answers,
    /// the wrapper no longer holds it afterwards.
    pub fn finalize(&mut self) -> (r: Hresult)
        requires
            old(self).is_initialized(),
        ensures
            r.0 == S_OK || r.0 == E_FAIL,
            !final(self).is_initialized(),
            final(self).spec_info() == old(self).spec_info(),
    {
        let plugin = self.inner.take().unwrap();
        match plugin.finish() {
            Ok(()) => Hresult(S_OK),
            Err(_) => Hresult(E_FAIL),
        }
    }

    /// Reacts to a host notification: a subsystem that was added is
    /// installed in the registry under its identity, one that was removed
    /// is taken out, and any other notification — or one without data —
    /// changes nothing.
    pub fn system_notification(
        &self,
        registry: &mut ServiceRegistry,
        notify_id: i32,
        data: Option<(Iid, InterfacePtr)>,
    )
        requires
            old(registry).wf(),
        ensures
            final(registry).wf(),
            match data {
                Some(d) => {
                    if notify_id == NOTIFY_SERVICE_ADDED {
                        final(registry).installed_over(*old(registry), d.0, Some(d.1))
                    } else if notify_id == NOTIFY_SERVICE_REMOVED {
                        final(registry).installed_over(*old(registry), d.0, None)
                    } else {
                        *final(registry) == *old(registry)
                    }
                },
                None => *final(registry) == *old(registry),
            },
    {
        match data {
            Some((iid, ptr)) => {
                if notify_id == NOTIFY_SERVICE_ADDED {
                    registry.install(iid, ptr);
                } else if notify_id == NOTIFY_SERVICE_REMOVED {
                    registry.remove(iid);
                }
            },
            None => (),
        }
    }
}

/// Whether `s` holds an entry under `k`.
pub open spec fn reg_has_key(s: Seq<(Iid, Option<InterfacePtr>)>, k: Iid) -> bool {
    exists|i: int| 0 <= i < s.len() && (#[trigger] s[i]).0 == k
}

/// The index of the entry under `k`.
pub open spec fn reg_index_of(s: Seq<(Iid, Option<InterfacePtr>)>, k: Iid) -> int {
    choose|i: int| 0 <= i < s.len() && (#[trigger] s[i]).0 == k
}

/// The subsystem handle installed under `k`, if one is.
pub open spec fn reg_lookup(s: Seq<(Iid, Option<InterfacePtr>)>, k: Iid) -> Option<InterfacePtr> {
    if reg_has_key(s, k) {
        s[reg_index_of(s, k)].1
    } else {
        None
    }
}

/// The registry of host subsystems: an explicit store keyed by subsystem
/// identity. A removed subsystem leaves its key behind with nothing under
/// it, which answers lookups the same as a key never installed.
pub struct ServiceRegistry {
    entries: Vec<(Iid, Option<InterfacePtr>)>,
}

impl ServiceRegistry {
    /// Each identity has at most one entry.
    pub closed spec fn wf(&self) -> bool {
        forall|i: int, j: int|
            0 <= i < j < self.entries@.len() ==> (#[trigger] self.entries@[i]).0 != (
            #[trigger] self.entries@[j]).0
    }

    /// The handle installed under `k`, if any.
    pub closed spec fn lookup(&self, k: Iid) -> Option<InterfacePtr> {
        reg_lookup(self.entries@, k)
    }

    /// Whether this registry is the given one with `v` now under `iid` —
    /// installed for `Some`, removed for `None` — and every other identity
    /// answering as before.
    pub open spec fn installed_over(
        &self,
        prior: ServiceRegistry,
        iid: Iid,
        v: Option<InterfacePtr>,
    ) -> bool {
        &&& self.lookup(iid) == v
        &&& forall|k: Iid| k != iid ==> #[trigger] self.lookup(k) == prior.lookup(k)
    }

    /// An empty registry.
    pub fn new() -> (r: ServiceRegistry)
        ensures
            r.wf(),
            forall|k: Iid| #[trigger] r.lookup(k) is None,
    {
        ServiceRegistry { entries: Vec::new() }
    }

    /// The index holding `iid`, if one does.
    fn find(&self, iid: &Iid) -> (r: Option<usize>)
        requires
            self.wf(),
        ensures
            match r {
                Some(i) => i < self.entries@.len() && self.entries@[i as int].0 == *iid,
                None => !reg_has_key(self.entries@, *iid),
            },
    {
        let n = self.entries.len();
        let mut i: usize = 0;
        while i < n
            invariant
                n == self.entries@.len(),
                i <= n,
                forall|j: int| 0 <= j < i ==> (#[trigger] self.entries@[j]).0 != *iid,
            decreases n - i,
        {
            if self.entries[i].0 == *iid {
                return Some(i);
            }
            i = i + 1;
        }
        None
    }

    /// Installs `ptr` under `iid`, replacing whatever was there; every
    /// other identity answers as before.
    pub fn install(&mut self, iid: Iid, ptr: InterfacePtr)
        requires
            old(self).wf(),
        ensures
            final(self).wf(),
            final(self).installed_over(*old(self), iid, Some(ptr)),
    {
        self.put(iid, Some(ptr));
    }

    /// Takes the subsystem under `iid` out; every other identity answers
    /// as before.
    pub fn remove(&mut self, iid: Iid)
        requires
            old(self).wf(),
        ensures
            final(self).wf(),
            final(self).installed_over(*old(self), iid, None),
    {
        self.put(iid, None);
    }

    /// The handle installed under `iid`, if any.
    pub fn get(&self, iid: &Iid) -> (r: Option<InterfacePtr>)
        requires
            self.wf(),
        ensures
            r == self.lookup(*iid),
    {
        match self.find(iid) {
            Some(i) => {
                proof {
                    lemma_reg_lookup_at(self.entries@, *iid, i as int);
                }
                self.entries[i].1
            },
            None => None,
        }
    }

    /// Whether a subsystem is installed under `iid`.
    pub fn is_available(&self, iid: &Iid) -> (r: bool)
        requires
            self.wf(),
        ensures
            r == (self.lookup(*iid) is Some),
    {
        let got = self.get(iid);
        got.is_some()
    }

    /// Sets what is under `iid` to `v`, in place where the key exists,
    /// appended where it does not.
    fn put(&mut self, iid: Iid, v: Option<InterfacePtr>)
        requires
            old(self).wf(),
        ensures
            final(self).wf(),
            final(self).installed_over(*old(self), iid, v),
    {
        let found = self.find(&iid);
        match found {
            Some(i) => {
                self.entries.set(i, (iid, v));
                proof {
                    lemma_reg_lookup_at(self.entries@, iid, i as int);
                    assert forall|k: Iid| k != iid implies #[trigger] reg_lookup(
                        self.entries@,
                        k,
                    ) == reg_lookup(old(self).entries@, k) by {
                        lemma_reg_update_frame(old(self).entries@, i as int, (iid, v), k);
                    }
                }
            },
            None => {
                self.entries.push((iid, v));
                proof {
                    lemma_reg_lookup_at(self.entries@, iid, old(self).entries@.len() as int);
                    assert forall|k: Iid| k != iid implies #[trigger] reg_lookup(
                        self.entries@,
                        k,
                    ) == reg_lookup(old(self).entries@, k) by {
                        lemma_reg_push_frame(old(self).entries@, (iid, v), k);
                    }
                }
            },
        }
    }
}

/// With unique keys, an entry whose key is `k` at index `i` is the entry
/// every lookup of `k` answers from.
proof fn lemma_reg_lookup_at(s: Seq<(Iid, Option<InterfacePtr>)>, k: Iid, i: int)
    requires
        forall|a: int, b: int| 0 <= a < b < s.len() ==> (#[trigger] s[a]).0 != (#[trigger] s[b]).0,
        0 <= i < s.len(),
        s[i].0 == k,
    ensures
        reg_has_key(s, k),
        reg_index_of(s, k) == i,
        reg_lookup(s, k) == s[i].1,
{
    assert(reg_has_key(s, k));
    let w = reg_index_of(s, k);
    if w != i {
        if w < i {
            assert(s[w].0 != s[i].0);
        } else {
            assert(s[i].0 != s[w].0);
        }
    }
}

/// Replacing the entry at `i` without changing its key leaves every other
/// key's lookup as it was.
proof fn lemma_reg_update_frame(
    s: Seq<(Iid, Option<InterfacePtr>)>,
    i: int,
    e: (Iid, Option<InterfacePtr>),
    k: Iid,
)
    requires
        forall|a: int, b: int| 0 <= a < b < s.len() ==> (#[trigger] s[a]).0 != (#[trigger] s[b]).0,
        0 <= i < s.len(),
        e.0 == s[i].0,
        k != e.0,
    ensures
        reg_lookup(s.update(i, e), k) == reg_lookup(s, k),
{
    let t = s.update(i, e);
    if reg_has_key(s, k) {
        let w = reg_index_of(s, k);
        assert(s[w].0 == k);
        assert(w != i);
        assert(t[w].0 == k);
        lemma_reg_lookup_at(t, k, w);
        lemma_reg_lookup_at(s, k, w);
    } else {
        if reg_has_key(t, k) {
            let w = reg_index_of(t, k);
            assert(t[w].0 == k);
            assert(w != i);
            assert(s[w].0 == k);
        }
    }
}

/// Appending an entry under a fresh key leaves every other key's lookup as
/// it was.
proof fn lemma_reg_push_frame(
    s: Seq<(Iid, Option<InterfacePtr>)>,
    e: (Iid, Option<InterfacePtr>),
    k: Iid,
)
    requires
        forall|a: int, b: int| 0 <= a < b < s.len() ==> (#[trigger] s[a]).0 != (#[trigger] s[b]).0,
        !reg_has_key(s, e.0),
        k != e.0,
    ensures
        reg_lookup(s.push(e), k) == reg_lookup(s, k),
{
    let t = s.push(e);
    assert forall|a: int, b: int| 0 <= a < b < t.len() implies (#[trigger] t[a]).0 != (
    #[trigger] t[b]).0 by {
        if b < s.len() {
        } else {
            assert(t[b] == e);
            assert(t[a] == s[a]);
        }
    }
    if reg_has_key(s, k) {
        let w = reg_index_of(s, k);
        assert(t[w].0 == k);
        lemma_reg_lookup_at(t, k, w);
        lemma_reg_lookup_at(s, k, w);
    } else {
        if reg_has_key(t, k) {
            let w = reg_index_of(t, k);
            assert(t[w].0 == k);
            assert(w != s.len() as int);
            assert(s[w].0 == k);
        }
    }
}

/// The earlier, narrower plugin wrapper: the same carrying of a plugin
/// through the host's calls, kept under its historical name.
pub struct Wrapper<T: Plugin>(pub PluginWrapper<T>);

impl<T: Plugin> Wrapper<T> {
    /// A wrapper around a not-yet-constructed plugin.
    pub fn new() -> (r: Wrapper<T>)
        ensures
            !r.0.is_initialized(),
    {
        Wrapper(PluginWrapper::new())
    }
}

} // verus!
