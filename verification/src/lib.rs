//! A COM-style binary object model: 128-bit interface identities with
//! single-inheritance chains, fixed-layout dispatch tables, non-owning and
//! owning handles over those tables, a reference-counted object wrapper, and
//! a transactional numeric-key property list.

pub mod actions;
pub mod dash;
pub mod decoders;
pub mod error;
pub mod file;
pub mod handle;
pub mod iid;
pub mod laws;
pub mod object;
pub mod plugin;
pub mod prop_list;
pub mod stream;
pub mod threading;
pub mod vtable;

pub use error::Error;
pub use error::ErrorKind;
pub use error::Hresult;
pub use handle::ComPtr;
pub use handle::ComRc;
pub use handle::NativeValue;
pub use iid::Iid;
pub use iid::InterfaceDef;
pub use iid::InterfaceRegistry;
pub use object::ComInterfaceQuerier;
pub use object::ComObject;
pub use object::InterfacePtr;
pub use object::ObjectHeap;
pub use plugin::Plugin;
pub use plugin::PluginInfo;
pub use plugin::PluginWrapper;
pub use plugin::ServiceRegistry;
pub use plugin::Wrapper;
pub use prop_list::PropertyList;
pub use prop_list::PropertyListAccessor;
pub use prop_list::PropertyListBackend;
pub use prop_list::PropertyListGuard;
pub use threading::TaskHandle;
pub use vtable::DispatchTable;
pub use vtable::Slot;
