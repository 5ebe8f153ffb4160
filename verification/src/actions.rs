//! Actions: the builder that assembles an action's property list, and the
//! adapter between the host's execute call and a user's event handler.

use vstd::prelude::*;

use crate::handle::ComRc;
use crate::object::InterfacePtr;
use crate::prop_list::PropState;
use crate::prop_list::PropertyList;
use crate::prop_list::PropertyListBackend;

verus! {

/// The property key of an action's custom payload object.
pub const ACTION_PROP_CUSTOM: i32 = 0;

/// The property key of an action's identifier string.
pub const ACTION_PROP_ID: i32 = 1;

/// The property key of an action's display name string.
pub const ACTION_PROP_NAME: i32 = 2;

/// The property key of an action's group name string.
pub const ACTION_PROP_GROUP_NAME: i32 = 3;

/// The property key of an action's enabled flag.
pub const ACTION_PROP_ENABLED: i32 = 4;

/// The property key of an action's default local hotkey.
pub const ACTION_PROP_DEFAULT_LOCAL_HOTKEY: i32 = 5;

/// The property key of an action's default global hotkey.
pub const ACTION_PROP_DEFAULT_GLOBAL_HOTKEY: i32 = 6;

/// The property key of an action's second default global hotkey.
pub const ACTION_PROP_DEFAULT_GLOBAL_HOTKEY2: i32 = 7;

/// The property key of an action's event handler object.
pub const ACTION_PROP_EVENT: i32 = 8;

/// What every action must carry: its identifier and name — each a handle
/// to a host string object — its enabled flag, and its event handler.
pub struct ActionFields {
    pub id: ComRc,
    pub name: ComRc,
    pub enabled: bool,
    pub event: ComRc,
}

/// Assembles an action's property list: the required fields, then the
/// optional payload, group name and default hotkeys.
pub struct ActionBuilder {
    pub fields: ActionFields,
    pub custom: Option<ComRc>,
    pub group_name: Option<ComRc>,
    pub default_local_hotkey: i32,
    pub default_global_hotkey: i32,
    pub default_global_hotkey2: i32,
}

/// The address a stored handle occupies in the object dictionary.
pub open spec fn stored_object(rc: ComRc) -> (usize, usize) {
    (rc.ptr().obj, rc.ptr().table)
}

/// The property-list state an action builder leaves behind: the required
/// fields written first, then the event handler, then whichever optional
/// fields the builder holds.
pub open spec fn built_action(b: ActionBuilder, m: PropState) -> PropState {
    let m1 = m.with_objects(m.objects.insert(ACTION_PROP_ID, stored_object(b.fields.id)));
    let m2 = m1.with_objects(m1.objects.insert(ACTION_PROP_NAME, stored_object(b.fields.name)));
    let m3 = m2.with_int32s(
        m2.int32s.insert(
            ACTION_PROP_ENABLED,
            if b.fields.enabled {
                1i32
            } else {
                0i32
            },
        ),
    );
    let m4 = m3.with_int32s(
        m3.int32s.insert(ACTION_PROP_DEFAULT_LOCAL_HOTKEY, b.default_local_hotkey),
    );
    let m5 = m4.with_int32s(
        m4.int32s.insert(ACTION_PROP_DEFAULT_GLOBAL_HOTKEY, b.default_global_hotkey),
    );
    let m6 = m5.with_int32s(
        m5.int32s.insert(ACTION_PROP_DEFAULT_GLOBAL_HOTKEY2, b.default_global_hotkey2),
    );
    let m7 = m6.with_objects(m6.objects.insert(ACTION_PROP_EVENT, stored_object(b.fields.event)));
    let m8 = match b.custom {
        Some(c) => m7.with_objects(m7.objects.insert(ACTION_PROP_CUSTOM, stored_object(c))),
        None => m7,
    };
    match b.group_name {
        Some(g) => m8.with_objects(m8.objects.insert(ACTION_PROP_GROUP_NAME, stored_object(g))),
        None => m8,
    }
}

impl ActionBuilder {
    /// A builder over the required fields, with nothing optional yet and
    /// every hotkey defaulted to none.
    pub fn new(fields: ActionFields) -> (r: ActionBuilder)
        ensures
            r.fields == fields,
            r.custom is None,
            r.group_name is None,
            r.default_local_hotkey == 0,
            r.default_global_hotkey == 0,
            r.default_global_hotkey2 == 0,
    {
        ActionBuilder {
            fields,
            custom: None,
            group_name: None,
            default_local_hotkey: 0,
            default_global_hotkey: 0,
            default_global_hotkey2: 0,
        }
    }

    /// This builder with a custom payload object.
    pub fn custom(self, custom: ComRc) -> (r: ActionBuilder)
        ensures
            r == (ActionBuilder { custom: Some(custom), ..self }),
    {
        ActionBuilder { custom: Some(custom), ..self }
    }

    /// This builder with a group name.
    pub fn group_name(self, group_name: ComRc) -> (r: ActionBuilder)
        ensures
            r == (ActionBuilder { group_name: Some(group_name), ..self }),
    {
        ActionBuilder { group_name: Some(group_name), ..self }
    }

    /// This builder with a default local hotkey.
    pub fn default_local_hotkey(self, hotkey: i32) -> (r: ActionBuilder)
        ensures
            r == (ActionBuilder { default_local_hotkey: hotkey, ..self }),
    {
        ActionBuilder { default_local_hotkey: hotkey, ..self }
    }

    /// This builder with a default global hotkey.
    pub fn default_global_hotkey(self, hotkey: i32) -> (r: ActionBuilder)
        ensures
            r == (ActionBuilder { default_global_hotkey: hotkey, ..self }),
    {
        ActionBuilder { default_global_hotkey: hotkey, ..self }
    }

    /// This builder with a second default global hotkey.
    pub fn default_global_hotkey2(self, hotkey: i32) -> (r: ActionBuilder)
        ensures
            r == (ActionBuilder { default_global_hotkey2: hotkey, ..self }),
    {
        ActionBuilder { default_global_hotkey2: hotkey, ..self }
    }

    /// Writes the action's properties into `list`, inside one update
    /// bracket: the required fields, the event handler, and whichever
    /// optional fields were given.
    pub fn build<S: PropertyListBackend>(self, list: PropertyList<S>) -> (l: PropertyList<S>)
        ensures
            l.model() == built_action(self, list.model()),
    {
        let ActionBuilder {
            fields,
            custom,
            group_name,
            default_local_hotkey,
            default_global_hotkey,
            default_global_hotkey2,
        } = self;
        let mut g = list.update();
        g.0.set_value_as_object(ACTION_PROP_ID, fields.id);
        g.0.set_value_as_object(ACTION_PROP_NAME, fields.name);
        g.set::<bool>(ACTION_PROP_ENABLED, fields.enabled);
        g.set::<i32>(ACTION_PROP_DEFAULT_LOCAL_HOTKEY, default_local_hotkey);
        g.set::<i32>(ACTION_PROP_DEFAULT_GLOBAL_HOTKEY, default_global_hotkey);
        g.set::<i32>(ACTION_PROP_DEFAULT_GLOBAL_HOTKEY2, default_global_hotkey2);
        g.0.set_value_as_object(ACTION_PROP_EVENT, fields.event);
        match custom {
            Some(c) => {
                g.0.set_value_as_object(ACTION_PROP_CUSTOM, c);
            },
            None => (),
        }
        match group_name {
            Some(gn) => {
                g.0.set_value_as_object(ACTION_PROP_GROUP_NAME, gn);
            },
            None => (),
        }
        g.end_update()
    }
}

/// A user's handler for an action being executed; the host may hand the
/// execution an object.
pub trait ActionEvent {
    fn on_execute(&self, data: Option<InterfacePtr>);
}

/// Adapts a user's handler to the host-facing call shape.
pub struct ActionEventWrapper<T>(pub T);

impl<T: ActionEvent> ActionEventWrapper<T> {
    /// Wraps a handler.
    pub fn new(inner: T) -> (r: ActionEventWrapper<T>)
        ensures
            r.0 == inner,
    {
        ActionEventWrapper(inner)
    }

    /// Forwards the host's execute call to the handler.
    pub fn on_execute(&self, data: Option<InterfacePtr>) {
        self.0.on_execute(data);
    }
}

} // verus!
