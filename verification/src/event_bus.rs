//! The event bus: a registry of event types and their handlers, the
//! decision of where an event goes, and subscriptions.

use vstd::prelude::*;
use crate::components::ComponentHandle;
use crate::named_map::{entry_names, lookup, NamedMap};
use crate::outside::new_uuid_v4;
use crate::sarif::texts;
use crate::sarif_roles::{first_key_index, upsert};
use crate::text::{seq_ends_with, str_ends_with};

verus! {

/// Definition of an event type.
#[derive(Debug, Clone)]
pub struct EventDefinition {
    /// The handler of the event type
    pub handler: String,
    /// The schema of the event's data
    pub schema: String,
    /// The category of the event type
    pub category: String,
    /// What the event type means
    pub description: String,
}

/// Type of event handler.
#[derive(Debug, Clone, Copy, PartialEq, Eq, Structural)]
pub enum HandlerType {
    /// A component
    Wit,
    /// Native code
    Native,
}

/// Definition of an event handler.
#[derive(Debug, Clone)]
pub struct HandlerDefinition {
    /// Type of the handler
    pub handler_type: HandlerType,
    /// The component that handles the events (for component handlers)
    pub component: Option<String>,
    /// The crate that handles the events (for native handlers)
    pub crate_name: Option<String>,
    /// The events the handler takes
    pub events: Vec<String>,
    /// What the handler does
    pub description: String,
}

/// The event registry: event types and handlers by name.
#[derive(Debug, Clone)]
pub struct EventRegistryConfig {
    /// Event types by name
    pub events: NamedMap<EventDefinition>,
    /// Handlers by name
    pub handlers: NamedMap<HandlerDefinition>,
}

/// An event subscription.
#[derive(Debug, Clone)]
pub struct EventSubscription {
    /// The subscribing component
    pub component_name: String,
    /// The event types subscribed to
    pub event_types: Vec<String>,
    /// The subscription's identifier
    pub subscription_id: String,
}

/// Statistics about the event bus.
#[derive(Debug, Clone, PartialEq, Eq)]
pub struct EventBusStatistics {
    /// Registered event types
    pub total_events: usize,
    /// Registered handlers
    pub total_handlers: usize,
    /// Active subscriptions
    pub active_subscriptions: usize,
    /// Registered components
    pub registered_components: usize,
    /// Registered native handlers
    pub registered_native_handlers: usize,
}

/// Where an event goes.
#[derive(Debug, Clone, PartialEq, Eq)]
pub enum EventRoute {
    /// To the named component
    Wit(String),
    /// To the native handler of the named crate
    Native(String),
}

/// A route as plain values: whether to a component, and the name.
pub open spec fn route_view(r: EventRoute) -> (bool, Seq<char>) {
    match r {
        EventRoute::Wit(c) => (true, c@),
        EventRoute::Native(n) => (false, n@),
    }
}

/// Handlers of events that native code implements.
pub trait EventHandler {
    /// Handle an event of a type with its data as JSON text.
    fn handle_event(&self, event_type: &str, data: &str) -> Result<(), String>;

    /// The handler's name.
    fn name(&self) -> String;

    /// The event types the handler takes.
    fn supported_events(&self) -> Vec<String>;
}

/// The handler definition an event type resolves to, or the error.
pub open spec fn resolve_handler(r: EventRegistryConfig, event_type: Seq<char>) -> Result<HandlerDefinition, Seq<char>> {
    match lookup(r.events.entries(), event_type) {
        None => Err("Unknown event type: "@ + event_type),
        Some(e) => match lookup(r.handlers.entries(), e.handler@) {
            None => Err("Handler not found: "@ + e.handler@),
            Some(h) => Ok(h),
        },
    }
}

/// Where an event of a type goes, given the registered components and
/// native handlers, or the error.
pub open spec fn route_outcome(
    r: EventRegistryConfig,
    components: Seq<(Seq<char>, ComponentHandle)>,
    natives: Seq<(Seq<char>, bool)>,
    event_type: Seq<char>,
) -> Result<(bool, Seq<char>), Seq<char>> {
    match resolve_handler(r, event_type) {
        Err(e) => Err(e),
        Ok(h) => match h.handler_type {
            HandlerType::Wit => match h.component {
                None => Err("WIT handler missing component name"@),
                Some(c) => if lookup(components, c@) is Some {
                    Ok((true, c@))
                } else {
                    Err("WIT component not found: "@ + c@)
                },
            },
            HandlerType::Native => match h.crate_name {
                None => Err("Native handler missing crate name"@),
                Some(n) => if lookup(natives, n@) is Some {
                    Ok((false, n@))
                } else {
                    Err("Native handler not found: "@ + n@)
                },
            },
        },
    }
}

/// The type of the event that answers an event: `_request` becomes
/// `_result` where the type ends with `_request`, else `_result` is
/// appended.
pub open spec fn result_event_type(event_type: Seq<char>) -> Seq<char> {
    if seq_ends_with(event_type, "_request"@) {
        event_type.subrange(0, event_type.len() - 8) + "_result"@
    } else {
        event_type + "_result"@
    }
}

/// The event bus.
pub struct EventBusManager {
    registry: EventRegistryConfig,
    subscriptions: NamedMap<EventSubscription>,
    components: NamedMap<ComponentHandle>,
    native_handlers: NamedMap<bool>,
}

impl EventBusManager {
    /// The registry.
    pub closed spec fn reg(&self) -> EventRegistryConfig {
        self.registry
    }

    /// The subscriptions, by identifier.
    pub closed spec fn subs(&self) -> Seq<(Seq<char>, EventSubscription)> {
        self.subscriptions.entries()
    }

    /// The registered components, by name.
    pub closed spec fn comps(&self) -> Seq<(Seq<char>, ComponentHandle)> {
        self.components.entries()
    }

    /// The registered native handlers, by name.
    pub closed spec fn natives(&self) -> Seq<(Seq<char>, bool)> {
        self.native_handlers.entries()
    }

    /// An event bus over a registry, with no subscriptions, components or
    /// native handlers.
    pub fn from_registry(registry: EventRegistryConfig) -> (r: Self)
        ensures
            r.reg() == registry,
            r.subs().len() == 0,
            r.comps().len() == 0,
            r.natives().len() == 0,
    {
        EventBusManager {
            registry,
            subscriptions: NamedMap::new(),
            components: NamedMap::new(),
            native_handlers: NamedMap::new(),
        }
    }

    /// The handler of an event type.
    pub fn get_handler_for_event(&self, event_type: &str) -> (r: Result<&HandlerDefinition, String>)
        ensures
            match resolve_handler(self.reg(), event_type@) {
                Ok(h) => r == Ok::<&HandlerDefinition, String>(&h),
                Err(m) => r matches Err(e) && e@ == m,
            },
    {
        let event_def = match self.registry.events.get(event_type) {
            Some(e) => e,
            None => {
                let mut m = "Unknown event type: ".to_owned();
                m.append(event_type);
                return Err(m);
            },
        };
        match self.registry.handlers.get(event_def.handler.as_str()) {
            Some(h) => Ok(h),
            None => {
                let mut m = "Handler not found: ".to_owned();
                m.append(event_def.handler.as_str());
                Err(m)
            },
        }
    }

    /// Where an event of a type goes: to the component or the native
    /// handler its handler names, which must be registered.
    pub fn route_event(&self, event_type: &str) -> (r: Result<EventRoute, String>)
        ensures
            match route_outcome(self.reg(), self.comps(), self.natives(), event_type@) {
                Ok(v) => r matches Ok(route) && route_view(route) == v,
                Err(m) => r matches Err(e) && e@ == m,
            },
    {
        let h = match self.get_handler_for_event(event_type) {
            Ok(h) => h,
            Err(e) => {
                return Err(e);
            },
        };
        match h.handler_type {
            HandlerType::Wit => match &h.component {
                None => Err("WIT handler missing component name".to_owned()),
                Some(c) => {
                    if self.components.contains_key(c.as_str()) {
                        Ok(EventRoute::Wit(c.clone()))
                    } else {
                        let mut m = "WIT component not found: ".to_owned();
                        m.append(c.as_str());
                        Err(m)
                    }
                },
            },
            HandlerType::Native => match &h.crate_name {
                None => Err("Native handler missing crate name".to_owned()),
                Some(n) => {
                    if self.native_handlers.contains_key(n.as_str()) {
                        Ok(EventRoute::Native(n.clone()))
                    } else {
                        let mut m = "Native handler not found: ".to_owned();
                        m.append(n.as_str());
                        Err(m)
                    }
                },
            },
        }
    }

    /// Register a component under a name.
    pub fn register_component(&mut self, name: String, component: ComponentHandle)
        ensures
            final(self).comps() == upsert(old(self).comps(), name@, component),
            final(self).reg() == old(self).reg(),
            final(self).subs() == old(self).subs(),
            final(self).natives() == old(self).natives(),
    {
        self.components.insert(name, component);
    }

    /// Register a native handler under a name.
    pub fn register_native_handler(&mut self, name: String)
        ensures
            final(self).natives() == upsert(old(self).natives(), name@, true),
            final(self).reg() == old(self).reg(),
            final(self).subs() == old(self).subs(),
            final(self).comps() == old(self).comps(),
    {
        self.native_handlers.insert(name, true);
    }

    /// Subscribe a component to event types under a fresh identifier (a
    /// random UUID in its 36-character hyphenated form), which is returned.
    pub fn subscribe_to_events(&mut self, component_name: &str, event_types: Vec<String>) -> (r: Result<String, String>)
        ensures
            r is Ok,
            r matches Ok(id) ==> id@.len() == 36,
            r matches Ok(id) ==> (lookup(final(self).subs(), id@) matches Some(s) && s.component_name@ == component_name@
                && texts(s.event_types@) == texts(event_types@) && s.subscription_id@ == id@),
            r matches Ok(id) ==> forall|k: Seq<char>|
                k != id@ ==> #[trigger] lookup(final(self).subs(), k) == lookup(old(self).subs(), k),
            final(self).reg() == old(self).reg(),
            final(self).comps() == old(self).comps(),
            final(self).natives() == old(self).natives(),
    {
        let subscription_id = new_uuid_v4();
        let ghost ev = texts(event_types@);
        let subscription = EventSubscription {
            component_name: component_name.to_owned(),
            event_types,
            subscription_id: subscription_id.clone(),
        };
        let ghost sub = subscription;
        let ghost before = self.subscriptions.entries();
        self.subscriptions.insert(subscription_id.clone(), subscription);
        assert(sub.component_name@ == component_name@ && texts(sub.event_types@) == ev && sub.subscription_id@ == subscription_id@);
        proof {
            crate::named_map::law_get_after_insert(before, subscription_id@, sub);
            assert forall|k: Seq<char>| k != subscription_id@ implies #[trigger] lookup(self.subs(), k) == lookup(before, k) by {
                crate::named_map::law_insert_keeps_other_names(before, subscription_id@, sub, k);
            }
        }
        Ok(subscription_id)
    }

    /// End a subscription.
    pub fn unsubscribe(&mut self, subscription_id: &str) -> (r: Result<(), String>)
        ensures
            r is Ok,
            lookup(final(self).subs(), subscription_id@) is None,
            match first_key_index(old(self).subs(), subscription_id@) {
                Some(i) => final(self).subs() == old(self).subs().remove(i),
                None => final(self).subs() == old(self).subs(),
            },
            final(self).reg() == old(self).reg(),
            final(self).comps() == old(self).comps(),
            final(self).natives() == old(self).natives(),
    {
        self.subscriptions.remove(subscription_id);
        Ok(())
    }

    /// The registered event types, in order.
    pub fn list_events(&self) -> (r: Vec<String>)
        ensures
            texts(r@) == entry_names(self.reg().events.entries()),
    {
        self.registry.events.names()
    }

    /// The registered handlers, in order.
    pub fn list_handlers(&self) -> (r: Vec<String>)
        ensures
            texts(r@) == entry_names(self.reg().handlers.entries()),
    {
        self.registry.handlers.names()
    }

    /// The definition of an event type.
    pub fn get_event_definition(&self, event_type: &str) -> (r: Option<&EventDefinition>)
        ensures
            match lookup(self.reg().events.entries(), event_type@) {
                Some(e) => r == Some(&e),
                None => r is None,
            },
    {
        self.registry.events.get(event_type)
    }

    /// The definition of a handler.
    pub fn get_handler_definition(&self, handler_name: &str) -> (r: Option<&HandlerDefinition>)
        ensures
            match lookup(self.reg().handlers.entries(), handler_name@) {
                Some(h) => r == Some(&h),
                None => r is None,
            },
    {
        self.registry.handlers.get(handler_name)
    }

    /// Check an event type: it is registered and has a schema.
    pub fn validate_event(&self, event_type: &str) -> (r: Result<(), String>)
        ensures
            match lookup(self.reg().events.entries(), event_type@) {
                None => r matches Err(e) && e@ == "Unknown event type: "@ + event_type@,
                Some(d) => if d.schema@.len() == 0 {
                    r matches Err(e) && e@ == "Event schema not defined for: "@ + event_type@
                } else {
                    r is Ok
                },
            },
    {
        match self.registry.events.get(event_type) {
            None => {
                let mut m = "Unknown event type: ".to_owned();
                m.append(event_type);
                Err(m)
            },
            Some(d) => {
                if d.schema.as_str().unicode_len() == 0 {
                    let mut m = "Event schema not defined for: ".to_owned();
                    m.append(event_type);
                    Err(m)
                } else {
                    Ok(())
                }
            },
        }
    }

    /// Statistics of the bus.
    pub fn get_statistics(&self) -> (r: EventBusStatistics)
        ensures
            r.total_events == self.reg().events.entries().len(),
            r.total_handlers == self.reg().handlers.entries().len(),
            r.active_subscriptions == self.subs().len(),
            r.registered_components == self.comps().len(),
            r.registered_native_handlers == self.natives().len(),
    {
        EventBusStatistics {
            total_events: self.registry.events.len(),
            total_handlers: self.registry.handlers.len(),
            active_subscriptions: self.subscriptions.len(),
            registered_components: self.components.len(),
            registered_native_handlers: self.native_handlers.len(),
        }
    }
}

/// The type of the event that answers an event.
pub fn result_event_type_of(event_type: &str) -> (r: String)
    ensures
        r@ == result_event_type(event_type@),
{
    if str_ends_with(event_type, "_request") {
        proof {
            reveal_strlit("_request");
        }
        let n = event_type.unicode_len();
        let mut r = event_type.substring_char(0, n - 8).to_owned();
        r.append("_result");
        r
    } else {
        let mut r = event_type.to_owned();
        r.append("_result");
        r
    }
}

/// Builder of event buses.
pub struct EventBusManagerBuilder {
    registry_path: Option<String>,
    auto_load_handlers: bool,
}

impl EventBusManagerBuilder {
    /// The registry path set, if any.
    pub closed spec fn path(&self) -> Option<String> {
        self.registry_path
    }

    /// Whether handlers load by themselves.
    pub closed spec fn auto_load(&self) -> bool {
        self.auto_load_handlers
    }

    /// A builder with no registry path and no auto-loading.
    pub fn new() -> (r: Self)
        ensures
            r.path() is None,
            !r.auto_load(),
    {
        EventBusManagerBuilder { registry_path: None, auto_load_handlers: false }
    }

    /// Set the registry path.
    pub fn registry_path(self, path: String) -> (r: Self)
        ensures
            r.path() == Some(path),
            r.auto_load() == self.auto_load(),
    {
        EventBusManagerBuilder { registry_path: Some(path), auto_load_handlers: self.auto_load_handlers }
    }

    /// Set whether handlers load by themselves.
    pub fn auto_load_handlers(self, enabled: bool) -> (r: Self)
        ensures
            r.path() == self.path(),
            r.auto_load() == enabled,
    {
        EventBusManagerBuilder { registry_path: self.registry_path, auto_load_handlers: enabled }
    }

    /// The registry file to read: the path set, else
    /// `config/event-registry.jsonc`.
    pub fn registry_file(&self) -> (r: String)
        ensures
            r@ == match self.path() {
                Some(p) => p@,
                None => "config/event-registry.jsonc"@,
            },
    {
        match &self.registry_path {
            Some(p) => p.clone(),
            None => "config/event-registry.jsonc".to_owned(),
        }
    }
}

impl Default for EventBusManagerBuilder {
    fn default() -> (r: Self)
        ensures
            r.path() is None,
            !r.auto_load(),
    {
        Self::new()
    }
}

} // verus!
