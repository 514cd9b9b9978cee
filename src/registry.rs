//! The registry walker: binds the two globals this client needs, at most one
//! of each, and forgets them when the server withdraws them.
use vstd::prelude::*;
use crate::interfaces::{Capability, capability_of, classify_interface};

verus! {

/// A protocol request that the caller must send on the client's behalf.
#[derive(Clone, Copy, Debug, PartialEq, Eq, Structural)]
pub enum Request {
    /// Ask the display for its registry.
    GetRegistry,
    /// Bind the compositor global `name` at `version`.
    BindCompositor { name: u32, version: u32 },
    /// Create a surface from the bound compositor.
    CreateSurface,
    /// Bind the idle-inhibit manager global `name` at `version`.
    BindInhibitManager { name: u32, version: u32 },
    /// Create an idle inhibitor for the surface.
    CreateInhibitor,
    /// Destroy the idle inhibitor.
    DestroyInhibitor,
    /// Destroy the idle-inhibit manager.
    DestroyInhibitManager,
}

/// An event of the registry object.
#[derive(Clone, Debug)]
pub enum RegistryEvent {
    /// A global was announced.
    Global { name: u32, interface: String, version: u32 },
    /// A global was withdrawn.
    GlobalRemove { name: u32 },
}

/// What this client holds: the global name of each bound capability and
/// whether the objects made from them exist.
#[derive(Clone, Copy, Debug, PartialEq, Eq, Structural)]
pub struct Capabilities {
    pub compositor: Option<u32>,
    pub surface: bool,
    pub inhibit_manager: Option<u32>,
    pub inhibitor: bool,
}

impl Capabilities {
    /// Nothing bound, nothing created.
    pub open spec fn empty() -> Capabilities {
        Capabilities { compositor: None, surface: false, inhibit_manager: None, inhibitor: false }
    }

    /// A surface exists exactly while a compositor is bound.
    pub open spec fn wf(self) -> bool {
        self.surface == self.compositor.is_some()
    }

    /// The state after the global `name` of kind `cap` is announced.
    pub open spec fn after_global(self, name: u32, cap: Capability) -> Capabilities {
        match cap {
            Capability::Compositor => if self.compositor.is_none() {
                Capabilities { compositor: Some(name), surface: true, ..self }
            } else {
                self
            },
            Capability::InhibitManager => if self.inhibit_manager.is_none() {
                Capabilities { inhibit_manager: Some(name), ..self }
            } else {
                self
            },
            Capability::Other => self,
        }
    }

    /// The requests owed when the global `name` of kind `cap` is announced.
    pub open spec fn global_requests(self, name: u32, version: u32, cap: Capability) -> Seq<Request> {
        match cap {
            Capability::Compositor => if self.compositor.is_none() {
                seq![Request::BindCompositor { name, version }, Request::CreateSurface]
            } else {
                Seq::empty()
            },
            Capability::InhibitManager => if self.inhibit_manager.is_none() {
                seq![Request::BindInhibitManager { name, version }]
            } else {
                Seq::empty()
            },
            Capability::Other => Seq::empty(),
        }
    }

    /// The state after the global `name` is withdrawn: the compositor is
    /// checked first, and losing it loses the surface too.
    pub open spec fn after_remove(self, name: u32) -> Capabilities {
        if self.compositor == Some(name) {
            Capabilities { compositor: None, surface: false, ..self }
        } else if self.inhibit_manager == Some(name) {
            Capabilities { inhibit_manager: None, ..self }
        } else {
            self
        }
    }

    /// The state after a registry event.
    pub open spec fn after_event(self, event: RegistryEvent) -> Capabilities {
        match event {
            RegistryEvent::Global { name, interface, version } =>
                self.after_global(name, capability_of(interface@)),
            RegistryEvent::GlobalRemove { name } => self.after_remove(name),
        }
    }

    /// The requests owed for a registry event.
    pub open spec fn event_requests(self, event: RegistryEvent) -> Seq<Request> {
        match event {
            RegistryEvent::Global { name, interface, version } =>
                self.global_requests(name, version, capability_of(interface@)),
            RegistryEvent::GlobalRemove { name } => Seq::empty(),
        }
    }

    /// The state after a sequence of registry events, in order.
    pub open spec fn after_events(self, events: Seq<RegistryEvent>) -> Capabilities
        decreases events.len(),
    {
        if events.len() == 0 {
            self
        } else {
            self.after_event(events[0]).after_events(events.drop_first())
        }
    }

    /// Nothing bound, nothing created.
    pub fn new() -> (r: Capabilities)
        ensures
            r == Capabilities::empty(),
            r.wf(),
    {
        Capabilities { compositor: None, surface: false, inhibit_manager: None, inhibitor: false }
    }

    /// Reacts to a registry event and returns the requests to send, in order.
    pub fn handle_event(&mut self, event: &RegistryEvent) -> (reqs: Vec<Request>)
        ensures
            *final(self) == old(self).after_event(*event),
            reqs@ == old(self).event_requests(*event),
            old(self).wf() ==> final(self).wf(),
    {
        match event {
            RegistryEvent::Global { name, interface, version } => {
                let cap = classify_interface(interface);
                match cap {
                    Capability::Compositor => {
                        if self.compositor.is_none() {
                            self.compositor = Some(*name);
                            self.surface = true;
                            return vec![
                                Request::BindCompositor { name: *name, version: *version },
                                Request::CreateSurface,
                            ];
                        }
                        Vec::new()
                    },
                    Capability::InhibitManager => {
                        if self.inhibit_manager.is_none() {
                            self.inhibit_manager = Some(*name);
                            return vec![
                                Request::BindInhibitManager { name: *name, version: *version },
                            ];
                        }
                        Vec::new()
                    },
                    Capability::Other => Vec::new(),
                }
            },
            RegistryEvent::GlobalRemove { name } => {
                if self.compositor == Some(*name) {
                    self.compositor = None;
                    self.surface = false;
                } else if self.inhibit_manager == Some(*name) {
                    self.inhibit_manager = None;
                }
                Vec::new()
            },
        }
    }
}

/// A second announcement of a capability that is already announced changes
/// nothing and asks for nothing: the first binding wins.
pub proof fn lemma_first_bind_wins(s: Capabilities, first: RegistryEvent, second: RegistryEvent)
    requires
        first is Global,
        second is Global,
        first->Global_interface@ == second->Global_interface@,
    ensures
        s.after_event(first).after_event(second) == s.after_event(first),
        capability_of(first->Global_interface@) != Capability::Other ==>
            s.after_event(first).event_requests(second) == Seq::<Request>::empty(),
{
}

/// Withdrawing the bound compositor loses exactly the compositor and its
/// surface; withdrawing the bound inhibit manager (under a name the compositor
/// does not hold) loses exactly the manager.
pub proof fn lemma_removal_scoping(s: Capabilities, name: u32)
    ensures
        s.compositor == Some(name) ==> s.after_remove(name) == (Capabilities {
            compositor: None,
            surface: false,
            inhibit_manager: s.inhibit_manager,
            inhibitor: s.inhibitor,
        }),
        s.compositor != Some(name) && s.inhibit_manager == Some(name) ==> s.after_remove(name)
            == (Capabilities {
            compositor: s.compositor,
            surface: s.surface,
            inhibit_manager: None,
            inhibitor: s.inhibitor,
        }),
{
}

/// Registry events never create an inhibitor, whatever their order.
pub proof fn lemma_events_create_no_inhibitor(s: Capabilities, events: Seq<RegistryEvent>)
    requires
        !s.inhibitor,
    ensures
        !s.after_events(events).inhibitor,
    decreases events.len(),
{
    if events.len() > 0 {
        lemma_events_create_no_inhibitor(s.after_event(events[0]), events.drop_first());
    }
}

} // verus!
