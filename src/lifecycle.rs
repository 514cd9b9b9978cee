//! The resource lifecycle: create the inhibitor once its prerequisites are
//! bound, and release it before the manager that made it.
use vstd::prelude::*;
use crate::registry::{Capabilities, RegistryEvent, Request, lemma_events_create_no_inhibitor};

verus! {

/// A capability that an operation needed and did not find.
#[derive(Clone, Copy, Debug, PartialEq, Eq, Structural)]
pub enum MissingCapability {
    InhibitManager,
    Surface,
    Inhibitor,
}

impl Capabilities {
    /// What `acquire` returns: the manager is checked before the surface.
    pub open spec fn acquire_result(self) -> Result<Request, MissingCapability> {
        if self.inhibit_manager.is_none() {
            Err(MissingCapability::InhibitManager)
        } else if !self.surface {
            Err(MissingCapability::Surface)
        } else {
            Ok(Request::CreateInhibitor)
        }
    }

    /// The state after a successful `acquire`.
    pub open spec fn acquired(self) -> Capabilities {
        Capabilities { inhibitor: true, ..self }
    }

    /// What `release` returns: the manager is checked before the inhibitor,
    /// and the inhibitor is destroyed before its manager.
    pub open spec fn release_result(self) -> Result<Seq<Request>, MissingCapability> {
        if self.inhibit_manager.is_none() {
            Err(MissingCapability::InhibitManager)
        } else if !self.inhibitor {
            Err(MissingCapability::Inhibitor)
        } else {
            Ok(seq![Request::DestroyInhibitor, Request::DestroyInhibitManager])
        }
    }

    /// The state after a successful `release`.
    pub open spec fn released(self) -> Capabilities {
        Capabilities { inhibit_manager: None, inhibitor: false, ..self }
    }

    /// Creates the inhibitor for the surface, if the manager and the surface
    /// are both there; returns the request to send.
    pub fn acquire(&mut self) -> (r: Result<Request, MissingCapability>)
        ensures
            r == old(self).acquire_result(),
            r is Ok ==> *final(self) == old(self).acquired(),
            r is Err ==> *final(self) == *old(self),
            old(self).wf() ==> final(self).wf(),
    {
        if self.inhibit_manager.is_none() {
            return Err(MissingCapability::InhibitManager);
        }
        if !self.surface {
            return Err(MissingCapability::Surface);
        }
        self.inhibitor = true;
        Ok(Request::CreateInhibitor)
    }

    /// Destroys the inhibitor and then the manager, if both are there; returns
    /// the requests to send, in that order.
    pub fn release(&mut self) -> (r: Result<Vec<Request>, MissingCapability>)
        ensures
            match (r, old(self).release_result()) {
                (Ok(reqs), Ok(expected)) => reqs@ == expected,
                (Err(e), Err(expected)) => e == expected,
                _ => false,
            },
            r is Ok ==> *final(self) == old(self).released(),
            r is Err ==> *final(self) == *old(self),
            old(self).wf() ==> final(self).wf(),
    {
        if self.inhibit_manager.is_none() {
            return Err(MissingCapability::InhibitManager);
        }
        if !self.inhibitor {
            return Err(MissingCapability::Inhibitor);
        }
        self.inhibitor = false;
        self.inhibit_manager = None;
        Ok(vec![Request::DestroyInhibitor, Request::DestroyInhibitManager])
    }
}

/// However registry events interleave, starting from no inhibitor they create
/// none, and creating one afterwards fails with a missing capability unless
/// both the inhibit manager and a surface are bound.
pub proof fn lemma_no_premature_creation(s: Capabilities, events: Seq<RegistryEvent>)
    requires
        !s.inhibitor,
    ensures
        !s.after_events(events).inhibitor,
        s.after_events(events).acquire_result() is Ok <==> (
            s.after_events(events).inhibit_manager.is_some() && s.after_events(events).surface),
{
    lemma_events_create_no_inhibitor(s, events);
}

/// When both are held, the inhibitor's destroy request comes strictly before
/// the manager's.
pub proof fn lemma_destruction_order(s: Capabilities)
    requires
        s.inhibit_manager.is_some(),
        s.inhibitor,
    ensures
        s.release_result() is Ok,
        exists|i: int, j: int|
            0 <= i < j < s.release_result()->Ok_0.len()
                && s.release_result()->Ok_0[i] == Request::DestroyInhibitor
                && s.release_result()->Ok_0[j] == Request::DestroyInhibitManager,
{
    let reqs = s.release_result()->Ok_0;
    assert(reqs[0] == Request::DestroyInhibitor && reqs[1] == Request::DestroyInhibitManager);
}

} // verus!
