//! Which advertised globals this client cares about.
use vstd::prelude::*;
use wayland_client::protocol::wl_compositor::WlCompositor;
use wayland_client::Proxy;
use wayland_protocols::wp::idle_inhibit::zv1::client::zwp_idle_inhibit_manager_v1::ZwpIdleInhibitManagerV1;

verus! {

/// The kind of capability a registry global stands for.
#[derive(Clone, Copy, Debug, PartialEq, Eq, Structural)]
pub enum Capability {
    /// The surface factory (`wl_compositor`).
    Compositor,
    /// The idle-inhibit manager (`zwp_idle_inhibit_manager_v1`).
    InhibitManager,
    /// Any other global; this client ignores it.
    Other,
}

/// Interface name of the surface factory.
pub open spec fn compositor_interface() -> Seq<char> {
    "wl_compositor"@
}

/// Interface name of the idle-inhibit manager.
pub open spec fn inhibit_manager_interface() -> Seq<char> {
    "zwp_idle_inhibit_manager_v1"@
}

/// The capability that an interface name denotes.
pub open spec fn capability_of(interface: Seq<char>) -> Capability {
    if interface == compositor_interface() {
        Capability::Compositor
    } else if interface == inhibit_manager_interface() {
        Capability::InhibitManager
    } else {
        Capability::Other
    }
}

/// Relies on wayland_client's generated `WlCompositor` proxy: `interface().name`
/// is the name that `wayland.xml` gives the interface, "wl_compositor".
#[verifier::external_body]
fn compositor_interface_name() -> (r: String)
    ensures
        r@ == compositor_interface(),
{
    WlCompositor::interface().name.to_string()
}

/// Relies on wayland_protocols' generated `ZwpIdleInhibitManagerV1` proxy:
/// `interface().name` is the name that `idle-inhibit-unstable-v1.xml` gives the
/// interface, "zwp_idle_inhibit_manager_v1".
#[verifier::external_body]
fn inhibit_manager_interface_name() -> (r: String)
    ensures
        r@ == inhibit_manager_interface(),
{
    ZwpIdleInhibitManagerV1::interface().name.to_string()
}

/// Classifies an announced interface name.
pub fn classify_interface(interface: &String) -> (r: Capability)
    ensures
        r == capability_of(interface@),
{
    let compositor = compositor_interface_name();
    if *interface == compositor {
        return Capability::Compositor;
    }
    let manager = inhibit_manager_interface_name();
    if *interface == manager {
        Capability::InhibitManager
    } else {
        Capability::Other
    }
}

} // verus!
