use idle_inhibit::driver::{Action, Driver, Event, Outcome, Phase, POLL_PERIOD_MS};
use idle_inhibit::interfaces::{classify_interface, Capability};
use idle_inhibit::lifecycle::MissingCapability;
use idle_inhibit::registry::{Capabilities, RegistryEvent, Request};

fn global(name: u32, interface: &str, version: u32) -> RegistryEvent {
    RegistryEvent::Global { name, interface: interface.to_string(), version }
}

fn bound_all() -> Capabilities {
    Capabilities { compositor: Some(1), surface: true, inhibit_manager: Some(2), inhibitor: false }
}

#[test]
fn classifies_known_interfaces() {
    assert_eq!(classify_interface(&"wl_compositor".to_string()), Capability::Compositor);
    assert_eq!(
        classify_interface(&"zwp_idle_inhibit_manager_v1".to_string()),
        Capability::InhibitManager
    );
    assert_eq!(classify_interface(&"wl_shm".to_string()), Capability::Other);
    assert_eq!(classify_interface(&"".to_string()), Capability::Other);
}

#[test]
fn compositor_announcement_binds_and_creates_surface() {
    let mut caps = Capabilities::new();
    let reqs = caps.handle_event(&global(7, "wl_compositor", 4));
    assert_eq!(reqs, vec![Request::BindCompositor { name: 7, version: 4 }, Request::CreateSurface]);
    assert_eq!(caps.compositor, Some(7));
    assert!(caps.surface);
    assert_eq!(caps.inhibit_manager, None);
}

#[test]
fn manager_announcement_binds() {
    let mut caps = Capabilities::new();
    let reqs = caps.handle_event(&global(3, "zwp_idle_inhibit_manager_v1", 1));
    assert_eq!(reqs, vec![Request::BindInhibitManager { name: 3, version: 1 }]);
    assert_eq!(caps.inhibit_manager, Some(3));
    assert_eq!(caps.compositor, None);
}

#[test]
fn other_announcement_is_ignored() {
    let mut caps = Capabilities::new();
    let reqs = caps.handle_event(&global(5, "wl_seat", 8));
    assert!(reqs.is_empty());
    assert_eq!(caps, Capabilities::new());
}

#[test]
fn second_compositor_announcement_is_ignored() {
    let mut once = Capabilities::new();
    once.handle_event(&global(1, "wl_compositor", 4));
    let mut twice = once;
    let reqs = twice.handle_event(&global(9, "wl_compositor", 6));
    assert!(reqs.is_empty());
    assert_eq!(twice, once);
}

#[test]
fn second_manager_announcement_is_ignored() {
    let mut once = Capabilities::new();
    once.handle_event(&global(2, "zwp_idle_inhibit_manager_v1", 1));
    let mut twice = once;
    let reqs = twice.handle_event(&global(4, "zwp_idle_inhibit_manager_v1", 1));
    assert!(reqs.is_empty());
    assert_eq!(twice, once);
    assert_eq!(twice.inhibit_manager, Some(2));
}

#[test]
fn removing_compositor_keeps_manager() {
    let mut caps = bound_all();
    caps.inhibitor = true;
    let reqs = caps.handle_event(&RegistryEvent::GlobalRemove { name: 1 });
    assert!(reqs.is_empty());
    assert_eq!(
        caps,
        Capabilities { compositor: None, surface: false, inhibit_manager: Some(2), inhibitor: true }
    );
}

#[test]
fn removing_manager_keeps_compositor() {
    let mut caps = bound_all();
    caps.inhibitor = true;
    caps.handle_event(&RegistryEvent::GlobalRemove { name: 2 });
    assert_eq!(
        caps,
        Capabilities { compositor: Some(1), surface: true, inhibit_manager: None, inhibitor: true }
    );
}

#[test]
fn removing_unknown_global_changes_nothing() {
    let mut caps = bound_all();
    caps.handle_event(&RegistryEvent::GlobalRemove { name: 42 });
    assert_eq!(caps, bound_all());
}

#[test]
fn acquire_without_manager_fails() {
    let mut caps = Capabilities::new();
    caps.handle_event(&global(1, "wl_compositor", 4));
    let before = caps;
    assert_eq!(caps.acquire(), Err(MissingCapability::InhibitManager));
    assert_eq!(caps, before);
}

#[test]
fn acquire_without_surface_fails() {
    let mut caps = Capabilities::new();
    caps.handle_event(&global(2, "zwp_idle_inhibit_manager_v1", 1));
    assert_eq!(caps.acquire(), Err(MissingCapability::Surface));
    assert!(!caps.inhibitor);
}

#[test]
fn acquire_fails_before_both_in_every_order() {
    let events = [global(1, "wl_compositor", 4), global(2, "zwp_idle_inhibit_manager_v1", 1)];
    for order in [[0usize, 1], [1, 0]] {
        let mut caps = Capabilities::new();
        assert!(caps.acquire().is_err());
        caps.handle_event(&events[order[0]]);
        assert!(caps.acquire().is_err());
        assert!(!caps.inhibitor);
        caps.handle_event(&events[order[1]]);
        assert_eq!(caps.acquire(), Ok(Request::CreateInhibitor));
        assert!(caps.inhibitor);
    }
}

#[test]
fn release_destroys_inhibitor_before_manager() {
    let mut caps = bound_all();
    assert_eq!(caps.acquire(), Ok(Request::CreateInhibitor));
    let reqs = caps.release().unwrap();
    assert_eq!(reqs, vec![Request::DestroyInhibitor, Request::DestroyInhibitManager]);
    assert_eq!(caps.inhibit_manager, None);
    assert!(!caps.inhibitor);
}

#[test]
fn release_without_manager_fails() {
    let mut caps = bound_all();
    caps.inhibitor = true;
    caps.handle_event(&RegistryEvent::GlobalRemove { name: 2 });
    assert_eq!(caps.release(), Err(MissingCapability::InhibitManager));
}

#[test]
fn release_without_inhibitor_fails() {
    let mut caps = bound_all();
    assert_eq!(caps.release(), Err(MissingCapability::Inhibitor));
    assert_eq!(caps, bound_all());
}

#[test]
fn end_to_end_session() {
    let mut d = Driver::new();
    assert_eq!(d.phase, Phase::Connecting);
    let acts = d.step(Event::Connected);
    assert_eq!(acts, vec![Action::Send(Request::GetRegistry), Action::RoundTrip]);
    assert_eq!(d.phase, Phase::Discovering);

    let reqs = d.registry_event(&global(1, "wl_compositor", 4));
    assert_eq!(reqs, vec![Request::BindCompositor { name: 1, version: 4 }, Request::CreateSurface]);
    let reqs = d.registry_event(&global(2, "zwp_idle_inhibit_manager_v1", 1));
    assert_eq!(reqs, vec![Request::BindInhibitManager { name: 2, version: 1 }]);
    assert!(d.caps.surface);

    let acts = d.step(Event::RoundTripDone);
    assert_eq!(acts, vec![Action::Send(Request::CreateInhibitor), Action::RoundTrip]);
    assert_eq!(d.phase, Phase::Acquiring);
    assert!(d.caps.inhibitor);

    let acts = d.step(Event::RoundTripDone);
    assert_eq!(acts, vec![Action::CheckRunning]);
    assert_eq!(d.phase, Phase::Active);

    let acts = d.step(Event::Running(true));
    assert_eq!(acts, vec![Action::Sleep(POLL_PERIOD_MS), Action::CheckRunning]);
    assert_eq!(d.phase, Phase::Active);

    let acts = d.step(Event::Running(false));
    assert_eq!(
        acts,
        vec![
            Action::Send(Request::DestroyInhibitor),
            Action::Send(Request::DestroyInhibitManager),
            Action::RoundTrip,
        ]
    );
    assert_eq!(d.phase, Phase::Releasing);

    let acts = d.step(Event::RoundTripDone);
    assert_eq!(acts, vec![Action::Exit(Outcome::Completed)]);
    assert_eq!(d.phase, Phase::Terminated);
    assert_eq!(Outcome::Completed.exit_code(), 0);
}

#[test]
fn missing_manager_exits_cleanly() {
    let mut d = Driver::new();
    d.step(Event::Connected);
    d.registry_event(&global(1, "wl_compositor", 4));
    d.registry_event(&global(3, "wl_shm", 1));
    let acts = d.step(Event::RoundTripDone);
    let outcome = Outcome::Missing(MissingCapability::InhibitManager);
    assert_eq!(acts, vec![Action::Exit(outcome)]);
    assert_eq!(d.phase, Phase::Terminated);
    assert!(!d.caps.inhibitor);
    assert_eq!(outcome.exit_code(), 0);
}

#[test]
fn missing_surface_exits_cleanly() {
    let mut d = Driver::new();
    d.step(Event::Connected);
    d.registry_event(&global(2, "zwp_idle_inhibit_manager_v1", 1));
    let acts = d.step(Event::RoundTripDone);
    assert_eq!(acts, vec![Action::Exit(Outcome::Missing(MissingCapability::Surface))]);
    assert_eq!(d.phase, Phase::Terminated);
}

#[test]
fn lowered_flag_ends_wait_at_once() {
    let mut d = Driver::new();
    d.step(Event::Connected);
    d.registry_event(&global(1, "wl_compositor", 4));
    d.registry_event(&global(2, "zwp_idle_inhibit_manager_v1", 1));
    d.step(Event::RoundTripDone);
    d.step(Event::RoundTripDone);
    for _ in 0..3 {
        assert_eq!(d.step(Event::Running(true)), vec![Action::Sleep(100), Action::CheckRunning]);
    }
    let acts = d.step(Event::Running(false));
    assert!(!acts.iter().any(|a| matches!(a, Action::Sleep(_))));
    assert_eq!(d.phase, Phase::Releasing);
}

#[test]
fn manager_lost_mid_session_skips_release() {
    let mut d = Driver::new();
    d.step(Event::Connected);
    d.registry_event(&global(1, "wl_compositor", 4));
    d.registry_event(&global(2, "zwp_idle_inhibit_manager_v1", 1));
    d.step(Event::RoundTripDone);
    d.step(Event::RoundTripDone);
    d.registry_event(&RegistryEvent::GlobalRemove { name: 2 });
    assert_eq!(d.phase, Phase::Active);
    assert!(d.caps.inhibitor);
    let acts = d.step(Event::Running(false));
    assert_eq!(acts, vec![Action::Exit(Outcome::Missing(MissingCapability::InhibitManager))]);
    assert_eq!(d.phase, Phase::Terminated);
}

#[test]
fn connection_failure_terminates() {
    let mut d = Driver::new();
    let acts = d.step(Event::ConnectFailed);
    assert_eq!(acts, vec![Action::Exit(Outcome::ConnectionFailed)]);
    assert_eq!(d.phase, Phase::Terminated);
    assert_eq!(Outcome::ConnectionFailed.exit_code(), 1);
}

#[test]
fn round_trip_failure_terminates() {
    let mut d = Driver::new();
    d.step(Event::Connected);
    let acts = d.step(Event::RoundTripFailed);
    assert_eq!(acts, vec![Action::Exit(Outcome::ProtocolFailed)]);
    assert_eq!(d.phase, Phase::Terminated);
    assert_eq!(Outcome::ProtocolFailed.exit_code(), 1);
}

#[test]
fn terminated_ignores_events() {
    let mut d = Driver::new();
    d.step(Event::ConnectFailed);
    let before = d;
    assert!(d.step(Event::Connected).is_empty());
    assert!(d.step(Event::RoundTripDone).is_empty());
    assert!(d.step(Event::Running(false)).is_empty());
    assert_eq!(d, before);
}

#[test]
fn unexpected_event_changes_nothing() {
    let mut d = Driver::new();
    assert!(d.step(Event::RoundTripDone).is_empty());
    assert!(d.step(Event::Running(false)).is_empty());
    assert_eq!(d, Driver::new());
}
