use waycore::client::Client;
use waycore::lifecycle::{Lifecycle, LifecycleState, SetupError};
use waycore::registry::{
    interface_from_name, BindError, BoundGlobal, GlobalEntry, InterfaceName, Registry,
};
use waycore::{BUFFER_HEIGHT, BUFFER_WIDTH};

fn entry(interface: InterfaceName, version: u32, id: u32) -> GlobalEntry {
    GlobalEntry { interface, version, id }
}

fn full_registry() -> Registry {
    Registry::new(vec![
        entry(InterfaceName::Compositor, 1, 1),
        entry(InterfaceName::Shell, 1, 2),
        entry(InterfaceName::Seat, 1, 3),
    ])
}

#[test]
fn interface_names_map_exactly() {
    assert_eq!(interface_from_name("wl_compositor"), InterfaceName::Compositor);
    assert_eq!(interface_from_name("wl_shell"), InterfaceName::Shell);
    assert_eq!(interface_from_name("wl_seat"), InterfaceName::Seat);
    assert_eq!(interface_from_name("wl_shm"), InterfaceName::SharedMemory);
    assert_eq!(interface_from_name("wl_output"), InterfaceName::Other);
    assert_eq!(interface_from_name("wl_compositor2"), InterfaceName::Other);
    assert_eq!(interface_from_name(""), InterfaceName::Other);
}

#[test]
fn discovery_keeps_announcement_order() {
    let raw: Vec<(u32, String, u32)> = vec![
        (1, String::from("wl_compositor"), 4),
        (2, String::from("wl_shm"), 1),
        (3, String::from("wl_shell"), 1),
        (4, String::from("wl_seat"), 5),
        (5, String::from("wl_output"), 3),
    ];
    let registry = Registry::from_discovery(&raw);
    assert_eq!(registry.entries.len(), 5);
    assert_eq!(registry.entries[0], entry(InterfaceName::Compositor, 4, 1));
    assert_eq!(registry.entries[1], entry(InterfaceName::SharedMemory, 1, 2));
    assert_eq!(registry.entries[2], entry(InterfaceName::Shell, 1, 3));
    assert_eq!(registry.entries[3], entry(InterfaceName::Seat, 5, 4));
    assert_eq!(registry.entries[4], entry(InterfaceName::Other, 3, 5));
}

#[test]
fn bind_returns_first_matching_global() {
    let registry = Registry::new(vec![
        entry(InterfaceName::Seat, 2, 10),
        entry(InterfaceName::Seat, 7, 11),
    ]);
    assert_eq!(
        registry.bind(InterfaceName::Seat, 1),
        Ok(BoundGlobal { interface: InterfaceName::Seat, id: 10, version: 1 })
    );
}

#[test]
fn bind_missing_global_fails() {
    let registry = Registry::new(vec![entry(InterfaceName::Compositor, 1, 1)]);
    assert_eq!(
        registry.bind(InterfaceName::Shell, 1),
        Err(BindError::MissingGlobal { interface: InterfaceName::Shell })
    );
}

#[test]
fn bind_version_too_low_fails() {
    let registry = Registry::new(vec![entry(InterfaceName::Seat, 1, 3)]);
    assert_eq!(
        registry.bind(InterfaceName::Seat, 2),
        Err(BindError::VersionMismatch {
            interface: InterfaceName::Seat,
            advertised: 1,
            requested: 2,
        })
    );
}

#[test]
fn lifecycle_reaches_toplevel() {
    let registry = full_registry();
    let mut lifecycle = Lifecycle::new();
    assert_eq!(lifecycle.state, LifecycleState::Unbound);
    let compositor = lifecycle.create_surface(&registry).unwrap();
    assert_eq!(compositor.id, 1);
    assert_eq!(lifecycle.state, LifecycleState::SurfaceCreated);
    let shell = lifecycle.promote_to_toplevel(&registry).unwrap();
    assert_eq!(shell.id, 2);
    assert_eq!(lifecycle.state, LifecycleState::TopLevel);
    let target = lifecycle.drawable_target();
    assert_eq!(target.width, BUFFER_WIDTH);
    assert_eq!(target.height, BUFFER_HEIGHT);
    assert_eq!((target.width, target.height), (320, 240));
}

#[test]
fn create_surface_without_compositor_fails() {
    let registry = Registry::new(vec![entry(InterfaceName::Shell, 1, 2)]);
    let mut lifecycle = Lifecycle::new();
    assert_eq!(
        lifecycle.create_surface(&registry),
        Err(SetupError::CompositorUnavailable)
    );
    assert_eq!(lifecycle.state, LifecycleState::Unbound);
}

#[test]
fn missing_shell_is_fatal_before_dispatch() {
    let registry = Registry::new(vec![
        entry(InterfaceName::Compositor, 1, 1),
        entry(InterfaceName::Seat, 1, 3),
    ]);
    assert_eq!(Client::setup(&registry), Err(SetupError::ShellUnavailable));
}

#[test]
fn missing_seat_is_reported() {
    let registry = Registry::new(vec![
        entry(InterfaceName::Compositor, 1, 1),
        entry(InterfaceName::Shell, 1, 2),
    ]);
    assert_eq!(
        Client::setup(&registry),
        Err(SetupError::MissingGlobal { interface: InterfaceName::Seat })
    );
}

#[test]
fn old_compositor_is_reported() {
    let registry = Registry::new(vec![
        entry(InterfaceName::Compositor, 0, 1),
        entry(InterfaceName::Shell, 1, 2),
        entry(InterfaceName::Seat, 1, 3),
    ]);
    assert_eq!(
        Client::setup(&registry),
        Err(SetupError::VersionMismatch {
            interface: InterfaceName::Compositor,
            advertised: 0,
            requested: 1,
        })
    );
}

#[test]
fn setup_binds_all_three_globals() {
    let registry = full_registry();
    let client = Client::setup(&registry).unwrap();
    assert_eq!(client.compositor.id, 1);
    assert_eq!(client.shell.id, 2);
    assert_eq!(client.seat_global.id, 3);
    assert_eq!(client.lifecycle.state, LifecycleState::TopLevel);
}

#[test]
fn pong_carries_ping_serial() {
    let registry = full_registry();
    let client = Client::setup(&registry).unwrap();
    assert_eq!(client.lifecycle.pong_for_ping(7), 7);
    assert_eq!(client.lifecycle.pong_for_ping(u32::MAX), u32::MAX);
}
