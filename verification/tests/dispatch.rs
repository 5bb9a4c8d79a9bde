use waycore::client::{Action, Client, ServerEvent};
use waycore::events::{
    demux, ButtonState, InputEvent, KeyState, KeyboardEvent, PointerEvent, Reaction,
};
use waycore::registry::{GlobalEntry, InterfaceName, Registry};
use waycore::seat::{Capabilities, CapabilityState, SeatManager, CAP_KEYBOARD, CAP_POINTER, CAP_TOUCH};

fn ready_client() -> Client {
    let registry = Registry::new(vec![
        GlobalEntry { interface: InterfaceName::Compositor, version: 1, id: 1 },
        GlobalEntry { interface: InterfaceName::Shell, version: 1, id: 2 },
        GlobalEntry { interface: InterfaceName::Seat, version: 1, id: 3 },
    ]);
    Client::setup(&registry).unwrap()
}

fn caps(pointer: bool, keyboard: bool) -> Capabilities {
    Capabilities { pointer, keyboard, touch: false }
}

#[test]
fn capability_bits_decode() {
    assert_eq!(Capabilities::from_bits(0), caps(false, false));
    assert_eq!(Capabilities::from_bits(CAP_POINTER), caps(true, false));
    assert_eq!(Capabilities::from_bits(CAP_KEYBOARD), caps(false, true));
    assert_eq!(Capabilities::from_bits(CAP_POINTER | CAP_KEYBOARD), caps(true, true));
    assert_eq!(
        Capabilities::from_bits(CAP_POINTER | CAP_TOUCH),
        Capabilities { pointer: true, keyboard: false, touch: true }
    );
    assert_eq!(Capabilities::from_bits(8), caps(false, false));
}

#[test]
fn demux_matches_every_sub_kind() {
    assert_eq!(
        demux(&InputEvent::Pointer {
            event: PointerEvent::Enter { surface_x: 2560, surface_y: 1280 },
        }),
        Reaction::PointerEntered { surface_x: 2560, surface_y: 1280 }
    );
    assert_eq!(
        demux(&InputEvent::Pointer { event: PointerEvent::Leave }),
        Reaction::PointerLeft
    );
    assert_eq!(
        demux(&InputEvent::Pointer {
            event: PointerEvent::Motion { surface_x: -256, surface_y: 0 },
        }),
        Reaction::PointerMoved { surface_x: -256, surface_y: 0 }
    );
    assert_eq!(
        demux(&InputEvent::Pointer {
            event: PointerEvent::Button { button: 272, state: ButtonState::Pressed },
        }),
        Reaction::PointerButton { button: 272, state: ButtonState::Pressed }
    );
    assert_eq!(
        demux(&InputEvent::Keyboard { event: KeyboardEvent::Enter }),
        Reaction::KeyboardFocusGained
    );
    assert_eq!(
        demux(&InputEvent::Keyboard { event: KeyboardEvent::Leave }),
        Reaction::KeyboardFocusLost
    );
    assert_eq!(
        demux(&InputEvent::Keyboard {
            event: KeyboardEvent::Key { key: 30, state: KeyState::Released },
        }),
        Reaction::Key { key: 30, state: KeyState::Released }
    );
}

#[test]
fn demux_ignores_unknown_sub_kinds() {
    assert_eq!(
        demux(&InputEvent::Pointer { event: PointerEvent::Unknown }),
        Reaction::Ignored
    );
    assert_eq!(
        demux(&InputEvent::Keyboard { event: KeyboardEvent::Unknown }),
        Reaction::Ignored
    );
}

#[test]
fn repeated_pointer_capability_creates_one_device() {
    let mut seat = SeatManager::new();
    assert_eq!(seat.handle_capabilities(caps(true, false)), (true, false));
    assert_eq!(seat.handle_capabilities(caps(true, false)), (false, false));
    assert_eq!(seat.handle_capabilities(caps(true, false)), (false, false));
    assert_eq!(seat.pointer, CapabilityState::Created);
    assert_eq!(seat.keyboard, CapabilityState::NotPresent);
}

#[test]
fn keyboard_bit_alone_leaves_pointer_absent() {
    let mut seat = SeatManager::new();
    assert_eq!(seat.handle_capabilities(caps(false, true)), (false, true));
    assert_eq!(seat.pointer, CapabilityState::NotPresent);
    assert_eq!(seat.keyboard, CapabilityState::Created);
}

#[test]
fn clear_bit_never_destroys_a_device() {
    let mut seat = SeatManager::new();
    assert_eq!(seat.handle_capabilities(caps(true, true)), (true, true));
    assert_eq!(seat.handle_capabilities(caps(false, false)), (false, false));
    assert_eq!(seat.pointer, CapabilityState::Created);
    assert_eq!(seat.keyboard, CapabilityState::Created);
}

#[test]
fn discovery_then_lazy_devices() {
    // Discovery offers compositor v1, shell v1 and seat v1; the seat then
    // reports Pointer alone, and later Pointer together with Keyboard.
    let mut client = ready_client();
    let first = client.dispatch_batch(&vec![ServerEvent::SeatCapabilities {
        caps: caps(true, false),
    }]);
    assert_eq!(first, vec![Action::CreatePointer]);
    assert_eq!(client.seat.pointer, CapabilityState::Created);
    assert_eq!(client.seat.keyboard, CapabilityState::NotPresent);

    let second = client.dispatch_batch(&vec![ServerEvent::SeatCapabilities {
        caps: caps(true, true),
    }]);
    assert_eq!(second, vec![Action::CreateKeyboard]);
    assert_eq!(client.seat.pointer, CapabilityState::Created);
    assert_eq!(client.seat.keyboard, CapabilityState::Created);
}

#[test]
fn ping_after_toplevel_gets_one_pong() {
    // The server pings with serial 42 right after the window is top-level:
    // exactly one Pong{42} comes back from handling that event.
    let mut client = ready_client();
    let acts = client.handle_event(&ServerEvent::Ping { serial: 42 });
    assert_eq!(acts, vec![Action::Pong { serial: 42 }]);
}

#[test]
fn ping_serials_pong_in_order() {
    let mut client = ready_client();
    let events: Vec<ServerEvent> = [9, 3, 3, 7]
        .iter()
        .map(|&serial| ServerEvent::Ping { serial })
        .collect();
    let acts = client.dispatch_batch(&events);
    assert_eq!(
        acts,
        vec![
            Action::Pong { serial: 9 },
            Action::Pong { serial: 3 },
            Action::Pong { serial: 3 },
            Action::Pong { serial: 7 },
        ]
    );
}

#[test]
fn mixed_batch_keeps_server_send_order() {
    let mut client = ready_client();
    let events = vec![
        ServerEvent::SeatCapabilities { caps: caps(true, true) },
        ServerEvent::Input {
            event: InputEvent::Pointer {
                event: PointerEvent::Enter { surface_x: 512, surface_y: 512 },
            },
        },
        ServerEvent::Ping { serial: 1 },
        ServerEvent::Input { event: InputEvent::Keyboard { event: KeyboardEvent::Enter } },
        ServerEvent::Unmatched,
        ServerEvent::Input {
            event: InputEvent::Pointer {
                event: PointerEvent::Button { button: 272, state: ButtonState::Released },
            },
        },
    ];
    let acts = client.dispatch_batch(&events);
    assert_eq!(
        acts,
        vec![
            Action::CreatePointer,
            Action::CreateKeyboard,
            Action::Emit {
                reaction: Reaction::PointerEntered { surface_x: 512, surface_y: 512 },
            },
            Action::Pong { serial: 1 },
            Action::Emit { reaction: Reaction::KeyboardFocusGained },
            Action::Emit {
                reaction: Reaction::PointerButton { button: 272, state: ButtonState::Released },
            },
        ]
    );
}

#[test]
fn unmatched_traffic_is_discarded() {
    let mut client = ready_client();
    let before = client;
    let acts = client.dispatch_batch(&vec![ServerEvent::Unmatched, ServerEvent::Unmatched]);
    assert_eq!(acts, vec![]);
    assert_eq!(client, before);
}
