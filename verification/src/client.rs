//! The client core: setup after discovery, and the dispatch step that the
//! event loop drives forever.
//!
//! The embedding program owns the wire connection. After the discovery
//! round-trip it hands the advertised globals to `Client::setup`, performs
//! the requests the bound proxies imply, and then loops: each event the
//! server sends becomes one `ServerEvent`, and each `Action` the client
//! returns is performed in order (a Pong request, a device creation, a log
//! line). Handler execution for one event completes before the next event
//! is processed; nothing here reorders events.

use crate::events::{demux, spec_demux, InputEvent, Reaction};
use crate::lifecycle::{
    spec_shell_bind, spec_surface_bind, Lifecycle, LifecycleState, SetupError,
};
use crate::registry::{BindError, BoundGlobal, InterfaceName, Registry};
use crate::seat::{
    spec_caps_after, spec_creates_keyboard, spec_creates_pointer, Capabilities, SeatManager,
};
use vstd::prelude::*;

verus! {

/// One event delivered by the server to this client's dispatch loop.
#[derive(Clone, Copy, Debug, PartialEq, Eq, Structural)]
#[allow(inconsistent_fields)]
pub enum ServerEvent {
    /// The server's liveness probe on the shell surface.
    Ping { serial: u32 },
    /// A seat's full current capability bitset.
    SeatCapabilities { caps: Capabilities },
    /// An input event from one of the created devices.
    Input { event: InputEvent },
    /// Traffic claimed by no registered proxy; discarded.
    Unmatched,
}

/// One thing the client owes in response to an event, performed in order by
/// the embedding program.
#[derive(Clone, Copy, Debug, PartialEq, Eq, Structural)]
#[allow(inconsistent_fields)]
pub enum Action {
    /// Answer a Ping: one Pong, same serial.
    Pong { serial: u32 },
    /// Create the seat's pointer device and route it to the demultiplexer.
    CreatePointer,
    /// Create the seat's keyboard device and route it to the demultiplexer.
    CreateKeyboard,
    /// The demultiplexer's observable effect for one input event.
    Emit { reaction: Reaction },
}

/// The client core once setup is complete: the three bound globals, the
/// window lifecycle, and the seat's device state.
#[derive(Clone, Copy, Debug, PartialEq, Eq, Structural)]
pub struct Client {
    pub compositor: BoundGlobal,
    pub shell: BoundGlobal,
    pub seat_global: BoundGlobal,
    pub lifecycle: Lifecycle,
    pub seat: SeatManager,
}

/// What binding the seat owes: the bound proxy, or the registry's error
/// carried over unchanged.
pub open spec fn spec_seat_bind(registry: Registry) -> Result<BoundGlobal, SetupError> {
    match registry.spec_bind(InterfaceName::Seat, crate::SEAT_VERSION) {
        Result::Ok(s) => Result::Ok(s),
        Result::Err(BindError::MissingGlobal { interface }) => Result::Err(
            SetupError::MissingGlobal { interface },
        ),
        Result::Err(BindError::VersionMismatch { interface, advertised, requested }) => Result::Err(
            SetupError::VersionMismatch { interface, advertised, requested },
        ),
    }
}

/// What `Client::setup` owes: the compositor is bound first, then the
/// shell, then the seat, and the first failure decides the error; on
/// success the window is top-level and no input device exists yet.
pub open spec fn spec_setup(registry: Registry) -> Result<Client, SetupError> {
    match spec_surface_bind(registry) {
        Result::Err(e) => Result::Err(e),
        Result::Ok(compositor) => match spec_shell_bind(registry) {
            Result::Err(e) => Result::Err(e),
            Result::Ok(shell) => match spec_seat_bind(registry) {
                Result::Err(e) => Result::Err(e),
                Result::Ok(seat_global) => Result::Ok(
                    Client {
                        compositor,
                        shell,
                        seat_global,
                        lifecycle: Lifecycle { state: LifecycleState::TopLevel },
                        seat: SeatManager {
                            pointer: crate::seat::CapabilityState::NotPresent,
                            keyboard: crate::seat::CapabilityState::NotPresent,
                        },
                    },
                ),
            },
        },
    }
}

/// The client state after one server event: only a capability notification
/// changes it; a ping, an input event and unmatched traffic leave the
/// client exactly as it was.
pub open spec fn spec_step_state(c: Client, ev: ServerEvent) -> Client {
    match ev {
        ServerEvent::SeatCapabilities { caps } => Client {
            compositor: c.compositor,
            shell: c.shell,
            seat_global: c.seat_global,
            lifecycle: c.lifecycle,
            seat: spec_caps_after(c.seat, caps),
        },
        _ => c,
    }
}

/// The actions one server event obliges, in the order they are performed:
/// a Ping obliges exactly one Pong with the same serial; a capability
/// notification obliges creating each device whose bit is newly set,
/// pointer before keyboard; an input event obliges exactly its
/// demultiplexed effect; unmatched traffic obliges nothing.
pub open spec fn spec_step_actions(c: Client, ev: ServerEvent) -> Seq<Action> {
    match ev {
        ServerEvent::Ping { serial } => seq![Action::Pong { serial }],
        ServerEvent::SeatCapabilities { caps } => {
            let create_pointer = spec_creates_pointer(c.seat, caps);
            let create_keyboard = spec_creates_keyboard(c.seat, caps);
            if create_pointer && create_keyboard {
                seq![Action::CreatePointer, Action::CreateKeyboard]
            } else if create_pointer {
                seq![Action::CreatePointer]
            } else if create_keyboard {
                seq![Action::CreateKeyboard]
            } else {
                Seq::empty()
            }
        },
        ServerEvent::Input { event } => seq![Action::Emit { reaction: spec_demux(event) }],
        ServerEvent::Unmatched => Seq::empty(),
    }
}

/// The client state after a whole sequence of events, delivered in order.
pub open spec fn spec_run_state(c: Client, evs: Seq<ServerEvent>) -> Client
    decreases evs.len(),
{
    if evs.len() == 0 {
        c
    } else {
        spec_run_state(spec_step_state(c, evs[0]), evs.drop_first())
    }
}

/// All actions a sequence of events obliges, in delivery order: the actions
/// of each event, concatenated in the order the server sent the events.
pub open spec fn spec_run_actions(c: Client, evs: Seq<ServerEvent>) -> Seq<Action>
    decreases evs.len(),
{
    if evs.len() == 0 {
        Seq::empty()
    } else {
        spec_step_actions(c, evs[0]) + spec_run_actions(spec_step_state(c, evs[0]), evs.drop_first())
    }
}

impl Client {
    /// Performs the whole post-discovery setup decision, in the order the
    /// protocol imposes: bind the compositor and create the surface, bind
    /// the shell and promote the surface to a top-level window, then bind
    /// the seat for input. The first failure is fatal and decides the
    /// error; in particular an absent shell global fails with
    /// `ShellUnavailable`, so no client exists to run a dispatch loop with.
    pub fn setup(registry: &Registry) -> (r: Result<Client, SetupError>)
        ensures
            r == spec_setup(*registry),
            r is Ok <==> (registry.spec_bind(InterfaceName::Compositor, crate::COMPOSITOR_VERSION)
                is Ok && registry.spec_bind(InterfaceName::Shell, crate::SHELL_VERSION) is Ok
                && registry.spec_bind(InterfaceName::Seat, crate::SEAT_VERSION) is Ok),
            !registry.has(InterfaceName::Compositor) ==> r == Result::<Client, SetupError>::Err(
                SetupError::CompositorUnavailable,
            ),
            spec_surface_bind(*registry) is Ok && !registry.has(InterfaceName::Shell) ==> r
                == Result::<Client, SetupError>::Err(SetupError::ShellUnavailable),
            !registry.has(InterfaceName::Shell) ==> r is Err,
            r matches Ok(c) ==> (c.lifecycle.state is TopLevel && c.seat.pointer is NotPresent
                && c.seat.keyboard is NotPresent),
    {
        let mut lifecycle = Lifecycle::new();
        let compositor = match lifecycle.create_surface(registry) {
            Ok(c) => c,
            Err(e) => {
                return Err(e);
            },
        };
        let shell = match lifecycle.promote_to_toplevel(registry) {
            Ok(s) => s,
            Err(e) => {
                return Err(e);
            },
        };
        let seat_global = match registry.bind(InterfaceName::Seat, crate::SEAT_VERSION) {
            Ok(s) => s,
            Err(BindError::MissingGlobal { interface }) => {
                return Err(SetupError::MissingGlobal { interface });
            },
            Err(BindError::VersionMismatch { interface, advertised, requested }) => {
                return Err(SetupError::VersionMismatch { interface, advertised, requested });
            },
        };
        Ok(Client { compositor, shell, seat_global, lifecycle, seat: SeatManager::new() })
    }

    /// Handles one event from the dispatch loop and returns the actions it
    /// obliges, in order. The handler for this event runs to completion
    /// here, before any later event is looked at.
    pub fn handle_event(&mut self, ev: &ServerEvent) -> (acts: Vec<Action>)
        ensures
            *final(self) == spec_step_state(*old(self), *ev),
            acts@ == spec_step_actions(*old(self), *ev),
    {
        let mut acts: Vec<Action> = Vec::new();
        match *ev {
            ServerEvent::Ping { serial } => {
                let pong = self.lifecycle.pong_for_ping(serial);
                acts.push(Action::Pong { serial: pong });
            },
            ServerEvent::SeatCapabilities { caps } => {
                let (create_pointer, create_keyboard) = self.seat.handle_capabilities(caps);
                if create_pointer {
                    acts.push(Action::CreatePointer);
                }
                if create_keyboard {
                    acts.push(Action::CreateKeyboard);
                }
            },
            ServerEvent::Input { event } => {
                let reaction = demux(&event);
                acts.push(Action::Emit { reaction });
            },
            ServerEvent::Unmatched => {},
        }
        proof {
            assert(acts@ =~= spec_step_actions(*old(self), *ev));
        }
        acts
    }

    /// Processes one batch of events in exactly server-send order: the
    /// resulting actions are the concatenation, in delivery order, of what
    /// each event obliges.
    pub fn dispatch_batch(&mut self, events: &Vec<ServerEvent>) -> (acts: Vec<Action>)
        ensures
            *final(self) == spec_run_state(*old(self), events@),
            acts@ == spec_run_actions(*old(self), events@),
    {
        let ghost orig = *self;
        let mut acts: Vec<Action> = Vec::new();
        let n = events.len();
        let mut i: usize = 0;
        proof {
            assert(events@.skip(0) =~= events@);
        }
        while i < n
            invariant
                i <= n,
                n == events.len(),
                spec_run_state(orig, events@) == spec_run_state(*self, events@.skip(i as int)),
                spec_run_actions(orig, events@) == acts@ + spec_run_actions(
                    *self,
                    events@.skip(i as int),
                ),
            decreases n - i,
        {
            proof {
                assert(events@.skip(i as int)[0] == events@[i as int]);
                assert(events@.skip(i as int).drop_first() =~= events@.skip(i as int + 1));
            }
            let mut step = self.handle_event(&events[i]);
            proof {
                let rest = spec_run_actions(*self, events@.skip(i as int + 1));
                assert((acts@ + step@) + rest =~= acts@ + (step@ + rest));
            }
            acts.append(&mut step);
            i = i + 1;
        }
        proof {
            assert(events@.skip(n as int) =~= Seq::<ServerEvent>::empty());
            assert(acts@ + Seq::<Action>::empty() =~= acts@);
        }
        acts
    }
}

/// How many actions of a sequence create the pointer device.
pub open spec fn spec_count_pointer_creates(acts: Seq<Action>) -> nat
    decreases acts.len(),
{
    if acts.len() == 0 {
        0
    } else {
        (if acts[0] is CreatePointer {
            1nat
        } else {
            0nat
        }) + spec_count_pointer_creates(acts.drop_first())
    }
}

/// The pointer-creation count of a concatenation is the sum of the counts.
pub proof fn lemma_count_pointer_creates_add(a: Seq<Action>, b: Seq<Action>)
    ensures
        spec_count_pointer_creates(a + b) == spec_count_pointer_creates(a)
            + spec_count_pointer_creates(b),
    decreases a.len(),
{
    if a.len() == 0 {
        assert(a + b =~= b);
    } else {
        assert((a + b)[0] == a[0]);
        assert((a + b).drop_first() =~= a.drop_first() + b);
        lemma_count_pointer_creates_add(a.drop_first(), b);
    }
}

/// Write-once, kept: once the pointer device exists, no later event of any
/// kind creates it again, and it stays created.
pub proof fn lemma_pointer_never_recreated(c: Client, evs: Seq<ServerEvent>)
    requires
        c.seat.pointer is Created,
    ensures
        spec_run_state(c, evs).seat.pointer is Created,
        spec_count_pointer_creates(spec_run_actions(c, evs)) == 0,
    decreases evs.len(),
{
    reveal_with_fuel(spec_count_pointer_creates, 4);
    if evs.len() > 0 {
        let c1 = spec_step_state(c, evs[0]);
        assert(c1.seat.pointer is Created);
        assert(spec_count_pointer_creates(spec_step_actions(c, evs[0])) == 0);
        lemma_pointer_never_recreated(c1, evs.drop_first());
        lemma_count_pointer_creates_add(
            spec_step_actions(c, evs[0]),
            spec_run_actions(c1, evs.drop_first()),
        );
    }
}

/// Idempotent capability creation: for any number of capability-changed
/// notifications all reporting the pointer bit set, delivered to a client
/// whose pointer device does not exist yet, the pointer device is created
/// exactly once, and exists afterwards.
pub proof fn lemma_pointer_created_exactly_once(c: Client, evs: Seq<ServerEvent>)
    requires
        c.seat.pointer is NotPresent,
        evs.len() > 0,
        forall|i: int|
            0 <= i < evs.len() ==> ((#[trigger] evs[i]) matches ServerEvent::SeatCapabilities {
                caps,
            } && caps.pointer),
    ensures
        spec_count_pointer_creates(spec_run_actions(c, evs)) == 1,
        spec_run_state(c, evs).seat.pointer is Created,
{
    reveal_with_fuel(spec_count_pointer_creates, 4);
    assert(evs[0] matches ServerEvent::SeatCapabilities { caps } && caps.pointer);
    let c1 = spec_step_state(c, evs[0]);
    assert(c1.seat.pointer is Created);
    assert(spec_count_pointer_creates(spec_step_actions(c, evs[0])) == 1);
    lemma_pointer_never_recreated(c1, evs.drop_first());
    lemma_count_pointer_creates_add(
        spec_step_actions(c, evs[0]),
        spec_run_actions(c1, evs.drop_first()),
    );
}

/// A capability's device is created at most once per seat, whatever the
/// server sends: over any event sequence at all, at most one action
/// creates the pointer device.
pub proof fn lemma_pointer_created_at_most_once(c: Client, evs: Seq<ServerEvent>)
    requires
        c.seat.pointer is NotPresent,
    ensures
        spec_count_pointer_creates(spec_run_actions(c, evs)) <= 1,
    decreases evs.len(),
{
    reveal_with_fuel(spec_count_pointer_creates, 4);
    if evs.len() > 0 {
        let c1 = spec_step_state(c, evs[0]);
        assert(spec_count_pointer_creates(spec_step_actions(c, evs[0])) <= 1);
        if c1.seat.pointer is Created {
            lemma_pointer_never_recreated(c1, evs.drop_first());
        } else {
            assert(spec_count_pointer_creates(spec_step_actions(c, evs[0])) == 0);
            lemma_pointer_created_at_most_once(c1, evs.drop_first());
        }
        lemma_count_pointer_creates_add(
            spec_step_actions(c, evs[0]),
            spec_run_actions(c1, evs.drop_first()),
        );
    }
}

/// How many actions of a sequence create the keyboard device.
pub open spec fn spec_count_keyboard_creates(acts: Seq<Action>) -> nat
    decreases acts.len(),
{
    if acts.len() == 0 {
        0
    } else {
        (if acts[0] is CreateKeyboard {
            1nat
        } else {
            0nat
        }) + spec_count_keyboard_creates(acts.drop_first())
    }
}

/// The keyboard-creation count of a concatenation is the sum of the counts.
pub proof fn lemma_count_keyboard_creates_add(a: Seq<Action>, b: Seq<Action>)
    ensures
        spec_count_keyboard_creates(a + b) == spec_count_keyboard_creates(a)
            + spec_count_keyboard_creates(b),
    decreases a.len(),
{
    if a.len() == 0 {
        assert(a + b =~= b);
    } else {
        assert((a + b)[0] == a[0]);
        assert((a + b).drop_first() =~= a.drop_first() + b);
        lemma_count_keyboard_creates_add(a.drop_first(), b);
    }
}

/// Write-once, kept: once the keyboard device exists, no later event of
/// any kind creates it again, and it stays created.
pub proof fn lemma_keyboard_never_recreated(c: Client, evs: Seq<ServerEvent>)
    requires
        c.seat.keyboard is Created,
    ensures
        spec_run_state(c, evs).seat.keyboard is Created,
        spec_count_keyboard_creates(spec_run_actions(c, evs)) == 0,
    decreases evs.len(),
{
    reveal_with_fuel(spec_count_keyboard_creates, 4);
    if evs.len() > 0 {
        let c1 = spec_step_state(c, evs[0]);
        assert(c1.seat.keyboard is Created);
        assert(spec_count_keyboard_creates(spec_step_actions(c, evs[0])) == 0);
        lemma_keyboard_never_recreated(c1, evs.drop_first());
        lemma_count_keyboard_creates_add(
            spec_step_actions(c, evs[0]),
            spec_run_actions(c1, evs.drop_first()),
        );
    }
}

/// The keyboard device, too, is created at most once per seat, whatever
/// the server sends.
pub proof fn lemma_keyboard_created_at_most_once(c: Client, evs: Seq<ServerEvent>)
    requires
        c.seat.keyboard is NotPresent,
    ensures
        spec_count_keyboard_creates(spec_run_actions(c, evs)) <= 1,
    decreases evs.len(),
{
    reveal_with_fuel(spec_count_keyboard_creates, 4);
    if evs.len() > 0 {
        let c1 = spec_step_state(c, evs[0]);
        assert(spec_count_keyboard_creates(spec_step_actions(c, evs[0])) <= 1);
        if c1.seat.keyboard is Created {
            lemma_keyboard_never_recreated(c1, evs.drop_first());
        } else {
            assert(spec_count_keyboard_creates(spec_step_actions(c, evs[0])) == 0);
            lemma_keyboard_created_at_most_once(c1, evs.drop_first());
        }
        lemma_count_keyboard_creates_add(
            spec_step_actions(c, evs[0]),
            spec_run_actions(c1, evs.drop_first()),
        );
    }
}

/// Liveness: for any sequence of Ping events with serials `serials`, the
/// actions are exactly one Pong per Ping, carrying the same serials in the
/// same order, with no omissions, no reordering and nothing else emitted;
/// the client state is untouched.
pub proof fn lemma_every_ping_ponged_in_order(c: Client, serials: Seq<u32>)
    ensures
        spec_run_state(c, serials.map_values(|s: u32| ServerEvent::Ping { serial: s })) == c,
        spec_run_actions(c, serials.map_values(|s: u32| ServerEvent::Ping { serial: s }))
            == serials.map_values(|s: u32| Action::Pong { serial: s }),
    decreases serials.len(),
{
    let evs = serials.map_values(|s: u32| ServerEvent::Ping { serial: s });
    let pongs = serials.map_values(|s: u32| Action::Pong { serial: s });
    if serials.len() == 0 {
        assert(spec_run_actions(c, evs) =~= pongs);
    } else {
        let tail = serials.drop_first();
        assert(evs[0] == ServerEvent::Ping { serial: serials[0] });
        assert(spec_step_state(c, evs[0]) == c);
        lemma_every_ping_ponged_in_order(c, tail);
        assert(evs.drop_first() =~= tail.map_values(|s: u32| ServerEvent::Ping { serial: s }));
        assert(spec_run_actions(c, evs) =~= pongs);
    }
}

/// Ordering: input events across any mix of device types are dispatched in
/// exactly server-send order: the actions are one demultiplexed effect per
/// event, in the order the events were delivered, with nothing reordered
/// within or across devices; the client state is untouched.
pub proof fn lemma_dispatch_preserves_order(c: Client, inputs: Seq<InputEvent>)
    ensures
        spec_run_state(c, inputs.map_values(|e: InputEvent| ServerEvent::Input { event: e })) == c,
        spec_run_actions(c, inputs.map_values(|e: InputEvent| ServerEvent::Input { event: e }))
            == inputs.map_values(|e: InputEvent| Action::Emit { reaction: spec_demux(e) }),
    decreases inputs.len(),
{
    let evs = inputs.map_values(|e: InputEvent| ServerEvent::Input { event: e });
    let emits = inputs.map_values(|e: InputEvent| Action::Emit { reaction: spec_demux(e) });
    if inputs.len() == 0 {
        assert(spec_run_actions(c, evs) =~= emits);
    } else {
        let tail = inputs.drop_first();
        assert(evs[0] == ServerEvent::Input { event: inputs[0] });
        assert(spec_step_state(c, evs[0]) == c);
        lemma_dispatch_preserves_order(c, tail);
        assert(evs.drop_first() =~= tail.map_values(
            |e: InputEvent| ServerEvent::Input { event: e },
        ));
        assert(spec_run_actions(c, evs) =~= emits);
    }
}

/// Flag independence: a capability notification reporting only the
/// keyboard bit, delivered to a client with neither device, creates
/// exactly the keyboard device; the pointer flag remains untouched.
pub proof fn lemma_keyboard_alone_leaves_pointer(c: Client, caps: Capabilities)
    requires
        c.seat.pointer is NotPresent,
        c.seat.keyboard is NotPresent,
        caps.keyboard,
        !caps.pointer,
    ensures
        spec_step_actions(c, ServerEvent::SeatCapabilities { caps }) == seq![
            Action::CreateKeyboard,
        ],
        spec_step_state(c, ServerEvent::SeatCapabilities { caps }).seat.keyboard is Created,
        spec_step_state(c, ServerEvent::SeatCapabilities { caps }).seat.pointer is NotPresent,
{
}

} // verus!
