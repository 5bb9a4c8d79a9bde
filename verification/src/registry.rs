//! The global registry: every global object the server advertised during the
//! initial discovery round-trip, and lookup-and-bind by interface.
//!
//! The registry is populated once, before anything tries to bind, and is
//! immutable afterwards; runtime addition or removal of globals is not
//! modelled. Binding the same interface twice would yield two independent
//! proxies for the same server object; this client binds each required
//! global exactly once.

use vstd::prelude::*;

verus! {

/// Interface of a server-advertised global, as this client recognises it.
#[derive(Clone, Copy, Debug, PartialEq, Eq, Structural)]
pub enum InterfaceName {
    /// The compositor global, from which surfaces are created.
    Compositor,
    /// The shell global, which promotes a surface to a top-level window.
    Shell,
    /// A seat global, one bundle of input devices.
    Seat,
    /// The shared-memory global; advertised by every server, never bound here.
    SharedMemory,
    /// A global of an interface this client never binds.
    Other,
}

/// One advertised global: its interface, advertised version, and the opaque
/// server-assigned numeric name under which it can be bound.
#[derive(Clone, Copy, Debug, PartialEq, Eq, Structural)]
pub struct GlobalEntry {
    pub interface: InterfaceName,
    pub version: u32,
    pub id: u32,
}

/// Why a bind failed. Both conditions are fatal for this client: every
/// global it binds is needed for the window to exist at all.
#[derive(Clone, Copy, Debug, PartialEq, Eq, Structural)]
pub enum BindError {
    /// No advertised global has the requested interface.
    MissingGlobal { interface: InterfaceName },
    /// The global exists, but the server advertised a version lower than the
    /// one requested.
    VersionMismatch { interface: InterfaceName, advertised: u32, requested: u32 },
}

/// A successfully bound global: a proxy for issuing requests against the
/// server object `id`, spoken at exactly the requested `version`.
#[derive(Clone, Copy, Debug, PartialEq, Eq, Structural)]
pub struct BoundGlobal {
    pub interface: InterfaceName,
    pub id: u32,
    pub version: u32,
}

/// The interface this client recognises under a wire interface name: the
/// four it knows, and `Other` for every other name.
pub open spec fn spec_interface_from_name(name: Seq<char>) -> InterfaceName {
    if name == "wl_compositor"@ {
        InterfaceName::Compositor
    } else if name == "wl_shell"@ {
        InterfaceName::Shell
    } else if name == "wl_seat"@ {
        InterfaceName::Seat
    } else if name == "wl_shm"@ {
        InterfaceName::SharedMemory
    } else {
        InterfaceName::Other
    }
}

/// Whether two strings hold the same characters.
fn str_eq(a: &str, b: &str) -> (r: bool)
    ensures
        r == (a@ == b@),
{
    let a_owned = a.to_owned();
    let b_owned = b.to_owned();
    a_owned == b_owned
}

/// Maps a wire interface name, exactly as the server advertised it, to the
/// interface this client recognises.
pub fn interface_from_name(name: &str) -> (r: InterfaceName)
    ensures
        r == spec_interface_from_name(name@),
{
    if str_eq(name, "wl_compositor") {
        InterfaceName::Compositor
    } else if str_eq(name, "wl_shell") {
        InterfaceName::Shell
    } else if str_eq(name, "wl_seat") {
        InterfaceName::Seat
    } else if str_eq(name, "wl_shm") {
        InterfaceName::SharedMemory
    } else {
        InterfaceName::Other
    }
}

/// The first entry of `entries` whose interface is `interface`, if any.
pub open spec fn spec_find(entries: Seq<GlobalEntry>, interface: InterfaceName) -> Option<
    GlobalEntry,
>
    decreases entries.len(),
{
    if entries.len() == 0 {
        None
    } else if entries[0].interface == interface {
        Some(entries[0])
    } else {
        spec_find(entries.drop_first(), interface)
    }
}

/// The globals the server advertised, in announcement order.
pub struct Registry {
    pub entries: Vec<GlobalEntry>,
}

impl Registry {
    /// The advertised entries, in the order the server announced them.
    pub open spec fn globals(&self) -> Seq<GlobalEntry> {
        self.entries@
    }

    /// Whether some advertised global has the given interface.
    pub open spec fn has(&self, interface: InterfaceName) -> bool {
        spec_find(self.globals(), interface) is Some
    }

    /// The entry that a lookup of `interface` yields: the first advertised
    /// global with that interface.
    pub open spec fn found(&self, interface: InterfaceName) -> GlobalEntry
        recommends
            self.has(interface),
    {
        spec_find(self.globals(), interface)->Some_0
    }

    /// What `bind` owes: `Ok` exactly when the interface is advertised at a
    /// sufficient version, and otherwise the error naming the precondition
    /// that failed.
    pub open spec fn spec_bind(&self, interface: InterfaceName, requested: u32) -> Result<
        BoundGlobal,
        BindError,
    > {
        match spec_find(self.globals(), interface) {
            Option::None => Result::Err(BindError::MissingGlobal { interface }),
            Option::Some(e) => if e.version < requested {
                Result::Err(
                    BindError::VersionMismatch { interface, advertised: e.version, requested },
                )
            } else {
                Result::Ok(BoundGlobal { interface, id: e.id, version: requested })
            },
        }
    }

    /// Collects the advertised globals handed over by the discovery
    /// round-trip. Mutation of the registry happens only here.
    pub fn new(entries: Vec<GlobalEntry>) -> (r: Registry)
        ensures
            r.globals() == entries@,
    {
        Registry { entries }
    }

    /// Builds the registry from the raw discovery list: one advertised
    /// (id, interface name, version) triple per global, in announcement
    /// order, each name mapped to the interface it denotes.
    pub fn from_discovery(raw: &Vec<(u32, String, u32)>) -> (r: Registry)
        ensures
            r.globals().len() == raw@.len(),
            forall|i: int|
                0 <= i < raw@.len() ==> #[trigger] r.globals()[i] == (GlobalEntry {
                    interface: spec_interface_from_name(raw@[i].1@),
                    version: raw@[i].2,
                    id: raw@[i].0,
                }),
    {
        let mut entries: Vec<GlobalEntry> = Vec::new();
        let n = raw.len();
        let mut i: usize = 0;
        while i < n
            invariant
                i <= n,
                n == raw@.len(),
                entries@.len() == i,
                forall|j: int|
                    0 <= j < i ==> #[trigger] entries@[j] == (GlobalEntry {
                        interface: spec_interface_from_name(raw@[j].1@),
                        version: raw@[j].2,
                        id: raw@[j].0,
                    }),
            decreases n - i,
        {
            let interface = interface_from_name(raw[i].1.as_str());
            entries.push(GlobalEntry { interface, version: raw[i].2, id: raw[i].0 });
            i = i + 1;
        }
        Registry { entries }
    }

    /// Finds the first advertised global with the given interface.
    pub fn find(&self, interface: InterfaceName) -> (r: Option<GlobalEntry>)
        ensures
            r == spec_find(self.globals(), interface),
    {
        let n = self.entries.len();
        let mut i: usize = 0;
        proof {
            assert(self.entries@.skip(0) =~= self.entries@);
        }
        while i < n
            invariant
                i <= n,
                n == self.entries.len(),
                spec_find(self.entries@.skip(i as int), interface) == spec_find(
                    self.entries@,
                    interface,
                ),
            decreases n - i,
        {
            if self.entries[i].interface == interface {
                return Some(self.entries[i]);
            }
            proof {
                assert(self.entries@.skip(i as int).drop_first() =~= self.entries@.skip(
                    i as int + 1,
                ));
            }
            i = i + 1;
        }
        proof {
            assert(self.entries@.skip(n as int) =~= Seq::<GlobalEntry>::empty());
        }
        None
    }

    /// Looks `interface` up by exact name and binds it at version
    /// `requested`: fails with `MissingGlobal` if no such global was
    /// advertised, with `VersionMismatch` if the advertised version is lower
    /// than requested, and returns the bound proxy otherwise.
    pub fn bind(&self, interface: InterfaceName, requested: u32) -> (r: Result<
        BoundGlobal,
        BindError,
    >)
        ensures
            r == self.spec_bind(interface, requested),
            r is Ok <==> self.has(interface) && self.found(interface).version >= requested,
            !self.has(interface) ==> r == Result::<BoundGlobal, BindError>::Err(
                BindError::MissingGlobal { interface },
            ),
    {
        match self.find(interface) {
            None => Err(BindError::MissingGlobal { interface }),
            Some(e) => if e.version < requested {
                Err(BindError::VersionMismatch { interface, advertised: e.version, requested })
            } else {
                Ok(BoundGlobal { interface, id: e.id, version: requested })
            },
        }
    }
}

} // verus!
