//! The seat capability manager.
//!
//! A seat advertises its capabilities at runtime, as a full bitset in each
//! capability-changed notification (never a delta). The manager reacts only
//! to the pointer and keyboard bits: the first time a bit is observed set,
//! the matching device is created and its events are routed to the common
//! demultiplexer; observing the same bit again does nothing. A clear bit
//! does nothing regardless of the device's state: device destruction on
//! capability loss is not modelled, a known gap kept visible by the one-way
//! `CapabilityState` enum, which leaves room for a lost state.

use vstd::prelude::*;

verus! {

/// Wire bit for the pointer capability.
pub const CAP_POINTER: u32 = 1;

/// Wire bit for the keyboard capability.
pub const CAP_KEYBOARD: u32 = 2;

/// Wire bit for the touch capability; advertised by servers, ignored here.
pub const CAP_TOUCH: u32 = 4;

/// A seat's capability bitset, decoded into the capabilities this client
/// knows about.
#[derive(Clone, Copy, Debug, PartialEq, Eq, Structural)]
pub struct Capabilities {
    pub pointer: bool,
    pub keyboard: bool,
    pub touch: bool,
}

impl Capabilities {
    /// Decodes the wire bitset. Bits beyond the three known capabilities
    /// are ignored.
    pub fn from_bits(bits: u32) -> (r: Capabilities)
        ensures
            r.pointer == ((bits & CAP_POINTER) != 0),
            r.keyboard == ((bits & CAP_KEYBOARD) != 0),
            r.touch == ((bits & CAP_TOUCH) != 0),
    {
        Capabilities {
            pointer: bits & CAP_POINTER != 0,
            keyboard: bits & CAP_KEYBOARD != 0,
            touch: bits & CAP_TOUCH != 0,
        }
    }
}

/// Whether a capability's input device has been created. The transition
/// `NotPresent` to `Created` happens at most once and is never reversed.
#[derive(Clone, Copy, Debug, PartialEq, Eq, Structural)]
pub enum CapabilityState {
    NotPresent,
    Created,
}

/// The devices created so far for one seat.
#[derive(Clone, Copy, Debug, PartialEq, Eq, Structural)]
pub struct SeatManager {
    pub pointer: CapabilityState,
    pub keyboard: CapabilityState,
}

/// The manager state after one capability notification: a device's state
/// moves to `Created` when its bit is set, and never moves back.
pub open spec fn spec_caps_after(s: SeatManager, caps: Capabilities) -> SeatManager {
    SeatManager {
        pointer: if caps.pointer {
            CapabilityState::Created
        } else {
            s.pointer
        },
        keyboard: if caps.keyboard {
            CapabilityState::Created
        } else {
            s.keyboard
        },
    }
}

/// Whether one notification obliges creating the pointer device: its bit is
/// set and the device does not exist yet.
pub open spec fn spec_creates_pointer(s: SeatManager, caps: Capabilities) -> bool {
    caps.pointer && s.pointer is NotPresent
}

/// Whether one notification obliges creating the keyboard device.
pub open spec fn spec_creates_keyboard(s: SeatManager, caps: Capabilities) -> bool {
    caps.keyboard && s.keyboard is NotPresent
}

impl SeatManager {
    /// A manager for a freshly bound seat: no device exists yet.
    pub fn new() -> (r: SeatManager)
        ensures
            r.pointer is NotPresent,
            r.keyboard is NotPresent,
    {
        SeatManager { pointer: CapabilityState::NotPresent, keyboard: CapabilityState::NotPresent }
    }

    /// Handles one capability-changed notification. Returns which devices
    /// must now be created: the pointer exactly when its bit is set and it
    /// was not created before, and likewise the keyboard, so repeating a
    /// notification never creates a duplicate device. The handler tolerates
    /// being invoked any number of times over the life of the seat.
    pub fn handle_capabilities(&mut self, caps: Capabilities) -> (r: (bool, bool))
        ensures
            *final(self) == spec_caps_after(*old(self), caps),
            r.0 == spec_creates_pointer(*old(self), caps),
            r.1 == spec_creates_keyboard(*old(self), caps),
    {
        let create_pointer = caps.pointer && matches!(self.pointer, CapabilityState::NotPresent);
        let create_keyboard = caps.keyboard && matches!(self.keyboard, CapabilityState::NotPresent);
        if caps.pointer {
            self.pointer = CapabilityState::Created;
        }
        if caps.keyboard {
            self.keyboard = CapabilityState::Created;
        }
        (create_pointer, create_keyboard)
    }
}

} // verus!
