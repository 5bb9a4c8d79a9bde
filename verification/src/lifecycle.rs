//! The surface and shell lifecycle: `Unbound` to `SurfaceCreated` to
//! `TopLevel`, and the ping/pong liveness obligation that is active once a
//! shell surface exists.
//!
//! At most one surface is created per run: `create_surface` demands the
//! `Unbound` state and no transition leads back to it. Every error here is
//! fatal for the whole program, since each one means the window cannot
//! exist; nothing is retried.

use crate::registry::{BindError, BoundGlobal, InterfaceName, Registry};
use vstd::prelude::*;

verus! {

/// A fatal setup failure: a precondition for showing the window failed.
#[derive(Clone, Copy, Debug, PartialEq, Eq, Structural)]
pub enum SetupError {
    /// The compositor global could not be bound, so no surface can exist.
    CompositorUnavailable,
    /// The shell global is absent, so no window can be shown.
    ShellUnavailable,
    /// A required global beyond compositor and shell is absent.
    MissingGlobal { interface: InterfaceName },
    /// A required global is advertised at a version lower than needed.
    VersionMismatch { interface: InterfaceName, advertised: u32, requested: u32 },
}

/// The states of the client's one window surface, in order of progress.
#[derive(Clone, Copy, Debug, PartialEq, Eq, Structural)]
pub enum LifecycleState {
    /// No surface exists yet.
    Unbound,
    /// A surface was created from the compositor global.
    SurfaceCreated,
    /// The surface was promoted to a top-level window via the shell global.
    TopLevel,
}

/// The opaque handle handed to the rendering collaborator once the window
/// is top-level: the fixed buffer dimensions of the drawable surface. The
/// native window handle itself lives with the embedding program; the core
/// neither creates nor interprets it.
#[derive(Clone, Copy, Debug, PartialEq, Eq, Structural)]
pub struct DrawableTarget {
    pub width: u32,
    pub height: u32,
}

/// What binding the compositor for surface creation owes: the bound proxy,
/// or `CompositorUnavailable` when the global is absent, or the version
/// mismatch the registry reported.
pub open spec fn spec_surface_bind(registry: Registry) -> Result<BoundGlobal, SetupError> {
    match registry.spec_bind(InterfaceName::Compositor, crate::COMPOSITOR_VERSION) {
        Result::Ok(c) => Result::Ok(c),
        Result::Err(BindError::MissingGlobal { .. }) => Result::Err(
            SetupError::CompositorUnavailable,
        ),
        Result::Err(BindError::VersionMismatch { interface, advertised, requested }) => Result::Err(
            SetupError::VersionMismatch { interface, advertised, requested },
        ),
    }
}

/// What binding the shell for window promotion owes: the bound proxy, or
/// `ShellUnavailable` when the global is absent, or the version mismatch
/// the registry reported.
pub open spec fn spec_shell_bind(registry: Registry) -> Result<BoundGlobal, SetupError> {
    match registry.spec_bind(InterfaceName::Shell, crate::SHELL_VERSION) {
        Result::Ok(s) => Result::Ok(s),
        Result::Err(BindError::MissingGlobal { .. }) => Result::Err(SetupError::ShellUnavailable),
        Result::Err(BindError::VersionMismatch { interface, advertised, requested }) => Result::Err(
            SetupError::VersionMismatch { interface, advertised, requested },
        ),
    }
}

/// The lifecycle of the client's one window surface.
#[derive(Clone, Copy, Debug, PartialEq, Eq, Structural)]
pub struct Lifecycle {
    pub state: LifecycleState,
}

impl Lifecycle {
    /// A fresh lifecycle: nothing is bound and no surface exists.
    pub fn new() -> (r: Lifecycle)
        ensures
            r.state is Unbound,
    {
        Lifecycle { state: LifecycleState::Unbound }
    }

    /// Binds the compositor global and creates the surface from it. On
    /// success the lifecycle reaches `SurfaceCreated` and the bound
    /// compositor proxy is returned; on failure the state is unchanged and
    /// the error says which precondition failed.
    pub fn create_surface(&mut self, registry: &Registry) -> (r: Result<BoundGlobal, SetupError>)
        requires
            old(self).state is Unbound,
        ensures
            r == spec_surface_bind(*registry),
            final(self).state == if r is Ok {
                LifecycleState::SurfaceCreated
            } else {
                LifecycleState::Unbound
            },
            !registry.has(InterfaceName::Compositor) ==> r == Result::<
                BoundGlobal,
                SetupError,
            >::Err(SetupError::CompositorUnavailable),
    {
        match registry.bind(InterfaceName::Compositor, crate::COMPOSITOR_VERSION) {
            Ok(compositor) => {
                self.state = LifecycleState::SurfaceCreated;
                Ok(compositor)
            },
            Err(BindError::MissingGlobal { .. }) => Err(SetupError::CompositorUnavailable),
            Err(BindError::VersionMismatch { interface, advertised, requested }) => Err(
                SetupError::VersionMismatch { interface, advertised, requested },
            ),
        }
    }

    /// Binds the shell global, wraps the surface in a shell surface and
    /// issues the set-top-level request. On success the lifecycle reaches
    /// `TopLevel` and the bound shell proxy is returned. An absent shell
    /// global fails with `ShellUnavailable` and leaves the state unchanged:
    /// a fatal condition, since no window can be shown.
    pub fn promote_to_toplevel(&mut self, registry: &Registry) -> (r: Result<
        BoundGlobal,
        SetupError,
    >)
        requires
            old(self).state is SurfaceCreated,
        ensures
            r == spec_shell_bind(*registry),
            final(self).state == if r is Ok {
                LifecycleState::TopLevel
            } else {
                LifecycleState::SurfaceCreated
            },
            !registry.has(InterfaceName::Shell) ==> r == Result::<BoundGlobal, SetupError>::Err(
                SetupError::ShellUnavailable,
            ),
    {
        match registry.bind(InterfaceName::Shell, crate::SHELL_VERSION) {
            Ok(shell) => {
                self.state = LifecycleState::TopLevel;
                Ok(shell)
            },
            Err(BindError::MissingGlobal { .. }) => Err(SetupError::ShellUnavailable),
            Err(BindError::VersionMismatch { interface, advertised, requested }) => Err(
                SetupError::VersionMismatch { interface, advertised, requested },
            ),
        }
    }

    /// Answers the server's liveness probe: the one Pong owed for a Ping
    /// carries exactly the Ping's serial. This is the client's entire
    /// responsibility for liveness; no other heartbeat exists.
    pub fn pong_for_ping(&self, serial: u32) -> (pong: u32)
        ensures
            pong == serial,
    {
        serial
    }

    /// The drawable-target handoff, available once the window is top-level:
    /// the fixed dimensions the rendering collaborator draws into.
    pub fn drawable_target(&self) -> (r: DrawableTarget)
        requires
            self.state is TopLevel,
        ensures
            r.width == crate::BUFFER_WIDTH,
            r.height == crate::BUFFER_HEIGHT,
    {
        DrawableTarget { width: crate::BUFFER_WIDTH, height: crate::BUFFER_HEIGHT }
    }
}

} // verus!
