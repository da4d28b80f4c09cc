//! A rendering context tied to a native window that may be suspended.
//!
//! The graphics primitive itself (context creation, binding, buffer swap) is
//! reached through closures handed in by the caller; the surface transitions
//! that a suspend or resume calls for are returned as a [`SurfaceAction`] for
//! the event loop to perform.
use vstd::prelude::*;

verus! {

/// Failure of a rendering operation.
#[derive(Clone, Copy, Debug, PartialEq, Eq, Structural)]
pub enum ContextError {
    /// The graphics primitive reported an I/O failure.
    IoError,
    /// The surface is gone, for now or for good; wait for a resume.
    ContextLost,
}

/// Failure to build a context.
#[derive(Clone, Copy, Debug, PartialEq, Eq, Structural)]
pub enum CreationError {
    /// The native window handle was null or not yet available.
    PlatformError,
    /// The operating system refused the context.
    OsError,
    /// The requested configuration is not supported.
    NotSupported,
    /// No graphics backend could be loaded.
    NoBackendAvailable,
    /// Robustness was requested and cannot be provided.
    RobustnessNotSupported,
    /// The requested API version is not available.
    OpenGlVersionNotSupported,
    /// No pixel format meets the requirements.
    NoAvailablePixelFormat,
}

/// What the event loop must do to the native surface after a transition.
#[derive(Clone, Copy, Debug, PartialEq, Eq, Structural)]
pub enum SurfaceAction {
    /// Nothing changed: the context was already in the requested state.
    Keep,
    /// Release the surface binding, keeping the logical context alive.
    ReleaseSurface,
    /// Bind the context to the current native window again, then wake the
    /// event loop so that the render loop does not stay parked.
    RebindSurface,
}

/// Platform options of a window; this platform has none.
#[derive(Clone, Copy, Debug, Default, PartialEq, Eq, Structural)]
pub struct PlatformSpecificWindowBuilderAttributes;

/// The abstract state of a [`Context`].
pub struct ContextView {
    pub handle: u64,
    pub suspended: bool,
}

/// The state after a suspend notification.
pub open spec fn suspend_state(c: ContextView) -> ContextView {
    ContextView { handle: c.handle, suspended: true }
}

/// The state after a resume notification.
pub open spec fn resume_state(c: ContextView) -> ContextView {
    ContextView { handle: c.handle, suspended: false }
}

/// The state after a notification whose target value is `suspended`.
pub open spec fn transition_state(c: ContextView, suspended: bool) -> ContextView {
    if suspended {
        suspend_state(c)
    } else {
        resume_state(c)
    }
}

/// What a notification whose target value is `suspended` asks of the surface.
pub open spec fn transition_action(c: ContextView, suspended: bool) -> SurfaceAction {
    if c.suspended == suspended {
        SurfaceAction::Keep
    } else if suspended {
        SurfaceAction::ReleaseSurface
    } else {
        SurfaceAction::RebindSurface
    }
}

/// The state after `n` notifications in a row, each with target value
/// `suspended`.
pub open spec fn repeated_transition(c: ContextView, suspended: bool, n: nat) -> ContextView
    decreases n,
{
    if n == 0 {
        c
    } else {
        transition_state(repeated_transition(c, suspended, (n - 1) as nat), suspended)
    }
}

/// Any number of further suspends after a suspend leave the state as the
/// first one left it, and none of them asks anything of the surface.
pub proof fn lemma_suspend_idempotent(c: ContextView, n: nat)
    ensures
        repeated_transition(suspend_state(c), true, n) == suspend_state(c),
        transition_action(repeated_transition(suspend_state(c), true, n), true) == SurfaceAction::Keep,
    decreases n,
{
    if n > 0 {
        lemma_suspend_idempotent(c, (n - 1) as nat);
    }
}

/// Any number of further resumes after a resume leave the state as the
/// first one left it, and none of them asks anything of the surface.
pub proof fn lemma_resume_idempotent(c: ContextView, n: nat)
    ensures
        repeated_transition(resume_state(c), false, n) == resume_state(c),
        transition_action(repeated_transition(resume_state(c), false, n), false) == SurfaceAction::Keep,
    decreases n,
{
    if n > 0 {
        lemma_resume_idempotent(c, (n - 1) as nat);
    }
}

/// The handle of an optional sharing context.
pub open spec fn sharing_handle(sharing: Option<&Context>) -> Option<u64> {
    match sharing {
        Some(c) => Some(c@.handle),
        None => None,
    }
}

/// `r` is the context built from what the graphics primitive returned.
pub open spec fn built_from(r: Result<Context, CreationError>, created: Result<u64, CreationError>) -> bool {
    match created {
        Ok(h) => r matches Ok(c) && c@ == ContextView { handle: h, suspended: false },
        Err(e) => r == Err::<Context, CreationError>(e),
    }
}

/// A rendering context bound to a native window; starts active.
pub struct Context {
    handle: u64,
    suspended: bool,
}

impl View for Context {
    type V = ContextView;

    closed spec fn view(&self) -> ContextView {
        ContextView { handle: self.handle, suspended: self.suspended }
    }
}

impl Context {
    /// Builds a context for `native_window` (an address, 0 when the window is
    /// not available). `create` asks the graphics primitive for a context
    /// handle, given the window and the handle of the sharing context; it is
    /// called only when the window is there.
    pub fn new<F: FnOnce(usize, Option<u64>) -> Result<u64, CreationError>>(
        native_window: usize,
        sharing: Option<&Context>,
        create: F,
        _attributes: &PlatformSpecificWindowBuilderAttributes,
    ) -> (r: Result<Context, CreationError>)
        requires
            native_window != 0 ==> call_requires(create, (native_window, sharing_handle(sharing))),
        ensures
            native_window == 0 ==> r == Err::<Context, CreationError>(CreationError::PlatformError),
            native_window != 0 ==> exists|c: Result<u64, CreationError>|
                call_ensures(create, (native_window, sharing_handle(sharing)), c) && built_from(r, c),
    {
        if native_window == 0 {
            return Err(CreationError::PlatformError);
        }
        let shared: Option<u64> = match sharing {
            Some(c) => Some(c.handle),
            None => None,
        };
        assert(shared == sharing_handle(sharing));
        let created = create(native_window, shared);
        let r = match created {
            Ok(h) => Ok(Context { handle: h, suspended: false }),
            Err(e) => Err(e),
        };
        assert(built_from(r, created));
        r
    }

    /// The graphics primitive's handle for this context.
    pub fn handle(&self) -> (r: u64)
        ensures
            r == self@.handle,
    {
        self.handle
    }

    /// Whether the native surface is currently taken away.
    pub fn is_stopped(&self) -> (r: bool)
        ensures
            r == self@.suspended,
    {
        self.suspended
    }

    /// Binds the context through `make` unless suspended, in which case the
    /// primitive is not touched and `ContextLost` is returned.
    pub fn make_current<F: FnOnce() -> Result<(), ContextError>>(&self, make: F) -> (r: Result<(), ContextError>)
        requires
            !self@.suspended ==> call_requires(make, ()),
        ensures
            self@.suspended ==> r == Err::<(), ContextError>(ContextError::ContextLost),
            !self@.suspended ==> call_ensures(make, (), r),
    {
        if self.suspended {
            return Err(ContextError::ContextLost);
        }
        make()
    }

    /// Presents the frame through `swap` unless suspended, in which case the
    /// primitive is not touched and `ContextLost` is returned.
    pub fn swap_buffers<F: FnOnce() -> Result<(), ContextError>>(&self, swap: F) -> (r: Result<(), ContextError>)
        requires
            !self@.suspended ==> call_requires(swap, ()),
        ensures
            self@.suspended ==> r == Err::<(), ContextError>(ContextError::ContextLost),
            !self@.suspended ==> call_ensures(swap, (), r),
    {
        if self.suspended {
            return Err(ContextError::ContextLost);
        }
        swap()
    }

    /// Asks the primitive through `query` whether the context is current;
    /// always `false` while suspended.
    pub fn is_current<F: FnOnce() -> bool>(&self, query: F) -> (r: bool)
        requires
            !self@.suspended ==> call_requires(query, ()),
        ensures
            self@.suspended ==> !r,
            !self@.suspended ==> call_ensures(query, (), r),
    {
        if self.suspended {
            return false;
        }
        query()
    }

    /// The native surface was taken away. Idempotent: a second call asks
    /// nothing of the surface.
    pub fn on_suspend(&mut self) -> (r: SurfaceAction)
        ensures
            final(self)@ == suspend_state(old(self)@),
            r == transition_action(old(self)@, true),
    {
        if self.suspended {
            SurfaceAction::Keep
        } else {
            self.suspended = true;
            SurfaceAction::ReleaseSurface
        }
    }

    /// The native surface was given back. Idempotent: a second call asks
    /// nothing of the surface.
    pub fn on_resume(&mut self) -> (r: SurfaceAction)
        ensures
            final(self)@ == resume_state(old(self)@),
            r == transition_action(old(self)@, false),
    {
        if self.suspended {
            self.suspended = false;
            SurfaceAction::RebindSurface
        } else {
            SurfaceAction::Keep
        }
    }

    /// Applies a notification whose target value is `suspended`.
    pub fn set_suspended(&mut self, suspended: bool) -> (r: SurfaceAction)
        ensures
            final(self)@ == transition_state(old(self)@, suspended),
            r == transition_action(old(self)@, suspended),
    {
        if suspended {
            self.on_suspend()
        } else {
            self.on_resume()
        }
    }
}

} // verus!
