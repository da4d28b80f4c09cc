//! An off-screen context: no native window, so no suspend or resume; it is
//! active for its whole lifetime.
use vstd::prelude::*;
use crate::context::{ContextError, CreationError};

verus! {

/// Platform options of a headless context; this platform has none.
#[derive(Clone, Copy, Debug, Default, PartialEq, Eq, Structural)]
pub struct PlatformSpecificHeadlessBuilderAttributes;

/// A rendering context bound to an off-screen buffer.
pub struct HeadlessContext {
    handle: u64,
}

impl View for HeadlessContext {
    type V = u64;

    closed spec fn view(&self) -> u64 {
        self.handle
    }
}

/// The handle of an optional sharing context.
pub open spec fn headless_sharing_handle(sharing: Option<&HeadlessContext>) -> Option<u64> {
    match sharing {
        Some(c) => Some(c@),
        None => None,
    }
}

impl HeadlessContext {
    /// Builds an off-screen context of `dimensions`. `create` asks the
    /// graphics primitive for a handle, given the dimensions and the handle
    /// of the sharing context.
    pub fn new<F: FnOnce((u32, u32), Option<u64>) -> Result<u64, CreationError>>(
        dimensions: (u32, u32),
        sharing: Option<&HeadlessContext>,
        create: F,
        _attributes: &PlatformSpecificHeadlessBuilderAttributes,
    ) -> (r: Result<HeadlessContext, CreationError>)
        requires
            call_requires(create, (dimensions, headless_sharing_handle(sharing))),
        ensures
            exists|c: Result<u64, CreationError>|
                call_ensures(create, (dimensions, headless_sharing_handle(sharing)), c) && match c {
                    Ok(h) => r matches Ok(x) && x@ == h,
                    Err(e) => r == Err::<HeadlessContext, CreationError>(e),
                },
    {
        let shared: Option<u64> = match sharing {
            Some(c) => Some(c.handle),
            None => None,
        };
        let created = create(dimensions, shared);
        match created {
            Ok(h) => Ok(HeadlessContext { handle: h }),
            Err(e) => Err(e),
        }
    }

    /// The graphics primitive's handle for this context.
    pub fn handle(&self) -> (r: u64)
        ensures
            r == self@,
    {
        self.handle
    }

    /// Binds the context through `make`; never refused here.
    pub fn make_current<F: FnOnce() -> Result<(), ContextError>>(&self, make: F) -> (r: Result<(), ContextError>)
        requires
            call_requires(make, ()),
        ensures
            call_ensures(make, (), r),
    {
        make()
    }

    /// Presents the frame through `swap`; never refused here.
    pub fn swap_buffers<F: FnOnce() -> Result<(), ContextError>>(&self, swap: F) -> (r: Result<(), ContextError>)
        requires
            call_requires(swap, ()),
        ensures
            call_ensures(swap, (), r),
    {
        swap()
    }

    /// Asks the primitive through `query` whether the context is current.
    pub fn is_current<F: FnOnce() -> bool>(&self, query: F) -> (r: bool)
        requires
            call_requires(query, ()),
        ensures
            call_ensures(query, (), r),
    {
        query()
    }
}

} // verus!
