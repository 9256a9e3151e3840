//! Surfaces: the pixel buffers that views paint to.

use vstd::prelude::*;
use crate::bitmap::Bitmap;
use crate::call::NativeCall;
use crate::handle::{Handle, ResourceKind};
use crate::ownership::Wrapper;

verus! {

/// A handle to the surface that a view paints to. The surface is the view's;
/// the engine has no call that destroys one.
#[derive(Debug)]
pub struct Surface {
    raw: Handle,
}

impl Surface {
    /// The wrapper as plain data. It never owns its handle.
    pub closed spec fn model(&self) -> Wrapper {
        Wrapper { kind: ResourceKind::Surface, handle: self.raw, owns: false }
    }

    /// Wraps the surface of a view.
    pub fn from_borrowed(raw: Handle) -> (w: Surface)
        ensures
            w.model() == Wrapper::borrowed(ResourceKind::Surface, raw),
    {
        Surface { raw }
    }

    /// The wrapper as plain data.
    pub fn describe(&self) -> (w: Wrapper)
        ensures
            w == self.model(),
            w.wf(),
            !w.owns,
    {
        Wrapper { kind: ResourceKind::Surface, handle: self.raw, owns: false }
    }

    /// The handle, to pass to the engine.
    pub fn as_handle(&self) -> (h: Handle)
        ensures
            h == self.model().handle,
    {
        self.raw
    }

    /// Ends the wrapper's life. There is never a call to make: the surface is
    /// not the wrapper's to destroy.
    #[must_use]
    pub fn release(self) -> (call: Option<NativeCall>)
        ensures
            call == self.model().release_call(),
            call is None,
    {
        None
    }

    /// The bitmap of the surface, from the handle that the engine reports
    /// for it. The bitmap stays the surface's.
    pub fn bitmap(&self, raw: Handle) -> (b: Bitmap)
        ensures
            b.model() == Wrapper::borrowed(ResourceKind::Bitmap, raw),
    {
        Bitmap::from_borrowed(raw)
    }

    /// Holds the pixels at the address `pixels`, which the engine has just
    /// locked for this surface. The guard says what unlocks them.
    pub fn lock_pixels(&self, pixels: usize) -> (guard: SurfacePixelsGuard<'_>)
        ensures
            guard.address() == pixels,
            guard.locked() == self.model().handle,
    {
        SurfacePixelsGuard { pixels, surface: self }
    }
}

/// The locked pixels of a surface. While the guard lives the pixels may be read
/// and written at the address it holds; giving the guard up says what
/// unlocks them.
#[derive(Debug)]
pub struct SurfacePixelsGuard<'a> {
    pixels: usize,
    surface: &'a Surface,
}

impl<'a> SurfacePixelsGuard<'a> {
    /// The address of the pixels, as a specification value.
    pub closed spec fn address(&self) -> usize {
        self.pixels
    }

    /// The handle of the surface whose pixels are locked.
    pub closed spec fn locked(&self) -> Handle {
        self.surface.model().handle
    }

    /// The address of the pixels.
    pub fn pixels(&self) -> (address: usize)
        ensures
            address == self.address(),
    {
        self.pixels
    }

    /// Ends the guard's life: the call that unlocks the pixels.
    #[must_use]
    pub fn release(self) -> (call: NativeCall)
        ensures
            call == (NativeCall::UnlockPixels { kind: ResourceKind::Surface, handle: self.locked() }),
    {
        NativeCall::UnlockPixels { kind: ResourceKind::Surface, handle: self.surface.as_handle() }
    }
}

} // verus!
