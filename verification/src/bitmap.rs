//! Bitmaps.

use vstd::prelude::*;
use crate::call::NativeCall;
use crate::handle::{Error, Handle, ResourceKind};
use crate::ownership::{adopted, Wrapper};

verus! {

/// A handle to a bitmap.
#[derive(Debug)]
pub struct Bitmap {
    raw: Handle,
    created: bool,
}

impl Bitmap {
    #[verifier::type_invariant]
    spec fn inv(self) -> bool {
        self.created ==> self.raw != Handle::null_value()
    }

    /// The wrapper as plain data.
    pub closed spec fn model(&self) -> Wrapper {
        Wrapper { kind: ResourceKind::Bitmap, handle: self.raw, owns: self.created }
    }

    /// Takes charge of a bitmap that the engine has just created. The
    /// wrapper owns the bitmap, unless the engine gave the null handle.
    pub fn new(raw: Handle) -> (r: Result<Bitmap, Error>)
        ensures
            (match r {
                Ok(w) => Ok(w.model()),
                Err(e) => Err(e),
            }) == adopted(ResourceKind::Bitmap, raw),
    {
        if raw.is_null() {
            Err(Error::HandleUnavailable { kind: ResourceKind::Bitmap })
        } else {
            Ok(Bitmap { raw, created: true })
        }
    }

    /// Wraps a bitmap that belongs to a surface or to another wrapper.
    pub fn from_borrowed(raw: Handle) -> (w: Bitmap)
        ensures
            w.model() == Wrapper::borrowed(ResourceKind::Bitmap, raw),
    {
        Bitmap { raw, created: false }
    }

    /// The wrapper as plain data.
    pub fn describe(&self) -> (w: Wrapper)
        ensures
            w == self.model(),
            w.wf(),
    {
        proof {
            use_type_invariant(self);
        }
        Wrapper { kind: ResourceKind::Bitmap, handle: self.raw, owns: self.created }
    }

    /// The handle, to pass to the engine. The wrapper stays in charge.
    pub fn as_handle(&self) -> (h: Handle)
        ensures
            h == self.model().handle,
    {
        self.raw
    }

    /// Whether this wrapper has to destroy the bitmap.
    pub fn is_owning(&self) -> (b: bool)
        ensures
            b == self.model().owns,
    {
        self.created
    }

    /// Gives the wrapper up for its handle, together with the destroy call
    /// that is still due once the handle has been used.
    #[must_use]
    pub fn into_handle(self) -> (r: (Handle, Option<NativeCall>))
        ensures
            r.0 == self.model().handle,
            r.1 == self.model().release_call(),
    {
        let raw = self.raw;
        (raw, self.release())
    }

    /// Ends the wrapper's life: the destroy call if it owns the bitmap,
    /// nothing if it does not.
    #[must_use]
    pub fn release(self) -> (call: Option<NativeCall>)
        ensures
            call == self.model().release_call(),
    {
        if self.created {
            Some(NativeCall::Destroy { kind: ResourceKind::Bitmap, handle: self.raw })
        } else {
            None
        }
    }

    /// The call that asks the engine for a copy of the bitmap.
    pub fn copy_call(&self) -> (call: NativeCall)
        ensures
            call == self.model().copy_call(),
    {
        NativeCall::Copy { kind: ResourceKind::Bitmap, source: self.raw }
    }

    /// Takes charge of the copy with whose handle the engine answered
    /// [`Bitmap::copy_call`]. The copy belongs to its wrapper whether or not the
    /// source belongs to this one. A null handle is no copy, and neither is
    /// the handle of the source.
    pub fn adopt_copy(&self, copy: Handle) -> (r: Result<Bitmap, Error>)
        ensures
            (match r {
                Ok(c) => Ok(c.model()),
                Err(e) => Err(e),
            }) == self.model().copied(copy),
    {
        if copy.is_null() || copy == self.raw {
            Err(Error::HandleUnavailable { kind: ResourceKind::Bitmap })
        } else {
            Ok(Bitmap { raw: copy, created: true })
        }
    }

    /// Holds the pixels at the address `pixels`, which the engine has just
    /// locked for this bitmap. The guard says what unlocks them.
    pub fn lock_pixels(&self, pixels: usize) -> (guard: BitmapPixelsGuard<'_>)
        ensures
            guard.address() == pixels,
            guard.locked() == self.model().handle,
    {
        BitmapPixelsGuard { pixels, bitmap: self }
    }
}

/// The locked pixels of a bitmap. While the guard lives the pixels may be read
/// and written at the address it holds; giving the guard up says what
/// unlocks them.
#[derive(Debug)]
pub struct BitmapPixelsGuard<'a> {
    pixels: usize,
    bitmap: &'a Bitmap,
}

impl<'a> BitmapPixelsGuard<'a> {
    /// The address of the pixels, as a specification value.
    pub closed spec fn address(&self) -> usize {
        self.pixels
    }

    /// The handle of the bitmap whose pixels are locked.
    pub closed spec fn locked(&self) -> Handle {
        self.bitmap.model().handle
    }

    /// The address of the pixels.
    pub fn pixels(&self) -> (address: usize)
        ensures
            address == self.address(),
    {
        self.pixels
    }

    /// Ends the guard's life: the call that unlocks the pixels.
    #[must_use]
    pub fn release(self) -> (call: NativeCall)
        ensures
            call == (NativeCall::UnlockPixels { kind: ResourceKind::Bitmap, handle: self.locked() }),
    {
        NativeCall::UnlockPixels { kind: ResourceKind::Bitmap, handle: self.bitmap.as_handle() }
    }
}

} // verus!
