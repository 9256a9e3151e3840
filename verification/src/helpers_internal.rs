//! More adapters between the engine's callbacks and closures: those of a
//! window, and the one of a frame event for closures that take the address
//! as text.

use vstd::prelude::*;
use vstd::view::View as _;
use crate::handle::{Error, Handle};
use crate::utf16::{decode, decode_utf16};
use crate::view::View;

pub use crate::internal::{log_forward_cb, unpack_closure_hook_cb};

verus! {

/// The adapter for the events without arguments: a window was closed, the
/// application is about to update.
pub fn unpack_window_close_cb<F>(closure: &mut F) where F: FnMut()
    requires
        call_requires(*old(closure), ()),
    ensures
        call_ensures(*old(closure), (), ()),
{
    closure();
}

/// The adapter for the resizing of a window. The width and the height, in
/// pixels, go to the closure as the engine gave them.
pub fn unpack_window_resize_cb<F>(closure: &mut F, width: u32, height: u32) where
    F: FnMut(u32, u32),

    requires
        call_requires(*old(closure), (width, height)),
    ensures
        call_ensures(*old(closure), (width, height), ()),
{
    closure(width, height);
}

/// The adapter for the events of a frame, for a closure that takes the
/// address as text. `url` are the code units of the engine string.
///
/// Where the units are ill-formed the closure is not called, and the error
/// says so.
pub fn unpack_closure_view_cb<F>(
    closure: &mut F,
    caller: Handle,
    frame_id: u64,
    is_main_frame: bool,
    url: &[u16],
) -> (r: Result<(), Error>) where F: FnMut(View, u64, bool, &str)
    requires
        forall|text: &str|
            decode_utf16(url@) == Some(text@) ==> call_requires(
                *old(closure),
                (View::borrowing(caller), frame_id, is_main_frame, text),
            ),
    ensures
        match r {
            Ok(_) => exists|text: &str|
                decode_utf16(url@) == Some(text@) && call_ensures(
                    *old(closure),
                    (View::borrowing(caller), frame_id, is_main_frame, text),
                    (),
                ),
            Err(e) => e == Error::Encoding && decode_utf16(url@) is None,
        },
{
    match decode(url) {
        Ok(text) => {
            closure(View::from_borrowed(caller), frame_id, is_main_frame, text.as_str());
            Ok(())
        },
        Err(e) => Err(e),
    }
}

} // verus!
