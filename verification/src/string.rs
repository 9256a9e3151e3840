//! The engine's strings.
//!
//! An engine string is a resource like the others, behind a handle; what it
//! holds are UTF-16 code units. All text that goes to the engine or comes
//! from it goes through such a string.

use vstd::prelude::*;
use crate::call::NativeCall;
use crate::handle::{Error, Handle, ResourceKind};
use crate::ownership::{adopted, Wrapper};
use crate::utf16::{decode, decode_utf16, encode_utf16, law_encode_then_decode};

verus! {

/// A handle to an engine string.
#[derive(Debug)]
pub struct ULString {
    raw: Handle,
    created: bool,
}

impl ULString {
    #[verifier::type_invariant]
    spec fn inv(self) -> bool {
        self.created ==> self.raw != Handle::null_value()
    }

    /// The wrapper as plain data.
    pub closed spec fn model(&self) -> Wrapper {
        Wrapper { kind: ResourceKind::String, handle: self.raw, owns: self.created }
    }

    /// Takes charge of a string that the engine has just created. The wrapper
    /// owns the string, unless the engine gave the null handle.
    pub fn new(raw: Handle) -> (r: Result<ULString, Error>)
        ensures
            (match r {
                Ok(s) => Ok(s.model()),
                Err(e) => Err(e),
            }) == adopted(ResourceKind::String, raw),
    {
        if raw.is_null() {
            Err(Error::HandleUnavailable { kind: ResourceKind::String })
        } else {
            Ok(ULString { raw, created: true })
        }
    }

    /// What the engine is given to make a string of `value`: the UTF-8
    /// bytes of the text, and how many they are. The count is of bytes, not
    /// of characters.
    pub fn utf8_argument(value: &str) -> (r: (&[u8], u64))
        ensures
            r.0@ == vstd::utf8::encode_utf8(value@),
            r.1 == r.0@.len(),
    {
        let bytes = value.as_bytes();
        (bytes, bytes.len() as u64)
    }

    /// The wrapper that [`ULString::from_borrowed`] makes of `raw`.
    pub closed spec fn borrowing(raw: Handle) -> ULString {
        ULString { raw, created: false }
    }

    /// The wrapper that [`ULString::borrowing`] names does not own its handle.
    pub proof fn lemma_borrowing(raw: Handle)
        ensures
            ULString::borrowing(raw).model() == Wrapper::borrowed(ResourceKind::String, raw),
    {
    }

    /// Wraps a string that belongs to the engine or to another wrapper. The
    /// handle is good for as long as its owner keeps the string.
    pub fn from_borrowed(raw: Handle) -> (s: ULString)
        ensures
            s == ULString::borrowing(raw),
            s.model() == Wrapper::borrowed(ResourceKind::String, raw),
    {
        ULString { raw, created: false }
    }

    /// The wrapper as plain data.
    pub fn describe(&self) -> (w: Wrapper)
        ensures
            w == self.model(),
            w.wf(),
    {
        proof {
            use_type_invariant(self);
        }
        Wrapper { kind: ResourceKind::String, handle: self.raw, owns: self.created }
    }

    /// The handle, to pass to the engine. The wrapper stays in charge.
    pub fn as_handle(&self) -> (h: Handle)
        ensures
            h == self.model().handle,
    {
        self.raw
    }

    /// Whether this wrapper has to destroy the string.
    pub fn is_owning(&self) -> (b: bool)
        ensures
            b == self.model().owns,
    {
        self.created
    }

    /// Gives the wrapper up for its handle, together with the destroy call
    /// that is still due once the handle has been used.
    #[must_use]
    pub fn into_handle(self) -> (r: (Handle, Option<NativeCall>))
        ensures
            r.0 == self.model().handle,
            r.1 == self.model().release_call(),
    {
        let raw = self.raw;
        (raw, self.release())
    }

    /// Ends the wrapper's life: the destroy call if it owns the string,
    /// nothing if it does not.
    #[must_use]
    pub fn release(self) -> (call: Option<NativeCall>)
        ensures
            call == self.model().release_call(),
    {
        if self.created {
            Some(NativeCall::Destroy { kind: ResourceKind::String, handle: self.raw })
        } else {
            None
        }
    }

    /// The text of the string, from the code units `data` that the engine
    /// reports for it. Ill-formed units are an error, not a panic.
    pub fn to_string(&self, data: &[u16]) -> (r: Result<String, Error>)
        ensures
            match r {
                Ok(text) => decode_utf16(data@) == Some(text@),
                Err(e) => decode_utf16(data@) is None && e == Error::Encoding,
            },
    {
        decode(data)
    }

    /// The call that gives this string the contents of `other`.
    pub fn set(&mut self, other: &ULString) -> (call: NativeCall)
        ensures
            final(self).model() == old(self).model(),
            call == (NativeCall::AssignString {
                target: old(self).model().handle,
                source: other.model().handle,
            }),
    {
        NativeCall::AssignString { target: self.raw, source: other.raw }
    }

    /// The calls, in order, that give the string behind `target` the contents
    /// of this one and then give this one up. An owned string is destroyed
    /// after it has been read, never before.
    #[must_use]
    pub fn assign_to(self, target: Handle) -> (calls: Vec<NativeCall>)
        ensures
            calls@ == seq![
                NativeCall::AssignString { target, source: self.model().handle },
            ] + self.model().release_calls(),
    {
        let mut calls: Vec<NativeCall> = Vec::new();
        calls.push(NativeCall::AssignString { target, source: self.raw });
        if self.created {
            calls.push(NativeCall::Destroy { kind: ResourceKind::String, handle: self.raw });
        }
        assert(calls@ =~= seq![NativeCall::AssignString { target, source: self.model().handle }]
            + self.model().release_calls());
        calls
    }
}

/// The bytes of `text` as a C string: its UTF-8 bytes and a closing NUL.
/// There are none where the text itself holds a NUL, which would end the C
/// string early.
pub open spec fn c_string_of(text: Seq<char>) -> Option<Seq<u8>> {
    let bytes = vstd::utf8::encode_utf8(text);
    if bytes.contains(0u8) {
        None
    } else {
        Some(bytes.push(0u8))
    }
}

/// The bytes to hand to an engine function that takes a C string, such as a
/// window title or a file path: `None` where `text` holds a NUL.
pub fn c_string(text: &str) -> (r: Option<Vec<u8>>)
    ensures
        match r {
            Some(bytes) => c_string_of(text@) == Some(bytes@),
            None => c_string_of(text@) is None,
        },
{
    let source = text.as_bytes();
    let mut bytes: Vec<u8> = Vec::new();
    let mut i: usize = 0;
    while i < source.len()
        invariant
            i <= source@.len(),
            source@ == vstd::utf8::encode_utf8(text@),
            bytes@ == source@.take(i as int),
            forall|j: int| 0 <= j < i ==> source@[j] != 0u8,
        decreases source@.len() - i,
    {
        if source[i] == 0 {
            assert(source@.contains(0u8));
            return None;
        }
        bytes.push(source[i]);
        assert(bytes@ =~= source@.take(i + 1));
        i = i + 1;
    }
    assert(source@.take(i as int) =~= source@);
    bytes.push(0);
    Some(bytes)
}

/// What an engine string holds that was made from the UTF-8 bytes `bytes`,
/// where those are well-formed: the UTF-16 units of the same text.
pub open spec fn engine_units(bytes: Seq<u8>) -> Seq<u16> {
    encode_utf16(vstd::utf8::decode_utf8(bytes))
}

/// Text that went into an engine string and came out again is the text it
/// was: the bytes that [`ULString::utf8_argument`] hands over, kept by the
/// engine as UTF-16 units, decode to the text they were made from.
pub proof fn law_text_round_trip(text: Seq<char>)
    ensures
        decode_utf16(engine_units(vstd::utf8::encode_utf8(text))) == Some(text),
{
    vstd::utf8::encode_utf8_decode_utf8(text);
    law_encode_then_decode(text);
}

} // verus!
