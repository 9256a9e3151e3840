//! The adapters between the engine's callbacks and closures.
//!
//! The engine calls a plain function with the word it was given at
//! registration and the arguments of the event. Whoever links the engine turns
//! that word back into the closure; the adapter of the event's shape then
//! makes safe values of the arguments and calls the closure with them, once.
//! A handle among the arguments becomes a wrapper that does not own it: the
//! resource is the engine's, and good for the length of the call.

use vstd::prelude::*;
use vstd::view::View as _;
use crate::call::NativeCall;
use crate::format::{decimal, push_decimal};
use crate::handle::{Error, Handle};
use crate::platform::{Level, LogRecord};
use crate::string::ULString;
use crate::utf16::{decode, decode_utf16};
use crate::view::{IntRect, View};
use crate::window::Cursor;

verus! {

/// Whatever handle an adapter wraps for a closure, the wrapper does not own
/// it: when the closure lets the wrapper go, nothing is destroyed.
pub proof fn law_event_arguments_are_borrowed(raw: Handle)
    ensures
        View::borrowing(raw).model().handle == raw,
        View::borrowing(raw).model().release_calls() == Seq::<NativeCall>::empty(),
        ULString::borrowing(raw).model().handle == raw,
        ULString::borrowing(raw).model().release_calls() == Seq::<NativeCall>::empty(),
{
    View::lemma_borrowing(raw);
    ULString::lemma_borrowing(raw);
}

/// The adapter for the events of a frame: the end and the start of loading,
/// the readiness of the document and of the script global.
pub fn unpack_closure_view_0<F>(
    closure: &mut F,
    caller: Handle,
    frame_id: u64,
    is_main_frame: bool,
    url: Handle,
) where F: FnMut(View, u64, bool, ULString)
    requires
        call_requires(
            *old(closure),
            (View::borrowing(caller), frame_id, is_main_frame, ULString::borrowing(url)),
        ),
    ensures
        call_ensures(
            *old(closure),
            (View::borrowing(caller), frame_id, is_main_frame, ULString::borrowing(url)),
            (),
        ),
{
    closure(View::from_borrowed(caller), frame_id, is_main_frame, ULString::from_borrowed(url));
}

/// The adapter for the events that carry one text: a new title, a new
/// address, a new tooltip.
pub fn unpack_closure_view_1<F>(closure: &mut F, caller: Handle, value: Handle) where
    F: FnMut(View, ULString),

    requires
        call_requires(*old(closure), (View::borrowing(caller), ULString::borrowing(value))),
    ensures
        call_ensures(*old(closure), (View::borrowing(caller), ULString::borrowing(value)), ()),
{
    closure(View::from_borrowed(caller), ULString::from_borrowed(value));
}

/// The adapter for a change of the history.
pub fn unpack_closure_view_history<F>(closure: &mut F, caller: Handle) where F: FnMut(View)
    requires
        call_requires(*old(closure), (View::borrowing(caller),)),
    ensures
        call_ensures(*old(closure), (View::borrowing(caller),), ()),
{
    closure(View::from_borrowed(caller));
}

/// The handle that answers the engine's request for a new view: that of the
/// view, or the null handle where the closure declined.
pub open spec fn child_handle(child: Option<View>) -> Handle {
    match child {
        Some(view) => view.model().handle,
        None => Handle::null_value(),
    }
}

/// The adapter for the page's request for a new view.
///
/// Answers with the handle for the engine and with what the closure returned.
/// A view that the closure created is still the caller's to keep and, in the
/// end, to release: the engine uses the handle from now on.
pub fn unpack_closure_view_create_child<F>(
    closure: &mut F,
    caller: Handle,
    opener_url: Handle,
    target_url: Handle,
    is_popup: bool,
    popup_rect: IntRect,
) -> (r: (Handle, Option<View>)) where F: FnMut(View, ULString, ULString, bool, IntRect) -> Option<View>
    requires
        call_requires(
            *old(closure),
            (
                View::borrowing(caller),
                ULString::borrowing(opener_url),
                ULString::borrowing(target_url),
                is_popup,
                popup_rect,
            ),
        ),
    ensures
        call_ensures(
            *old(closure),
            (
                View::borrowing(caller),
                ULString::borrowing(opener_url),
                ULString::borrowing(target_url),
                is_popup,
                popup_rect,
            ),
            r.1,
        ),
        r.0 == child_handle(r.1),
{
    let child = closure(
        View::from_borrowed(caller),
        ULString::from_borrowed(opener_url),
        ULString::from_borrowed(target_url),
        is_popup,
        popup_rect,
    );
    let raw = match &child {
        Some(view) => view.as_handle(),
        None => Handle::null(),
    };
    (raw, child)
}

/// The adapter for a failure to load an address into a frame.
pub fn unpack_closure_view_fail_loading<F>(
    closure: &mut F,
    caller: Handle,
    frame_id: u64,
    is_main_frame: bool,
    url: Handle,
    description: Handle,
    error_domain: Handle,
    error_code: i32,
) where F: FnMut(View, u64, bool, ULString, ULString, ULString, i32)
    requires
        call_requires(
            *old(closure),
            (
                View::borrowing(caller),
                frame_id,
                is_main_frame,
                ULString::borrowing(url),
                ULString::borrowing(description),
                ULString::borrowing(error_domain),
                error_code,
            ),
        ),
    ensures
        call_ensures(
            *old(closure),
            (
                View::borrowing(caller),
                frame_id,
                is_main_frame,
                ULString::borrowing(url),
                ULString::borrowing(description),
                ULString::borrowing(error_domain),
                error_code,
            ),
            (),
        ),
{
    closure(
        View::from_borrowed(caller),
        frame_id,
        is_main_frame,
        ULString::from_borrowed(url),
        ULString::from_borrowed(description),
        ULString::from_borrowed(error_domain),
        error_code,
    );
}

/// The adapter for a change of the mouse cursor.
pub fn unpack_closure_view_cursor<F>(closure: &mut F, caller: Handle, cursor: Cursor) where
    F: FnMut(View, Cursor),

    requires
        call_requires(*old(closure), (View::borrowing(caller), cursor)),
    ensures
        call_ensures(*old(closure), (View::borrowing(caller), cursor), ()),
{
    closure(View::from_borrowed(caller), cursor);
}

/// The adapter for a host function that a script calls.
///
/// The word that leads to the closure is not the user data of a slot here: it
/// is the private data of `function`, the script object that stands for the
/// host function. The arguments are the script engine's own handles and go to
/// the closure as they are; so does the closure's answer to the engine.
pub fn unpack_closure_hook_cb<F>(
    closure: &mut F,
    ctx: Handle,
    function: Handle,
    this_object: Handle,
    argument_count: u64,
    arguments: Handle,
    exception: Handle,
) -> (value: Handle) where F: FnMut(Handle, Handle, Handle, u64, Handle, Handle) -> Handle
    requires
        call_requires(
            *old(closure),
            (ctx, function, this_object, argument_count, arguments, exception),
        ),
    ensures
        call_ensures(
            *old(closure),
            (ctx, function, this_object, argument_count, arguments, exception),
            value,
        ),
{
    closure(ctx, function, this_object, argument_count, arguments, exception)
}

/// Where a console message comes from.
#[derive(Clone, Copy, Debug, PartialEq, Eq, Structural, Hash)]
pub enum MessageSource {
    XML,
    JS,
    Network,
    ConsoleAPI,
    Storage,
    AppCache,
    Rendering,
    CSS,
    Security,
    ContentBlocker,
    Other,
}

/// How severe a console message is.
#[derive(Clone, Copy, Debug, PartialEq, Eq, Structural, Hash)]
pub enum MessageLevel {
    Log,
    Warning,
    Error,
    Debug,
    Info,
}

impl MessageSource {
    /// The log target for messages from this source.
    pub open spec fn target_of(self) -> Seq<char> {
        match self {
            MessageSource::XML => "xml"@,
            MessageSource::JS => "js"@,
            MessageSource::Network => "network"@,
            MessageSource::ConsoleAPI => "consoleapi"@,
            MessageSource::Storage => "storage"@,
            MessageSource::AppCache => "appcache"@,
            MessageSource::Rendering => "rendering"@,
            MessageSource::CSS => "css"@,
            MessageSource::Security => "security"@,
            MessageSource::ContentBlocker => "contentblocker"@,
            MessageSource::Other => "other"@,
        }
    }

    /// The log target for messages from this source.
    pub fn target(&self) -> (t: &'static str)
        ensures
            t@ == self.target_of(),
    {
        match self {
            MessageSource::XML => "xml",
            MessageSource::JS => "js",
            MessageSource::Network => "network",
            MessageSource::ConsoleAPI => "consoleapi",
            MessageSource::Storage => "storage",
            MessageSource::AppCache => "appcache",
            MessageSource::Rendering => "rendering",
            MessageSource::CSS => "css",
            MessageSource::Security => "security",
            MessageSource::ContentBlocker => "contentblocker",
            MessageSource::Other => "other",
        }
    }
}

impl MessageLevel {
    /// The host severity for the severity of a console message.
    pub open spec fn level_of(self) -> Level {
        match self {
            MessageLevel::Error => Level::Error,
            MessageLevel::Warning => Level::Warn,
            MessageLevel::Info => Level::Info,
            MessageLevel::Debug => Level::Debug,
            MessageLevel::Log => Level::Trace,
        }
    }

    /// The host severity for the severity of a console message.
    pub fn level(&self) -> (l: Level)
        ensures
            l == self.level_of(),
    {
        match self {
            MessageLevel::Error => Level::Error,
            MessageLevel::Warning => Level::Warn,
            MessageLevel::Info => Level::Info,
            MessageLevel::Debug => Level::Debug,
            MessageLevel::Log => Level::Trace,
        }
    }
}

/// The text of the log line for a console message: the source id, the line
/// and the column in round brackets, then the message.
pub open spec fn console_text(
    source_id: Seq<char>,
    line_number: u32,
    column_number: u32,
    message: Seq<char>,
) -> Seq<char> {
    seq!['('] + source_id + seq![',', ' '] + decimal(line_number as nat) + seq![',', ' ']
        + decimal(column_number as nat) + seq![')', ' '] + message
}

/// The log record for a console message, where both texts are well-formed.
pub open spec fn console_record(
    source: MessageSource,
    level: MessageLevel,
    message: Seq<u16>,
    line_number: u32,
    column_number: u32,
    source_id: Seq<u16>,
) -> Option<(Level, Seq<char>, Seq<char>)> {
    match (decode_utf16(source_id), decode_utf16(message)) {
        (Some(id), Some(text)) => Some(
            (level.level_of(), source.target_of(), console_text(id, line_number, column_number, text)),
        ),
        _ => None,
    }
}

/// The adapter for a console message: what the host's log is to be given.
///
/// `message` and `source_id` are the code units of the two engine strings of
/// the event. Where either is ill-formed there is no record, and the caller
/// decides what to log instead.
pub fn log_forward_cb(
    source: MessageSource,
    level: MessageLevel,
    message: &[u16],
    line_number: u32,
    column_number: u32,
    source_id: &[u16],
) -> (r: Result<LogRecord, Error>)
    ensures
        match r {
            Ok(record) => console_record(
                source,
                level,
                message@,
                line_number,
                column_number,
                source_id@,
            ) == Some((record.level, record.target@, record.message@)),
            Err(e) => e == Error::Encoding && console_record(
                source,
                level,
                message@,
                line_number,
                column_number,
                source_id@,
            ) is None,
        },
{
    let id = match decode(source_id) {
        Ok(id) => id,
        Err(e) => {
            return Err(e);
        },
    };
    let body = match decode(message) {
        Ok(body) => body,
        Err(e) => {
            return Err(e);
        },
    };
    let mut text = String::new();
    text.push('(');
    text.append(id.as_str());
    text.push(',');
    text.push(' ');
    push_decimal(&mut text, line_number);
    text.push(',');
    text.push(' ');
    push_decimal(&mut text, column_number);
    text.push(')');
    text.push(' ');
    text.append(body.as_str());
    assert(text@ =~= console_text(id@, line_number, column_number, body@));
    Ok(LogRecord { level: level.level(), target: source.target(), message: text })
}

} // verus!
