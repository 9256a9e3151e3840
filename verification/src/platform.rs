//! What the engine asks of its host: logging, files, the clipboard, surfaces.

use vstd::prelude::*;
use crate::handle::{Error, Handle};
use crate::string::ULString;
use crate::utf16::{decode, decode_utf16};

verus! {

/// The severities of the host's log.
#[derive(Clone, Copy, Debug, PartialEq, Eq, Structural, Hash)]
pub enum Level {
    Error,
    Warn,
    Info,
    Debug,
    Trace,
}

/// The severities with which the engine logs its own messages.
#[derive(Clone, Copy, Debug, PartialEq, Eq, Structural, Hash)]
pub enum LogLevel {
    Error,
    Warning,
    Info,
}

impl LogLevel {
    /// The host severity for an engine severity.
    pub open spec fn level_of(self) -> Level {
        match self {
            LogLevel::Error => Level::Error,
            LogLevel::Warning => Level::Warn,
            LogLevel::Info => Level::Info,
        }
    }

    /// The host severity for an engine severity.
    pub fn level(&self) -> (l: Level)
        ensures
            l == self.level_of(),
    {
        match self {
            LogLevel::Error => Level::Error,
            LogLevel::Warning => Level::Warn,
            LogLevel::Info => Level::Info,
        }
    }
}

/// One line for the host's log.
#[derive(Debug)]
pub struct LogRecord {
    pub level: Level,
    pub target: &'static str,
    pub message: String,
}

/// The target under which the engine's own messages are logged.
pub open spec fn engine_target() -> Seq<char> {
    "Ultralight"@
}

/// The default logger: the record for a message of the engine's own, with the
/// severity translated and the text decoded from the code units `message`.
/// Ill-formed units give no record.
pub fn logger(level: LogLevel, message: &[u16]) -> (r: Result<LogRecord, Error>)
    ensures
        match r {
            Ok(record) => {
                &&& record.level == level.level_of()
                &&& record.target@ == engine_target()
                &&& decode_utf16(message@) == Some(record.message@)
            },
            Err(e) => decode_utf16(message@) is None && e == Error::Encoding,
        },
{
    match decode(message) {
        Ok(text) => Ok(LogRecord { level: level.level(), target: "Ultralight", message: text }),
        Err(e) => Err(e),
    }
}

/// The clipboard of the host, for the engine to cut, copy and paste with.
pub trait Clipboard {
    /// Empties the clipboard.
    fn clear();

    /// Reads the text of the clipboard into `result`, a string of the engine.
    fn read_plain_text(result: ULString);

    /// Puts `text`, a string of the engine, on the clipboard.
    fn write_plain_text(text: ULString);
}

/// The glue for [`Clipboard::clear`].
pub fn clear_<T: Clipboard>()
    requires
        call_requires(T::clear, ()),
    ensures
        call_ensures(T::clear, (), ()),
{
    T::clear();
}

/// The glue for [`Clipboard::read_plain_text`]. The string behind `result`
/// is the engine's: the clipboard fills it and does not own it.
pub fn read_plain_text_<T: Clipboard>(result: Handle)
    requires
        call_requires(T::read_plain_text, (ULString::borrowing(result),)),
    ensures
        call_ensures(T::read_plain_text, (ULString::borrowing(result),), ()),
{
    T::read_plain_text(ULString::from_borrowed(result));
}

/// The glue for [`Clipboard::write_plain_text`]. The string behind `text` is
/// the engine's.
pub fn write_plain_text_<T: Clipboard>(text: Handle)
    requires
        call_requires(T::write_plain_text, (ULString::borrowing(text),)),
    ensures
        call_ensures(T::write_plain_text, (ULString::borrowing(text),), ()),
{
    T::write_plain_text(ULString::from_borrowed(text));
}

/// A logger of the host, for the engine's own messages.
pub trait Logger {
    /// Logs `message`, a string of the engine, with the severity `level`.
    fn log_message(level: LogLevel, message: ULString);
}

/// The glue for [`Logger::log_message`]. The string behind `message` is the
/// engine's.
pub fn log_message_<T: Logger>(level: LogLevel, message: Handle)
    requires
        call_requires(T::log_message, (level, ULString::borrowing(message))),
    ensures
        call_ensures(T::log_message, (level, ULString::borrowing(message)), ()),
{
    T::log_message(level, ULString::from_borrowed(message));
}

/// The number by which the host and the engine name an open file.
pub type FileHandle = i32;

/// The files of the host, for the engine to load file addresses from.
pub trait Filesystem {
    /// Whether there is a file at `path`.
    fn file_exists(path: ULString) -> bool;

    /// The size of an open file in bytes, if it can be told.
    fn get_file_size(handle: FileHandle) -> Option<i64>;

    /// The mime type of the file at `path`, if it can be told.
    fn get_file_mime_type(path: ULString) -> Option<String>;

    /// Opens the file at `path`.
    fn open_file(path: ULString, open_write: bool) -> FileHandle;

    /// Closes an open file.
    fn close_file(handle: FileHandle);

    /// Reads up to `length` bytes of an open file; answers with how many.
    fn read_from_file(handle: FileHandle, data: &[i8], length: i64) -> i64;
}

/// The glue for [`Filesystem::file_exists`]. The string behind `path` is the
/// engine's.
pub fn _file_exists<T: Filesystem>(path: Handle) -> (found: bool)
    requires
        call_requires(T::file_exists, (ULString::borrowing(path),)),
    ensures
        call_ensures(T::file_exists, (ULString::borrowing(path),), found),
{
    T::file_exists(ULString::from_borrowed(path))
}

/// The glue for [`Filesystem::get_file_size`]. The engine wants the size
/// written to `result` and a flag that says whether it was: where the host
/// cannot tell the size, `result` is left as it is.
pub fn _get_file_size<T: Filesystem>(handle: FileHandle, result: &mut i64) -> (found: bool)
    requires
        call_requires(T::get_file_size, (handle,)),
    ensures
        call_ensures(
            T::get_file_size,
            (handle,),
            if found {
                Some(*final(result))
            } else {
                None
            },
        ),
        !found ==> *final(result) == *old(result),
{
    match T::get_file_size(handle) {
        Some(size) => {
            *result = size;
            true
        },
        None => false,
    }
}

/// The glue for [`Filesystem::get_file_mime_type`]. The string behind `path`
/// is the engine's. Where the host names a type, it still has to reach the
/// engine's result string: see [`ULString::assign_to`].
pub fn _get_file_mime_type<T: Filesystem>(path: Handle) -> (mime: Option<String>)
    requires
        call_requires(T::get_file_mime_type, (ULString::borrowing(path),)),
    ensures
        call_ensures(T::get_file_mime_type, (ULString::borrowing(path),), mime),
{
    T::get_file_mime_type(ULString::from_borrowed(path))
}

/// The glue for [`Filesystem::open_file`]. The string behind `path` is the
/// engine's.
pub fn _open_file<T: Filesystem>(path: Handle, open_for_writing: bool) -> (handle: FileHandle)
    requires
        call_requires(T::open_file, (ULString::borrowing(path), open_for_writing)),
    ensures
        call_ensures(T::open_file, (ULString::borrowing(path), open_for_writing), handle),
{
    T::open_file(ULString::from_borrowed(path), open_for_writing)
}

/// The glue for [`Filesystem::close_file`].
pub fn _close_file<T: Filesystem>(handle: FileHandle)
    requires
        call_requires(T::close_file, (handle,)),
    ensures
        call_ensures(T::close_file, (handle,), ()),
{
    T::close_file(handle);
}

/// How many bytes of the engine's buffer the host may touch where the engine
/// asks for `length` bytes: as many, or none where the number makes no sense.
pub fn buffer_len(length: i64) -> (n: usize)
    ensures
        n == (if 0 <= length <= usize::MAX {
            length
        } else {
            0
        }),
{
    if length < 0 {
        0
    } else if length as u64 > usize::MAX as u64 {
        0
    } else {
        length as usize
    }
}

/// The glue for [`Filesystem::read_from_file`].
pub fn _read_from_file<T: Filesystem>(handle: FileHandle, data: &[i8], length: i64) -> (read: i64)
    requires
        call_requires(T::read_from_file, (handle, data, length)),
    ensures
        call_ensures(T::read_from_file, (handle, data, length), read),
{
    T::read_from_file(handle, data, length)
}

} // verus!
