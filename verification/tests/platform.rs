use std::sync::Mutex;
use ultralight_rs::handle::{Handle, ResourceKind};
use ultralight_rs::ownership::Wrapper;
use ultralight_rs::platform::{
    _close_file, _file_exists, _get_file_mime_type, _get_file_size, _open_file, _read_from_file,
    buffer_len, clear_, log_message_, read_plain_text_, write_plain_text_, Clipboard, FileHandle,
    Filesystem, LogLevel, Logger,
};
use ultralight_rs::string::ULString;

static SEEN: Mutex<Vec<String>> = Mutex::new(Vec::new());

fn note(line: String) {
    SEEN.lock().unwrap().push(line);
}

fn seen(line: &str) -> usize {
    SEEN.lock().unwrap().iter().filter(|l| l.as_str() == line).count()
}

fn borrowed_string(text: &ULString, raw: usize) -> bool {
    text.describe() == Wrapper { kind: ResourceKind::String, handle: Handle::new(raw), owns: false }
}

struct Disk;

impl Filesystem for Disk {
    fn file_exists(path: ULString) -> bool {
        borrowed_string(&path, 0x10)
    }

    fn get_file_size(handle: FileHandle) -> Option<i64> {
        if handle == 3 {
            Some(4096)
        } else {
            None
        }
    }

    fn get_file_mime_type(path: ULString) -> Option<String> {
        if borrowed_string(&path, 0x10) {
            Some("text/html".to_string())
        } else {
            None
        }
    }

    fn open_file(path: ULString, open_write: bool) -> FileHandle {
        if borrowed_string(&path, 0x10) && !open_write {
            3
        } else {
            -1
        }
    }

    fn close_file(handle: FileHandle) {
        note(format!("close {}", handle));
    }

    fn read_from_file(handle: FileHandle, data: &[i8], length: i64) -> i64 {
        if handle == 3 && data.len() as i64 == length {
            length
        } else {
            -1
        }
    }
}

struct Board;

impl Clipboard for Board {
    fn clear() {
        note("clear".to_string());
    }

    fn read_plain_text(result: ULString) {
        note(format!("read into {:#x} owning {}", result.as_handle().addr(), result.is_owning()));
    }

    fn write_plain_text(text: ULString) {
        note(format!("write from {:#x} owning {}", text.as_handle().addr(), text.is_owning()));
    }
}

struct Journal;

impl Logger for Journal {
    fn log_message(level: LogLevel, message: ULString) {
        note(format!("log {:?} {:#x} owning {}", level, message.as_handle().addr(), message.is_owning()));
    }
}

#[test]
fn the_file_hooks_get_borrowed_strings_and_answer_through() {
    assert!(_file_exists::<Disk>(Handle::new(0x10)));
    assert!(!_file_exists::<Disk>(Handle::new(0x20)));
    assert_eq!(_get_file_mime_type::<Disk>(Handle::new(0x10)), Some("text/html".to_string()));
    assert_eq!(_get_file_mime_type::<Disk>(Handle::new(0x20)), None);
    assert_eq!(_open_file::<Disk>(Handle::new(0x10), false), 3);
    assert_eq!(_open_file::<Disk>(Handle::new(0x10), true), -1);
    assert_eq!(_read_from_file::<Disk>(3, &[0i8; 16], 16), 16);
    assert_eq!(_read_from_file::<Disk>(4, &[0i8; 16], 16), -1);
}

#[test]
fn a_file_size_is_written_only_where_it_is_known() {
    let mut size: i64 = -7;
    assert!(_get_file_size::<Disk>(3, &mut size));
    assert_eq!(size, 4096);
    let mut size: i64 = -7;
    assert!(!_get_file_size::<Disk>(5, &mut size));
    assert_eq!(size, -7);
}

#[test]
fn closing_a_file_reaches_the_host_once() {
    _close_file::<Disk>(41);
    assert_eq!(seen("close 41"), 1);
}

#[test]
fn the_clipboard_hooks_get_borrowed_strings() {
    clear_::<Board>();
    read_plain_text_::<Board>(Handle::new(0xa0));
    write_plain_text_::<Board>(Handle::new(0xb0));
    assert_eq!(seen("clear"), 1);
    assert_eq!(seen("read into 0xa0 owning false"), 1);
    assert_eq!(seen("write from 0xb0 owning false"), 1);
}

#[test]
fn the_logger_hook_gets_the_level_and_a_borrowed_string() {
    log_message_::<Journal>(LogLevel::Warning, Handle::new(0xc0));
    assert_eq!(seen("log Warning 0xc0 owning false"), 1);
}

#[test]
fn a_buffer_is_as_long_as_asked_for_or_empty() {
    assert_eq!(buffer_len(0), 0);
    assert_eq!(buffer_len(4096), 4096);
    assert_eq!(buffer_len(-1), 0);
    assert_eq!(buffer_len(i64::MIN), 0);
    let most = if usize::MAX as u64 >= i64::MAX as u64 { i64::MAX as u64 } else { 0 };
    assert_eq!(buffer_len(i64::MAX) as u64, most);
}
