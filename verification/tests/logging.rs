use ultralight_rs::format::push_decimal;
use ultralight_rs::handle::Error;
use ultralight_rs::internal::{log_forward_cb, MessageLevel, MessageSource};
use ultralight_rs::platform::{logger, Level, LogLevel};
use ultralight_rs::utf16::encode;

#[test]
fn a_console_message_becomes_one_log_line() {
    let record = log_forward_cb(
        MessageSource::JS,
        MessageLevel::Warning,
        &encode("x is not defined"),
        12,
        3,
        &encode("file:///app.js"),
    )
    .unwrap();
    assert_eq!(record.level, Level::Warn);
    assert_eq!(record.target, "js");
    assert_eq!(record.message, "(file:///app.js, 12, 3) x is not defined");
}

#[test]
fn a_console_message_without_texts_keeps_its_frame() {
    let record =
        log_forward_cb(MessageSource::Other, MessageLevel::Log, &[], 0, 0, &[]).unwrap();
    assert_eq!(record.level, Level::Trace);
    assert_eq!(record.target, "other");
    assert_eq!(record.message, "(, 0, 0) ");
}

#[test]
fn the_largest_position_is_written_in_full() {
    let record = log_forward_cb(
        MessageSource::CSS,
        MessageLevel::Error,
        &encode("\u{1f4a5}"),
        u32::MAX,
        1_000_000,
        &encode("s"),
    )
    .unwrap();
    assert_eq!(record.message, "(s, 4294967295, 1000000) \u{1f4a5}");
}

#[test]
fn an_ill_formed_console_message_gives_no_record() {
    let bad = [0xD800u16];
    let good = encode("ok");
    assert_eq!(
        log_forward_cb(MessageSource::JS, MessageLevel::Info, &bad, 1, 1, &good).err(),
        Some(Error::Encoding)
    );
    assert_eq!(
        log_forward_cb(MessageSource::JS, MessageLevel::Info, &good, 1, 1, &bad).err(),
        Some(Error::Encoding)
    );
}

#[test]
fn each_message_level_has_its_host_level() {
    assert_eq!(MessageLevel::Error.level(), Level::Error);
    assert_eq!(MessageLevel::Warning.level(), Level::Warn);
    assert_eq!(MessageLevel::Info.level(), Level::Info);
    assert_eq!(MessageLevel::Debug.level(), Level::Debug);
    assert_eq!(MessageLevel::Log.level(), Level::Trace);
}

#[test]
fn each_message_source_has_its_target() {
    assert_eq!(MessageSource::XML.target(), "xml");
    assert_eq!(MessageSource::JS.target(), "js");
    assert_eq!(MessageSource::Network.target(), "network");
    assert_eq!(MessageSource::ConsoleAPI.target(), "consoleapi");
    assert_eq!(MessageSource::Storage.target(), "storage");
    assert_eq!(MessageSource::AppCache.target(), "appcache");
    assert_eq!(MessageSource::Rendering.target(), "rendering");
    assert_eq!(MessageSource::CSS.target(), "css");
    assert_eq!(MessageSource::Security.target(), "security");
    assert_eq!(MessageSource::ContentBlocker.target(), "contentblocker");
    assert_eq!(MessageSource::Other.target(), "other");
}

#[test]
fn the_engines_own_messages_are_logged_under_its_name() {
    let record = logger(LogLevel::Warning, &encode("out of memory")).unwrap();
    assert_eq!(record.level, Level::Warn);
    assert_eq!(record.target, "Ultralight");
    assert_eq!(record.message, "out of memory");
    assert_eq!(LogLevel::Error.level(), Level::Error);
    assert_eq!(LogLevel::Info.level(), Level::Info);
    assert_eq!(logger(LogLevel::Info, &[0xDFFF]).err(), Some(Error::Encoding));
}

#[test]
fn numbers_are_written_in_decimal() {
    let cases: [(u32, &str); 8] = [
        (0, "0"),
        (7, "7"),
        (9, "9"),
        (10, "10"),
        (99, "99"),
        (100, "100"),
        (1905, "1905"),
        (u32::MAX, "4294967295"),
    ];
    for (n, expected) in cases {
        let mut text = String::from("n=");
        push_decimal(&mut text, n);
        assert_eq!(text, format!("n={}", expected));
        assert_eq!(text, format!("n={}", n));
    }
}
