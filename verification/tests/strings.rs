use ultralight_rs::handle::{Error, Handle, ResourceKind};
use ultralight_rs::ownership::Wrapper;
use ultralight_rs::string::{c_string, ULString};
use ultralight_rs::utf16::{decode, encode};

#[test]
fn ascii_text_round_trips() {
    let units = encode("hello, world");
    assert_eq!(units.len(), 12);
    assert_eq!(units[0], 0x68);
    assert_eq!(decode(&units).unwrap(), "hello, world");
}

#[test]
fn empty_text_round_trips() {
    let units = encode("");
    assert!(units.is_empty());
    assert_eq!(decode(&units).unwrap(), "");
}

#[test]
fn multi_byte_text_round_trips() {
    let text = "gr\u{fc}\u{df}e \u{4e16}\u{754c} \u{1f600}";
    let units = encode(text);
    assert_eq!(decode(&units).unwrap(), text);
}

#[test]
fn a_scalar_above_the_basic_plane_is_a_surrogate_pair() {
    assert_eq!(encode("\u{1f600}"), vec![0xD83D, 0xDE00]);
    assert_eq!(encode("\u{10000}"), vec![0xD800, 0xDC00]);
    assert_eq!(encode("\u{10ffff}"), vec![0xDBFF, 0xDFFF]);
    assert_eq!(decode(&[0xD83D, 0xDE00]).unwrap(), "\u{1f600}");
}

#[test]
fn the_edges_of_the_basic_plane_are_single_units() {
    assert_eq!(encode("\u{d7ff}"), vec![0xD7FF]);
    assert_eq!(encode("\u{e000}"), vec![0xE000]);
    assert_eq!(encode("\u{ffff}"), vec![0xFFFF]);
    assert_eq!(decode(&[0xD7FF, 0xE000, 0xFFFF]).unwrap(), "\u{d7ff}\u{e000}\u{ffff}");
}

#[test]
fn encoding_agrees_with_the_standard_library() {
    let text = "a\u{e9}\u{20ac}\u{1d11e}z";
    let expected: Vec<u16> = text.encode_utf16().collect();
    assert_eq!(encode(text), expected);
    assert_eq!(decode(&expected).unwrap(), String::from_utf16(&expected).unwrap());
}

#[test]
fn a_lone_high_surrogate_is_an_encoding_error() {
    assert_eq!(decode(&[0x61, 0xD800]), Err(Error::Encoding));
    assert_eq!(decode(&[0xD800, 0x61]), Err(Error::Encoding));
    assert!(String::from_utf16(&[0xD800, 0x61]).is_err());
}

#[test]
fn a_low_surrogate_first_is_an_encoding_error() {
    assert_eq!(decode(&[0xDC00, 0xD800]), Err(Error::Encoding));
    assert_eq!(decode(&[0xDFFF]), Err(Error::Encoding));
}

#[test]
fn two_high_surrogates_are_an_encoding_error() {
    assert_eq!(decode(&[0xD800, 0xD800, 0xDC00]), Err(Error::Encoding));
}

#[test]
fn a_string_wrapper_decodes_what_the_engine_reports() {
    let text = ULString::from_borrowed(Handle::new(0x1000));
    assert_eq!(text.to_string(&encode("file:///page.html")).unwrap(), "file:///page.html");
    assert_eq!(text.to_string(&[0xDC00]), Err(Error::Encoding));
    assert_eq!(
        text.describe(),
        Wrapper { kind: ResourceKind::String, handle: Handle::new(0x1000), owns: false }
    );
}

#[test]
fn each_error_says_what_went_wrong() {
    assert_eq!(
        Error::HandleUnavailable { kind: ResourceKind::View }.message(),
        "the engine gave no handle"
    );
    assert_eq!(Error::Encoding.message(), "the text of an engine string is not well-formed");
}

#[test]
fn the_engine_is_given_the_bytes_of_a_text_and_their_count() {
    let (bytes, length) = ULString::utf8_argument("gr\u{fc}\u{df}e");
    assert_eq!(bytes, "gr\u{fc}\u{df}e".as_bytes());
    assert_eq!(length, 7);
    let (bytes, length) = ULString::utf8_argument("");
    assert!(bytes.is_empty());
    assert_eq!(length, 0);
}

#[test]
fn text_survives_the_way_through_an_engine_string() {
    for text in ["", "plain", "\u{e9}t\u{e9}", "\u{65e5}\u{672c}\u{8a9e}", "a\u{1f980}b"] {
        let (bytes, _) = ULString::utf8_argument(text);
        let kept = encode(std::str::from_utf8(bytes).unwrap());
        let wrapper = ULString::from_borrowed(Handle::new(0x1000));
        assert_eq!(wrapper.to_string(&kept).unwrap(), text);
    }
}

#[test]
fn a_c_string_is_the_bytes_of_the_text_and_a_closing_nul() {
    assert_eq!(c_string("Ultralight"), Some(b"Ultralight\0".to_vec()));
    assert_eq!(c_string(""), Some(vec![0]));
    assert_eq!(c_string("\u{e9}"), Some(vec![0xC3, 0xA9, 0]));
}

#[test]
fn a_text_with_a_nul_has_no_c_string() {
    assert_eq!(c_string("a\0b"), None);
    assert_eq!(c_string("\0"), None);
    assert_eq!(c_string("title\0"), None);
}

#[test]
fn every_character_is_encoded_as_the_standard_library_encodes_it() {
    let mut buffer = [0u16; 2];
    let mut text = String::new();
    for scalar in 0..=0x10FFFFu32 {
        if let Some(c) = char::from_u32(scalar) {
            text.clear();
            text.push(c);
            assert_eq!(encode(&text), c.encode_utf16(&mut buffer));
        }
    }
}

#[test]
fn every_single_unit_is_decoded_as_the_standard_library_decodes_it() {
    for unit in 0..=u16::MAX {
        assert_eq!(decode(&[unit]).ok(), String::from_utf16(&[unit]).ok());
    }
}

#[test]
fn pairs_around_the_surrogates_are_decoded_as_the_standard_library_decodes_them() {
    let edges = [
        0x0000u16, 0x0041, 0xD7FF, 0xD800, 0xD801, 0xDBFE, 0xDBFF, 0xDC00, 0xDC01, 0xDFFE, 0xDFFF,
        0xE000, 0xFFFF,
    ];
    for first in edges {
        for second in edges {
            for third in edges {
                let units = [first, second, third];
                assert_eq!(decode(&units).ok(), String::from_utf16(&units).ok());
            }
        }
    }
}
