use screen_wake_lock::protocol::Event;
use screen_wake_lock::text::{decimal_text, wide_text};
use screen_wake_lock::Error;

#[test]
fn decimal_of_small_and_large_numbers() {
    assert_eq!(decimal_text(0), "0");
    assert_eq!(decimal_text(7), "7");
    assert_eq!(decimal_text(10), "10");
    assert_eq!(decimal_text(1234567890), "1234567890");
    assert_eq!(decimal_text(i32::MAX), "2147483647");
}

#[test]
fn decimal_of_negative_numbers() {
    assert_eq!(decimal_text(-1), "-1");
    assert_eq!(decimal_text(-100), "-100");
    assert_eq!(decimal_text(i32::MIN), "-2147483648");
}

#[test]
fn decimal_agrees_with_the_standard_library() {
    let mut n: i32 = -2_000_000_000;
    while n < 2_000_000_000 {
        assert_eq!(decimal_text(n), format!("{}", n));
        n += 9_999_991;
    }
}

#[test]
fn wide_text_ends_in_nul() {
    assert_eq!(wide_text(""), vec![0]);
    assert_eq!(wide_text("A"), vec![65, 0]);
    assert_eq!(wide_text("\u{e9}t\u{e9}"), vec![0xE9, 0x74, 0xE9, 0]);
}

#[test]
fn wide_text_splits_supplementary_characters() {
    assert_eq!(wide_text("\u{FFFF}"), vec![0xFFFF, 0]);
    assert_eq!(wide_text("\u{10000}"), vec![0xD800, 0xDC00, 0]);
    assert_eq!(wide_text("\u{1F600}"), vec![0xD83D, 0xDE00, 0]);
    assert_eq!(wide_text("\u{10FFFF}"), vec![0xDBFF, 0xDFFF, 0]);
}

#[test]
fn wide_text_agrees_with_the_standard_library() {
    for text in ["Playing video", "Gr\u{fc}\u{df}e \u{4e16}\u{754c} \u{1F3AC}\u{1F37F}", "a\0b"] {
        let mut expected: Vec<u16> = text.encode_utf16().collect();
        expected.push(0);
        assert_eq!(wide_text(text), expected);
    }
}

#[test]
fn error_text_names_the_kind() {
    assert_eq!(Error::Os(String::from("code 5")).to_string(), "OS error: code 5");
    assert_eq!(Error::Dbus(String::from("bad path")).to_string(), "D-Bus error: bad path");
    assert_eq!(
        Error::Unsupported(String::from("no bus")).to_string(),
        "Unsupported: no bus"
    );
    assert_eq!(Error::Os(String::new()).to_string(), "OS error: ");
}

#[test]
fn failure_text_of_events() {
    assert_eq!(Event::Failed(String::from("a")).failure_text(), "a");
    assert_eq!(Event::Rejected(String::from("b")).failure_text(), "b");
    assert_eq!(Event::Done.failure_text(), "unexpected reply");
    assert_eq!(Event::Handle(3).failure_text(), "unexpected reply");
}
