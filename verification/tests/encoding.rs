//! Wide-string encoding, rectangles, and the classification of window
//! messages.

use luna::geometry::Rectangle;
use luna::util::to_os_string;
use luna::window::{classify_window_message, WindowProcAction};

#[test]
fn wide_encoding_terminates_with_nul() {
    assert_eq!(to_os_string(""), vec![0u16]);
    assert_eq!(to_os_string("ab"), vec![97u16, 98, 0]);
}

#[test]
fn wide_encoding_of_latin_and_bmp_text() {
    // One code unit per character below 0x10000.
    assert_eq!(to_os_string("é"), vec![0x00E9u16, 0]);
    assert_eq!(to_os_string("luna"), vec![108u16, 117, 110, 97, 0]);
}

#[test]
fn wide_encoding_uses_surrogate_pairs() {
    // U+1D11E lies beyond the basic plane and becomes a surrogate pair.
    assert_eq!(to_os_string("\u{1D11E}"), vec![0xD834u16, 0xDD1E, 0]);
    // Cross-check against the standard library's encoder.
    let mixed = "a\u{1D11E}é";
    let mut expect: Vec<u16> = mixed.encode_utf16().collect();
    expect.push(0);
    assert_eq!(to_os_string(mixed), expect);
}

#[test]
fn rectangle_keeps_its_corners() {
    let r = Rectangle::new(50, 50, 500, 500);
    assert_eq!(r.x(), 50);
    assert_eq!(r.y(), 50);
    assert_eq!(r.w(), 500);
    assert_eq!(r.h(), 500);
    let q: Rectangle<i32> = Rectangle::new(-3, 4, 7, 9);
    assert_eq!(q.x(), -3);
    assert_eq!(q.y(), 4);
    assert_eq!(q.w(), 7);
    assert_eq!(q.h(), 9);
}

#[test]
fn window_messages_classify() {
    // Destruction is deferred through the notification queue.
    assert_eq!(classify_window_message(0x0002, 0), WindowProcAction::NotifyDestroyed);
    // A repaint is acknowledged.
    assert_eq!(classify_window_message(0x000F, 0), WindowProcAction::Paint);
    // The cancel key asks for the window's destruction; other characters
    // are simply handled.
    assert_eq!(classify_window_message(0x0102, 0x1B), WindowProcAction::DestroyWindow);
    assert_eq!(classify_window_message(0x0102, 'a' as u32), WindowProcAction::Handled);
    // The primary button reports, the secondary destroys.
    assert_eq!(classify_window_message(0x0202, 0), WindowProcAction::ReportClick);
    assert_eq!(classify_window_message(0x0205, 0), WindowProcAction::DestroyWindow);
    // Everything else belongs to the operating system.
    assert_eq!(classify_window_message(0x0400, 0), WindowProcAction::Default);
}
