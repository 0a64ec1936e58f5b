use macwinshare::clipboard::{
    clipboard_text_message, content_from_text, files_as_text, shares_text, text_of_clipboard_data,
    ClipboardContent, ClipboardWatch,
};
use macwinshare::config::ClipboardConfig;
use macwinshare::protocol::{ClipboardFormat, Message};

#[test]
fn files_are_shared_one_per_line() {
    let files = vec!["/a.txt".to_string(), "/b/c.png".to_string()];
    assert_eq!(files_as_text(&files), "/a.txt\n/b/c.png");
    assert_eq!(files_as_text(&vec!["x".to_string()]), "x");
    assert_eq!(files_as_text(&Vec::new()), "");
}

#[test]
fn only_nonempty_text_is_offered() {
    match content_from_text(Some("hi".to_string())) {
        Some(ClipboardContent::Text(t)) => assert_eq!(t, "hi"),
        other => panic!("unexpected {:?}", other),
    }
    assert!(content_from_text(Some(String::new())).is_none());
    assert!(content_from_text(None).is_none());
}

#[test]
fn each_change_is_seen_once() {
    let mut w = ClipboardWatch::new();
    assert!(w.observe(7));
    assert!(!w.observe(7));
    assert!(w.observe(8));
    assert!(w.observe(7));
}

#[test]
fn each_text_change_is_seen_once() {
    let mut w = ClipboardWatch::new();
    assert!(w.observe_text("copied"));
    assert!(!w.observe_text("copied"));
    assert!(w.observe_text("other"));
    assert!(w.observe_text("copied"));
}

#[test]
fn clipboard_text_messages() {
    match clipboard_text_message("héllo") {
        Message::ClipboardData { clipboard_id, sequence_number, format, data } => {
            assert_eq!(clipboard_id, 0);
            assert_eq!(sequence_number, 0);
            assert_eq!(format, ClipboardFormat::Text);
            assert_eq!(data, "héllo".as_bytes().to_vec());
        }
        _ => panic!("Unexpected message type"),
    }
    assert_eq!(text_of_clipboard_data(ClipboardFormat::Text, "héllo".as_bytes()), Some("héllo".to_string()));
    assert_eq!(text_of_clipboard_data(ClipboardFormat::Html, b"x"), None);
    assert_eq!(text_of_clipboard_data(ClipboardFormat::Text, &[0xc3]), None);
}

#[test]
fn clipboard_policy() {
    let mut c = ClipboardConfig::default();
    assert!(shares_text(&c, "hello"));
    c.max_size_bytes = 5;
    assert!(shares_text(&c, "hello"));
    assert!(!shares_text(&c, "héllo"));
    c.max_size_bytes = 100;
    c.share_text = false;
    assert!(!shares_text(&c, "x"));
    c.share_text = true;
    c.enabled = false;
    assert!(!shares_text(&c, "x"));
}
