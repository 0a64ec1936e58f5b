use macwinshare::client::{expect_hello_back, screen_info_message, ClientAction, ClientSession};
use macwinshare::config::{ScreenConfig, ScreenPosition};
use macwinshare::error::Error;
use macwinshare::protocol::{ClipboardFormat, Message};
use macwinshare::server::{
    enter_message, expect_hello, handle_client_message, ClientRegistry, ServerAction,
};
use macwinshare::status::AppStatus;
use macwinshare::AppMode;

#[test]
fn client_forwards_input_only_between_enter_and_leave() {
    let mut s = ClientSession::new();
    assert!(!s.is_active());
    assert!(matches!(s.handle_server_message(Message::MouseMove { x: 1, y: 2 }), ClientAction::Ignore));
    assert!(matches!(
        s.handle_server_message(Message::Enter { x: 3, y: 4, sequence_number: 1, modifier_mask: 0 }),
        ClientAction::CursorEntered { x: 3, y: 4 }
    ));
    assert!(s.is_active());
    match s.handle_server_message(Message::KeyDown { key_id: 97, modifier_mask: 0, key_button: 0 }) {
        ClientAction::Input(Message::KeyDown { key_id, .. }) => assert_eq!(key_id, 97),
        other => panic!("unexpected {:?}", other),
    }
    assert!(matches!(s.handle_server_message(Message::KeepAlive), ClientAction::Ignore));
    assert!(s.is_active());
    assert!(matches!(s.handle_server_message(Message::Leave), ClientAction::CursorLeft));
    assert!(!s.is_active());
    assert!(matches!(
        s.handle_server_message(Message::MouseDown { button_id: 1 }),
        ClientAction::Ignore
    ));
}

#[test]
fn client_takes_text_from_clipboard_data() {
    let mut s = ClientSession::new();
    match s.handle_server_message(Message::ClipboardData {
        clipboard_id: 0,
        sequence_number: 0,
        format: ClipboardFormat::Text,
        data: b"copied".to_vec(),
    }) {
        ClientAction::SetClipboardText(t) => assert_eq!(t, "copied"),
        other => panic!("unexpected {:?}", other),
    }
    assert!(matches!(
        s.handle_server_message(Message::ClipboardData {
            clipboard_id: 0,
            sequence_number: 0,
            format: ClipboardFormat::Bitmap,
            data: vec![1],
        }),
        ClientAction::Ignore
    ));
}

#[test]
fn handshake_checks() {
    assert_eq!(expect_hello(Message::hello("C")).unwrap(), ("C".to_string(), 1, 6));
    match expect_hello(Message::KeepAlive) {
        Err(Error::Protocol(t)) => assert_eq!(t, "Expected Hello message"),
        other => panic!("unexpected {:?}", other),
    }
    assert_eq!(expect_hello_back(Message::hello_back("S")).unwrap(), ("S".to_string(), 1, 6));
    match expect_hello_back(Message::hello("S")) {
        Err(Error::Protocol(t)) => assert_eq!(t, "Expected HelloBack message"),
        other => panic!("unexpected {:?}", other),
    }
}

#[test]
fn client_describes_its_screen() {
    let mut screen = ScreenConfig::default();
    screen.position = ScreenPosition { x: -10, y: 20 };
    screen.width = 2561;
    screen.height = 1440;
    match screen_info_message(&screen) {
        Message::ScreenInfo { x, y, width, height, cursor_x, cursor_y } => {
            assert_eq!((x, y, width, height, cursor_x, cursor_y), (-10, 20, 2561, 1440, 1280, 720));
        }
        _ => panic!("Unexpected message type"),
    }
}

#[test]
fn server_handles_client_messages() {
    assert!(matches!(
        handle_client_message(Message::ScreenInfo {
            x: 0,
            y: 0,
            width: 800,
            height: 600,
            cursor_x: 0,
            cursor_y: 0
        }),
        ServerAction::ClientScreen { width: 800, height: 600 }
    ));
    match handle_client_message(Message::ClipboardData {
        clipboard_id: 0,
        sequence_number: 0,
        format: ClipboardFormat::Text,
        data: b"t".to_vec(),
    }) {
        ServerAction::SetClipboardText(t) => assert_eq!(t, "t"),
        other => panic!("unexpected {:?}", other),
    }
    assert!(matches!(handle_client_message(Message::KeepAlive), ServerAction::Ignore));
    assert!(matches!(
        enter_message(),
        Message::Enter { x: 100, y: 100, sequence_number: 0, modifier_mask: 0 }
    ));
}

#[test]
fn registry_register_get_unregister() {
    let mut r: ClientRegistry<u32> = ClientRegistry::new();
    assert!(!r.contains("a"));
    r.register("a".to_string(), 1);
    r.register("b".to_string(), 2);
    assert_eq!(r.get("a"), Some(&1));
    assert_eq!(r.get("b"), Some(&2));
    r.register("a".to_string(), 3);
    assert_eq!(r.get("a"), Some(&3));
    assert_eq!(r.clients().len(), 2);
    r.unregister("a");
    assert!(!r.contains("a"));
    assert_eq!(r.get("b"), Some(&2));
    r.unregister("missing");
    assert_eq!(r.clients().len(), 1);
}

#[test]
fn registry_switching() {
    let mut r: ClientRegistry<u32> = ClientRegistry::new();
    assert_eq!(r.active_client(), None);
    match r.switch_to("x") {
        Err(Error::Connection(t)) => assert_eq!(t, "Client x not found"),
        other => panic!("unexpected {:?}", other),
    }
    r.register("a".to_string(), 1);
    r.register("b".to_string(), 2);
    let plan = r.switch_to("a").unwrap();
    assert_eq!(plan.leave, None);
    assert_eq!(plan.enter, "a");
    assert_eq!(r.active_client(), Some(&1));
    let plan = r.switch_to("b").unwrap();
    assert_eq!(plan.leave, Some("a".to_string()));
    assert_eq!(plan.enter, "b");
    assert_eq!(r.active_client(), Some(&2));
    r.unregister("b");
    assert_eq!(r.active_client(), None);
    let plan = r.switch_to("a").unwrap();
    assert_eq!(plan.leave, None);
    assert!(r.switch_to("b").is_err());
    assert_eq!(r.active_client(), Some(&1));
}

#[test]
fn idle_status() {
    let s = AppStatus::idle(Some("AA:BB".to_string()));
    assert_eq!(s.mode, "Idle");
    assert!(!s.connected);
    assert_eq!(s.peer_name, None);
    assert_eq!(s.fingerprint, "AA:BB");
    assert_eq!(AppStatus::idle(None).fingerprint, "Unknown");
}

#[test]
fn app_modes_are_distinct() {
    assert_ne!(AppMode::Server, AppMode::Client);
    assert_eq!(AppMode::Auto, AppMode::Auto);
}
