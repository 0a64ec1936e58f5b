use macwinshare::display::{display_at, primary_display, virtual_screen_bounds, DisplayRect};
use macwinshare::error::Error;
use macwinshare::platform::{InputEvent, MouseButton, PlatformDisplayImpl, PlatformInputImpl};
use macwinshare::platform_macos::accessibility::get_accessibility_message;
use macwinshare::platform_macos::input::macos_to_synergy_keycode;
use macwinshare::platform_macos::{MacOSDisplay, MacOSInput};
use macwinshare::platform_windows::input::windows_to_synergy_keycode;
use macwinshare::platform_windows::{WindowsDisplay, WindowsInput};
use macwinshare::screen::CursorPosition;

fn rect(id: u32, x: i32, y: i32, width: i32, height: i32, is_primary: bool) -> DisplayRect {
    DisplayRect { id, name: format!("Display {}", id), x, y, width, height, is_primary }
}

fn two_displays() -> Vec<DisplayRect> {
    vec![rect(1, 0, 0, 1920, 1080, false), rect(2, -1280, -200, 1280, 1024, true)]
}

#[test]
fn display_lookup_by_point() {
    let ds = two_displays();
    assert_eq!(display_at(&ds, 0, 0), Some(0));
    assert_eq!(display_at(&ds, 1919, 1079), Some(0));
    assert_eq!(display_at(&ds, 1920, 10), None);
    assert_eq!(display_at(&ds, -1, -200), Some(1));
    assert_eq!(display_at(&ds, -1, 824), None);
    assert_eq!(display_at(&[], 0, 0), None);
}

#[test]
fn first_display_wins_where_displays_overlap() {
    let ds = vec![rect(1, 0, 0, 100, 100, false), rect(2, 50, 50, 100, 100, false)];
    assert_eq!(display_at(&ds, 60, 60), Some(0));
    assert_eq!(display_at(&ds, 120, 120), Some(1));
}

#[test]
fn primary_display_lookup() {
    let ds = two_displays();
    assert_eq!(primary_display(&ds), Some(1));
    assert_eq!(primary_display(&[rect(1, 0, 0, 10, 10, false)]), None);
    assert_eq!(MacOSDisplay::new().get_primary_display(&ds), Ok(1));
    assert_eq!(
        WindowsDisplay::new().get_primary_display(&[rect(1, 0, 0, 10, 10, false)]),
        Err("No primary display found".to_string())
    );
}

#[test]
fn virtual_bounds_cover_all_displays() {
    let ds = two_displays();
    assert_eq!(virtual_screen_bounds(&ds), Ok((-1280, -200, 3200, 1280)));
    assert_eq!(virtual_screen_bounds(&[]), Err("No displays found".to_string()));
    assert_eq!(MacOSDisplay::default().get_virtual_screen_bounds(&ds), Ok((-1280, -200, 3200, 1280)));
    assert_eq!(
        WindowsDisplay::default().get_virtual_screen_bounds(&[rect(1, 10, 20, 30, 40, true)]),
        Ok((10, 20, 30, 40))
    );
    assert_eq!(WindowsDisplay::new().get_display_at(&ds, -5, -5), Some(1));
    assert_eq!(MacOSDisplay::new().get_display_at(&ds, 5000, 5), None);
}

#[test]
fn macos_keycodes() {
    assert_eq!(macos_to_synergy_keycode(0x00), 0x0061);
    assert_eq!(macos_to_synergy_keycode(0x06), 0x007A);
    assert_eq!(macos_to_synergy_keycode(0x1D), 0x0030);
    assert_eq!(macos_to_synergy_keycode(0x24), 0xFF0D);
    assert_eq!(macos_to_synergy_keycode(0x37), 0xFFE7);
    assert_eq!(macos_to_synergy_keycode(0x7A), 0xFFBE);
    assert_eq!(macos_to_synergy_keycode(0x6F), 0xFFC9);
    assert_eq!(macos_to_synergy_keycode(0x0A), 0x0A);
    assert_eq!(macos_to_synergy_keycode(0x1234), 0x1234);
}

#[test]
fn windows_keycodes() {
    assert_eq!(windows_to_synergy_keycode(0x41), 0x61);
    assert_eq!(windows_to_synergy_keycode(0x5A), 0x7A);
    assert_eq!(windows_to_synergy_keycode(0x35), 0x35);
    assert_eq!(windows_to_synergy_keycode(0x70), 0xFFBE);
    assert_eq!(windows_to_synergy_keycode(0x7B), 0xFFC9);
    assert_eq!(windows_to_synergy_keycode(0x2E), 0xFFFF);
    assert_eq!(windows_to_synergy_keycode(0x5B), 0xFFEB);
    assert_eq!(windows_to_synergy_keycode(0x91), 0xFF14);
    assert_eq!(windows_to_synergy_keycode(0x07), 0x07);
}

#[test]
fn macos_capture_state() {
    let mut input = MacOSInput::new();
    assert_eq!(
        input.start_capture(false),
        Err("Accessibility permission required. Please enable in System Settings > Privacy & Security > Accessibility".to_string())
    );
    assert_eq!(input.start_capture(true), Ok(()));
    assert_eq!(input.start_capture(true), Err("Already capturing".to_string()));
    input.stop_capture();
    assert_eq!(input.start_capture(true), Ok(()));
    assert!(!input.is_cursor_hidden());
    assert_eq!(input.hide_cursor(), Ok(()));
    assert!(input.is_cursor_hidden());
    input.stop_capture();
    assert!(input.is_cursor_hidden());
    assert_eq!(input.show_cursor(), Ok(()));
    assert!(!input.is_cursor_hidden());
    assert_eq!(input.start_capture(true), Ok(()));
    let fresh = MacOSInput::default();
    assert!(!fresh.is_cursor_hidden());
}

#[test]
fn windows_capture_state() {
    let mut input = WindowsInput::new();
    assert_eq!(input.begin_capture(), Ok(()));
    input.capture_started();
    assert_eq!(input.begin_capture(), Err("Already capturing".to_string()));
    input.stop_capture();
    assert_eq!(input.begin_capture(), Ok(()));
    assert_eq!(WindowsInput::default().begin_capture(), Ok(()));
}

#[test]
fn accessibility_messages() {
    assert_eq!(get_accessibility_message(true), "Accessibility access is enabled.");
    let msg = get_accessibility_message(false);
    assert!(msg.starts_with("MacWinShare requires accessibility access"));
    assert!(msg.contains("System Settings > Privacy & Security > Accessibility"));
}

fn unsupported<T: std::fmt::Debug>(r: Result<T, Error>) -> bool {
    matches!(r, Err(Error::Platform(ref m)) if m == "Unsupported platform")
}

#[test]
fn fallback_platform_layer() {
    let mut input = PlatformInputImpl;
    assert!(unsupported(input.start_capture()));
    assert!(input.stop_capture().is_ok());
    assert!(unsupported(input.inject_event(InputEvent::MouseDown { button: MouseButton::Left })));
    assert_eq!(input.get_cursor_position().unwrap(), CursorPosition::new(0, 0));
    assert!(input.set_cursor_position(CursorPosition::new(5, 5)).is_ok());
    assert!(input.hide_cursor().is_ok());
    assert!(input.show_cursor().is_ok());
    assert!(input.check_accessibility_permission());
    assert!(input.request_accessibility_permission().is_ok());

    let display = PlatformDisplayImpl;
    assert!(display.get_displays().unwrap().is_empty());
    assert!(unsupported(display.get_primary_display()));
    assert!(display.get_display_at(1, 2).unwrap().is_none());
}
