//! MacWinShare Client
//!
//! The client receives input events from the server and acts on them
//! locally. This module holds the client's decisions: the handshake check,
//! the screen description it sends, and what each server message does to
//! the session and asks of the platform. The connection belongs to the
//! application.

use vstd::prelude::*;
use vstd::utf8::*;
use crate::config::ScreenConfig;
use crate::protocol::{ClipboardFormat, Message, SpecMessage};
use crate::error::Error;
use crate::clipboard::text_of_clipboard_data;

verus! {

/// What the application does for one message from the server.
#[derive(Debug)]
pub enum ClientAction {
    /// Nothing beyond logging.
    Ignore,
    /// The cursor entered this screen at (x, y).
    CursorEntered { x: i16, y: i16 },
    /// The cursor left this screen.
    CursorLeft,
    /// An input event to inject while this screen is active.
    Input(Message),
    /// Text to place on the local clipboard.
    SetClipboardText(String),
}

/// Whether a message is one of the input events that the client injects.
pub open spec fn is_input_message(m: SpecMessage) -> bool {
    ||| m is MouseMove
    ||| m is MouseDown
    ||| m is MouseUp
    ||| m is MouseWheel
    ||| m is KeyDown
    ||| m is KeyUp
}

/// Whether the session is active after `m`, when it was `active` before.
pub open spec fn next_active(active: bool, m: SpecMessage) -> bool {
    match m {
        SpecMessage::Enter { .. } => true,
        SpecMessage::Leave => false,
        _ => active,
    }
}

/// Whether `m` is passed on for injection in a session that is `active`.
pub open spec fn forwards(active: bool, m: SpecMessage) -> bool {
    active && is_input_message(m)
}

/// After `Enter` every input event is passed on, after `Leave` none is, and
/// other messages leave the session as it was.
pub proof fn lemma_enter_leave(active: bool, enter: SpecMessage, leave: SpecMessage, input: SpecMessage)
    requires
        enter is Enter,
        leave is Leave,
        is_input_message(input),
    ensures
        forwards(next_active(active, enter), input),
        !forwards(next_active(active, leave), input),
        next_active(active, input) == active,
{
}

/// The input events that a client injects are exactly the pointer and key
/// events: while the session is active, a mouse move, a button press or
/// release, a wheel turn, a key press or a key release is passed on, and
/// no other message is; while it is not active, none is.
pub proof fn lemma_input_events_forwarded(m: SpecMessage)
    ensures
        (m is MouseMove || m is MouseDown || m is MouseUp || m is MouseWheel || m is KeyDown
            || m is KeyUp) <==> forwards(true, m),
        !forwards(false, m),
{
}

/// The state of a client session: whether the cursor is on this screen.
pub struct ClientSession {
    is_active: bool,
}

impl View for ClientSession {
    type V = bool;

    closed spec fn view(&self) -> bool {
        self.is_active
    }
}

impl ClientSession {
    pub fn new() -> (s: Self)
        ensures
            !s@,
    {
        ClientSession { is_active: false }
    }

    /// Whether the cursor is on this screen.
    pub fn is_active(&self) -> (r: bool)
        ensures
            r == self@,
    {
        self.is_active
    }

    /// Handles a message from the server: `Enter` and `Leave` switch the
    /// session on and off, input events are passed on only while it is on,
    /// and text clipboard data is placed on the clipboard.
    pub fn handle_server_message(&mut self, message: Message) -> (r: ClientAction)
        ensures
            final(self)@ == next_active(old(self)@, message@),
            match message@ {
                SpecMessage::Enter { x, y, .. } => r == (ClientAction::CursorEntered { x, y }),
                SpecMessage::Leave => r is CursorLeft,
                SpecMessage::ClipboardData { format, data, .. } => if format
                    == ClipboardFormat::Text && valid_utf8(data) {
                    r matches ClientAction::SetClipboardText(t) && t@ == decode_utf8(data)
                } else {
                    r is Ignore
                },
                _ => if forwards(old(self)@, message@) {
                    r matches ClientAction::Input(m) && m@ == message@
                } else {
                    r is Ignore
                },
            },
    {
        match message {
            Message::Enter { x, y, .. } => {
                self.is_active = true;
                ClientAction::CursorEntered { x, y }
            },
            Message::Leave => {
                self.is_active = false;
                ClientAction::CursorLeft
            },
            Message::ClipboardData { data, format, .. } => {
                match text_of_clipboard_data(format, data.as_slice()) {
                    Some(text) => ClientAction::SetClipboardText(text),
                    None => ClientAction::Ignore,
                }
            },
            Message::MouseMove { .. } | Message::MouseDown { .. } | Message::MouseUp { .. }
            | Message::MouseWheel { .. } | Message::KeyDown { .. } | Message::KeyUp { .. } => {
                if self.is_active {
                    ClientAction::Input(message)
                } else {
                    ClientAction::Ignore
                }
            },
            _ => ClientAction::Ignore,
        }
    }
}

pub open spec fn expected_hello_back_message() -> Seq<char> {
    "Expected HelloBack message"@
}

/// The server's answer to our hello must be a `HelloBack`; gives the server's
/// name and protocol version.
pub fn expect_hello_back(message: Message) -> (r: Result<(String, u16, u16), Error>)
    ensures
        match message@ {
            SpecMessage::HelloBack { major, minor, name } => r matches Ok((n, a, b)) && n@ == name
                && a == major && b == minor,
            _ => r matches Err(Error::Protocol(t)) && t@ == expected_hello_back_message(),
        },
{
    match message {
        Message::HelloBack { name, major, minor } => Ok((name, major, minor)),
        _ => Err(Error::Protocol("Expected HelloBack message".to_owned())),
    }
}

/// Rust's `/ 2` on an `i32` (rounding toward zero).
pub open spec fn half_toward_zero(v: int) -> int {
    if v >= 0 {
        v / 2
    } else {
        -((-v) / 2)
    }
}

/// The description of this screen that the client sends after the
/// handshake: position and size, and the cursor at the centre, each
/// truncated to an `i16`.
pub fn screen_info_message(screen: &ScreenConfig) -> (m: Message)
    ensures
        m@ == (SpecMessage::ScreenInfo {
            x: screen.position.x as i16,
            y: screen.position.y as i16,
            width: screen.width as i16,
            height: screen.height as i16,
            cursor_x: half_toward_zero(screen.width as int) as i16,
            cursor_y: half_toward_zero(screen.height as int) as i16,
        }),
{
    #[verifier::truncate]
    let x = screen.position.x as i16;
    #[verifier::truncate]
    let y = screen.position.y as i16;
    #[verifier::truncate]
    let width = screen.width as i16;
    #[verifier::truncate]
    let height = screen.height as i16;
    #[verifier::truncate]
    let cursor_x = (screen.width / 2) as i16;
    #[verifier::truncate]
    let cursor_y = (screen.height / 2) as i16;
    Message::ScreenInfo { x, y, width, height, cursor_x, cursor_y }
}

} // verus!
