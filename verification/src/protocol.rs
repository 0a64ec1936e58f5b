//! Deskflow-compatible wire protocol
//!
//! This implements a protocol compatible with Deskflow/Barrier/Synergy,
//! allowing interoperability with existing clients.
//!
//! A frame on the wire is the payload's length as a big-endian `u32`,
//! followed by the payload. The payload is the `bincode` encoding of a
//! [`Message`]: the variant's index as a `u32`, then the variant's fields in
//! order (see [`crate::wire`]).

use vstd::prelude::*;
use vstd::bytes::*;
use vstd::utf8::*;
use crate::wire::{
    lemma_u8_canonical,
    lemma_i8_canonical,
    lemma_u16_canonical,
    lemma_i16_canonical,
    lemma_u32_canonical,
    lemma_u64_canonical,
    lemma_bytes_canonical,
    lemma_str_canonical,
    enc_bytes,
    enc_i16,
    enc_i8,
    enc_str,
    enc_u16,
    enc_u32,
    enc_u64,
    enc_u8,
    lemma_bytes_roundtrip,
    lemma_i16_roundtrip,
    lemma_i8_roundtrip,
    lemma_str_roundtrip,
    lemma_u16_roundtrip,
    lemma_u32_roundtrip,
    lemma_u64_roundtrip,
    lemma_u8_roundtrip,
    parse_bytes,
    parse_i16,
    parse_i8,
    parse_str,
    parse_u16,
    parse_u32,
    parse_u64,
    parse_u8,
    read_bytes,
    read_i16,
    read_i8,
    read_string,
    read_u16,
    read_u32,
    read_u64,
    read_u8,
    write_bytes,
    write_i16,
    write_i8,
    write_str,
    write_u16,
    write_u32,
    write_u64,
    write_u8,
};
use crate::error::Error;

pub mod modifiers;
pub mod buttons;
pub mod keys;

verus! {

broadcast use vstd::seq_lib::group_seq_properties;

/// Protocol version
pub const PROTOCOL_MAJOR: u16 = 1;

pub const PROTOCOL_MINOR: u16 = 6;

/// Message types in the protocol
#[derive(Debug, Clone)]
pub enum Message {
    // Connection messages
    Hello {
        major: u16,
        minor: u16,
        name: String,
    },
    HelloBack {
        major: u16,
        minor: u16,
        name: String,
    },

    // Input messages
    KeyDown {
        key_id: u16,
        modifier_mask: u16,
        key_button: u16,
    },
    KeyUp {
        key_id: u16,
        modifier_mask: u16,
        key_button: u16,
    },
    KeyRepeat {
        key_id: u16,
        modifier_mask: u16,
        key_button: u16,
        count: u16,
    },

    // Mouse messages
    MouseDown {
        button_id: i8,
    },
    MouseUp {
        button_id: i8,
    },
    MouseMove {
        x: i16,
        y: i16,
    },
    MouseRelativeMove {
        dx: i16,
        dy: i16,
    },
    MouseWheel {
        x_delta: i16,
        y_delta: i16,
    },

    // Screen switching
    Enter {
        x: i16,
        y: i16,
        sequence_number: u32,
        modifier_mask: u16,
    },
    Leave,

    // Clipboard
    ClipboardGrab {
        clipboard_id: u8,
        sequence_number: u32,
    },
    ClipboardData {
        clipboard_id: u8,
        sequence_number: u32,
        format: ClipboardFormat,
        data: Vec<u8>,
    },

    // Screen info
    ScreenInfo {
        x: i16,
        y: i16,
        width: i16,
        height: i16,
        cursor_x: i16,
        cursor_y: i16,
    },
    InfoAck,

    // Keep alive
    KeepAlive,

    // Options
    SetOptions {
        options: Vec<(String, u32)>,
    },
    ResetOptions,

    // Query
    QueryInfo,

    // Error/close
    Close,
    ErrorMsg {
        error: String,
    },

    // File transfer (extension)
    FileTransferStart {
        filename: String,
        size: u64,
        transfer_id: u32,
    },
    FileTransferData {
        transfer_id: u32,
        data: Vec<u8>,
    },
    FileTransferEnd {
        transfer_id: u32,
    },
}

#[derive(Debug, Clone, Copy, PartialEq, Eq, Structural)]
pub enum ClipboardFormat {
    Text,
    Html,
    Bitmap,
    File,
}

/// The mathematical value of a [`Message`]: strings as characters, byte
/// buffers as sequences.
pub enum SpecMessage {
    Hello { major: u16, minor: u16, name: Seq<char> },
    HelloBack { major: u16, minor: u16, name: Seq<char> },
    KeyDown { key_id: u16, modifier_mask: u16, key_button: u16 },
    KeyUp { key_id: u16, modifier_mask: u16, key_button: u16 },
    KeyRepeat { key_id: u16, modifier_mask: u16, key_button: u16, count: u16 },
    MouseDown { button_id: i8 },
    MouseUp { button_id: i8 },
    MouseMove { x: i16, y: i16 },
    MouseRelativeMove { dx: i16, dy: i16 },
    MouseWheel { x_delta: i16, y_delta: i16 },
    Enter { x: i16, y: i16, sequence_number: u32, modifier_mask: u16 },
    Leave,
    ClipboardGrab { clipboard_id: u8, sequence_number: u32 },
    ClipboardData { clipboard_id: u8, sequence_number: u32, format: ClipboardFormat, data: Seq<u8> },
    ScreenInfo { x: i16, y: i16, width: i16, height: i16, cursor_x: i16, cursor_y: i16 },
    InfoAck,
    KeepAlive,
    SetOptions { options: Seq<(Seq<char>, u32)> },
    ResetOptions,
    QueryInfo,
    Close,
    ErrorMsg { error: Seq<char> },
    FileTransferStart { filename: Seq<char>, size: u64, transfer_id: u32 },
    FileTransferData { transfer_id: u32, data: Seq<u8> },
    FileTransferEnd { transfer_id: u32 },
}

impl View for Message {
    type V = SpecMessage;

    open spec fn view(&self) -> SpecMessage {
        match self {
            Message::Hello { major, minor, name } => SpecMessage::Hello { major: *major, minor: *minor, name: name@ },
            Message::HelloBack { major, minor, name } => SpecMessage::HelloBack { major: *major, minor: *minor, name: name@ },
            Message::KeyDown { key_id, modifier_mask, key_button } => SpecMessage::KeyDown { key_id: *key_id, modifier_mask: *modifier_mask, key_button: *key_button },
            Message::KeyUp { key_id, modifier_mask, key_button } => SpecMessage::KeyUp { key_id: *key_id, modifier_mask: *modifier_mask, key_button: *key_button },
            Message::KeyRepeat { key_id, modifier_mask, key_button, count } => SpecMessage::KeyRepeat { key_id: *key_id, modifier_mask: *modifier_mask, key_button: *key_button, count: *count },
            Message::MouseDown { button_id } => SpecMessage::MouseDown { button_id: *button_id },
            Message::MouseUp { button_id } => SpecMessage::MouseUp { button_id: *button_id },
            Message::MouseMove { x, y } => SpecMessage::MouseMove { x: *x, y: *y },
            Message::MouseRelativeMove { dx, dy } => SpecMessage::MouseRelativeMove { dx: *dx, dy: *dy },
            Message::MouseWheel { x_delta, y_delta } => SpecMessage::MouseWheel { x_delta: *x_delta, y_delta: *y_delta },
            Message::Enter { x, y, sequence_number, modifier_mask } => SpecMessage::Enter { x: *x, y: *y, sequence_number: *sequence_number, modifier_mask: *modifier_mask },
            Message::Leave => SpecMessage::Leave,
            Message::ClipboardGrab { clipboard_id, sequence_number } => SpecMessage::ClipboardGrab { clipboard_id: *clipboard_id, sequence_number: *sequence_number },
            Message::ClipboardData { clipboard_id, sequence_number, format, data } => SpecMessage::ClipboardData { clipboard_id: *clipboard_id, sequence_number: *sequence_number, format: *format, data: data@ },
            Message::ScreenInfo { x, y, width, height, cursor_x, cursor_y } => SpecMessage::ScreenInfo { x: *x, y: *y, width: *width, height: *height, cursor_x: *cursor_x, cursor_y: *cursor_y },
            Message::InfoAck => SpecMessage::InfoAck,
            Message::KeepAlive => SpecMessage::KeepAlive,
            Message::SetOptions { options } => SpecMessage::SetOptions { options: options_view(options@) },
            Message::ResetOptions => SpecMessage::ResetOptions,
            Message::QueryInfo => SpecMessage::QueryInfo,
            Message::Close => SpecMessage::Close,
            Message::ErrorMsg { error } => SpecMessage::ErrorMsg { error: error@ },
            Message::FileTransferStart { filename, size, transfer_id } => SpecMessage::FileTransferStart { filename: filename@, size: *size, transfer_id: *transfer_id },
            Message::FileTransferData { transfer_id, data } => SpecMessage::FileTransferData { transfer_id: *transfer_id, data: data@ },
            Message::FileTransferEnd { transfer_id } => SpecMessage::FileTransferEnd { transfer_id: *transfer_id },
        }
    }
}

// ---------------------------------------------------------------------------
// Clipboard formats are written as the index of their variant.

pub open spec fn format_index(f: ClipboardFormat) -> u32 {
    match f {
        ClipboardFormat::Text => 0,
        ClipboardFormat::Html => 1,
        ClipboardFormat::Bitmap => 2,
        ClipboardFormat::File => 3,
    }
}

pub open spec fn format_of_index(i: u32) -> Option<ClipboardFormat> {
    if i == 0 {
        Some(ClipboardFormat::Text)
    } else if i == 1 {
        Some(ClipboardFormat::Html)
    } else if i == 2 {
        Some(ClipboardFormat::Bitmap)
    } else if i == 3 {
        Some(ClipboardFormat::File)
    } else {
        None
    }
}

pub open spec fn enc_format(f: ClipboardFormat, rest: Seq<u8>) -> Seq<u8> {
    enc_u32(format_index(f), rest)
}

pub open spec fn parse_format(s: Seq<u8>) -> Option<(ClipboardFormat, Seq<u8>)> {
    match parse_u32(s) {
        Some((i, r)) => match format_of_index(i) {
            Some(f) => Some((f, r)),
            None => None,
        },
        None => None,
    }
}

pub proof fn lemma_format_roundtrip(f: ClipboardFormat, rest: Seq<u8>)
    ensures
        parse_format(enc_format(f, rest)) == Some((f, rest)),
{
    lemma_u32_roundtrip(format_index(f), rest);
}

pub proof fn lemma_format_canonical(s: Seq<u8>)
    ensures
        parse_format(s) matches Some((f, r)) ==> s == enc_format(f, r),
{
    lemma_u32_canonical(s);
}

fn read_format(data: &[u8], pos: usize) -> (r: Option<(ClipboardFormat, usize)>)
    requires
        pos <= data@.len(),
    ensures
        match r {
            Some((v, next)) => pos <= next <= data@.len() && parse_format(data@.skip(pos as int))
                == Some((v, data@.skip(next as int))),
            None => parse_format(data@.skip(pos as int)) is None,
        },
{
    match read_u32(data, pos) {
        Some((i, next)) => {
            if i == 0 {
                Some((ClipboardFormat::Text, next))
            } else if i == 1 {
                Some((ClipboardFormat::Html, next))
            } else if i == 2 {
                Some((ClipboardFormat::Bitmap, next))
            } else if i == 3 {
                Some((ClipboardFormat::File, next))
            } else {
                None
            }
        },
        None => None,
    }
}

fn write_format(out: &mut Vec<u8>, f: ClipboardFormat)
    ensures
        final(out)@ == old(out)@ + spec_u32_to_le_bytes(format_index(f)),
{
    let i: u32 = match f {
        ClipboardFormat::Text => 0,
        ClipboardFormat::Html => 1,
        ClipboardFormat::Bitmap => 2,
        ClipboardFormat::File => 3,
    };
    write_u32(out, i);
}

// ---------------------------------------------------------------------------
// An option list is written as its length as a `u64`, then each pair: the
// name as a string and the value as a `u32`.

pub open spec fn options_view(v: Seq<(String, u32)>) -> Seq<(Seq<char>, u32)> {
    v.map_values(|p: (String, u32)| (p.0@, p.1))
}

pub open spec fn enc_option_items(opts: Seq<(Seq<char>, u32)>, rest: Seq<u8>) -> Seq<u8>
    decreases opts.len(),
{
    if opts.len() == 0 {
        rest
    } else {
        enc_str(opts[0].0, enc_u32(opts[0].1, enc_option_items(opts.drop_first(), rest)))
    }
}

pub open spec fn enc_options(opts: Seq<(Seq<char>, u32)>, rest: Seq<u8>) -> Seq<u8> {
    enc_u64(opts.len() as u64, enc_option_items(opts, rest))
}

pub open spec fn parse_option_items(s: Seq<u8>, n: nat) -> Option<(Seq<(Seq<char>, u32)>, Seq<u8>)>
    decreases n,
{
    if n == 0 {
        Some((Seq::empty(), s))
    } else {
        match parse_str(s) {
            Some((k, r1)) => match parse_u32(r1) {
                Some((v, r2)) => match parse_option_items(r2, (n - 1) as nat) {
                    Some((t, r3)) => Some((seq![(k, v)] + t, r3)),
                    None => None,
                },
                None => None,
            },
            None => None,
        }
    }
}

pub open spec fn parse_options(s: Seq<u8>) -> Option<(Seq<(Seq<char>, u32)>, Seq<u8>)> {
    match parse_u64(s) {
        Some((n, r)) => parse_option_items(r, n as nat),
        None => None,
    }
}

pub open spec fn options_well_sized(opts: Seq<(Seq<char>, u32)>) -> bool {
    &&& opts.len() <= u64::MAX
    &&& forall|i: int| 0 <= i < opts.len() ==> #[trigger] encode_utf8(opts[i].0).len() <= u64::MAX
}

proof fn lemma_option_items_roundtrip(opts: Seq<(Seq<char>, u32)>, rest: Seq<u8>)
    requires
        forall|i: int| 0 <= i < opts.len() ==> #[trigger] encode_utf8(opts[i].0).len() <= u64::MAX,
    ensures
        parse_option_items(enc_option_items(opts, rest), opts.len()) == Some((opts, rest)),
    decreases opts.len(),
{
    if opts.len() == 0 {
        assert(opts =~= Seq::empty());
    } else {
        let t = opts.drop_first();
        assert forall|i: int| 0 <= i < t.len() implies #[trigger] encode_utf8(t[i].0).len()
            <= u64::MAX by {
            assert(t[i] == opts[i + 1]);
        }
        lemma_option_items_roundtrip(t, rest);
        let tail = enc_option_items(t, rest);
        assert(encode_utf8(opts[0].0).len() <= u64::MAX);
        lemma_u32_roundtrip(opts[0].1, tail);
        lemma_str_roundtrip(opts[0].0, enc_u32(opts[0].1, tail));
        assert(seq![(opts[0].0, opts[0].1)] + t =~= opts);
    }
}

pub proof fn lemma_options_roundtrip(opts: Seq<(Seq<char>, u32)>, rest: Seq<u8>)
    requires
        options_well_sized(opts),
    ensures
        parse_options(enc_options(opts, rest)) == Some((opts, rest)),
{
    lemma_option_items_roundtrip(opts, rest);
    lemma_u64_roundtrip(opts.len() as u64, enc_option_items(opts, rest));
}

proof fn lemma_option_items_canonical(s: Seq<u8>, n: nat)
    ensures
        parse_option_items(s, n) matches Some((o, r)) ==> o.len() == n && s == enc_option_items(o, r),
    decreases n,
{
    if n > 0 {
        lemma_str_canonical(s);
        if let Some((k, r1)) = parse_str(s) {
            lemma_u32_canonical(r1);
            if let Some((v, r2)) = parse_u32(r1) {
                lemma_option_items_canonical(r2, (n - 1) as nat);
                if let Some((t, r3)) = parse_option_items(r2, (n - 1) as nat) {
                    let o = seq![(k, v)] + t;
                    assert(o[0] == (k, v));
                    assert(o.drop_first() =~= t);
                }
            }
        }
    }
}

pub proof fn lemma_options_canonical(s: Seq<u8>)
    ensures
        parse_options(s) matches Some((o, r)) ==> s == enc_options(o, r),
{
    lemma_u64_canonical(s);
    if let Some((n, r0)) = parse_u64(s) {
        lemma_option_items_canonical(r0, n as nat);
    }
}

fn read_options(data: &[u8], pos: usize) -> (r: Option<(Vec<(String, u32)>, usize)>)
    requires
        pos <= data@.len(),
    ensures
        match r {
            Some((v, next)) => pos <= next <= data@.len() && parse_options(data@.skip(pos as int))
                == Some((options_view(v@), data@.skip(next as int))),
            None => parse_options(data@.skip(pos as int)) is None,
        },
{
    let (n, start) = match read_u64(data, pos) {
        Some(x) => x,
        None => return None,
    };
    let mut items: Vec<(String, u32)> = Vec::new();
    let mut p = start;
    let mut i: u64 = 0;
    assert(options_view(items@) =~= Seq::empty());
    while i < n
        invariant
            start <= p <= data@.len(),
            pos <= start,
            i <= n,
            parse_u64(data@.skip(pos as int)) == Some((n, data@.skip(start as int))),
            parse_option_items(data@.skip(start as int), n as nat) == match parse_option_items(
                data@.skip(p as int),
                (n - i) as nat,
            ) {
                Some((t, r)) => Some((options_view(items@) + t, r)),
                None => None,
            },
        decreases n - i,
    {
        let (k, p1) = match read_string(data, p) {
            Some(x) => x,
            None => return None,
        };
        let (v, p2) = match read_u32(data, p1) {
            Some(x) => x,
            None => return None,
        };
        let ghost old_view = options_view(items@);
        items.push((k, v));
        proof {
            assert(options_view(items@) =~= old_view.push((k@, v)));
            assert forall|t: Seq<(Seq<char>, u32)>| #[trigger] (old_view + (seq![(k@, v)] + t))
                =~= options_view(items@) + t by {}
        }
        p = p2;
        i = i + 1;
    }
    assert(options_view(items@) + Seq::<(Seq<char>, u32)>::empty() =~= options_view(items@));
    Some((items, p))
}

fn write_options(out: &mut Vec<u8>, opts: &Vec<(String, u32)>)
    ensures
        final(out)@ == old(out)@ + enc_options(options_view(opts@), Seq::empty()),
        options_well_sized(options_view(opts@)),
{
    let ghost v = options_view(opts@);
    let ghost e = Seq::<u8>::empty();
    write_u64(out, opts.len() as u64);
    let mut i: usize = 0;
    assert(v.skip(0) =~= v);
    while i < opts.len()
        invariant
            i <= opts@.len(),
            v == options_view(opts@),
            old(out)@ + enc_options(v, e) == out@ + enc_option_items(v.skip(i as int), e),
            forall|j: int| 0 <= j < i ==> #[trigger] encode_utf8(v[j].0).len() <= u64::MAX,
        decreases opts@.len() - i,
    {
        let k = &opts[i].0;
        let val = opts[i].1;
        let ghost before = out@;
        write_str(out, k.as_str());
        write_u32(out, val);
        proof {
            let tail = v.skip(i as int);
            assert(tail[0] == (k@, val));
            assert(tail.drop_first() =~= v.skip(i + 1));
            let rest = enc_option_items(v.skip(i + 1), e);
            assert(out@ + rest =~= before + enc_str(k@, enc_u32(val, rest)));
        }
        i = i + 1;
    }
    assert(enc_option_items(v.skip(i as int), e) =~= e);
    assert(out@ =~= old(out)@ + enc_options(v, e));
}

// ---------------------------------------------------------------------------
// The payload encoding of a whole message.

/// Every string, byte buffer and list in the message has a length that fits
/// the `u64` that the encoding writes for it.
pub open spec fn well_sized(m: SpecMessage) -> bool {
    match m {
        SpecMessage::Hello { major, minor, name } => encode_utf8(name).len() <= u64::MAX,
        SpecMessage::HelloBack { major, minor, name } => encode_utf8(name).len() <= u64::MAX,
        SpecMessage::ClipboardData { clipboard_id, sequence_number, format, data } => data.len() <= u64::MAX,
        SpecMessage::SetOptions { options } => options_well_sized(options),
        SpecMessage::ErrorMsg { error } => encode_utf8(error).len() <= u64::MAX,
        SpecMessage::FileTransferStart { filename, size, transfer_id } => encode_utf8(filename).len() <= u64::MAX,
        SpecMessage::FileTransferData { transfer_id, data } => data.len() <= u64::MAX,
        _ => true,
    }
}

/// The payload encoding of a message, followed by `rest`: the variant's index
/// as a `u32`, then its fields in order.
pub open spec fn ser_message(m: SpecMessage, rest: Seq<u8>) -> Seq<u8> {
    match m {
        SpecMessage::Hello { major, minor, name } => enc_u32(0, enc_u16(major, enc_u16(minor, enc_str(name, rest)))),
        SpecMessage::HelloBack { major, minor, name } => enc_u32(1, enc_u16(major, enc_u16(minor, enc_str(name, rest)))),
        SpecMessage::KeyDown { key_id, modifier_mask, key_button } => enc_u32(2, enc_u16(key_id, enc_u16(modifier_mask, enc_u16(key_button, rest)))),
        SpecMessage::KeyUp { key_id, modifier_mask, key_button } => enc_u32(3, enc_u16(key_id, enc_u16(modifier_mask, enc_u16(key_button, rest)))),
        SpecMessage::KeyRepeat { key_id, modifier_mask, key_button, count } => enc_u32(4, enc_u16(key_id, enc_u16(modifier_mask, enc_u16(key_button, enc_u16(count, rest))))),
        SpecMessage::MouseDown { button_id } => enc_u32(5, enc_i8(button_id, rest)),
        SpecMessage::MouseUp { button_id } => enc_u32(6, enc_i8(button_id, rest)),
        SpecMessage::MouseMove { x, y } => enc_u32(7, enc_i16(x, enc_i16(y, rest))),
        SpecMessage::MouseRelativeMove { dx, dy } => enc_u32(8, enc_i16(dx, enc_i16(dy, rest))),
        SpecMessage::MouseWheel { x_delta, y_delta } => enc_u32(9, enc_i16(x_delta, enc_i16(y_delta, rest))),
        SpecMessage::Enter { x, y, sequence_number, modifier_mask } => enc_u32(10, enc_i16(x, enc_i16(y, enc_u32(sequence_number, enc_u16(modifier_mask, rest))))),
        SpecMessage::Leave => enc_u32(11, rest),
        SpecMessage::ClipboardGrab { clipboard_id, sequence_number } => enc_u32(12, enc_u8(clipboard_id, enc_u32(sequence_number, rest))),
        SpecMessage::ClipboardData { clipboard_id, sequence_number, format, data } => enc_u32(13, enc_u8(clipboard_id, enc_u32(sequence_number, enc_format(format, enc_bytes(data, rest))))),
        SpecMessage::ScreenInfo { x, y, width, height, cursor_x, cursor_y } => enc_u32(14, enc_i16(x, enc_i16(y, enc_i16(width, enc_i16(height, enc_i16(cursor_x, enc_i16(cursor_y, rest))))))),
        SpecMessage::InfoAck => enc_u32(15, rest),
        SpecMessage::KeepAlive => enc_u32(16, rest),
        SpecMessage::SetOptions { options } => enc_u32(17, enc_options(options, rest)),
        SpecMessage::ResetOptions => enc_u32(18, rest),
        SpecMessage::QueryInfo => enc_u32(19, rest),
        SpecMessage::Close => enc_u32(20, rest),
        SpecMessage::ErrorMsg { error } => enc_u32(21, enc_str(error, rest)),
        SpecMessage::FileTransferStart { filename, size, transfer_id } => enc_u32(22, enc_str(filename, enc_u64(size, enc_u32(transfer_id, rest)))),
        SpecMessage::FileTransferData { transfer_id, data } => enc_u32(23, enc_u32(transfer_id, enc_bytes(data, rest))),
        SpecMessage::FileTransferEnd { transfer_id } => enc_u32(24, enc_u32(transfer_id, rest)),
    }
}

/// Parses the fields of the variant with index `tag`.
pub open spec fn parse_fields(tag: u32, s: Seq<u8>) -> Option<(SpecMessage, Seq<u8>)> {
    if tag == 0 {
        match parse_u16(s) {
            Some((major, r1)) => match parse_u16(r1) {
            Some((minor, r2)) => match parse_str(r2) {
            Some((name, r3)) => Some((SpecMessage::Hello { major, minor, name }, r3)),
            None => None,
        },
            None => None,
        },
            None => None,
        }
    } else if tag == 1 {
        match parse_u16(s) {
            Some((major, r1)) => match parse_u16(r1) {
            Some((minor, r2)) => match parse_str(r2) {
            Some((name, r3)) => Some((SpecMessage::HelloBack { major, minor, name }, r3)),
            None => None,
        },
            None => None,
        },
            None => None,
        }
    } else if tag == 2 {
        match parse_u16(s) {
            Some((key_id, r1)) => match parse_u16(r1) {
            Some((modifier_mask, r2)) => match parse_u16(r2) {
            Some((key_button, r3)) => Some((SpecMessage::KeyDown { key_id, modifier_mask, key_button }, r3)),
            None => None,
        },
            None => None,
        },
            None => None,
        }
    } else if tag == 3 {
        match parse_u16(s) {
            Some((key_id, r1)) => match parse_u16(r1) {
            Some((modifier_mask, r2)) => match parse_u16(r2) {
            Some((key_button, r3)) => Some((SpecMessage::KeyUp { key_id, modifier_mask, key_button }, r3)),
            None => None,
        },
            None => None,
        },
            None => None,
        }
    } else if tag == 4 {
        match parse_u16(s) {
            Some((key_id, r1)) => match parse_u16(r1) {
            Some((modifier_mask, r2)) => match parse_u16(r2) {
            Some((key_button, r3)) => match parse_u16(r3) {
            Some((count, r4)) => Some((SpecMessage::KeyRepeat { key_id, modifier_mask, key_button, count }, r4)),
            None => None,
        },
            None => None,
        },
            None => None,
        },
            None => None,
        }
    } else if tag == 5 {
        match parse_i8(s) {
            Some((button_id, r1)) => Some((SpecMessage::MouseDown { button_id }, r1)),
            None => None,
        }
    } else if tag == 6 {
        match parse_i8(s) {
            Some((button_id, r1)) => Some((SpecMessage::MouseUp { button_id }, r1)),
            None => None,
        }
    } else if tag == 7 {
        match parse_i16(s) {
            Some((x, r1)) => match parse_i16(r1) {
            Some((y, r2)) => Some((SpecMessage::MouseMove { x, y }, r2)),
            None => None,
        },
            None => None,
        }
    } else if tag == 8 {
        match parse_i16(s) {
            Some((dx, r1)) => match parse_i16(r1) {
            Some((dy, r2)) => Some((SpecMessage::MouseRelativeMove { dx, dy }, r2)),
            None => None,
        },
            None => None,
        }
    } else if tag == 9 {
        match parse_i16(s) {
            Some((x_delta, r1)) => match parse_i16(r1) {
            Some((y_delta, r2)) => Some((SpecMessage::MouseWheel { x_delta, y_delta }, r2)),
            None => None,
        },
            None => None,
        }
    } else if tag == 10 {
        match parse_i16(s) {
            Some((x, r1)) => match parse_i16(r1) {
            Some((y, r2)) => match parse_u32(r2) {
            Some((sequence_number, r3)) => match parse_u16(r3) {
            Some((modifier_mask, r4)) => Some((SpecMessage::Enter { x, y, sequence_number, modifier_mask }, r4)),
            None => None,
        },
            None => None,
        },
            None => None,
        },
            None => None,
        }
    } else if tag == 11 {
        Some((SpecMessage::Leave, s))
    } else if tag == 12 {
        match parse_u8(s) {
            Some((clipboard_id, r1)) => match parse_u32(r1) {
            Some((sequence_number, r2)) => Some((SpecMessage::ClipboardGrab { clipboard_id, sequence_number }, r2)),
            None => None,
        },
            None => None,
        }
    } else if tag == 13 {
        match parse_u8(s) {
            Some((clipboard_id, r1)) => match parse_u32(r1) {
            Some((sequence_number, r2)) => match parse_format(r2) {
            Some((format, r3)) => match parse_bytes(r3) {
            Some((data, r4)) => Some((SpecMessage::ClipboardData { clipboard_id, sequence_number, format, data }, r4)),
            None => None,
        },
            None => None,
        },
            None => None,
        },
            None => None,
        }
    } else if tag == 14 {
        match parse_i16(s) {
            Some((x, r1)) => match parse_i16(r1) {
            Some((y, r2)) => match parse_i16(r2) {
            Some((width, r3)) => match parse_i16(r3) {
            Some((height, r4)) => match parse_i16(r4) {
            Some((cursor_x, r5)) => match parse_i16(r5) {
            Some((cursor_y, r6)) => Some((SpecMessage::ScreenInfo { x, y, width, height, cursor_x, cursor_y }, r6)),
            None => None,
        },
            None => None,
        },
            None => None,
        },
            None => None,
        },
            None => None,
        },
            None => None,
        }
    } else if tag == 15 {
        Some((SpecMessage::InfoAck, s))
    } else if tag == 16 {
        Some((SpecMessage::KeepAlive, s))
    } else if tag == 17 {
        match parse_options(s) {
            Some((options, r1)) => Some((SpecMessage::SetOptions { options }, r1)),
            None => None,
        }
    } else if tag == 18 {
        Some((SpecMessage::ResetOptions, s))
    } else if tag == 19 {
        Some((SpecMessage::QueryInfo, s))
    } else if tag == 20 {
        Some((SpecMessage::Close, s))
    } else if tag == 21 {
        match parse_str(s) {
            Some((error, r1)) => Some((SpecMessage::ErrorMsg { error }, r1)),
            None => None,
        }
    } else if tag == 22 {
        match parse_str(s) {
            Some((filename, r1)) => match parse_u64(r1) {
            Some((size, r2)) => match parse_u32(r2) {
            Some((transfer_id, r3)) => Some((SpecMessage::FileTransferStart { filename, size, transfer_id }, r3)),
            None => None,
        },
            None => None,
        },
            None => None,
        }
    } else if tag == 23 {
        match parse_u32(s) {
            Some((transfer_id, r1)) => match parse_bytes(r1) {
            Some((data, r2)) => Some((SpecMessage::FileTransferData { transfer_id, data }, r2)),
            None => None,
        },
            None => None,
        }
    } else if tag == 24 {
        match parse_u32(s) {
            Some((transfer_id, r1)) => Some((SpecMessage::FileTransferEnd { transfer_id }, r1)),
            None => None,
        }
    } else {
        None
    }
}

/// Parses a message at the start of `s`; gives the message and the bytes
/// after it.
pub open spec fn parse_message(s: Seq<u8>) -> Option<(SpecMessage, Seq<u8>)> {
    match parse_u32(s) {
        Some((tag, r)) => parse_fields(tag, r),
        None => None,
    }
}

/// Parsing the encoding of a message gives back the message and the bytes
/// that followed it.
pub proof fn lemma_message_roundtrip(m: SpecMessage, rest: Seq<u8>)
    requires
        well_sized(m),
    ensures
        parse_message(ser_message(m, rest)) == Some((m, rest)),
{
    match m {
        SpecMessage::Hello { major, minor, name } => {
            lemma_u32_roundtrip(0, enc_u16(major, enc_u16(minor, enc_str(name, rest))));
            lemma_u16_roundtrip(major, enc_u16(minor, enc_str(name, rest)));
            lemma_u16_roundtrip(minor, enc_str(name, rest));
            lemma_str_roundtrip(name, rest);
        },
        SpecMessage::HelloBack { major, minor, name } => {
            lemma_u32_roundtrip(1, enc_u16(major, enc_u16(minor, enc_str(name, rest))));
            lemma_u16_roundtrip(major, enc_u16(minor, enc_str(name, rest)));
            lemma_u16_roundtrip(minor, enc_str(name, rest));
            lemma_str_roundtrip(name, rest);
        },
        SpecMessage::KeyDown { key_id, modifier_mask, key_button } => {
            lemma_u32_roundtrip(2, enc_u16(key_id, enc_u16(modifier_mask, enc_u16(key_button, rest))));
            lemma_u16_roundtrip(key_id, enc_u16(modifier_mask, enc_u16(key_button, rest)));
            lemma_u16_roundtrip(modifier_mask, enc_u16(key_button, rest));
            lemma_u16_roundtrip(key_button, rest);
        },
        SpecMessage::KeyUp { key_id, modifier_mask, key_button } => {
            lemma_u32_roundtrip(3, enc_u16(key_id, enc_u16(modifier_mask, enc_u16(key_button, rest))));
            lemma_u16_roundtrip(key_id, enc_u16(modifier_mask, enc_u16(key_button, rest)));
            lemma_u16_roundtrip(modifier_mask, enc_u16(key_button, rest));
            lemma_u16_roundtrip(key_button, rest);
        },
        SpecMessage::KeyRepeat { key_id, modifier_mask, key_button, count } => {
            lemma_u32_roundtrip(4, enc_u16(key_id, enc_u16(modifier_mask, enc_u16(key_button, enc_u16(count, rest)))));
            lemma_u16_roundtrip(key_id, enc_u16(modifier_mask, enc_u16(key_button, enc_u16(count, rest))));
            lemma_u16_roundtrip(modifier_mask, enc_u16(key_button, enc_u16(count, rest)));
            lemma_u16_roundtrip(key_button, enc_u16(count, rest));
            lemma_u16_roundtrip(count, rest);
        },
        SpecMessage::MouseDown { button_id } => {
            lemma_u32_roundtrip(5, enc_i8(button_id, rest));
            lemma_i8_roundtrip(button_id, rest);
        },
        SpecMessage::MouseUp { button_id } => {
            lemma_u32_roundtrip(6, enc_i8(button_id, rest));
            lemma_i8_roundtrip(button_id, rest);
        },
        SpecMessage::MouseMove { x, y } => {
            lemma_u32_roundtrip(7, enc_i16(x, enc_i16(y, rest)));
            lemma_i16_roundtrip(x, enc_i16(y, rest));
            lemma_i16_roundtrip(y, rest);
        },
        SpecMessage::MouseRelativeMove { dx, dy } => {
            lemma_u32_roundtrip(8, enc_i16(dx, enc_i16(dy, rest)));
            lemma_i16_roundtrip(dx, enc_i16(dy, rest));
            lemma_i16_roundtrip(dy, rest);
        },
        SpecMessage::MouseWheel { x_delta, y_delta } => {
            lemma_u32_roundtrip(9, enc_i16(x_delta, enc_i16(y_delta, rest)));
            lemma_i16_roundtrip(x_delta, enc_i16(y_delta, rest));
            lemma_i16_roundtrip(y_delta, rest);
        },
        SpecMessage::Enter { x, y, sequence_number, modifier_mask } => {
            lemma_u32_roundtrip(10, enc_i16(x, enc_i16(y, enc_u32(sequence_number, enc_u16(modifier_mask, rest)))));
            lemma_i16_roundtrip(x, enc_i16(y, enc_u32(sequence_number, enc_u16(modifier_mask, rest))));
            lemma_i16_roundtrip(y, enc_u32(sequence_number, enc_u16(modifier_mask, rest)));
            lemma_u32_roundtrip(sequence_number, enc_u16(modifier_mask, rest));
            lemma_u16_roundtrip(modifier_mask, rest);
        },
        SpecMessage::Leave => {
            lemma_u32_roundtrip(11, rest);
        },
        SpecMessage::ClipboardGrab { clipboard_id, sequence_number } => {
            lemma_u32_roundtrip(12, enc_u8(clipboard_id, enc_u32(sequence_number, rest)));
            lemma_u8_roundtrip(clipboard_id, enc_u32(sequence_number, rest));
            lemma_u32_roundtrip(sequence_number, rest);
        },
        SpecMessage::ClipboardData { clipboard_id, sequence_number, format, data } => {
            lemma_u32_roundtrip(13, enc_u8(clipboard_id, enc_u32(sequence_number, enc_format(format, enc_bytes(data, rest)))));
            lemma_u8_roundtrip(clipboard_id, enc_u32(sequence_number, enc_format(format, enc_bytes(data, rest))));
            lemma_u32_roundtrip(sequence_number, enc_format(format, enc_bytes(data, rest)));
            lemma_format_roundtrip(format, enc_bytes(data, rest));
            lemma_bytes_roundtrip(data, rest);
        },
        SpecMessage::ScreenInfo { x, y, width, height, cursor_x, cursor_y } => {
            lemma_u32_roundtrip(14, enc_i16(x, enc_i16(y, enc_i16(width, enc_i16(height, enc_i16(cursor_x, enc_i16(cursor_y, rest)))))));
            lemma_i16_roundtrip(x, enc_i16(y, enc_i16(width, enc_i16(height, enc_i16(cursor_x, enc_i16(cursor_y, rest))))));
            lemma_i16_roundtrip(y, enc_i16(width, enc_i16(height, enc_i16(cursor_x, enc_i16(cursor_y, rest)))));
            lemma_i16_roundtrip(width, enc_i16(height, enc_i16(cursor_x, enc_i16(cursor_y, rest))));
            lemma_i16_roundtrip(height, enc_i16(cursor_x, enc_i16(cursor_y, rest)));
            lemma_i16_roundtrip(cursor_x, enc_i16(cursor_y, rest));
            lemma_i16_roundtrip(cursor_y, rest);
        },
        SpecMessage::InfoAck => {
            lemma_u32_roundtrip(15, rest);
        },
        SpecMessage::KeepAlive => {
            lemma_u32_roundtrip(16, rest);
        },
        SpecMessage::SetOptions { options } => {
            lemma_u32_roundtrip(17, enc_options(options, rest));
            lemma_options_roundtrip(options, rest);
        },
        SpecMessage::ResetOptions => {
            lemma_u32_roundtrip(18, rest);
        },
        SpecMessage::QueryInfo => {
            lemma_u32_roundtrip(19, rest);
        },
        SpecMessage::Close => {
            lemma_u32_roundtrip(20, rest);
        },
        SpecMessage::ErrorMsg { error } => {
            lemma_u32_roundtrip(21, enc_str(error, rest));
            lemma_str_roundtrip(error, rest);
        },
        SpecMessage::FileTransferStart { filename, size, transfer_id } => {
            lemma_u32_roundtrip(22, enc_str(filename, enc_u64(size, enc_u32(transfer_id, rest))));
            lemma_str_roundtrip(filename, enc_u64(size, enc_u32(transfer_id, rest)));
            lemma_u64_roundtrip(size, enc_u32(transfer_id, rest));
            lemma_u32_roundtrip(transfer_id, rest);
        },
        SpecMessage::FileTransferData { transfer_id, data } => {
            lemma_u32_roundtrip(23, enc_u32(transfer_id, enc_bytes(data, rest)));
            lemma_u32_roundtrip(transfer_id, enc_bytes(data, rest));
            lemma_bytes_roundtrip(data, rest);
        },
        SpecMessage::FileTransferEnd { transfer_id } => {
            lemma_u32_roundtrip(24, enc_u32(transfer_id, rest));
            lemma_u32_roundtrip(transfer_id, rest);
        },
    }
}

/// A message is parsed only from its own encoding: the parsed message and
/// the remaining bytes put back together give the input.
pub proof fn lemma_message_canonical(s: Seq<u8>)
    ensures
        parse_message(s) matches Some((m, r)) ==> s == ser_message(m, r),
{
    lemma_u32_canonical(s);
    if let Some((tag, r0)) = parse_u32(s) {
        if tag == 0 {
            lemma_u16_canonical(r0);
            let r1 = parse_u16(r0).unwrap().1;
            lemma_u16_canonical(r1);
            let r2 = parse_u16(r1).unwrap().1;
            lemma_str_canonical(r2);
        } else if tag == 1 {
            lemma_u16_canonical(r0);
            let r1 = parse_u16(r0).unwrap().1;
            lemma_u16_canonical(r1);
            let r2 = parse_u16(r1).unwrap().1;
            lemma_str_canonical(r2);
        } else if tag == 2 {
            lemma_u16_canonical(r0);
            let r1 = parse_u16(r0).unwrap().1;
            lemma_u16_canonical(r1);
            let r2 = parse_u16(r1).unwrap().1;
            lemma_u16_canonical(r2);
        } else if tag == 3 {
            lemma_u16_canonical(r0);
            let r1 = parse_u16(r0).unwrap().1;
            lemma_u16_canonical(r1);
            let r2 = parse_u16(r1).unwrap().1;
            lemma_u16_canonical(r2);
        } else if tag == 4 {
            lemma_u16_canonical(r0);
            let r1 = parse_u16(r0).unwrap().1;
            lemma_u16_canonical(r1);
            let r2 = parse_u16(r1).unwrap().1;
            lemma_u16_canonical(r2);
            let r3 = parse_u16(r2).unwrap().1;
            lemma_u16_canonical(r3);
        } else if tag == 5 {
            lemma_i8_canonical(r0);
        } else if tag == 6 {
            lemma_i8_canonical(r0);
        } else if tag == 7 {
            lemma_i16_canonical(r0);
            let r1 = parse_i16(r0).unwrap().1;
            lemma_i16_canonical(r1);
        } else if tag == 8 {
            lemma_i16_canonical(r0);
            let r1 = parse_i16(r0).unwrap().1;
            lemma_i16_canonical(r1);
        } else if tag == 9 {
            lemma_i16_canonical(r0);
            let r1 = parse_i16(r0).unwrap().1;
            lemma_i16_canonical(r1);
        } else if tag == 10 {
            lemma_i16_canonical(r0);
            let r1 = parse_i16(r0).unwrap().1;
            lemma_i16_canonical(r1);
            let r2 = parse_i16(r1).unwrap().1;
            lemma_u32_canonical(r2);
            let r3 = parse_u32(r2).unwrap().1;
            lemma_u16_canonical(r3);
        } else if tag == 11 {
        } else if tag == 12 {
            lemma_u8_canonical(r0);
            let r1 = parse_u8(r0).unwrap().1;
            lemma_u32_canonical(r1);
        } else if tag == 13 {
            lemma_u8_canonical(r0);
            let r1 = parse_u8(r0).unwrap().1;
            lemma_u32_canonical(r1);
            let r2 = parse_u32(r1).unwrap().1;
            lemma_format_canonical(r2);
            let r3 = parse_format(r2).unwrap().1;
            lemma_bytes_canonical(r3);
        } else if tag == 14 {
            lemma_i16_canonical(r0);
            let r1 = parse_i16(r0).unwrap().1;
            lemma_i16_canonical(r1);
            let r2 = parse_i16(r1).unwrap().1;
            lemma_i16_canonical(r2);
            let r3 = parse_i16(r2).unwrap().1;
            lemma_i16_canonical(r3);
            let r4 = parse_i16(r3).unwrap().1;
            lemma_i16_canonical(r4);
            let r5 = parse_i16(r4).unwrap().1;
            lemma_i16_canonical(r5);
        } else if tag == 15 {
        } else if tag == 16 {
        } else if tag == 17 {
            lemma_options_canonical(r0);
        } else if tag == 18 {
        } else if tag == 19 {
        } else if tag == 20 {
        } else if tag == 21 {
            lemma_str_canonical(r0);
        } else if tag == 22 {
            lemma_str_canonical(r0);
            let r1 = parse_str(r0).unwrap().1;
            lemma_u64_canonical(r1);
            let r2 = parse_u64(r1).unwrap().1;
            lemma_u32_canonical(r2);
        } else if tag == 23 {
            lemma_u32_canonical(r0);
            let r1 = parse_u32(r0).unwrap().1;
            lemma_bytes_canonical(r1);
        } else if tag == 24 {
            lemma_u32_canonical(r0);
        }
    }
}

// ---------------------------------------------------------------------------
// Framing.

/// The big-endian bytes of a `u32`.
pub open spec fn be_u32_bytes(x: u32) -> Seq<u8> {
    seq![(x >> 24u32) as u8, ((x >> 16u32) & 0xff) as u8, ((x >> 8u32) & 0xff) as u8, (x & 0xff) as u8]
}

/// The `u32` whose big-endian bytes are the first four of `b`.
pub open spec fn be_u32_value(b: Seq<u8>) -> u32 {
    ((b[0] as u32) << 24u32) | ((b[1] as u32) << 16u32) | ((b[2] as u32) << 8u32) | (b[3] as u32)
}

pub proof fn lemma_be_u32_roundtrip(x: u32)
    ensures
        be_u32_value(be_u32_bytes(x)) == x,
{
    let b0 = (x >> 24u32) as u8;
    let b1 = ((x >> 16u32) & 0xff) as u8;
    let b2 = ((x >> 8u32) & 0xff) as u8;
    let b3 = (x & 0xff) as u8;
    assert(((b0 as u32) << 24u32) | ((b1 as u32) << 16u32) | ((b2 as u32) << 8u32) | (b3 as u32)
        == x) by (bit_vector)
        requires
            b0 == (x >> 24u32) as u8,
            b1 == ((x >> 16u32) & 0xff) as u8,
            b2 == ((x >> 8u32) & 0xff) as u8,
            b3 == (x & 0xff) as u8,
    ;
}

/// The frame header is the payload length in big-endian byte order: the
/// first byte is the most significant.
pub proof fn lemma_frame_header_big_endian(b0: u8, b1: u8, b2: u8, b3: u8)
    ensures
        be_u32_value(seq![b0, b1, b2, b3]) == b0 * 0x1000000 + b1 * 0x10000 + b2 * 0x100 + b3,
{
    let h = seq![b0, b1, b2, b3];
    assert(h[0] == b0 && h[1] == b1 && h[2] == b2 && h[3] == b3);
    assert(((b0 as u32) << 24u32) | ((b1 as u32) << 16u32) | ((b2 as u32) << 8u32) | (b3 as u32)
        == b0 * 0x1000000 + b1 * 0x10000 + b2 * 0x100 + b3) by (bit_vector);
}

/// A frame: the payload's length (as a `u32`, which wraps above
/// `u32::MAX`) in big-endian bytes, then the payload.
pub open spec fn frame(payload: Seq<u8>) -> Seq<u8> {
    be_u32_bytes(payload.len() as u32) + payload
}

/// What decoding gives for the bytes `data`.
pub enum DecodeOutcome {
    /// Fewer than four bytes: no length header.
    TooShort,
    /// The header announces more bytes than follow it.
    Incomplete,
    /// The announced payload holds no message.
    Malformed,
    /// The announced payload starts with this message.
    Decoded(SpecMessage),
}

pub open spec fn spec_decode(data: Seq<u8>) -> DecodeOutcome {
    if data.len() < 4 {
        DecodeOutcome::TooShort
    } else if data.len() < 4 + be_u32_value(data) {
        DecodeOutcome::Incomplete
    } else {
        match parse_message(data.subrange(4, 4 + be_u32_value(data))) {
            Some((m, _)) => DecodeOutcome::Decoded(m),
            None => DecodeOutcome::Malformed,
        }
    }
}

/// Decoding what `encode` produced gives back the message, whatever bytes
/// follow the frame; this holds for every message whose payload length fits
/// the `u32` header.
pub proof fn lemma_codec_roundtrip(m: SpecMessage, more: Seq<u8>)
    requires
        well_sized(m),
        ser_message(m, Seq::empty()).len() <= u32::MAX,
    ensures
        spec_decode(frame(ser_message(m, Seq::empty())) + more) == DecodeOutcome::Decoded(m),
{
    let p = ser_message(m, Seq::empty());
    let d = frame(p) + more;
    let x = p.len() as u32;
    lemma_be_u32_roundtrip(x);
    assert(d[0] == be_u32_bytes(x)[0] && d[1] == be_u32_bytes(x)[1] && d[2] == be_u32_bytes(x)[2]
        && d[3] == be_u32_bytes(x)[3]);
    assert(be_u32_value(d) == x);
    assert(d.subrange(4, 4 + p.len() as int) =~= p);
    lemma_message_roundtrip(m, Seq::empty());
}

/// What `decode` gives is exactly what the frame's payload encodes: the
/// payload is that message's encoding, possibly followed by more bytes.
pub proof fn lemma_decoded_message_is_encoded(data: Seq<u8>)
    ensures
        spec_decode(data) matches DecodeOutcome::Decoded(m) ==> exists|rest: Seq<u8>|
            data.subrange(4, 4 + be_u32_value(data)) == #[trigger] ser_message(m, rest),
{
    if data.len() >= 4 && data.len() >= 4 + be_u32_value(data) {
        let payload = data.subrange(4, 4 + be_u32_value(data));
        lemma_message_canonical(payload);
        if let Some((m, r)) = parse_message(payload) {
            assert(payload == ser_message(m, r));
        }
    }
}

/// The declaration index of a clipboard format, which bincode writes as a
/// `u32`: text 0, HTML 1, bitmap 2, file 3.
pub open spec fn clipboard_format_declaration_index(f: ClipboardFormat) -> u32 {
    match f {
        ClipboardFormat::Text => 0u32,
        ClipboardFormat::Html => 1u32,
        ClipboardFormat::Bitmap => 2u32,
        ClipboardFormat::File => 3u32,
    }
}

/// The payload of every message is what bincode writes for it: the index at
/// which its variant is declared in `Message` (`Hello` 0, `HelloBack` 1,
/// `KeyDown` 2, `KeyUp` 3, ... `FileTransferEnd` 24) as a little-endian
/// `u32`, then its fields in declaration order, integers little-endian and
/// fixed-width, strings and byte buffers as a `u64` length and the bytes.
pub proof fn lemma_bincode_payload_layout(m: SpecMessage)
    ensures
        match m {
            SpecMessage::Hello { major, minor, name } => ser_message(m, Seq::empty()) == spec_u32_to_le_bytes(0) + spec_u16_to_le_bytes(major) + spec_u16_to_le_bytes(minor) + spec_u64_to_le_bytes(encode_utf8(name).len() as u64) + encode_utf8(name),
            SpecMessage::HelloBack { major, minor, name } => ser_message(m, Seq::empty()) == spec_u32_to_le_bytes(1) + spec_u16_to_le_bytes(major) + spec_u16_to_le_bytes(minor) + spec_u64_to_le_bytes(encode_utf8(name).len() as u64) + encode_utf8(name),
            SpecMessage::KeyDown { key_id, modifier_mask, key_button } => ser_message(m, Seq::empty()) == spec_u32_to_le_bytes(2) + spec_u16_to_le_bytes(key_id) + spec_u16_to_le_bytes(modifier_mask) + spec_u16_to_le_bytes(key_button),
            SpecMessage::KeyUp { key_id, modifier_mask, key_button } => ser_message(m, Seq::empty()) == spec_u32_to_le_bytes(3) + spec_u16_to_le_bytes(key_id) + spec_u16_to_le_bytes(modifier_mask) + spec_u16_to_le_bytes(key_button),
            SpecMessage::KeyRepeat { key_id, modifier_mask, key_button, count } => ser_message(m, Seq::empty()) == spec_u32_to_le_bytes(4) + spec_u16_to_le_bytes(key_id) + spec_u16_to_le_bytes(modifier_mask) + spec_u16_to_le_bytes(key_button) + spec_u16_to_le_bytes(count),
            SpecMessage::MouseDown { button_id } => ser_message(m, Seq::empty()) == spec_u32_to_le_bytes(5) + seq![button_id as u8],
            SpecMessage::MouseUp { button_id } => ser_message(m, Seq::empty()) == spec_u32_to_le_bytes(6) + seq![button_id as u8],
            SpecMessage::MouseMove { x, y } => ser_message(m, Seq::empty()) == spec_u32_to_le_bytes(7) + spec_u16_to_le_bytes(x as u16) + spec_u16_to_le_bytes(y as u16),
            SpecMessage::MouseRelativeMove { dx, dy } => ser_message(m, Seq::empty()) == spec_u32_to_le_bytes(8) + spec_u16_to_le_bytes(dx as u16) + spec_u16_to_le_bytes(dy as u16),
            SpecMessage::MouseWheel { x_delta, y_delta } => ser_message(m, Seq::empty()) == spec_u32_to_le_bytes(9) + spec_u16_to_le_bytes(x_delta as u16) + spec_u16_to_le_bytes(y_delta as u16),
            SpecMessage::Enter { x, y, sequence_number, modifier_mask } => ser_message(m, Seq::empty()) == spec_u32_to_le_bytes(10) + spec_u16_to_le_bytes(x as u16) + spec_u16_to_le_bytes(y as u16) + spec_u32_to_le_bytes(sequence_number) + spec_u16_to_le_bytes(modifier_mask),
            SpecMessage::Leave => ser_message(m, Seq::empty()) == spec_u32_to_le_bytes(11),
            SpecMessage::ClipboardGrab { clipboard_id, sequence_number } => ser_message(m, Seq::empty()) == spec_u32_to_le_bytes(12) + seq![clipboard_id] + spec_u32_to_le_bytes(sequence_number),
            SpecMessage::ClipboardData { clipboard_id, sequence_number, format, data } => ser_message(m, Seq::empty()) == spec_u32_to_le_bytes(13) + seq![clipboard_id] + spec_u32_to_le_bytes(sequence_number) + spec_u32_to_le_bytes(clipboard_format_declaration_index(format)) + spec_u64_to_le_bytes(data.len() as u64) + data,
            SpecMessage::ScreenInfo { x, y, width, height, cursor_x, cursor_y } => ser_message(m, Seq::empty()) == spec_u32_to_le_bytes(14) + spec_u16_to_le_bytes(x as u16) + spec_u16_to_le_bytes(y as u16) + spec_u16_to_le_bytes(width as u16) + spec_u16_to_le_bytes(height as u16) + spec_u16_to_le_bytes(cursor_x as u16) + spec_u16_to_le_bytes(cursor_y as u16),
            SpecMessage::InfoAck => ser_message(m, Seq::empty()) == spec_u32_to_le_bytes(15),
            SpecMessage::KeepAlive => ser_message(m, Seq::empty()) == spec_u32_to_le_bytes(16),
            SpecMessage::SetOptions { options } => ser_message(m, Seq::empty()) == spec_u32_to_le_bytes(17) + spec_u64_to_le_bytes(options.len() as u64) + enc_option_items(options, Seq::empty()),
            SpecMessage::ResetOptions => ser_message(m, Seq::empty()) == spec_u32_to_le_bytes(18),
            SpecMessage::QueryInfo => ser_message(m, Seq::empty()) == spec_u32_to_le_bytes(19),
            SpecMessage::Close => ser_message(m, Seq::empty()) == spec_u32_to_le_bytes(20),
            SpecMessage::ErrorMsg { error } => ser_message(m, Seq::empty()) == spec_u32_to_le_bytes(21) + spec_u64_to_le_bytes(encode_utf8(error).len() as u64) + encode_utf8(error),
            SpecMessage::FileTransferStart { filename, size, transfer_id } => ser_message(m, Seq::empty()) == spec_u32_to_le_bytes(22) + spec_u64_to_le_bytes(encode_utf8(filename).len() as u64) + encode_utf8(filename) + spec_u64_to_le_bytes(size) + spec_u32_to_le_bytes(transfer_id),
            SpecMessage::FileTransferData { transfer_id, data } => ser_message(m, Seq::empty()) == spec_u32_to_le_bytes(23) + spec_u32_to_le_bytes(transfer_id) + spec_u64_to_le_bytes(data.len() as u64) + data,
            SpecMessage::FileTransferEnd { transfer_id } => ser_message(m, Seq::empty()) == spec_u32_to_le_bytes(24) + spec_u32_to_le_bytes(transfer_id),
        },
{
    lemma_auto_spec_u16_to_from_le_bytes();
    lemma_auto_spec_u32_to_from_le_bytes();
    match m {
        SpecMessage::ClipboardData { clipboard_id, sequence_number, format, data } => {
            assert(format_index(format) == clipboard_format_declaration_index(format));
        },
        _ => {},
    }
}

/// Each option is written as bincode writes a `(String, u32)` pair: the
/// name's UTF-8 bytes after their `u64` length, then the value as a
/// little-endian `u32`; the options follow one another in order.
pub proof fn lemma_option_items_layout(opts: Seq<(Seq<char>, u32)>, rest: Seq<u8>)
    ensures
        opts.len() == 0 ==> enc_option_items(opts, rest) == rest,
        opts.len() > 0 ==> enc_option_items(opts, rest) == spec_u64_to_le_bytes(
            encode_utf8(opts[0].0).len() as u64,
        ) + encode_utf8(opts[0].0) + spec_u32_to_le_bytes(opts[0].1) + enc_option_items(
            opts.drop_first(),
            rest,
        ),
{
}

/// A message whose frame can be written: its fields fit their length
/// prefixes and its payload fits the `u32` header.
pub open spec fn frameable(m: SpecMessage) -> bool {
    well_sized(m) && ser_message(m, Seq::empty()).len() <= u32::MAX
}

/// The frames of `ms`, one after another, as a stream carries them.
pub open spec fn frames(ms: Seq<SpecMessage>) -> Seq<u8>
    decreases ms.len(),
{
    if ms.len() == 0 {
        Seq::empty()
    } else {
        frame(ser_message(ms[0], Seq::empty())) + frames(ms.drop_first())
    }
}

/// Reading one message from the start of a stream: the four header bytes,
/// then exactly the payload that they announce, whose message is decoded;
/// the rest of the stream is left for the next read. `None` when the stream
/// ends before the frame does or the payload holds no message.
pub open spec fn read_frame(stream: Seq<u8>) -> Option<(SpecMessage, Seq<u8>)> {
    if stream.len() < 4 || stream.len() < 4 + be_u32_value(stream) {
        None
    } else {
        match parse_message(stream.subrange(4, 4 + be_u32_value(stream))) {
            Some((m, _)) => Some((m, stream.skip(4 + be_u32_value(stream)))),
            None => None,
        }
    }
}

/// Reading `n` messages in turn from a stream.
pub open spec fn read_frames(stream: Seq<u8>, n: nat) -> Option<(Seq<SpecMessage>, Seq<u8>)>
    decreases n,
{
    if n == 0 {
        Some((Seq::empty(), stream))
    } else {
        match read_frame(stream) {
            Some((m, rest)) => match read_frames(rest, (n - 1) as nat) {
                Some((ms, after)) => Some((seq![m] + ms, after)),
                None => None,
            },
            None => None,
        }
    }
}

/// One read gives what `decode` gives for the same bytes, and leaves the
/// bytes after the frame.
pub proof fn lemma_read_frame_is_decode(stream: Seq<u8>)
    ensures
        match read_frame(stream) {
            Some((m, rest)) => spec_decode(stream) == DecodeOutcome::Decoded(m) && rest == stream.skip(
                4 + be_u32_value(stream),
            ),
            None => !(spec_decode(stream) is Decoded),
        },
{
}

/// Reading a stream that starts with a message's frame gives the message and
/// consumes exactly the frame.
pub proof fn lemma_read_one_frame(m: SpecMessage, more: Seq<u8>)
    requires
        frameable(m),
    ensures
        read_frame(frame(ser_message(m, Seq::empty())) + more) == Some((m, more)),
{
    let p = ser_message(m, Seq::empty());
    let d = frame(p) + more;
    let x = p.len() as u32;
    lemma_be_u32_roundtrip(x);
    assert(d[0] == be_u32_bytes(x)[0] && d[1] == be_u32_bytes(x)[1] && d[2] == be_u32_bytes(x)[2]
        && d[3] == be_u32_bytes(x)[3]);
    assert(be_u32_value(d) == x);
    assert(d.subrange(4, 4 + p.len() as int) =~= p);
    assert(d.skip(4 + p.len() as int) =~= more);
    lemma_message_roundtrip(m, Seq::empty());
}

/// Messages written one after another to a stream are read back in the same
/// order, each read consuming exactly its frame, whatever follows them; a
/// read at the end of the stream gives nothing.
pub proof fn lemma_stream_roundtrip(ms: Seq<SpecMessage>, rest: Seq<u8>)
    requires
        forall|i: int| 0 <= i < ms.len() ==> frameable(#[trigger] ms[i]),
    ensures
        read_frames(frames(ms) + rest, ms.len()) == Some((ms, rest)),
        read_frame(Seq::<u8>::empty()) is None,
    decreases ms.len(),
{
    if ms.len() > 0 {
        let tail = frames(ms.drop_first()) + rest;
        assert(frames(ms) + rest =~= frame(ser_message(ms[0], Seq::empty())) + tail);
        lemma_read_one_frame(ms[0], tail);
        assert forall|i: int| 0 <= i < ms.drop_first().len() implies frameable(
            #[trigger] ms.drop_first()[i],
        ) by {
            assert(ms.drop_first()[i] == ms[i + 1]);
        }
        lemma_stream_roundtrip(ms.drop_first(), rest);
        assert(seq![ms[0]] + ms.drop_first() =~= ms);
    }
}

/// The frame of a mouse move always has 12 bytes, that of a keep-alive 8,
/// and that of a hello 20 bytes plus the UTF-8 bytes of the name.
pub proof fn lemma_frame_sizes(x: i16, y: i16, major: u16, minor: u16, name: Seq<char>)
    ensures
        frame(ser_message(SpecMessage::MouseMove { x, y }, Seq::empty())).len() == 12,
        frame(ser_message(SpecMessage::KeepAlive, Seq::empty())).len() == 8,
        frame(ser_message(SpecMessage::Hello { major, minor, name }, Seq::empty())).len() == 20
            + encode_utf8(name).len(),
{
    lemma_auto_spec_u16_to_from_le_bytes();
    lemma_auto_spec_u32_to_from_le_bytes();
    lemma_auto_spec_u64_to_from_le_bytes();
}

/// Different messages have different encodings.
pub proof fn lemma_encoding_injective(m1: SpecMessage, m2: SpecMessage)
    requires
        well_sized(m1),
        well_sized(m2),
        ser_message(m1, Seq::empty()) == ser_message(m2, Seq::empty()),
    ensures
        m1 == m2,
{
    lemma_message_roundtrip(m1, Seq::empty());
    lemma_message_roundtrip(m2, Seq::empty());
}

/// Codec for encoding/decoding messages
pub struct MessageCodec;

impl MessageCodec {
    /// The payload of a message: what `bincode::serialize` writes for it.
    pub fn encode_payload(message: &Message) -> (out: Vec<u8>)
        ensures
            out@ == ser_message(message@, Seq::empty()),
            well_sized(message@),
    {
        let mut out: Vec<u8> = Vec::new();
        match message {
            Message::Hello { major, minor, name } => {
                write_u32(&mut out, 0);
                write_u16(&mut out, *major);
                write_u16(&mut out, *minor);
                write_str(&mut out, name.as_str());
            },
            Message::HelloBack { major, minor, name } => {
                write_u32(&mut out, 1);
                write_u16(&mut out, *major);
                write_u16(&mut out, *minor);
                write_str(&mut out, name.as_str());
            },
            Message::KeyDown { key_id, modifier_mask, key_button } => {
                write_u32(&mut out, 2);
                write_u16(&mut out, *key_id);
                write_u16(&mut out, *modifier_mask);
                write_u16(&mut out, *key_button);
            },
            Message::KeyUp { key_id, modifier_mask, key_button } => {
                write_u32(&mut out, 3);
                write_u16(&mut out, *key_id);
                write_u16(&mut out, *modifier_mask);
                write_u16(&mut out, *key_button);
            },
            Message::KeyRepeat { key_id, modifier_mask, key_button, count } => {
                write_u32(&mut out, 4);
                write_u16(&mut out, *key_id);
                write_u16(&mut out, *modifier_mask);
                write_u16(&mut out, *key_button);
                write_u16(&mut out, *count);
            },
            Message::MouseDown { button_id } => {
                write_u32(&mut out, 5);
                write_i8(&mut out, *button_id);
            },
            Message::MouseUp { button_id } => {
                write_u32(&mut out, 6);
                write_i8(&mut out, *button_id);
            },
            Message::MouseMove { x, y } => {
                write_u32(&mut out, 7);
                write_i16(&mut out, *x);
                write_i16(&mut out, *y);
            },
            Message::MouseRelativeMove { dx, dy } => {
                write_u32(&mut out, 8);
                write_i16(&mut out, *dx);
                write_i16(&mut out, *dy);
            },
            Message::MouseWheel { x_delta, y_delta } => {
                write_u32(&mut out, 9);
                write_i16(&mut out, *x_delta);
                write_i16(&mut out, *y_delta);
            },
            Message::Enter { x, y, sequence_number, modifier_mask } => {
                write_u32(&mut out, 10);
                write_i16(&mut out, *x);
                write_i16(&mut out, *y);
                write_u32(&mut out, *sequence_number);
                write_u16(&mut out, *modifier_mask);
            },
            Message::Leave => {
                write_u32(&mut out, 11);
            },
            Message::ClipboardGrab { clipboard_id, sequence_number } => {
                write_u32(&mut out, 12);
                write_u8(&mut out, *clipboard_id);
                write_u32(&mut out, *sequence_number);
            },
            Message::ClipboardData { clipboard_id, sequence_number, format, data } => {
                write_u32(&mut out, 13);
                write_u8(&mut out, *clipboard_id);
                write_u32(&mut out, *sequence_number);
                write_format(&mut out, *format);
                write_bytes(&mut out, data.as_slice());
            },
            Message::ScreenInfo { x, y, width, height, cursor_x, cursor_y } => {
                write_u32(&mut out, 14);
                write_i16(&mut out, *x);
                write_i16(&mut out, *y);
                write_i16(&mut out, *width);
                write_i16(&mut out, *height);
                write_i16(&mut out, *cursor_x);
                write_i16(&mut out, *cursor_y);
            },
            Message::InfoAck => {
                write_u32(&mut out, 15);
            },
            Message::KeepAlive => {
                write_u32(&mut out, 16);
            },
            Message::SetOptions { options } => {
                write_u32(&mut out, 17);
                write_options(&mut out, options);
            },
            Message::ResetOptions => {
                write_u32(&mut out, 18);
            },
            Message::QueryInfo => {
                write_u32(&mut out, 19);
            },
            Message::Close => {
                write_u32(&mut out, 20);
            },
            Message::ErrorMsg { error } => {
                write_u32(&mut out, 21);
                write_str(&mut out, error.as_str());
            },
            Message::FileTransferStart { filename, size, transfer_id } => {
                write_u32(&mut out, 22);
                write_str(&mut out, filename.as_str());
                write_u64(&mut out, *size);
                write_u32(&mut out, *transfer_id);
            },
            Message::FileTransferData { transfer_id, data } => {
                write_u32(&mut out, 23);
                write_u32(&mut out, *transfer_id);
                write_bytes(&mut out, data.as_slice());
            },
            Message::FileTransferEnd { transfer_id } => {
                write_u32(&mut out, 24);
                write_u32(&mut out, *transfer_id);
            },
        }
        assert(out@ =~= ser_message(message@, Seq::empty()));
        out
    }

    /// Reads a message from the start of a payload; bytes after it are
    /// ignored. `None` when the payload holds no message.
    pub fn decode_payload(payload: &[u8]) -> (r: Option<Message>)
        ensures
            match r {
                Some(m) => parse_message(payload@) matches Some((v, _)) && v == m@,
                None => parse_message(payload@) is None,
            },
    {
        assert(payload@.skip(0) =~= payload@);
        let (tag, p0) = match read_u32(payload, 0) {
            Some(x) => x,
            None => return None,
        };
        if tag == 0 {
            let (major, p1) = match read_u16(payload, p0) {
                Some(x) => x,
                None => return None,
            };
            let (minor, p2) = match read_u16(payload, p1) {
                Some(x) => x,
                None => return None,
            };
            let (name, p3) = match read_string(payload, p2) {
                Some(x) => x,
                None => return None,
            };
            Some(Message::Hello { major, minor, name })
        } else if tag == 1 {
            let (major, p1) = match read_u16(payload, p0) {
                Some(x) => x,
                None => return None,
            };
            let (minor, p2) = match read_u16(payload, p1) {
                Some(x) => x,
                None => return None,
            };
            let (name, p3) = match read_string(payload, p2) {
                Some(x) => x,
                None => return None,
            };
            Some(Message::HelloBack { major, minor, name })
        } else if tag == 2 {
            let (key_id, p1) = match read_u16(payload, p0) {
                Some(x) => x,
                None => return None,
            };
            let (modifier_mask, p2) = match read_u16(payload, p1) {
                Some(x) => x,
                None => return None,
            };
            let (key_button, p3) = match read_u16(payload, p2) {
                Some(x) => x,
                None => return None,
            };
            Some(Message::KeyDown { key_id, modifier_mask, key_button })
        } else if tag == 3 {
            let (key_id, p1) = match read_u16(payload, p0) {
                Some(x) => x,
                None => return None,
            };
            let (modifier_mask, p2) = match read_u16(payload, p1) {
                Some(x) => x,
                None => return None,
            };
            let (key_button, p3) = match read_u16(payload, p2) {
                Some(x) => x,
                None => return None,
            };
            Some(Message::KeyUp { key_id, modifier_mask, key_button })
        } else if tag == 4 {
            let (key_id, p1) = match read_u16(payload, p0) {
                Some(x) => x,
                None => return None,
            };
            let (modifier_mask, p2) = match read_u16(payload, p1) {
                Some(x) => x,
                None => return None,
            };
            let (key_button, p3) = match read_u16(payload, p2) {
                Some(x) => x,
                None => return None,
            };
            let (count, p4) = match read_u16(payload, p3) {
                Some(x) => x,
                None => return None,
            };
            Some(Message::KeyRepeat { key_id, modifier_mask, key_button, count })
        } else if tag == 5 {
            let (button_id, p1) = match read_i8(payload, p0) {
                Some(x) => x,
                None => return None,
            };
            Some(Message::MouseDown { button_id })
        } else if tag == 6 {
            let (button_id, p1) = match read_i8(payload, p0) {
                Some(x) => x,
                None => return None,
            };
            Some(Message::MouseUp { button_id })
        } else if tag == 7 {
            let (x, p1) = match read_i16(payload, p0) {
                Some(x) => x,
                None => return None,
            };
            let (y, p2) = match read_i16(payload, p1) {
                Some(x) => x,
                None => return None,
            };
            Some(Message::MouseMove { x, y })
        } else if tag == 8 {
            let (dx, p1) = match read_i16(payload, p0) {
                Some(x) => x,
                None => return None,
            };
            let (dy, p2) = match read_i16(payload, p1) {
                Some(x) => x,
                None => return None,
            };
            Some(Message::MouseRelativeMove { dx, dy })
        } else if tag == 9 {
            let (x_delta, p1) = match read_i16(payload, p0) {
                Some(x) => x,
                None => return None,
            };
            let (y_delta, p2) = match read_i16(payload, p1) {
                Some(x) => x,
                None => return None,
            };
            Some(Message::MouseWheel { x_delta, y_delta })
        } else if tag == 10 {
            let (x, p1) = match read_i16(payload, p0) {
                Some(x) => x,
                None => return None,
            };
            let (y, p2) = match read_i16(payload, p1) {
                Some(x) => x,
                None => return None,
            };
            let (sequence_number, p3) = match read_u32(payload, p2) {
                Some(x) => x,
                None => return None,
            };
            let (modifier_mask, p4) = match read_u16(payload, p3) {
                Some(x) => x,
                None => return None,
            };
            Some(Message::Enter { x, y, sequence_number, modifier_mask })
        } else if tag == 11 {
            Some(Message::Leave)
        } else if tag == 12 {
            let (clipboard_id, p1) = match read_u8(payload, p0) {
                Some(x) => x,
                None => return None,
            };
            let (sequence_number, p2) = match read_u32(payload, p1) {
                Some(x) => x,
                None => return None,
            };
            Some(Message::ClipboardGrab { clipboard_id, sequence_number })
        } else if tag == 13 {
            let (clipboard_id, p1) = match read_u8(payload, p0) {
                Some(x) => x,
                None => return None,
            };
            let (sequence_number, p2) = match read_u32(payload, p1) {
                Some(x) => x,
                None => return None,
            };
            let (format, p3) = match read_format(payload, p2) {
                Some(x) => x,
                None => return None,
            };
            let (data, p4) = match read_bytes(payload, p3) {
                Some(x) => x,
                None => return None,
            };
            Some(Message::ClipboardData { clipboard_id, sequence_number, format, data })
        } else if tag == 14 {
            let (x, p1) = match read_i16(payload, p0) {
                Some(x) => x,
                None => return None,
            };
            let (y, p2) = match read_i16(payload, p1) {
                Some(x) => x,
                None => return None,
            };
            let (width, p3) = match read_i16(payload, p2) {
                Some(x) => x,
                None => return None,
            };
            let (height, p4) = match read_i16(payload, p3) {
                Some(x) => x,
                None => return None,
            };
            let (cursor_x, p5) = match read_i16(payload, p4) {
                Some(x) => x,
                None => return None,
            };
            let (cursor_y, p6) = match read_i16(payload, p5) {
                Some(x) => x,
                None => return None,
            };
            Some(Message::ScreenInfo { x, y, width, height, cursor_x, cursor_y })
        } else if tag == 15 {
            Some(Message::InfoAck)
        } else if tag == 16 {
            Some(Message::KeepAlive)
        } else if tag == 17 {
            let (options, p1) = match read_options(payload, p0) {
                Some(x) => x,
                None => return None,
            };
            Some(Message::SetOptions { options })
        } else if tag == 18 {
            Some(Message::ResetOptions)
        } else if tag == 19 {
            Some(Message::QueryInfo)
        } else if tag == 20 {
            Some(Message::Close)
        } else if tag == 21 {
            let (error, p1) = match read_string(payload, p0) {
                Some(x) => x,
                None => return None,
            };
            Some(Message::ErrorMsg { error })
        } else if tag == 22 {
            let (filename, p1) = match read_string(payload, p0) {
                Some(x) => x,
                None => return None,
            };
            let (size, p2) = match read_u64(payload, p1) {
                Some(x) => x,
                None => return None,
            };
            let (transfer_id, p3) = match read_u32(payload, p2) {
                Some(x) => x,
                None => return None,
            };
            Some(Message::FileTransferStart { filename, size, transfer_id })
        } else if tag == 23 {
            let (transfer_id, p1) = match read_u32(payload, p0) {
                Some(x) => x,
                None => return None,
            };
            let (data, p2) = match read_bytes(payload, p1) {
                Some(x) => x,
                None => return None,
            };
            Some(Message::FileTransferData { transfer_id, data })
        } else if tag == 24 {
            let (transfer_id, p1) = match read_u32(payload, p0) {
                Some(x) => x,
                None => return None,
            };
            Some(Message::FileTransferEnd { transfer_id })
        } else {
            None
        }
    }

    /// Encode a message to bytes (length-prefixed)
    pub fn encode(message: &Message) -> (out: Vec<u8>)
        ensures
            out@ == frame(ser_message(message@, Seq::empty())),
            well_sized(message@),
    {
        let payload = Self::encode_payload(message);
        #[verifier::truncate]
        let len: u32 = payload.len() as u32;
        let mut result: Vec<u8> = Vec::new();
        result.push((len >> 24u32) as u8);
        result.push(((len >> 16u32) & 0xff) as u8);
        result.push(((len >> 8u32) & 0xff) as u8);
        result.push((len & 0xff) as u8);
        let mut body = payload;
        result.append(&mut body);
        assert(result@ =~= frame(ser_message(message@, Seq::empty())));
        result
    }

    /// The payload length announced by a frame's four header bytes.
    pub fn frame_length(header: &[u8]) -> (len: usize)
        requires
            header@.len() >= 4,
        ensures
            len == be_u32_value(header@),
    {
        let v: u32 = ((header[0] as u32) << 24u32) | ((header[1] as u32) << 16u32) | ((
        header[2] as u32) << 8u32) | (header[3] as u32);
        v as usize
    }

    /// Decode a message from bytes
    pub fn decode(data: &[u8]) -> (r: Result<Message, Error>)
        ensures
            match spec_decode(data@) {
                DecodeOutcome::TooShort => r matches Err(Error::InvalidMessage(t)) && t@
                    == "Message too short"@,
                DecodeOutcome::Incomplete => r matches Err(Error::InvalidMessage(t)) && t@
                    == "Incomplete message"@,
                DecodeOutcome::Malformed => r matches Err(Error::InvalidMessage(t)) && t@
                    == "Malformed message payload"@,
                DecodeOutcome::Decoded(v) => r matches Ok(m) && m@ == v,
            },
    {
        if data.len() < 4 {
            return Err(Error::InvalidMessage("Message too short".to_owned()));
        }
        let len = Self::frame_length(data);
        if data.len() - 4 < len {
            return Err(Error::InvalidMessage("Incomplete message".to_owned()));
        }
        let payload = vstd::slice::slice_subrange(data, 4, 4 + len);
        Self::decode_payload_checked(payload)
    }

    /// Decodes a payload whose frame header has been read already (the
    /// payload is the `len` bytes that the header announced).
    pub fn decode_payload_checked(payload: &[u8]) -> (r: Result<Message, Error>)
        ensures
            match parse_message(payload@) {
                Some((v, _)) => r matches Ok(m) && m@ == v,
                None => r matches Err(Error::InvalidMessage(t)) && t@ == "Malformed message payload"@,
            },
    {
        match Self::decode_payload(payload) {
            Some(m) => Ok(m),
            None => Err(Error::InvalidMessage("Malformed message payload".to_owned())),
        }
    }
}

impl Message {
    /// Create a hello message for connection initiation
    pub fn hello(name: &str) -> (m: Message)
        ensures
            m@ == (SpecMessage::Hello { major: PROTOCOL_MAJOR, minor: PROTOCOL_MINOR, name: name@ }),
    {
        Message::Hello { major: PROTOCOL_MAJOR, minor: PROTOCOL_MINOR, name: name.to_owned() }
    }

    /// Create a hello back message for connection response
    pub fn hello_back(name: &str) -> (m: Message)
        ensures
            m@ == (SpecMessage::HelloBack {
                major: PROTOCOL_MAJOR,
                minor: PROTOCOL_MINOR,
                name: name@,
            }),
    {
        Message::HelloBack { major: PROTOCOL_MAJOR, minor: PROTOCOL_MINOR, name: name.to_owned() }
    }
}

} // verus!
