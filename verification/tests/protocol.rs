use macwinshare::error::Error;
use macwinshare::protocol::{
    buttons, keys, modifiers, ClipboardFormat, Message, MessageCodec, PROTOCOL_MAJOR,
    PROTOCOL_MINOR,
};

fn test_roundtrip(msg: Message) -> Message {
    let encoded = MessageCodec::encode(&msg);
    MessageCodec::decode(&encoded).expect("Failed to decode message")
}

fn invalid_message_text(r: Result<Message, Error>) -> String {
    match r {
        Err(Error::InvalidMessage(t)) => t,
        other => panic!("expected an invalid-message error, got {:?}", other),
    }
}

#[test]
fn test_encode_decode_hello() {
    let msg = Message::hello("TestMachine");
    let encoded = MessageCodec::encode(&msg);
    let decoded = MessageCodec::decode(&encoded).unwrap();

    match decoded {
        Message::Hello { major, minor, name } => {
            assert_eq!(major, PROTOCOL_MAJOR);
            assert_eq!(minor, PROTOCOL_MINOR);
            assert_eq!(name, "TestMachine");
        }
        _ => panic!("Unexpected message type"),
    }
}

#[test]
fn test_encode_decode_mouse_move() {
    let msg = Message::MouseMove { x: 100, y: 200 };
    let encoded = MessageCodec::encode(&msg);
    let decoded = MessageCodec::decode(&encoded).unwrap();

    match decoded {
        Message::MouseMove { x, y } => {
            assert_eq!(x, 100);
            assert_eq!(y, 200);
        }
        _ => panic!("Unexpected message type"),
    }
}

#[test]
fn test_hello_back() {
    let decoded = test_roundtrip(Message::hello_back("ServerName"));
    match decoded {
        Message::HelloBack { major, minor, name } => {
            assert_eq!(major, PROTOCOL_MAJOR);
            assert_eq!(minor, PROTOCOL_MINOR);
            assert_eq!(name, "ServerName");
        }
        _ => panic!("Unexpected message type"),
    }
}

#[test]
fn test_key_down() {
    let decoded = test_roundtrip(Message::KeyDown {
        key_id: keys::SPACE,
        modifier_mask: modifiers::CTRL | modifiers::SHIFT,
        key_button: 49,
    });
    match decoded {
        Message::KeyDown { key_id, modifier_mask, key_button } => {
            assert_eq!(key_id, keys::SPACE);
            assert_eq!(modifier_mask, modifiers::CTRL | modifiers::SHIFT);
            assert_eq!(key_button, 49);
        }
        _ => panic!("Unexpected message type"),
    }
}

#[test]
fn test_key_up() {
    let decoded = test_roundtrip(Message::KeyUp {
        key_id: keys::RETURN,
        modifier_mask: 0,
        key_button: 36,
    });
    match decoded {
        Message::KeyUp { key_id, modifier_mask, key_button } => {
            assert_eq!(key_id, keys::RETURN);
            assert_eq!(modifier_mask, 0);
            assert_eq!(key_button, 36);
        }
        _ => panic!("Unexpected message type"),
    }
}

#[test]
fn test_key_repeat() {
    let decoded = test_roundtrip(Message::KeyRepeat {
        key_id: keys::F1,
        modifier_mask: modifiers::ALT,
        key_button: 122,
        count: 5,
    });
    match decoded {
        Message::KeyRepeat { key_id, modifier_mask, key_button, count } => {
            assert_eq!(key_id, keys::F1);
            assert_eq!(modifier_mask, modifiers::ALT);
            assert_eq!(key_button, 122);
            assert_eq!(count, 5);
        }
        _ => panic!("Unexpected message type"),
    }
}

#[test]
fn test_mouse_buttons() {
    let decoded = test_roundtrip(Message::MouseDown { button_id: buttons::LEFT });
    match decoded {
        Message::MouseDown { button_id } => assert_eq!(button_id, buttons::LEFT),
        _ => panic!("Unexpected message type"),
    }

    let decoded = test_roundtrip(Message::MouseUp { button_id: buttons::RIGHT });
    match decoded {
        Message::MouseUp { button_id } => assert_eq!(button_id, buttons::RIGHT),
        _ => panic!("Unexpected message type"),
    }
}

#[test]
fn test_mouse_relative_move() {
    let decoded = test_roundtrip(Message::MouseRelativeMove { dx: -50, dy: 30 });
    match decoded {
        Message::MouseRelativeMove { dx, dy } => {
            assert_eq!(dx, -50);
            assert_eq!(dy, 30);
        }
        _ => panic!("Unexpected message type"),
    }
}

#[test]
fn test_mouse_wheel() {
    let decoded = test_roundtrip(Message::MouseWheel { x_delta: 0, y_delta: -120 });
    match decoded {
        Message::MouseWheel { x_delta, y_delta } => {
            assert_eq!(x_delta, 0);
            assert_eq!(y_delta, -120);
        }
        _ => panic!("Unexpected message type"),
    }
}

#[test]
fn test_enter_leave() {
    let decoded = test_roundtrip(Message::Enter {
        x: 1920,
        y: 540,
        sequence_number: 12345,
        modifier_mask: modifiers::CAPS_LOCK,
    });
    match decoded {
        Message::Enter { x, y, sequence_number, modifier_mask } => {
            assert_eq!(x, 1920);
            assert_eq!(y, 540);
            assert_eq!(sequence_number, 12345);
            assert_eq!(modifier_mask, modifiers::CAPS_LOCK);
        }
        _ => panic!("Unexpected message type"),
    }

    let decoded = test_roundtrip(Message::Leave);
    assert!(matches!(decoded, Message::Leave));
}

#[test]
fn test_clipboard_grab() {
    let decoded = test_roundtrip(Message::ClipboardGrab { clipboard_id: 0, sequence_number: 999 });
    match decoded {
        Message::ClipboardGrab { clipboard_id, sequence_number } => {
            assert_eq!(clipboard_id, 0);
            assert_eq!(sequence_number, 999);
        }
        _ => panic!("Unexpected message type"),
    }
}

#[test]
fn test_clipboard_data() {
    let data = b"Hello, clipboard!".to_vec();
    let decoded = test_roundtrip(Message::ClipboardData {
        clipboard_id: 0,
        sequence_number: 100,
        format: ClipboardFormat::Text,
        data: data.clone(),
    });
    match decoded {
        Message::ClipboardData { clipboard_id, sequence_number, format, data: decoded_data } => {
            assert_eq!(clipboard_id, 0);
            assert_eq!(sequence_number, 100);
            assert_eq!(format, ClipboardFormat::Text);
            assert_eq!(decoded_data, data);
        }
        _ => panic!("Unexpected message type"),
    }
}

#[test]
fn test_screen_info() {
    let decoded = test_roundtrip(Message::ScreenInfo {
        x: 0,
        y: 0,
        width: 2560,
        height: 1440,
        cursor_x: 1280,
        cursor_y: 720,
    });
    match decoded {
        Message::ScreenInfo { x, y, width, height, cursor_x, cursor_y } => {
            assert_eq!(x, 0);
            assert_eq!(y, 0);
            assert_eq!(width, 2560);
            assert_eq!(height, 1440);
            assert_eq!(cursor_x, 1280);
            assert_eq!(cursor_y, 720);
        }
        _ => panic!("Unexpected message type"),
    }
}

#[test]
fn test_info_ack_and_keepalive() {
    assert!(matches!(test_roundtrip(Message::InfoAck), Message::InfoAck));
    assert!(matches!(test_roundtrip(Message::KeepAlive), Message::KeepAlive));
    assert!(matches!(test_roundtrip(Message::QueryInfo), Message::QueryInfo));
    assert!(matches!(test_roundtrip(Message::ResetOptions), Message::ResetOptions));
    assert!(matches!(test_roundtrip(Message::Close), Message::Close));
}

#[test]
fn test_set_options() {
    let options = vec![("heartbeat".to_string(), 5000u32), ("screensaver".to_string(), 1u32)];
    let decoded = test_roundtrip(Message::SetOptions { options: options.clone() });
    match decoded {
        Message::SetOptions { options: decoded_options } => {
            assert_eq!(decoded_options, options);
        }
        _ => panic!("Unexpected message type"),
    }
}

#[test]
fn test_error_msg() {
    let decoded = test_roundtrip(Message::ErrorMsg { error: "Connection refused".to_string() });
    match decoded {
        Message::ErrorMsg { error } => {
            assert_eq!(error, "Connection refused");
        }
        _ => panic!("Unexpected message type"),
    }
}

#[test]
fn test_file_transfer() {
    let decoded = test_roundtrip(Message::FileTransferStart {
        filename: "document.pdf".to_string(),
        size: 1024 * 1024,
        transfer_id: 42,
    });
    match decoded {
        Message::FileTransferStart { filename, size, transfer_id } => {
            assert_eq!(filename, "document.pdf");
            assert_eq!(size, 1024 * 1024);
            assert_eq!(transfer_id, 42);
        }
        _ => panic!("Unexpected message type"),
    }

    let data = vec![0u8; 4096];
    let decoded = test_roundtrip(Message::FileTransferData { transfer_id: 42, data: data.clone() });
    match decoded {
        Message::FileTransferData { transfer_id, data: decoded_data } => {
            assert_eq!(transfer_id, 42);
            assert_eq!(decoded_data.len(), 4096);
        }
        _ => panic!("Unexpected message type"),
    }

    let decoded = test_roundtrip(Message::FileTransferEnd { transfer_id: 42 });
    match decoded {
        Message::FileTransferEnd { transfer_id } => {
            assert_eq!(transfer_id, 42);
        }
        _ => panic!("Unexpected message type"),
    }
}

#[test]
fn test_edge_values() {
    let decoded = test_roundtrip(Message::MouseMove { x: i16::MAX, y: i16::MIN });
    match decoded {
        Message::MouseMove { x, y } => {
            assert_eq!(x, i16::MAX);
            assert_eq!(y, i16::MIN);
        }
        _ => panic!("Unexpected message type"),
    }
}

#[test]
fn test_unicode_in_strings() {
    let decoded = test_roundtrip(Message::hello("测试机器-émoji-🖥️"));
    match decoded {
        Message::Hello { name, .. } => {
            assert_eq!(name, "测试机器-émoji-🖥️");
        }
        _ => panic!("Unexpected message type"),
    }
}

#[test]
fn test_empty_string() {
    let decoded = test_roundtrip(Message::hello(""));
    match decoded {
        Message::Hello { name, .. } => {
            assert_eq!(name, "");
        }
        _ => panic!("Unexpected message type"),
    }
}

#[test]
fn test_decode_too_short() {
    let result = MessageCodec::decode(&[0, 0, 0]);
    assert!(result.is_err());
}

#[test]
fn test_decode_incomplete_payload() {
    let mut data = vec![0, 0, 0, 100];
    data.extend_from_slice(&[0u8; 10]);
    let result = MessageCodec::decode(&data);
    assert!(result.is_err());
}

#[test]
fn test_clipboard_formats() {
    for format in
        [ClipboardFormat::Text, ClipboardFormat::Html, ClipboardFormat::Bitmap, ClipboardFormat::File]
    {
        let decoded = test_roundtrip(Message::ClipboardData {
            clipboard_id: 0,
            sequence_number: 1,
            format,
            data: vec![1, 2, 3],
        });
        match decoded {
            Message::ClipboardData { format: decoded_format, .. } => {
                assert_eq!(decoded_format, format);
            }
            _ => panic!("Unexpected message type"),
        }
    }
}

#[test]
fn test_message_sizes() {
    let hello = Message::hello("TestMachine");
    let encoded = MessageCodec::encode(&hello);
    assert!(encoded.len() < 100, "Hello message too large: {} bytes", encoded.len());

    let mouse = Message::MouseMove { x: 1920, y: 1080 };
    let encoded = MessageCodec::encode(&mouse);
    assert!(encoded.len() < 20, "MouseMove message too large: {} bytes", encoded.len());

    let keepalive = Message::KeepAlive;
    let encoded = MessageCodec::encode(&keepalive);
    assert!(encoded.len() < 10, "KeepAlive message too large: {} bytes", encoded.len());
}

#[test]
fn test_encoding_consistency() {
    let msg = Message::MouseMove { x: 500, y: 600 };
    let encoded1 = MessageCodec::encode(&msg);
    let encoded2 = MessageCodec::encode(&msg);
    let encoded3 = MessageCodec::encode(&msg);
    assert_eq!(encoded1, encoded2);
    assert_eq!(encoded2, encoded3);
}

#[test]
fn mouse_move_frame_bytes() {
    let encoded = MessageCodec::encode(&Message::MouseMove { x: 100, y: 200 });
    assert_eq!(encoded, vec![0, 0, 0, 8, 7, 0, 0, 0, 100, 0, 200, 0]);
}

#[test]
fn hello_frame_bytes() {
    let encoded = MessageCodec::encode(&Message::hello("ab"));
    let mut expected = vec![0, 0, 0, 18, 0, 0, 0, 0, 1, 0, 6, 0];
    expected.extend_from_slice(&[2, 0, 0, 0, 0, 0, 0, 0]);
    expected.extend_from_slice(b"ab");
    assert_eq!(encoded, expected);
}

#[test]
fn keepalive_and_payload_bytes() {
    assert_eq!(MessageCodec::encode(&Message::KeepAlive), vec![0, 0, 0, 4, 16, 0, 0, 0]);
    assert_eq!(MessageCodec::encode_payload(&Message::Leave), vec![11, 0, 0, 0]);
    assert_eq!(
        MessageCodec::encode_payload(&Message::FileTransferStart {
            filename: "f".to_string(),
            size: 258,
            transfer_id: 3,
        }),
        vec![22, 0, 0, 0, 1, 0, 0, 0, 0, 0, 0, 0, b'f', 2, 1, 0, 0, 0, 0, 0, 0, 3, 0, 0, 0]
    );
}

#[test]
fn decode_error_texts() {
    assert_eq!(invalid_message_text(MessageCodec::decode(&[0, 0, 0])), "Message too short");
    assert_eq!(invalid_message_text(MessageCodec::decode(&[0, 0, 0, 5, 1])), "Incomplete message");
    // Tag 99 names no message.
    assert_eq!(
        invalid_message_text(MessageCodec::decode(&[0, 0, 0, 4, 99, 0, 0, 0])),
        "Malformed message payload"
    );
    // A name whose bytes are not UTF-8.
    let bad_name = [0, 0, 0, 18, 0, 0, 0, 0, 1, 0, 6, 0, 2, 0, 0, 0, 0, 0, 0, 0, 0xff, 0xfe];
    assert_eq!(invalid_message_text(MessageCodec::decode(&bad_name)), "Malformed message payload");
    // A format index outside the four formats.
    let bad_format = [
        0, 0, 0, 21, 13, 0, 0, 0, 0, 1, 0, 0, 0, 9, 0, 0, 0, 0, 0, 0, 0, 0, 0, 0, 0,
    ];
    assert_eq!(invalid_message_text(MessageCodec::decode(&bad_format)), "Malformed message payload");
    // The header announces fewer bytes than the message needs.
    assert_eq!(
        invalid_message_text(MessageCodec::decode(&[0, 0, 0, 3, 7, 0, 0, 0, 1, 0, 2, 0])),
        "Malformed message payload"
    );
}

#[test]
fn decode_ignores_bytes_after_the_frame_and_inside_the_payload() {
    let mut data = MessageCodec::encode(&Message::MouseMove { x: -1, y: 2 });
    data.extend_from_slice(&[9, 9, 9]);
    match MessageCodec::decode(&data).unwrap() {
        Message::MouseMove { x, y } => {
            assert_eq!(x, -1);
            assert_eq!(y, 2);
        }
        _ => panic!("Unexpected message type"),
    }
    // Extra bytes inside the announced payload, after the message.
    let data = [0, 0, 0, 6, 15, 0, 0, 0, 7, 7];
    assert!(matches!(MessageCodec::decode(&data).unwrap(), Message::InfoAck));
}

#[test]
fn frame_length_is_big_endian() {
    assert_eq!(MessageCodec::frame_length(&[0, 0, 1, 2]), 258);
    assert_eq!(MessageCodec::frame_length(&[1, 0, 0, 0, 5]), 1 << 24);
}

#[test]
fn decode_payload_reads_a_bare_payload() {
    match MessageCodec::decode_payload(&[12, 0, 0, 0, 1, 5, 0, 0, 0]) {
        Some(Message::ClipboardGrab { clipboard_id, sequence_number }) => {
            assert_eq!(clipboard_id, 1);
            assert_eq!(sequence_number, 5);
        }
        _ => panic!("Unexpected message type"),
    }
    assert!(MessageCodec::decode_payload(&[12, 0, 0]).is_none());
    assert_eq!(
        invalid_message_text(MessageCodec::decode_payload_checked(&[17, 0, 0, 0])),
        "Malformed message payload"
    );
    match MessageCodec::decode_payload_checked(&[17, 0, 0, 0, 0, 0, 0, 0, 0, 0, 0, 0]) {
        Ok(Message::SetOptions { options }) => assert!(options.is_empty()),
        _ => panic!("Unexpected message type"),
    }
}

// The payload of a message is what bincode writes for the variant's index
// followed by the variant's fields.
#[test]
fn payloads_match_bincode_field_encoding() {
    assert_eq!(
        MessageCodec::encode_payload(&Message::MouseMove { x: 100, y: -200 }),
        bincode::serialize(&(7u32, 100i16, -200i16)).unwrap()
    );
    assert_eq!(
        MessageCodec::encode_payload(&Message::hello("TestMachine")),
        bincode::serialize(&(0u32, 1u16, 6u16, "TestMachine")).unwrap()
    );
    assert_eq!(
        MessageCodec::encode_payload(&Message::ClipboardData {
            clipboard_id: 2,
            sequence_number: 100,
            format: ClipboardFormat::Bitmap,
            data: vec![9, 8, 7],
        }),
        bincode::serialize(&(13u32, 2u8, 100u32, 2u32, vec![9u8, 8, 7])).unwrap()
    );
    assert_eq!(
        MessageCodec::encode_payload(&Message::SetOptions {
            options: vec![("heartbeat".to_string(), 5000u32)],
        }),
        bincode::serialize(&(17u32, vec![("heartbeat".to_string(), 5000u32)])).unwrap()
    );
    assert_eq!(
        MessageCodec::encode_payload(&Message::FileTransferStart {
            filename: "document.pdf".to_string(),
            size: 1024 * 1024,
            transfer_id: 42,
        }),
        bincode::serialize(&(22u32, "document.pdf", 1048576u64, 42u32)).unwrap()
    );
    assert_eq!(
        MessageCodec::encode_payload(&Message::KeyRepeat {
            key_id: keys::F1,
            modifier_mask: modifiers::ALT,
            key_button: 122,
            count: 5,
        }),
        bincode::serialize(&(4u32, keys::F1, modifiers::ALT, 122u16, 5u16)).unwrap()
    );
}

#[test]
fn decode_reads_bincode_written_payloads() {
    let payload = bincode::serialize(&(10u32, -3i16, 4i16, 77u32, 0x1000u16)).unwrap();
    let mut frame = (payload.len() as u32).to_be_bytes().to_vec();
    frame.extend_from_slice(&payload);
    match MessageCodec::decode(&frame).unwrap() {
        Message::Enter { x, y, sequence_number, modifier_mask } => {
            assert_eq!((x, y, sequence_number, modifier_mask), (-3, 4, 77, 0x1000));
        }
        _ => panic!("Unexpected message type"),
    }
}

#[test]
fn message_sequence_reads_back_in_order() {
    let messages = vec![
        Message::MouseMove { x: 100, y: 200 },
        Message::hello("Desk"),
        Message::KeepAlive,
        Message::ClipboardData {
            clipboard_id: 0,
            sequence_number: 3,
            format: ClipboardFormat::Text,
            data: b"abc".to_vec(),
        },
        Message::MouseMove { x: 300, y: 400 },
    ];
    let mut stream = Vec::new();
    let mut sizes = Vec::new();
    for m in &messages {
        let frame = MessageCodec::encode(m);
        sizes.push(frame.len());
        stream.extend_from_slice(&frame);
    }

    let mut pos = 0;
    let mut read = Vec::new();
    for size in &sizes {
        let len = MessageCodec::frame_length(&stream[pos..pos + 4]);
        assert_eq!(4 + len, *size);
        read.push(MessageCodec::decode_payload_checked(&stream[pos + 4..pos + 4 + len]).unwrap());
        assert!(MessageCodec::decode(&stream[pos..]).is_ok());
        pos += 4 + len;
    }
    assert_eq!(pos, stream.len());
    assert!(MessageCodec::decode(&stream[pos..]).is_err());

    assert_eq!(format!("{:?}", read), format!("{:?}", messages));
}
