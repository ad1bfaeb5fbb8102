use bt_hci_darwin::codec::{
    decode, encode, Command, ControllerPacket, DecodeError, MAX_HCI_PACKET_LEN,
};

#[derive(Debug, PartialEq)]
enum Expected {
    Acl(Vec<u8>),
    Sync(Vec<u8>),
    Event(u8, Vec<u8>),
    Iso(Vec<u8>),
}

fn seen(packet: ControllerPacket) -> Expected {
    match packet {
        ControllerPacket::Acl { payload } => Expected::Acl(payload),
        ControllerPacket::Sync { payload } => Expected::Sync(payload),
        ControllerPacket::Event { code, params } => Expected::Event(code, params),
        ControllerPacket::Iso { payload } => Expected::Iso(payload),
    }
}

/// The packet layouts written out once more, the plain way.
fn layout(frame: &[u8]) -> Option<Expected> {
    let len = frame.len();
    match *frame.first()? {
        2 => {
            if len >= 5 && len - 5 == frame[3] as usize + 256 * frame[4] as usize {
                Some(Expected::Acl(frame[5..].to_vec()))
            } else {
                None
            }
        }
        3 => {
            if len >= 4 && len - 4 == frame[3] as usize {
                Some(Expected::Sync(frame[4..].to_vec()))
            } else {
                None
            }
        }
        4 => {
            if len >= 3 && len - 3 >= frame[2] as usize {
                Some(Expected::Event(frame[1], frame[3..3 + frame[2] as usize].to_vec()))
            } else {
                None
            }
        }
        5 => {
            if len < 5 || len - 5 != frame[3] as usize + 256 * frame[4] as usize {
                return None;
            }
            let boundary = (frame[2] / 0x10) % 4;
            let time_stamp = (frame[2] / 0x40) % 2 == 1;
            let header = if boundary == 0 || boundary == 2 {
                if time_stamp {
                    8
                } else {
                    4
                }
            } else {
                0
            };
            if len - 5 >= header {
                Some(Expected::Iso(frame[5 + header..].to_vec()))
            } else {
                None
            }
        }
        _ => None,
    }
}

struct Lcg(u64);

impl Lcg {
    fn next(&mut self) -> u64 {
        self.0 = self.0.wrapping_mul(6364136223846793005).wrapping_add(1442695040888963407);
        self.0 >> 33
    }
}

#[test]
fn write_scan_enable_is_framed() {
    let frame = encode(&Command::WriteScanEnable { scan_enable: 0x03 });
    assert_eq!(frame, vec![0x01, 0x1a, 0x0c, 0x01, 0x03]);
}

#[test]
fn write_inquiry_mode_is_framed() {
    let frame = encode(&Command::WriteInquiryMode { inquiry_mode: 0x01 });
    assert_eq!(frame, vec![0x01, 0x45, 0x0c, 0x01, 0x01]);
}

#[test]
fn write_class_of_device_is_framed() {
    let frame = encode(&Command::WriteClassOfDevice { class_of_device: [0x00, 0x01, 0x04] });
    assert_eq!(frame, vec![0x01, 0x24, 0x0c, 0x03, 0x00, 0x01, 0x04]);
}

#[test]
fn write_inquiry_scan_activity_is_framed() {
    let frame = encode(&Command::WriteInquiryScanActivity { interval: 0x1000, window: 0x0012 });
    assert_eq!(frame, vec![0x01, 0x1e, 0x0c, 0x04, 0x00, 0x10, 0x12, 0x00]);
}

#[test]
fn write_page_scan_activity_is_framed() {
    let frame = encode(&Command::WritePageScanActivity { interval: 0x0800, window: 0x0012 });
    assert_eq!(frame, vec![0x01, 0x1c, 0x0c, 0x04, 0x00, 0x08, 0x12, 0x00]);
}

#[test]
fn write_inquiry_scan_type_is_framed() {
    let frame = encode(&Command::WriteInquiryScanType { scan_type: 0x01 });
    assert_eq!(frame, vec![0x01, 0x43, 0x0c, 0x01, 0x01]);
}

#[test]
fn opcode_has_group_above_command() {
    assert_eq!(Command::WriteScanEnable { scan_enable: 0 }.opcode_value(), 0x0c1a);
    assert_eq!(Command::WriteInquiryMode { inquiry_mode: 0 }.opcode_value(), 0x0c45);
    assert_eq!(Command::WriteClassOfDevice { class_of_device: [0; 3] }.opcode_value(), 0x0c24);
    assert_eq!(
        Command::WriteInquiryScanActivity { interval: 0, window: 0 }.opcode_value(),
        0x0c1e
    );
    assert_eq!(Command::WritePageScanActivity { interval: 0, window: 0 }.opcode_value(), 0x0c1c);
    assert_eq!(Command::WriteInquiryScanType { scan_type: 0 }.opcode_value(), 0x0c43);
}

#[test]
fn sixteen_bit_parameters_go_low_byte_first() {
    let frame = encode(&Command::WriteInquiryScanActivity { interval: 0xabcd, window: 0xff01 });
    assert_eq!(&frame[4..], &[0xcd, 0xab, 0x01, 0xff]);
}

#[test]
fn a_framed_command_is_no_packet_from_a_controller() {
    let frame = encode(&Command::WriteScanEnable { scan_enable: 0x03 });
    assert!(matches!(decode(&frame), Err(DecodeError::MalformedFrame)));
}

#[test]
fn largest_packet_is_259_bytes() {
    assert_eq!(MAX_HCI_PACKET_LEN, 259);
}

#[test]
fn event_is_decoded() {
    let packet = decode(&[0x04, 0x01, 0x01, 0x00]).unwrap();
    assert_eq!(seen(packet), Expected::Event(0x01, vec![0x00]));
}

#[test]
fn event_with_no_parameters_is_decoded() {
    let packet = decode(&[0x04, 0x13, 0x00]).unwrap();
    assert_eq!(seen(packet), Expected::Event(0x13, vec![]));
}

#[test]
fn bytes_after_the_parameters_of_an_event_are_dropped() {
    let packet = decode(&[0x04, 0x0e, 0x02, 0xaa, 0xbb, 0xcc, 0xdd]).unwrap();
    assert_eq!(seen(packet), Expected::Event(0x0e, vec![0xaa, 0xbb]));
}

#[test]
fn largest_event_is_decoded() {
    let mut frame = vec![0x04, 0x2f, 0xff];
    frame.extend((0..255u32).map(|i| i as u8));
    assert_eq!(frame.len(), 258);
    let packet = decode(&frame).unwrap();
    assert_eq!(seen(packet), Expected::Event(0x2f, frame[3..].to_vec()));
}

#[test]
fn acl_data_is_decoded() {
    let packet = decode(&[0x02, 0x01, 0x20, 0x03, 0x00, 0x0a, 0x0b, 0x0c]).unwrap();
    assert_eq!(seen(packet), Expected::Acl(vec![0x0a, 0x0b, 0x0c]));
}

#[test]
fn synchronous_data_is_decoded() {
    let packet = decode(&[0x03, 0x01, 0x00, 0x02, 0x55, 0x66]).unwrap();
    assert_eq!(seen(packet), Expected::Sync(vec![0x55, 0x66]));
}

#[test]
fn isochronous_data_is_decoded_after_its_header() {
    // complete unit without time stamp: four bytes of header
    let packet =
        decode(&[0x05, 0x01, 0x20, 0x06, 0x00, 0x01, 0x00, 0x02, 0x00, 0xaa, 0xbb]).unwrap();
    assert_eq!(seen(packet), Expected::Iso(vec![0xaa, 0xbb]));
    // first fragment with time stamp: eight bytes of header
    let packet = decode(&[
        0x05, 0x01, 0x40, 0x09, 0x00, 0x01, 0x02, 0x03, 0x04, 0x05, 0x00, 0x01, 0x00, 0xcc,
    ])
    .unwrap();
    assert_eq!(seen(packet), Expected::Iso(vec![0xcc]));
    // continuation fragment: no header
    let packet = decode(&[0x05, 0x01, 0x10, 0x02, 0x00, 0xdd, 0xee]).unwrap();
    assert_eq!(seen(packet), Expected::Iso(vec![0xdd, 0xee]));
}

#[test]
fn empty_frame_is_malformed() {
    assert!(matches!(decode(&[]), Err(DecodeError::MalformedFrame)));
}

#[test]
fn unknown_indicator_is_malformed() {
    assert!(matches!(decode(&[0x00, 0x01, 0x00]), Err(DecodeError::MalformedFrame)));
    assert!(matches!(decode(&[0x06, 0x01, 0x00]), Err(DecodeError::MalformedFrame)));
    assert!(matches!(decode(&[0xff, 0x01, 0x00]), Err(DecodeError::MalformedFrame)));
}

#[test]
fn command_indicator_is_malformed() {
    assert!(matches!(decode(&[0x01, 0x03, 0x0c, 0x00]), Err(DecodeError::MalformedFrame)));
}

#[test]
fn event_shorter_than_its_header_is_malformed() {
    assert!(matches!(decode(&[0x04]), Err(DecodeError::MalformedFrame)));
    assert!(matches!(decode(&[0x04, 0x01]), Err(DecodeError::MalformedFrame)));
}

#[test]
fn event_shorter_than_it_declares_is_malformed() {
    assert!(matches!(decode(&[0x04, 0x01, 0x02, 0x00]), Err(DecodeError::MalformedFrame)));
}

#[test]
fn data_of_another_length_than_declared_is_malformed() {
    assert!(matches!(
        decode(&[0x02, 0x01, 0x20, 0x03, 0x00, 0x0a, 0x0b]),
        Err(DecodeError::MalformedFrame)
    ));
    assert!(matches!(
        decode(&[0x02, 0x01, 0x20, 0x01, 0x00, 0x0a, 0x0b]),
        Err(DecodeError::MalformedFrame)
    ));
    assert!(matches!(decode(&[0x03, 0x01, 0x00, 0x02, 0x55]), Err(DecodeError::MalformedFrame)));
    assert!(matches!(
        decode(&[0x03, 0x01, 0x00, 0x01, 0x55, 0x66]),
        Err(DecodeError::MalformedFrame)
    ));
    assert!(matches!(
        decode(&[0x05, 0x01, 0x10, 0x03, 0x00, 0xdd, 0xee]),
        Err(DecodeError::MalformedFrame)
    ));
}

#[test]
fn isochronous_data_shorter_than_its_header_is_malformed() {
    assert!(matches!(
        decode(&[0x05, 0x01, 0x20, 0x03, 0x00, 0x01, 0x00, 0x02]),
        Err(DecodeError::MalformedFrame)
    ));
    assert!(matches!(
        decode(&[0x05, 0x01, 0x40, 0x07, 0x00, 1, 2, 3, 4, 5, 6, 7]),
        Err(DecodeError::MalformedFrame)
    ));
}

#[test]
fn any_bytes_decode_as_the_layouts_say() {
    let mut rng = Lcg(0xc0dec);
    for round in 0..20000 {
        let len = (rng.next() % 24) as usize;
        let mut frame = Vec::with_capacity(len);
        for i in 0..len {
            let byte = match (i, rng.next() % 4) {
                (0, 0..=2) => 2 + (rng.next() % 4) as u8,
                (2 | 3, 0..=1) => len.saturating_sub(3 + (rng.next() % 3) as usize) as u8,
                (4, 0..=2) => 0,
                (3 | 4, _) => (rng.next() % 3) as u8,
                _ => rng.next() as u8,
            };
            frame.push(byte);
        }
        let got = decode(&frame).ok().map(seen);
        assert_eq!(got, layout(&frame), "round {round}: {frame:?}");
    }
}

#[test]
fn long_frames_decode_as_the_layouts_say() {
    let mut rng = Lcg(0x10a6);
    for round in 0..300 {
        let payload = 250 + (rng.next() % 40) as usize;
        let indicator = 2 + (rng.next() % 4) as u8;
        let mut frame = vec![indicator, rng.next() as u8, rng.next() as u8];
        match indicator {
            3 => frame.push(payload.min(255) as u8),
            4 => frame[2] = payload.min(255) as u8,
            _ => frame.extend_from_slice(&[(payload % 256) as u8, (payload / 256) as u8]),
        }
        let body = if rng.next() % 4 == 0 { payload + 1 } else { payload.min(if indicator == 3 || indicator == 4 { 255 } else { payload }) };
        for _ in 0..body {
            frame.push(rng.next() as u8);
        }
        let got = decode(&frame).ok().map(seen);
        assert_eq!(got, layout(&frame), "round {round}: {frame:?}");
    }
}
