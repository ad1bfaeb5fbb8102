use bt_hci_darwin::eir::{
    element_at, extract_name, COMPLETE_LOCAL_NAME, MAX_NAME_LEN, SHORTENED_LOCAL_NAME,
};

/// The scan written out once more, the plain way, to hold the library to it.
fn scan(payload: &[u8]) -> Option<String> {
    let mut at = 0;
    while at < payload.len() {
        let len = payload[at] as usize;
        if len == 0 || at + 1 + len > payload.len() {
            return None;
        }
        let tag = payload[at + 1];
        let value = &payload[at + 2..at + 1 + len];
        if (tag == 0x08 || tag == 0x09) && value.len() <= 64 {
            if let Ok(text) = std::str::from_utf8(value) {
                return Some(text.to_string());
            }
        }
        at += 1 + len;
    }
    None
}

struct Lcg(u64);

impl Lcg {
    fn next(&mut self) -> u64 {
        self.0 = self.0.wrapping_mul(6364136223846793005).wrapping_add(1442695040888963407);
        self.0 >> 33
    }
}

#[test]
fn complete_name_is_found() {
    let payload = [0x05, 0x09, b'h', b'e', b'l', b'l', 0x00];
    assert_eq!(extract_name(&payload), Some("hell".to_string()));
}

#[test]
fn shortened_name_is_found() {
    let payload = [0x03, 0x08, b'a', b'b'];
    assert_eq!(extract_name(&payload), Some("ab".to_string()));
}

#[test]
fn tags_and_limit_are_the_documented_ones() {
    assert_eq!(SHORTENED_LOCAL_NAME, 0x08);
    assert_eq!(COMPLETE_LOCAL_NAME, 0x09);
    assert_eq!(MAX_NAME_LEN, 64);
}

#[test]
fn empty_payload_has_no_name() {
    assert_eq!(extract_name(&[]), None);
}

#[test]
fn zero_length_ends_the_scan() {
    let payload = [0x00, 0x03, 0x09, b'a', b'b'];
    assert_eq!(extract_name(&payload), None);
}

#[test]
fn record_past_the_end_ends_the_scan() {
    let payload = [0x05, 0x09, b'h', b'e'];
    assert_eq!(extract_name(&payload), None);
}

#[test]
fn length_byte_alone_ends_the_scan() {
    assert_eq!(extract_name(&[0x01]), None);
}

#[test]
fn other_records_are_skipped() {
    let payload = [0x02, 0x01, 0x06, 0x03, 0x09, b'h', b'i'];
    assert_eq!(extract_name(&payload), Some("hi".to_string()));
}

#[test]
fn first_name_wins() {
    let payload = [0x03, 0x08, b's', b'h', 0x05, 0x09, b'f', b'u', b'l', b'l'];
    assert_eq!(extract_name(&payload), Some("sh".to_string()));
}

#[test]
fn name_that_is_no_text_is_skipped() {
    let payload = [0x03, 0x09, 0xff, 0xfe, 0x03, 0x08, b'o', b'k'];
    assert_eq!(extract_name(&payload), Some("ok".to_string()));
}

#[test]
fn overlong_encoding_is_no_text() {
    let payload = [0x03, 0x09, 0xc0, 0x80];
    assert_eq!(extract_name(&payload), None);
}

#[test]
fn surrogate_is_no_text() {
    let payload = [0x04, 0x09, 0xed, 0xa0, 0x80];
    assert_eq!(extract_name(&payload), None);
}

#[test]
fn multi_byte_text_is_decoded() {
    let text = "caf\u{e9} \u{20ac} \u{1f600}";
    let mut payload = vec![(text.len() + 1) as u8, 0x09];
    payload.extend_from_slice(text.as_bytes());
    assert_eq!(extract_name(&payload), Some(text.to_string()));
}

#[test]
fn name_of_only_a_tag_is_empty() {
    let payload = [0x01, 0x09];
    assert_eq!(extract_name(&payload), Some(String::new()));
}

#[test]
fn name_at_the_limit_is_reported() {
    let mut payload = vec![65, 0x09];
    payload.extend(std::iter::repeat(b'x').take(64));
    assert_eq!(extract_name(&payload), Some("x".repeat(64)));
}

#[test]
fn name_over_the_limit_is_skipped() {
    let mut payload = vec![66, 0x09];
    payload.extend(std::iter::repeat(b'x').take(65));
    payload.extend_from_slice(&[0x03, 0x08, b'o', b'k']);
    assert_eq!(extract_name(&payload), Some("ok".to_string()));
}

#[test]
fn element_is_read_at_offset() {
    let payload = [0x02, 0x01, 0x06, 0x03, 0x09, b'h', b'i'];
    let e = element_at(&payload, 3).unwrap();
    assert_eq!(e.tag, 0x09);
    assert_eq!(e.value, b"hi");
    let first = element_at(&payload, 0).unwrap();
    assert_eq!(first.tag, 0x01);
    assert_eq!(first.value, &[0x06]);
}

#[test]
fn element_is_absent_where_the_scan_ends() {
    assert!(element_at(&[0x00, 0x01], 0).is_none());
    assert!(element_at(&[0x03, 0x09, b'a'], 0).is_none());
    assert!(element_at(&[0x01, 0x09], 2).is_none());
    assert!(element_at(&[0x01, 0x09], 7).is_none());
}

#[test]
fn any_bytes_give_a_bounded_name_or_none() {
    let mut rng = Lcg(0x5eed);
    for round in 0..4000 {
        let len = (rng.next() % 48) as usize;
        let mut payload = Vec::with_capacity(len);
        for _ in 0..len {
            let byte = match rng.next() % 6 {
                0 => 0x08,
                1 => 0x09,
                2 => (rng.next() % 6) as u8,
                3 => b'a' + (rng.next() % 26) as u8,
                _ => rng.next() as u8,
            };
            payload.push(byte);
        }
        let name = extract_name(&payload);
        assert_eq!(name, scan(&payload), "round {round}: {payload:?}");
        if let Some(name) = name {
            assert!(name.len() <= 64);
        }
    }
}
