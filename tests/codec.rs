use gpiochip::abi::{
    decode_chip_info, decode_event, decode_line_info, decode_values, encode_event_request,
    encode_handle_request, encode_line_info_query, encode_values, first_value, read_fd,
    zeroed_record, ByteOrder, CHIP_INFO_SIZE, EVENT_DATA_SIZE, HANDLE_REQUEST_FD_AT,
    HANDLE_REQUEST_SIZE, LINE_INFO_SIZE,
};
use gpiochip::text::{decode_text, encode_label, text_end};
use gpiochip::{EventId, EventRequestFlags, GpioError, RequestFlags};

fn field(text: &[u8]) -> Vec<u8> {
    let mut f = text.to_vec();
    f.resize(32, 0);
    f
}

#[test]
fn field_with_padding_decodes_to_its_text() {
    assert_eq!(decode_text(&field(b"gpio0")), "gpio0");
    assert_eq!(text_end(&field(b"gpio0")), 5);
}

#[test]
fn field_without_nul_decodes_whole() {
    let full = b"abcdefghijklmnopqrstuvwxyz012345";
    assert_eq!(full.len(), 32);
    assert_eq!(decode_text(full), "abcdefghijklmnopqrstuvwxyz012345");
    assert_eq!(text_end(full), 32);
}

#[test]
fn empty_field_decodes_to_empty_text() {
    assert_eq!(decode_text(&[0u8; 32]), "");
}

#[test]
fn text_stops_at_first_nul() {
    let mut f = field(b"ab");
    f[5] = b'z';
    assert_eq!(decode_text(&f), "ab");
}

#[test]
fn invalid_utf8_is_replaced() {
    let f = field(&[b'a', 0xff, b'b']);
    assert_eq!(decode_text(&f), "a\u{fffd}b");
}

#[test]
fn label_is_padded_with_nul() {
    let l = encode_label("led");
    assert_eq!(l.len(), 32);
    assert_eq!(&l[..3], b"led");
    assert!(l[3..].iter().all(|&b| b == 0));
}

#[test]
fn label_is_cut_at_field_width() {
    let long = "0123456789abcdefghijklmnopqrstuvwxyz";
    let l = encode_label(long);
    assert_eq!(l, long.as_bytes()[..32].to_vec());
}

#[test]
fn chip_info_is_decoded() {
    let mut buf = field(b"gpiochip0");
    buf.extend(field(b"pinctrl-bcm2835"));
    buf.extend(54u32.to_le_bytes());
    assert_eq!(buf.len(), CHIP_INFO_SIZE);
    let (name, label, lines) = decode_chip_info(&buf, ByteOrder::Little);
    assert_eq!(name, "gpiochip0");
    assert_eq!(label, "pinctrl-bcm2835");
    assert_eq!(lines, 54);
    let mut be = buf.clone();
    be[64..68].copy_from_slice(&54u32.to_be_bytes());
    assert_eq!(decode_chip_info(&be, ByteOrder::Big).2, 54);
}

#[test]
fn line_info_query_carries_the_index() {
    let q = encode_line_info_query(0x0102_0304, ByteOrder::Little);
    assert_eq!(q.len(), LINE_INFO_SIZE);
    assert_eq!(&q[..4], &[4, 3, 2, 1]);
    assert!(q[4..].iter().all(|&b| b == 0));
    let q = encode_line_info_query(0x0102_0304, ByteOrder::Big);
    assert_eq!(&q[..4], &[1, 2, 3, 4]);
}

#[test]
fn line_info_keeps_the_requested_index() {
    for gpio in [0u32, 1, 17, 53] {
        let mut buf = 99u32.to_le_bytes().to_vec();
        buf.extend(0b10110u32.to_le_bytes());
        buf.extend(field(b"GPIO17"));
        buf.extend(field(b"sysfs"));
        let info = decode_line_info(gpio, &buf, ByteOrder::Little);
        assert_eq!(info.gpio, gpio);
        assert_eq!(info.name, "GPIO17");
        assert_eq!(info.consumer, "sysfs");
        assert_eq!(info.flags.bits(), 0b10110);
    }
}

#[test]
fn handle_request_layout() {
    let flags = RequestFlags::from_bits(gpiochip::flags::REQUEST_OUTPUT);
    let req = encode_handle_request("app", flags, &[3, 7], &[1, 0], ByteOrder::Little).unwrap();
    assert_eq!(req.len(), HANDLE_REQUEST_SIZE);
    assert_eq!(&req[0..4], &3u32.to_le_bytes());
    assert_eq!(&req[4..8], &7u32.to_le_bytes());
    assert!(req[8..256].iter().all(|&b| b == 0));
    assert_eq!(&req[256..260], &2u32.to_le_bytes());
    assert_eq!(&req[260..262], &[1, 0]);
    assert!(req[262..324].iter().all(|&b| b == 0));
    assert_eq!(&req[324..327], b"app");
    assert!(req[327..356].iter().all(|&b| b == 0));
    assert_eq!(&req[356..360], &2u32.to_le_bytes());
    assert_eq!(&req[360..364], &[0, 0, 0, 0]);
}

#[test]
fn handle_request_with_mismatched_defaults_is_rejected() {
    let flags = RequestFlags::from_bits(gpiochip::flags::REQUEST_INPUT);
    let r = encode_handle_request("app", flags, &[1, 2, 3], &[0, 0], ByteOrder::Little);
    assert_eq!(r, Err(GpioError::InvalidInput));
}

#[test]
fn handle_request_over_64_lines_is_rejected() {
    let flags = RequestFlags::from_bits(gpiochip::flags::REQUEST_INPUT);
    let gpios: Vec<u32> = (0..65).collect();
    let defaults = vec![0u8; 65];
    let r = encode_handle_request("app", flags, &gpios, &defaults, ByteOrder::Little);
    assert_eq!(r, Err(GpioError::InvalidInput));
    let r = encode_handle_request("app", flags, &gpios[..64], &defaults[..64], ByteOrder::Little);
    assert!(r.is_ok());
}

#[test]
fn descriptor_is_read_back() {
    let mut req = vec![0u8; HANDLE_REQUEST_SIZE];
    req[HANDLE_REQUEST_FD_AT..].copy_from_slice(&9i32.to_le_bytes());
    assert_eq!(read_fd(&req, HANDLE_REQUEST_FD_AT, ByteOrder::Little), 9);
}

#[test]
fn event_request_layout() {
    let hf = RequestFlags::from_bits(gpiochip::flags::REQUEST_INPUT);
    let ef = EventRequestFlags::from_bits(gpiochip::flags::EVENT_BOTH_EDGES);
    let req = encode_event_request("btn", 4, hf, ef, ByteOrder::Big);
    assert_eq!(req.len(), 48);
    assert_eq!(&req[0..4], &[0, 0, 0, 4]);
    assert_eq!(&req[4..8], &[0, 0, 0, 1]);
    assert_eq!(&req[8..12], &[0, 0, 0, 3]);
    assert_eq!(&req[12..15], b"btn");
    assert!(req[15..48].iter().all(|&b| b == 0));
}

#[test]
fn values_of_wrong_count_are_rejected() {
    assert_eq!(encode_values(&[1, 0], 3), Err(GpioError::InvalidInput));
    assert_eq!(encode_values(&[1, 0, 1, 1], 3), Err(GpioError::InvalidInput));
    assert_eq!(encode_values(&[0u8; 65], 65), Err(GpioError::InvalidInput));
}

#[test]
fn values_are_padded_to_the_record() {
    let data = encode_values(&[1, 0, 1], 3).unwrap();
    assert_eq!(data.len(), 64);
    assert_eq!(&data[..3], &[1, 0, 1]);
    assert!(data[3..].iter().all(|&b| b == 0));
}

#[test]
fn set_then_get_one_line() {
    for v in [1u8, 0u8] {
        let sent = encode_values(&[v], 1).unwrap();
        let back = decode_values(&sent);
        assert_eq!(first_value(&back), v);
    }
}

#[test]
fn zeroed_record_has_the_size_asked() {
    let z = zeroed_record(CHIP_INFO_SIZE);
    assert_eq!(z, vec![0u8; 68]);
}

#[test]
fn event_record_is_decoded() {
    let mut buf = 123_456_789_000u64.to_le_bytes().to_vec();
    buf.extend(2u32.to_le_bytes());
    buf.extend([0u8; 4]);
    let e = decode_event(&buf, EVENT_DATA_SIZE, ByteOrder::Little).unwrap();
    assert_eq!(e.timestamp, 123_456_789_000);
    assert_eq!(e.id, EventId::FALLING_EDGE);
    assert_eq!(e.id.code(), 2);
}

#[test]
fn big_endian_event_record_is_decoded() {
    let mut buf = 0x0102_0304_0506_0708u64.to_be_bytes().to_vec();
    buf.extend(1u32.to_be_bytes());
    buf.extend([0u8; 4]);
    let e = decode_event(&buf, EVENT_DATA_SIZE, ByteOrder::Big).unwrap();
    assert_eq!(e.timestamp, 0x0102_0304_0506_0708);
    assert_eq!(e.id, EventId::RISING_EDGE);
}

#[test]
fn short_event_read_is_invalid_data() {
    let buf = [0u8; 16];
    assert_eq!(decode_event(&buf, 15, ByteOrder::Little), Err(GpioError::InvalidData));
    assert_eq!(decode_event(&buf, 0, ByteOrder::Little), Err(GpioError::InvalidData));
}

#[test]
fn unknown_event_code_is_invalid_data() {
    let mut buf = 5u64.to_le_bytes().to_vec();
    buf.extend(3u32.to_le_bytes());
    buf.extend([0u8; 4]);
    assert_eq!(decode_event(&buf, 16, ByteOrder::Little), Err(GpioError::InvalidData));
}

#[test]
fn rejected_set_leaves_mock_lines_unchanged() {
    let mut lines: Vec<u8> = vec![0; 64];
    let apply = |lines: &mut Vec<u8>, values: &[u8]| -> Result<(), GpioError> {
        let data = encode_values(values, 3)?;
        lines.copy_from_slice(&data);
        Ok(())
    };
    assert_eq!(apply(&mut lines, &[1, 1, 0]), Ok(()));
    assert_eq!(apply(&mut lines, &[0, 0]), Err(GpioError::InvalidInput));
    assert_eq!(&lines[..3], &[1, 1, 0]);
}
