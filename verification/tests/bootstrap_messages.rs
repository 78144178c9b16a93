use aa_proxy::messages::{
    encode_info, encode_start, endpoint_from, info_from, parse_info, parse_start, rewrite_start,
    MessageField, RawField, RawValue, RewriteError,
};
use aa_proxy::wifi_text::CarWifiInfo;
use protobuf::well_known_types::empty::Empty;
use protobuf::{CodedInputStream, Message};

fn unreadable(bytes: &[u8]) -> String {
    Empty::parse_from_bytes(bytes).unwrap_err().to_string()
}

fn not_utf8() -> Result<(String, i32), String> {
    Err("Invalid UTF-8 sequence".to_string())
}

#[test]
fn a_start_request_is_exact() {
    let mut expected = vec![0x0a, 8];
    expected.extend_from_slice(b"10.0.0.1");
    expected.extend_from_slice(&[0x10, 0xa8, 0x29]);
    assert_eq!(encode_start("10.0.0.1", 5288), expected);
}

#[test]
fn an_endpoint_is_read_back() {
    for port in [0, 1, 5288, i32::MAX, -1, i32::MIN] {
        let bytes = encode_start("käse", port);
        assert_eq!(parse_start(&bytes), Ok(("käse".to_string(), port)));
    }
}

#[test]
fn missing_fields_are_empty() {
    assert_eq!(parse_start(&[]), Ok((String::new(), 0)));
    assert_eq!(parse_start(&[0x10, 0x05]), Ok((String::new(), 5)));
}

#[test]
fn the_last_field_counts() {
    let mut bytes = encode_start("a", 1);
    bytes.extend(encode_start("b", 2));
    assert_eq!(parse_start(&bytes), Ok(("b".to_string(), 2)));
}

#[test]
fn what_cannot_be_read_is_none() {
    for bytes in [vec![0x0a, 5, 1], vec![0x07], vec![0x0a], vec![0x10, 0x80]] {
        assert_eq!(parse_start(&bytes), Err(unreadable(&bytes)));
    }
    assert_eq!(parse_start(&[0x0a, 1, 0xff]), not_utf8());
}

#[test]
fn a_rewritten_request_keeps_other_fields() {
    let mut request = encode_start("192.168.43.1", 30515);
    request.extend_from_slice(&[0x2a, 2, 0x68, 0x69, 0x30, 7]);
    let out = rewrite_start(&request, "10.0.0.1", 5288).unwrap();
    assert_eq!(parse_start(&out), Ok(("10.0.0.1".to_string(), 5288)));
    assert!(out.starts_with(&encode_start("10.0.0.1", 5288)));
    assert!(out.windows(4).any(|w| w == [0x2a, 2, 0x68, 0x69]));
    assert!(out.windows(2).any(|w| w == [0x30, 7]));
    assert_eq!(out.len(), encode_start("10.0.0.1", 5288).len() + 6);
    assert_eq!(rewrite_start(&[0x0a], "x", 1), Err(RewriteError::NotAMessage(unreadable(&[0x0a]))));
}

fn info(open: bool) -> CarWifiInfo {
    CarWifiInfo {
        ssid: "net".to_string(),
        key: "secret".to_string(),
        bssid: "02:00".to_string(),
        is_open: open,
        security_name: String::new(),
        dynamic: true,
    }
}

#[test]
fn a_description_is_read_back() {
    let bytes = encode_info(&info(false));
    assert!(bytes.ends_with(&[0x20, 8, 0x28, 1]));
    let back = parse_info(&bytes).unwrap();
    assert_eq!((back.ssid.as_str(), back.key.as_str()), ("net", "secret"));
    assert_eq!(back.bssid, "02:00");
    assert_eq!(back.security_name, "WPA2_PERSONAL");
    assert!(!back.is_open && back.dynamic);
    let open = parse_info(&encode_info(&info(true))).unwrap();
    assert!(open.is_open);
    assert_eq!(open.security_name, "OPEN");
    let error = |bytes: &[u8]| parse_info(bytes).err().unwrap();
    assert_eq!(error(&[0x0a, 1, 0xff]), "Invalid UTF-8 sequence");
    assert_eq!(error(&[0x0a, 9]), unreadable(&[0x0a, 9]));
}

fn field(number: u32, value: RawValue<Vec<u8>>) -> RawField {
    MessageField { number, value }
}

#[test]
fn fields_of_another_kind_do_not_count() {
    let fields = vec![field(1, RawValue::Varint(5)), field(2, RawValue::Bytes(vec![1]))];
    assert_eq!(endpoint_from(&fields), Some((String::new(), 0)));
    let fields = vec![
        field(1, RawValue::Bytes(b"x".to_vec())),
        field(2, RawValue::Varint(u64::MAX)),
        field(1, RawValue::Varint(7)),
        field(2, RawValue::Fixed32(9)),
    ];
    assert_eq!(endpoint_from(&fields), Some(("x".to_string(), -1)));
    assert_eq!(endpoint_from(&vec![field(1, RawValue::Bytes(vec![0xff]))]), None);
    let fields = vec![
        field(1, RawValue::Bytes(b"s".to_vec())),
        field(4, RawValue::Fixed32(1)),
        field(5, RawValue::Fixed64(1)),
    ];
    let network = info_from(&fields).unwrap();
    assert_eq!(network.ssid, "s");
    assert!(!network.is_open && !network.dynamic);
    assert_eq!(network.security_name, "UNKNOWN_SECURITY_MODE");
}

#[test]
fn every_value_of_a_field_must_be_readable() {
    assert_eq!(parse_start(&[0x0a, 1, 0xff, 0x0a, 1, b'x']), not_utf8());
    assert_eq!(
        parse_start(&[0x10, 0x80, 0x80, 0x80, 0x80, 0x10, 0x10, 1]),
        Err("Value too large for i32: 4294967296".to_string())
    );
    assert_eq!(parse_start(&[0x10, 0xff, 0xff, 0xff, 0xff, 0x07]), Ok((String::new(), i32::MAX)));
    assert_eq!(
        parse_start(&[0x10, 0x80, 0x80, 0x80, 0x80, 0x08]),
        Err("Value too large for i32: 2147483648".to_string())
    );
}

#[test]
fn errors_are_worded_as_the_reader_words_them() {
    let error = CodedInputStream::from_bytes(&[1, 0xff]).read_string().unwrap_err();
    assert_eq!(parse_start(&[0x0a, 1, 0xff]), Err(error.to_string()));
    let big = [0xff, 0xff, 0xff, 0xff, 0xf7, 0xff, 0xff, 0xff, 0xff, 0x01];
    let error = CodedInputStream::from_bytes(&big).read_int32().unwrap_err();
    assert_eq!(error.to_string(), "Value too large for i32: -2147483649");
    let mut field = vec![0x10];
    field.extend_from_slice(&big);
    assert_eq!(parse_start(&field), Err(error.to_string()));
}

#[test]
fn the_first_error_is_told() {
    let text = [0x0a, 1, 0xff];
    let number = [0x10, 0x80, 0x80, 0x80, 0x80, 0x08];
    let cut = [0x0a, 9];
    let group = [0x1b, 0x0a, 1, 0xff, 0x1c];
    let of = |parts: &[&[u8]]| parse_start(&parts.concat());
    let too_large = Err("Value too large for i32: 2147483648".to_string());
    assert_eq!(of(&[&text, &number]), not_utf8());
    assert_eq!(of(&[&number, &text]), too_large);
    assert_eq!(of(&[&text, &cut]), not_utf8());
    assert_eq!(of(&[&group, &number, &cut]), too_large);
    assert_eq!(of(&[&group, &cut]), Err(unreadable(&[group.as_slice(), &cut].concat())));
    assert_eq!(of(&[&group]), Ok((String::new(), 0)));
}

#[test]
fn a_description_needs_the_address_of_its_access_point() {
    let missing = "Message `WifiInfoResponse` is missing required fields";
    let named = [0x0a, 1, b's', 0x12, 1, b'k', 0x20, 8, 0x28, 1];
    assert_eq!(parse_info(&named).err().unwrap(), missing);
    assert_eq!(parse_info(&[]).err().unwrap(), missing);
    assert_eq!(parse_info(&[named.as_slice(), &[0x18, 1]].concat()).err().unwrap(), missing);
    let with = parse_info(&[named.as_slice(), &[0x1a, 0]].concat()).unwrap();
    assert_eq!((with.ssid.as_str(), with.bssid.as_str()), ("s", ""));
    let wrong = parse_info(&[named.as_slice(), &[0x12, 1, 0xff]].concat());
    assert_eq!(wrong.err().unwrap(), "Invalid UTF-8 sequence");
}

#[test]
fn a_rewritten_request_keeps_values_of_another_kind() {
    let request = [0x0d, 1, 2, 3, 4, 0x11, 1, 2, 3, 4, 5, 6, 7, 8, 0x0a, 1, b'x', 0x12, 1, 9, 0x18, 3, 0x18, 4];
    let out = rewrite_start(&request, "y", 6).unwrap();
    assert_eq!(parse_start(&out), Ok(("y".to_string(), 6)));
    assert!(out.starts_with(&[0x0a, 1, b'y', 0x10, 6]));
    assert!(out.windows(5).any(|w| w == [0x0d, 1, 2, 3, 4]));
    assert!(out.windows(9).any(|w| w == [0x11, 1, 2, 3, 4, 5, 6, 7, 8]));
    assert!(out.windows(3).any(|w| w == [0x12, 1, 9]));
    assert!(out.windows(4).any(|w| w == [0x18, 3, 0x18, 4]));
    assert_eq!(out.len(), 5 + 5 + 9 + 3 + 4);
    assert_eq!(rewrite_start(&[], "y", 6), Ok(encode_start("y", 6)));
    assert_eq!(
        rewrite_start(&[0x0a, 1, 0xff], "y", 6),
        Err(RewriteError::NotAMessage("Invalid UTF-8 sequence".to_string()))
    );
}
