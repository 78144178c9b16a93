use aa_proxy::frame::{decode_header, encode_frame, ProxyFrameSniffer, ProxyMessageId};
use aa_proxy::inspect::{
    inspect_wifi_projection_protocol_info, inspect_wifi_setup_info, inspect_wifi_version_request,
    inspect_wifi_version_response, wifi_projection_info_looks_valid,
};
use aa_proxy::wire::{
    encode_proto_varint, next_field, override_wifi_setup_info_payload,
    override_wifi_version_request_payload, override_wifi_version_response_payload,
    proto_int32_status_payload, protocol_version_less_than_pair, read_proto_varint,
    should_override_inspected_protocol_version, signed_from_proto_varint, skip_proto_value,
    wifi_connect_status_payload, wifi_ping_request_payload, wifi_start_response_status_payload,
};

fn varint(value: u64) -> Vec<u8> {
    let mut out = Vec::new();
    encode_proto_varint(value, &mut out);
    out
}

#[test]
fn varints_are_written_low_bits_first() {
    assert_eq!(varint(0), vec![0]);
    assert_eq!(varint(127), vec![0x7f]);
    assert_eq!(varint(300), vec![0xac, 0x02]);
    assert_eq!(varint(u64::MAX).len(), 10);
}

#[test]
fn varint_round_trip() {
    for value in [0u64, 1, 127, 128, 16383, 16384, 1 << 32, u64::MAX] {
        let bytes = varint(value);
        let mut offset = 0;
        assert_eq!(read_proto_varint(&bytes, &mut offset), Some(value));
        assert_eq!(offset, bytes.len());
    }
}

#[test]
fn an_unfinished_varint_is_none() {
    let mut offset = 0;
    assert_eq!(read_proto_varint(&[0x80, 0x80], &mut offset), None);
}

#[test]
fn a_varint_of_eleven_bytes_is_none() {
    let mut offset = 0;
    let long = [0x80u8; 11];
    assert_eq!(read_proto_varint(&long, &mut offset), None);
}

#[test]
fn signed_varints_use_two_complement() {
    assert_eq!(signed_from_proto_varint(u64::MAX), -1);
    assert_eq!(signed_from_proto_varint(5), 5);
}

#[test]
fn values_are_skipped_by_their_wire_type() {
    let bytes = [0xac, 0x02, 0x02, 0x41, 0x42, 1, 2, 3, 4];
    let mut offset = 0;
    assert!(skip_proto_value(&bytes, &mut offset, 0));
    assert_eq!(offset, 2);
    assert!(skip_proto_value(&bytes, &mut offset, 2));
    assert_eq!(offset, 5);
    assert!(skip_proto_value(&bytes, &mut offset, 5));
    assert_eq!(offset, 9);
    assert!(!skip_proto_value(&bytes, &mut offset, 1));
    let mut offset = 0;
    assert!(!skip_proto_value(&bytes, &mut offset, 3));
}

#[test]
fn fields_are_found_in_turn() {
    let payload = [0x08, 0x05, 0x12, 0x02, 0x68, 0x69];
    let mut offset = 0;
    let first = next_field(&payload, &mut offset).unwrap();
    assert_eq!((first.number, first.wire, first.varint), (1, 0, 5));
    let second = next_field(&payload, &mut offset).unwrap();
    assert_eq!((second.number, second.wire), (2, 2));
    assert_eq!(&payload[second.from..second.to], b"hi");
    assert!(next_field(&payload, &mut offset).is_none());
}

#[test]
fn status_payloads_are_exact() {
    assert_eq!(wifi_connect_status_payload(0), vec![0x08, 0x00]);
    assert_eq!(wifi_start_response_status_payload(0), vec![0x18, 0x00]);
    assert_eq!(proto_int32_status_payload(1, 300), vec![0x08, 0xac, 0x02]);
    let minus_one = proto_int32_status_payload(1, -1);
    assert_eq!(minus_one.len(), 11);
    assert_eq!(minus_one[0], 0x08);
    assert_eq!(minus_one[10], 0x01);
    assert_eq!(wifi_ping_request_payload(1), vec![0x08, 0x01]);
}

#[test]
fn versions_compare_major_first() {
    assert!(protocol_version_less_than_pair(1, 9, 2, 0));
    assert!(protocol_version_less_than_pair(5, 0, 5, 1));
    assert!(!protocol_version_less_than_pair(5, 1, 5, 1));
    assert!(!protocol_version_less_than_pair(6, 0, 5, 9));
    assert!(should_override_inspected_protocol_version(Some(1), Some(0), 5, 1));
    assert!(!should_override_inspected_protocol_version(Some(5), Some(1), 5, 1));
    assert!(should_override_inspected_protocol_version(None, Some(1), 5, 1));
}

#[test]
fn an_overridden_version_shows() {
    let setup = [0x08, 0x01, 0x10, 0x02];
    let out = override_wifi_setup_info_payload(&setup, 5, 1).unwrap();
    let info = inspect_wifi_setup_info(&out);
    assert_eq!((info.major_version, info.minor_version), (Some(5), Some(1)));

    let request = override_wifi_version_request_payload(&setup, 5, 1).unwrap();
    let info = inspect_wifi_version_request(&request);
    assert_eq!((info.major_version, info.minor_version), (Some(5), Some(1)));

    let response = override_wifi_version_response_payload(&setup, 6, 7).unwrap();
    let info = inspect_wifi_version_response(&response);
    assert_eq!((info.major_version, info.minor_version), (Some(6), Some(7)));
}

#[test]
fn an_override_keeps_other_fields() {
    let payload = [0x08, 0x01, 0x10, 0x02, 0x1a, 0x02, 0x68, 0x69];
    let once = override_wifi_setup_info_payload(&payload, 5, 1).unwrap();
    assert!(once.windows(4).any(|w| w == [0x1a, 0x02, 0x68, 0x69]));
    let twice = override_wifi_setup_info_payload(&once, 6, 2).unwrap();
    let info = inspect_wifi_setup_info(&twice);
    assert_eq!((info.major_version, info.minor_version), (Some(6), Some(2)));
    assert_eq!(twice, override_wifi_setup_info_payload(&payload, 6, 2).unwrap());
    let response = inspect_wifi_version_response(&twice);
    assert_eq!(response.device_serial.as_deref(), Some("hi"));
    assert_eq!(response.device_serial, inspect_wifi_version_response(&payload).device_serial);
}

#[test]
fn a_broken_payload_is_not_overridden() {
    assert!(override_wifi_setup_info_payload(&[0x08], 5, 1).is_none());
}

#[test]
fn a_projection_endpoint_is_read() {
    let mut payload = vec![0x0a, 8];
    payload.extend_from_slice(b"10.0.0.1");
    payload.extend_from_slice(&[0x10, 0xa8, 0x29]);
    let info = inspect_wifi_projection_protocol_info(&payload);
    assert_eq!(info.ip_address.as_deref(), Some("10.0.0.1"));
    assert_eq!(info.port, Some(5288));
    assert!(wifi_projection_info_looks_valid(&info));
}

#[test]
fn text_that_is_not_utf8_is_left_out() {
    let payload = [0x0a, 0x02, 0xff, 0xfe];
    let info = inspect_wifi_projection_protocol_info(&payload);
    assert_eq!(info.ip_address, None);
    assert!(!wifi_projection_info_looks_valid(&info));
}

#[test]
fn frames_carry_length_and_number() {
    assert_eq!(
        encode_frame(ProxyMessageId::WifiStartRequest.as_u16(), &[0x08, 0x01]),
        vec![0, 2, 0, 1, 0x08, 0x01]
    );
    assert_eq!(decode_header(&[0x01, 0x02, 0x00, 0x07]), (0x0102, 7));
}

#[test]
fn message_numbers_differ() {
    let all = [
        ProxyMessageId::WifiStartRequest,
        ProxyMessageId::WifiInfoRequest,
        ProxyMessageId::WifiInfoResponse,
        ProxyMessageId::WifiVersionRequest,
        ProxyMessageId::WifiVersionResponse,
        ProxyMessageId::WifiConnectStatus,
        ProxyMessageId::WifiStartResponse,
        ProxyMessageId::WifiPingRequest,
        ProxyMessageId::WifiPingResponse,
        ProxyMessageId::WifiSetupInfo,
    ];
    let numbers: Vec<u16> = all.iter().map(|m| m.as_u16()).collect();
    for i in 0..numbers.len() {
        for j in 0..i {
            assert_ne!(numbers[i], numbers[j]);
        }
    }
    assert_eq!(ProxyMessageId::name(1), "WifiStartRequest");
    assert_eq!(ProxyMessageId::name(999), "Unknown");
}

#[test]
fn frames_are_found_however_they_are_cut() {
    let mut bytes = encode_frame(1, &[1, 2, 3]);
    bytes.extend(encode_frame(7, &[]));
    bytes.extend(encode_frame(3, &[9]));
    for cut in 0..bytes.len() {
        let mut sniffer = ProxyFrameSniffer::new();
        let mut found = sniffer.push(&bytes[..cut]);
        found.extend(sniffer.push(&bytes[cut..]));
        let seen: Vec<(u16, Vec<u8>)> = found.into_iter().map(|f| (f.id, f.payload)).collect();
        assert_eq!(seen, vec![(1, vec![1, 2, 3]), (7, vec![]), (3, vec![9])]);
    }
}

#[test]
fn a_partial_frame_is_kept() {
    let mut sniffer = ProxyFrameSniffer::new();
    assert_eq!(sniffer.push(&[0, 2, 0]).len(), 0);
    assert_eq!(sniffer.push(&[1, 5]).len(), 0);
    let frames = sniffer.push(&[6]);
    assert_eq!(frames.len(), 1);
    assert_eq!(frames[0].payload, vec![5, 6]);
}
