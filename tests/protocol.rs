use casita::commands::{CommandId, NetworkParameter};
use casita::frame::Frame;
use casita::slip::{SlipDecoder, SlipEncoder, SLIP_END, SLIP_ESC, SLIP_ESC_END, SLIP_ESC_ESC};
use casita::types::{
    ActiveEndpointsResponse, AddressMode, ApsDataIndication, ApsDataRequest, DeviceAnnouncement,
    DeviceState, FirmwareVersion, NetworkState, OnOffCommand, Platform, ProtocolError,
    SimpleDescriptorResponse, Status, ZclFrame,
};

#[test]
fn test_encode_simple() {
    let data = vec![0x01, 0x02, 0x03];
    let encoded = SlipEncoder::encode(&data);
    assert_eq!(encoded, vec![SLIP_END, 0x01, 0x02, 0x03, SLIP_END]);
}

#[test]
fn test_encode_with_end_byte() {
    let data = vec![0x01, SLIP_END, 0x03];
    let encoded = SlipEncoder::encode(&data);
    assert_eq!(encoded, vec![SLIP_END, 0x01, SLIP_ESC, SLIP_ESC_END, 0x03, SLIP_END]);
}

#[test]
fn test_encode_with_esc_byte() {
    let data = vec![0x01, SLIP_ESC, 0x03];
    let encoded = SlipEncoder::encode(&data);
    assert_eq!(encoded, vec![SLIP_END, 0x01, SLIP_ESC, SLIP_ESC_ESC, 0x03, SLIP_END]);
}

#[test]
fn test_decode_simple() {
    let mut decoder = SlipDecoder::new();
    let frames = decoder.feed(&[SLIP_END, 0x01, 0x02, 0x03, SLIP_END]);
    assert_eq!(frames, vec![vec![0x01, 0x02, 0x03]]);
}

#[test]
fn test_decode_with_escapes() {
    let mut decoder = SlipDecoder::new();
    let frames = decoder.feed(&[SLIP_END, 0x01, SLIP_ESC, SLIP_ESC_END, SLIP_ESC, SLIP_ESC_ESC, SLIP_END]);
    assert_eq!(frames, vec![vec![0x01, SLIP_END, SLIP_ESC]]);
}

#[test]
fn test_decode_partial() {
    let mut decoder = SlipDecoder::new();
    let frames = decoder.feed(&[SLIP_END, 0x01, 0x02]);
    assert!(frames.is_empty());
    let frames = decoder.feed(&[0x03, SLIP_END]);
    assert_eq!(frames, vec![vec![0x01, 0x02, 0x03]]);
}

#[test]
fn test_roundtrip() {
    let data = vec![0x01, SLIP_END, 0x02, SLIP_ESC, 0x03, 0x00, 0xFF];
    let encoded = SlipEncoder::encode(&data);
    let mut decoder = SlipDecoder::new();
    let decoded = decoder.feed(&encoded);
    assert_eq!(decoded, vec![data]);
}

#[test]
fn slip_round_trip_many_strings() {
    for len in 1..40usize {
        let data: Vec<u8> = (0..len).map(|i| [SLIP_END, SLIP_ESC, 0x00, 0xFF, 0xDC, 0xDD][(i * 7 + len) % 6]).collect();
        let mut decoder = SlipDecoder::new();
        assert_eq!(decoder.feed(&SlipEncoder::encode(&data)), vec![data.clone()]);
    }
}

#[test]
fn slip_empty_frames_are_dropped() {
    let mut decoder = SlipDecoder::new();
    assert!(decoder.feed(&SlipEncoder::encode(&[])).is_empty());
    assert!(decoder.feed(&[SLIP_END, SLIP_END, SLIP_END]).is_empty());
}

#[test]
fn slip_invalid_escape_kept_as_pair() {
    let mut decoder = SlipDecoder::new();
    let frames = decoder.feed(&[SLIP_END, SLIP_ESC, 0x41, SLIP_END]);
    assert_eq!(frames, vec![vec![SLIP_ESC, 0x41]]);
}

#[test]
fn slip_clear_drops_partial_frame() {
    let mut decoder = SlipDecoder::new();
    assert!(decoder.feed(&[SLIP_END, 0x01, SLIP_ESC]).is_empty());
    decoder.clear();
    assert_eq!(decoder.feed(&[0x02, SLIP_END]), vec![vec![0x02]]);
}

#[test]
fn test_crc_calculation() {
    let data = vec![0x0D, 0x01, 0x00, 0x09, 0x00, 0x00, 0x00];
    let crc = Frame::calculate_crc(&data);
    let sum: u16 = data.iter().map(|&b| u16::from(b)).sum();
    let expected_crc = (!sum).wrapping_add(1);
    assert_eq!(crc, expected_crc);
}

#[test]
fn crc_exact_values() {
    assert_eq!(Frame::calculate_crc(&[0x0D, 0x01, 0x00, 0x09, 0x00, 0x00, 0x00]), 0xFFE9);
    assert_eq!(Frame::calculate_crc(&[]), 0);
    assert_eq!(Frame::calculate_crc(&[0xFF; 300]), 0u16.wrapping_sub((0xFFu32 * 300) as u16));
}

#[test]
fn test_frame_too_short() {
    let result = Frame::deserialize(&[0x01, 0x02]);
    assert!(matches!(result, Err(ProtocolError::FrameTooShort(_))));
}

#[test]
fn frame_serialize_layout() {
    let f = Frame::new(CommandId::Version, 1, vec![0x00, 0x00, 0x00, 0x00]);
    let bytes = f.serialize();
    assert_eq!(&bytes[..5], &[0x0D, 0x01, 0x00, 0x09, 0x00]);
    assert_eq!(bytes.len(), 11);
    let crc = Frame::calculate_crc(&bytes[..9]);
    assert_eq!(&bytes[9..], &crc.to_le_bytes());
}

#[test]
fn frame_round_trip_and_bit_flips() {
    let payload = vec![0x05, 0x00, 0x22, 0x10, 0x26];
    let f = Frame::new(CommandId::ReadParameter, 42, payload.clone());
    let bytes = f.serialize();
    let back = Frame::deserialize(&bytes).unwrap();
    assert_eq!(back.command_id, CommandId::ReadParameter);
    assert_eq!(back.sequence, 42);
    assert_eq!(back.status, 0);
    assert_eq!(back.payload, payload);
    for i in 0..bytes.len() - 2 {
        for bit in 0..8 {
            let mut bad = bytes.clone();
            bad[i] ^= 1 << bit;
            assert!(matches!(Frame::deserialize(&bad), Err(ProtocolError::CrcMismatch { .. })));
        }
    }
}

#[test]
fn frame_crc_corruption_rejected() {
    let f = Frame::new(CommandId::ReadParameter, 3, vec![0x03, 0x00, 0x22, 0x02, 0x01]);
    let mut bytes = f.serialize();
    let last = bytes.len() - 1;
    bytes[last] ^= 0xFF;
    assert!(matches!(Frame::deserialize(&bytes), Err(ProtocolError::CrcMismatch { .. })));
}

#[test]
fn frame_unknown_command_and_bad_length() {
    let mut data = vec![0x99, 0x01, 0x00, 0x07, 0x00];
    let crc = Frame::calculate_crc(&data);
    data.extend_from_slice(&crc.to_le_bytes());
    assert_eq!(Frame::deserialize(&data).unwrap_err(), ProtocolError::UnknownCommand(0x99));

    let mut data = vec![0x0D, 0x01, 0x00, 0x20, 0x00];
    let crc = Frame::calculate_crc(&data);
    data.extend_from_slice(&crc.to_le_bytes());
    assert!(matches!(Frame::deserialize(&data), Err(ProtocolError::InvalidFrame(_))));
}

#[test]
fn command_and_parameter_bytes() {
    assert_eq!(CommandId::from_u8(0x17), Some(CommandId::ApsDataIndication));
    assert_eq!(CommandId::from_u8(0x00), None);
    assert_eq!(CommandId::MacPoll.to_u8(), 0x1C);
    assert_eq!(NetworkParameter::from_u8(0x21), Some(NetworkParameter::PermitJoin));
    assert_eq!(NetworkParameter::from_u8(0x02), None);
    assert_eq!(NetworkParameter::NetworkKey.value_length(), 16);
    assert_eq!(NetworkParameter::NwkPanId.value_length(), 2);
    assert_eq!(NetworkParameter::CurrentChannel.value_length(), 1);
    assert_eq!(NetworkParameter::MacAddress.value_length(), 8);
    assert_eq!(NetworkParameter::ChannelMask.value_length(), 4);
}

#[test]
fn status_and_state_bytes() {
    assert_eq!(Status::from_u8(6), Ok(Status::NoNetwork));
    assert_eq!(Status::from_u8(9), Err(9));
    let st = DeviceState::from_byte(0x2A);
    assert_eq!(st.network_state, NetworkState::Connected);
    assert!(!st.aps_data_confirm);
    assert!(st.aps_data_indication);
    assert!(!st.configuration_changed);
    assert!(st.aps_request_free_slots);
    assert_eq!(NetworkState::from_bits(0xFF), NetworkState::Leaving);
}

#[test]
fn firmware_version_fields() {
    let v = FirmwareVersion::from_u32(0x2670_0700);
    assert_eq!((v.major, v.minor, v.patch), (0x26, 0x70, 0x07));
    assert_eq!(v.platform, Platform::Unknown(0));
    assert_eq!(FirmwareVersion::from_u32(0x0000_0007).platform, Platform::ConBeeII);
}

fn indication(dest_mode: u8, src_mode: u8, asdu: &[u8], tail: &[u8]) -> Vec<u8> {
    let mut d = vec![0x00, 0x00, 0x22, dest_mode];
    match dest_mode {
        3 => d.extend_from_slice(&[1, 2, 3, 4, 5, 6, 7, 8]),
        4 => d.extend_from_slice(&[0x34, 0x12, 1, 2, 3, 4, 5, 6, 7, 8]),
        _ => d.extend_from_slice(&[0x00, 0x00]),
    }
    d.push(0x01);
    d.push(src_mode);
    match src_mode {
        3 => d.extend_from_slice(&[0x11, 0x22, 0x33, 0x44, 0x55, 0x66, 0x77, 0x88]),
        4 => d.extend_from_slice(&[0xCD, 0xAB, 0x11, 0x22, 0x33, 0x44, 0x55, 0x66, 0x77, 0x88]),
        _ => d.extend_from_slice(&[0xCD, 0xAB]),
    }
    d.push(0x03);
    d.extend_from_slice(&[0x04, 0x01, 0x06, 0x00]);
    d.extend_from_slice(&(asdu.len() as u16).to_le_bytes());
    d.extend_from_slice(asdu);
    d.extend_from_slice(tail);
    d
}

#[test]
fn indication_parses_each_mode() {
    let ind = ApsDataIndication::parse(&indication(2, 2, &[0x01, 0x07, 0x02], &[0xFF, 0xC4])).unwrap();
    assert_eq!(ind.dest_addr_mode, AddressMode::Nwk);
    assert_eq!(ind.src_short_addr, 0xABCD);
    assert_eq!(ind.src_ieee_addr, None);
    assert_eq!(ind.src_endpoint, 3);
    assert_eq!(ind.profile_id, 0x0104);
    assert_eq!(ind.cluster_id, 0x0006);
    assert_eq!(ind.asdu, vec![0x01, 0x07, 0x02]);
    assert_eq!(ind.lqi, 0xFF);
    assert_eq!(ind.rssi, -60);
    assert!(!ind.device_state.aps_data_indication);
    assert!(ind.device_state.aps_request_free_slots);
    assert_eq!(ind.device_state.network_state, NetworkState::Connected);

    let ind = ApsDataIndication::parse(&indication(3, 4, &[0xAA], &[])).unwrap();
    assert_eq!(ind.dest_addr, 0);
    assert_eq!(ind.src_short_addr, 0xABCD);
    assert_eq!(ind.src_ieee_addr, Some([0x11, 0x22, 0x33, 0x44, 0x55, 0x66, 0x77, 0x88]));
    assert_eq!(ind.lqi, 0);
    assert_eq!(ind.rssi, 0);

    let ind = ApsDataIndication::parse(&indication(4, 3, &[], &[7])).unwrap();
    assert_eq!(ind.dest_addr, 0x1234);
    assert_eq!(ind.src_short_addr, 0);
    assert_eq!(ind.lqi, 7);
}

#[test]
fn indication_bad_address_mode_is_invalid_frame() {
    for mode in [0u8, 5, 0x80, 0xFF] {
        let mut d = indication(2, 2, &[0x01, 0x02, 0x03], &[]);
        d[3] = mode;
        assert!(matches!(ApsDataIndication::parse(&d), Err(ProtocolError::InvalidFrame(_))));
        let mut d = indication(2, 2, &[0x01, 0x02, 0x03], &[]);
        d[7] = mode;
        assert!(matches!(ApsDataIndication::parse(&d), Err(ProtocolError::InvalidFrame(_))));
    }
}

#[test]
fn indication_short_inputs() {
    assert_eq!(ApsDataIndication::parse(&[0u8; 14]).unwrap_err(), ProtocolError::FrameTooShort(14));
    let mut d = indication(2, 2, &[1, 2, 3, 4], &[]);
    d.truncate(d.len() - 1);
    let n = d.len();
    assert_eq!(ApsDataIndication::parse(&d).unwrap_err(), ProtocolError::FrameTooShort(n));
    let d = indication(4, 4, &[], &[]);
    let short = &d[..16];
    assert_eq!(ApsDataIndication::parse(short).unwrap_err(), ProtocolError::FrameTooShort(16));
}

#[test]
fn announcement_fields() {
    let asdu = [0x05, 0xCD, 0xAB, 0x77, 0x66, 0x55, 0x44, 0x33, 0x22, 0x11, 0x00, 0x8E];
    let a = DeviceAnnouncement::parse(&asdu).unwrap();
    assert_eq!(a.tsn, 5);
    assert_eq!(a.short_addr, 0xABCD);
    assert_eq!(a.ieee_addr, [0x77, 0x66, 0x55, 0x44, 0x33, 0x22, 0x11, 0x00]);
    assert!(a.is_router());
    assert!(a.is_mains_powered());
    assert!(a.rx_on_when_idle());
    assert_eq!(DeviceAnnouncement::parse(&asdu[..11]).unwrap_err(), ProtocolError::FrameTooShort(11));
}

#[test]
fn active_endpoints_parsing() {
    let r = ActiveEndpointsResponse::parse(&[1, 0, 0xCD, 0xAB, 2, 1, 0x0B]).unwrap();
    assert_eq!(r.nwk_addr, 0xABCD);
    assert_eq!(r.endpoints, vec![1, 0x0B]);
    let r = ActiveEndpointsResponse::parse(&[1, 0, 0xCD, 0xAB, 3, 1]).unwrap();
    assert!(r.endpoints.is_empty());
    let r = ActiveEndpointsResponse::parse(&[1, 0x80, 0xCD, 0xAB, 1, 1]).unwrap();
    assert!(r.endpoints.is_empty());
    assert_eq!(ActiveEndpointsResponse::parse(&[1, 0, 0]).unwrap_err(), ProtocolError::FrameTooShort(3));
}

#[test]
fn simple_descriptor_parsing() {
    let asdu = [1, 0, 0xCD, 0xAB, 14, 1, 0x04, 0x01, 0x00, 0x01, 0x12, 2, 0x06, 0x00, 0x08, 0x00, 1, 0x19, 0x00];
    let r = SimpleDescriptorResponse::parse(&asdu).unwrap();
    assert_eq!(r.endpoint, 1);
    assert_eq!(r.profile_id, 0x0104);
    assert_eq!(r.device_id, 0x0100);
    assert_eq!(r.device_version, 2);
    assert_eq!(r.in_clusters, vec![0x0006, 0x0008]);
    assert_eq!(r.out_clusters, vec![0x0019]);
    let r = SimpleDescriptorResponse::parse(&asdu[..15]).unwrap();
    assert_eq!(r.in_clusters, vec![0x0006]);
    assert!(r.out_clusters.is_empty());
    let r = SimpleDescriptorResponse::parse(&[1, 0x81, 0xCD, 0xAB, 0]).unwrap();
    assert_eq!(r.status, 0x81);
    assert!(r.in_clusters.is_empty());
    assert_eq!(SimpleDescriptorResponse::parse(&asdu[..8]).unwrap_err(), ProtocolError::FrameTooShort(8));
    assert_eq!(SimpleDescriptorResponse::parse(&asdu[..4]).unwrap_err(), ProtocolError::FrameTooShort(4));
}

#[test]
fn aps_request_serialization() {
    let req = ApsDataRequest::new(1, 0xABCD, 1, 0x0006, vec![0x01, 0x01, 0x01]);
    assert_eq!(
        req.serialize(),
        vec![18, 0, 1, 0, 2, 0xCD, 0xAB, 1, 0x04, 0x01, 0x06, 0x00, 1, 3, 0, 1, 1, 1, 0x04, 0]
    );
    let req = ApsDataRequest::active_endpoints_request(1, 0xABCD, 1);
    assert_eq!(req.cluster_id, 0x0005);
    assert_eq!(req.profile_id, 0);
    assert_eq!(req.asdu, vec![1, 0xCD, 0xAB]);
    let req = ApsDataRequest::simple_descriptor_request(1, 0xABCD, 3, 1);
    assert_eq!(req.cluster_id, 0x0004);
    assert_eq!(req.asdu, vec![1, 0xCD, 0xAB, 3]);
}

#[test]
fn zcl_frames() {
    let z = ZclFrame::on_off_command(1, OnOffCommand::On);
    assert_eq!(z.serialize(), vec![0x01, 0x01, 0x01]);
    let z = ZclFrame::parse(&[0x01, 0x07, 0x02]).unwrap();
    assert!(z.is_cluster_specific());
    assert!(!z.is_from_server());
    assert_eq!(z.command_id(), 0x02);
    assert!(z.payload().is_empty());
    let z = ZclFrame::parse(&[0x1C, 0x5F, 0x11, 0x09, 0x0A, 0xAA]).unwrap();
    assert_eq!(z.frame_control(), 0x1C);
    assert!(z.is_from_server());
    assert_eq!(z.command_id(), 0x0A);
    assert_eq!(z.payload(), &[0xAA]);
    assert_eq!(z.serialize(), vec![0x1C, 0x5F, 0x11, 0x09, 0x0A, 0xAA]);
    assert_eq!(ZclFrame::parse(&[0x04, 0x01, 0x02]).unwrap_err(), ProtocolError::FrameTooShort(3));
    assert_eq!(ZclFrame::parse(&[0x01, 0x02]).unwrap_err(), ProtocolError::FrameTooShort(2));
}
