use casita::commands::{CommandId, NetworkParameter};
use casita::device::{DeviceCategory, DeviceType, Endpoint, ZigbeeDevice};
use casita::frame::Frame;
use casita::hex::{format_reversed_hex, parse_ieee_address};
use casita::network::{network_status, DeviceInventory, ListenerAction, NetworkError, NetworkEvent};
use casita::slip::{SlipDecoder, SlipEncoder};
use casita::transport::{
    aps_data_request_payload, check_status, device_state_response, dispatch_frame, encode_request,
    firmware_version_from_parameter, parameter_value, read_parameter_payload, write_parameter_payload,
    DeconzEvent, Dispatch, PendingTable, RequestBook, SequenceCounter,
};
use casita::types::{DeviceState, OnOffCommand, ProtocolError, Status};

const IEEE: [u8; 8] = [0x77, 0x66, 0x55, 0x44, 0x33, 0x22, 0x11, 0x00];

fn raw_frame(cmd: u8, seq: u8, status: u8, payload: &[u8]) -> Vec<u8> {
    let mut d = vec![cmd, seq, status];
    d.extend_from_slice(&((5 + payload.len()) as u16).to_le_bytes());
    d.extend_from_slice(payload);
    let crc = Frame::calculate_crc(&d);
    d.extend_from_slice(&crc.to_le_bytes());
    d
}

fn indication_payload(profile: u16, cluster: u16, src_short: u16, src_ep: u8, asdu: &[u8]) -> Vec<u8> {
    let mut d = vec![0x00, 0x00, 0x22, 0x02, 0x00, 0x00, 0x01, 0x02];
    d.extend_from_slice(&src_short.to_le_bytes());
    d.push(src_ep);
    d.extend_from_slice(&profile.to_le_bytes());
    d.extend_from_slice(&cluster.to_le_bytes());
    d.extend_from_slice(&(asdu.len() as u16).to_le_bytes());
    d.extend_from_slice(asdu);
    d.extend_from_slice(&[0xFF, 0xC4]);
    d
}

fn announce_asdu(ieee: [u8; 8], short: u16, cap: u8) -> Vec<u8> {
    let mut a = vec![0x01];
    a.extend_from_slice(&short.to_le_bytes());
    a.extend_from_slice(&ieee);
    a.push(cap);
    a
}

#[test]
fn ieee_text_round_trip() {
    assert_eq!(format_reversed_hex(&IEEE), "00:11:22:33:44:55:66:77");
    assert_eq!(parse_ieee_address("00:11:22:33:44:55:66:77"), Some(IEEE));
    assert_eq!(parse_ieee_address("0011223344556677"), Some(IEEE));
    assert_eq!(parse_ieee_address("AA:bb:0:1:2:3:4:5"), Some([5, 4, 3, 2, 1, 0, 0xBB, 0xAA]));
    assert_eq!(parse_ieee_address("00:11:22:33:44:55:66"), None);
    assert_eq!(parse_ieee_address("00:11:22:33:44:55:66:77:88"), None);
    assert_eq!(parse_ieee_address("00:11:22:33:44:55:66:7g"), None);
    assert_eq!(parse_ieee_address("00:11:22:33:44:55:66:777"), None);
    assert_eq!(parse_ieee_address(""), None);
    assert_eq!(parse_ieee_address("00:11:22:33:44:55:66:"), None);
}

#[test]
fn device_display() {
    let mut d = ZigbeeDevice::new(IEEE, 0x1234);
    assert_eq!(d.device_type, DeviceType::EndDevice);
    assert_eq!(d.category, DeviceCategory::Other);
    assert!(d.available);
    assert_eq!(d.ieee_address_string(), "00:11:22:33:44:55:66:77");
    assert_eq!(d.display_name(), "00:11:22:33:44:55:66:77");
    d.model = Some("lamp".to_string());
    assert_eq!(d.display_name(), "lamp");
    d.friendly_name = Some("Kitchen".to_string());
    assert_eq!(d.display_name(), "Kitchen");
}

#[test]
fn endpoint_classification() {
    let e = Endpoint { id: 1, profile_id: 0x0104, device_id: 0x0100, in_clusters: vec![0x0006, 0x0300], out_clusters: vec![0x0402] };
    assert!(e.has_cluster(0x0402));
    assert!(!e.has_cluster(0x0405));
    assert!(e.is_light());
    assert!(e.is_color_light());
    assert!(e.has_temperature());
    assert!(!e.has_humidity());
    assert!(!e.is_occupancy_sensor());
}

#[test]
fn device_announce_to_inventory() {
    let mut pending: PendingTable<u32> = PendingTable::new();
    let payload = indication_payload(0x0000, 0x0013, 0xABCD, 0, &announce_asdu(IEEE, 0xABCD, 0x8E));
    let frame = raw_frame(0x17, 9, 0, &payload);
    let events = match dispatch_frame(&frame, &mut pending) {
        Dispatch::Unsolicited { events, .. } => events,
        _ => panic!("expected unsolicited frame"),
    };
    assert_eq!(events.len(), 3);
    assert!(matches!(events[0], DeconzEvent::ApsDataReceived { .. }));
    assert!(matches!(events[2], DeconzEvent::ApsIndication(_)));
    let announced = events[1].clone();
    match announced {
        DeconzEvent::DeviceAnnounced { ieee_addr, short_addr, capability } => {
            assert_eq!(ieee_addr, IEEE);
            assert_eq!(short_addr, 0xABCD);
            assert_eq!(capability, 0x8E);
        }
        _ => panic!("expected an announcement"),
    }
    let mut inv = DeviceInventory::new();
    let actions = inv.handle_event(announced, 1000);
    assert_eq!(actions.len(), 3);
    assert!(matches!(actions[0], ListenerAction::Emit(NetworkEvent::DeviceJoined(_))));
    assert!(matches!(actions[1], ListenerAction::Persist));
    match &actions[2] {
        ListenerAction::SendAfter { delay_ms, request } => {
            assert_eq!(*delay_ms, 500);
            assert_eq!(request.cluster_id, 0x0005);
            assert_eq!(request.profile_id, 0x0000);
            assert_eq!(request.dest_short_addr, 0xABCD);
        }
        _ => panic!("expected a delayed request"),
    }
    let d = inv.get_device(&IEEE).unwrap();
    assert_eq!(d.device_type, DeviceType::Router);
    assert_eq!(d.nwk_address, 0xABCD);
    assert!(d.available);
    assert_eq!(d.last_seen, Some(1000));
}

#[test]
fn inventory_identity_across_short_address_changes() {
    let mut inv = DeviceInventory::new();
    inv.handle_event(DeconzEvent::DeviceAnnounced { ieee_addr: IEEE, short_addr: 0x0001, capability: 0 }, 1);
    let actions = inv.handle_event(DeconzEvent::DeviceAnnounced { ieee_addr: IEEE, short_addr: 0x0002, capability: 0 }, 2);
    assert_eq!(actions.len(), 2);
    assert!(matches!(actions[0], ListenerAction::Emit(NetworkEvent::DeviceUpdated { .. })));
    inv.handle_event(DeconzEvent::DeviceAnnounced { ieee_addr: [1; 8], short_addr: 0x0002, capability: 2 }, 3);
    inv.handle_event(DeconzEvent::DeviceAnnounced { ieee_addr: IEEE, short_addr: 0x0003, capability: 0 }, 4);
    assert_eq!(inv.len(), 2);
    assert_eq!(inv.devices().iter().filter(|d| d.ieee_address == IEEE).count(), 1);
    assert_eq!(inv.get_device(&IEEE).unwrap().nwk_address, 0x0003);
}

#[test]
fn mac_poll_refreshes_device() {
    let mut inv = DeviceInventory::new();
    let mut d = ZigbeeDevice::new(IEEE, 0x4242);
    d.available = false;
    inv.upsert_device(d);
    inv.handle_event(DeconzEvent::MacPoll { short_addr: 0x4242 }, 77);
    let d = inv.get_device(&IEEE).unwrap();
    assert!(d.available);
    assert_eq!(d.last_seen, Some(77));
}

#[test]
fn turn_on_request_and_state() {
    let mut inv = DeviceInventory::new();
    inv.upsert_device(ZigbeeDevice::new(IEEE, 0xABCD));
    let req = inv.on_off_request(&IEEE, 1, OnOffCommand::On).unwrap();
    assert_eq!(req.dest_short_addr, 0xABCD);
    assert_eq!(req.dest_endpoint, 1);
    assert_eq!(req.profile_id, 0x0104);
    assert_eq!(req.cluster_id, 0x0006);
    assert_eq!(req.src_endpoint, 1);
    assert_eq!(req.asdu, vec![0x01, 0x01, 0x01]);
    assert_eq!(req.tx_options, 0x04);
    match inv.record_command(&IEEE, 1, OnOffCommand::On) {
        Some(NetworkEvent::DeviceStateChanged { ieee_address, endpoint, state_on }) => {
            assert_eq!(ieee_address, IEEE);
            assert_eq!(endpoint, 1);
            assert!(state_on);
        }
        _ => panic!("expected a state change"),
    }
    assert_eq!(inv.get_device(&IEEE).unwrap().state_on, Some(true));
    assert!(inv.record_command(&[9; 8], 1, OnOffCommand::On).is_none());
}

#[test]
fn toggle_of_unknown_state_reports_nothing() {
    let mut inv = DeviceInventory::new();
    inv.upsert_device(ZigbeeDevice::new(IEEE, 0xABCD));
    assert!(inv.record_command(&IEEE, 1, OnOffCommand::Toggle).is_none());
    assert_eq!(inv.get_device(&IEEE).unwrap().state_on, None);
}

#[test]
fn unknown_device_errors() {
    let inv = DeviceInventory::new();
    match inv.on_off_request(&IEEE, 1, OnOffCommand::Off) {
        Err(NetworkError::DeviceNotFound(s)) => assert_eq!(s, "00:11:22:33:44:55:66:77"),
        _ => panic!("expected DeviceNotFound"),
    }
    assert!(matches!(inv.discover_endpoints_request(&IEEE), Err(NetworkError::DeviceNotFound(_))));
    assert!(matches!(inv.discover_simple_descriptor_request(&IEEE, 1), Err(NetworkError::DeviceNotFound(_))));
}

#[test]
fn wall_switch_toggle_indication() {
    let mut inv = DeviceInventory::new();
    let mut d = ZigbeeDevice::new(IEEE, 0x5555);
    d.state_on = Some(false);
    inv.upsert_device(d);
    let payload = indication_payload(0x0104, 0x0006, 0x5555, 3, &[0x01, 0x07, 0x02]);
    let ind = casita::types::ApsDataIndication::parse(&payload).unwrap();
    let actions = inv.handle_event(DeconzEvent::ApsIndication(ind), 5);
    assert_eq!(actions.len(), 1);
    match &actions[0] {
        ListenerAction::Emit(NetworkEvent::DeviceStateChanged { ieee_address, endpoint, state_on }) => {
            assert_eq!(*ieee_address, IEEE);
            assert_eq!(*endpoint, 3);
            assert!(*state_on);
        }
        _ => panic!("expected a state change"),
    }
    assert_eq!(inv.get_device(&IEEE).unwrap().state_on, Some(true));
}

#[test]
fn zdo_discovery_responses() {
    let mut inv = DeviceInventory::new();
    inv.upsert_device(ZigbeeDevice::new(IEEE, 0xABCD));
    let asdu = [1, 0, 0xCD, 0xAB, 2, 1, 0x0B];
    let ind = casita::types::ApsDataIndication::parse(&indication_payload(0, 0x8005, 0xABCD, 0, &asdu)).unwrap();
    let actions = inv.handle_event(DeconzEvent::ApsIndication(ind), 1);
    assert_eq!(actions.len(), 2);
    match &actions[1] {
        ListenerAction::Send(req) => assert_eq!(req.asdu, vec![1, 0xCD, 0xAB, 0x0B]),
        _ => panic!("expected a descriptor request"),
    }
    let desc = [1, 0, 0xCD, 0xAB, 10, 1, 0x04, 0x01, 0x00, 0x01, 0x01, 1, 0x06, 0x00, 0];
    let ind = casita::types::ApsDataIndication::parse(&indication_payload(0, 0x8004, 0xABCD, 0, &desc)).unwrap();
    let actions = inv.handle_event(DeconzEvent::ApsIndication(ind), 2);
    assert_eq!(actions.len(), 2);
    assert!(matches!(actions[0], ListenerAction::Emit(NetworkEvent::DeviceUpdated { .. })));
    let ind = casita::types::ApsDataIndication::parse(&indication_payload(0, 0x8004, 0xABCD, 0, &desc)).unwrap();
    inv.handle_event(DeconzEvent::ApsIndication(ind), 3);
    let d = inv.get_device(&IEEE).unwrap();
    assert_eq!(d.endpoints.len(), 1);
    assert_eq!(d.endpoints[0].in_clusters, vec![0x0006]);
}

#[test]
fn metadata_edit() {
    let mut inv = DeviceInventory::new();
    inv.upsert_device(ZigbeeDevice::new(IEEE, 1));
    let d = inv.update_device_metadata(&IEEE, Some("Lamp".to_string()), Some(DeviceCategory::Light)).unwrap();
    assert_eq!(d.friendly_name.as_deref(), Some("Lamp"));
    assert_eq!(d.category, DeviceCategory::Light);
    let d = inv.update_device_metadata(&IEEE, Some(String::new()), None).unwrap();
    assert_eq!(d.friendly_name, None);
    assert_eq!(d.category, DeviceCategory::Light);
    assert!(inv.remove_device(&IEEE).is_some());
    assert!(inv.remove_device(&IEEE).is_none());
    assert!(matches!(inv.update_device_metadata(&IEEE, None, None), Err(NetworkError::DeviceNotFound(_))));
}

#[test]
fn status_from_parameters() {
    let s = network_status(DeviceState::from_byte(0x02), Some(vec![15]), Some(vec![0x34, 0x12]), Some(vec![1, 2, 3, 4, 5, 6, 7, 8]), Some(vec![0]), 4);
    assert!(s.connected);
    assert_eq!(s.channel, 15);
    assert_eq!(s.pan_id, 0x1234);
    assert_eq!(s.extended_pan_id, "08:07:06:05:04:03:02:01");
    assert!(!s.permit_join);
    assert_eq!(s.device_count, 4);
    let s = network_status(DeviceState::from_byte(0x00), None, Some(vec![1]), None, Some(vec![60]), 0);
    assert!(!s.connected);
    assert_eq!(s.channel, 0);
    assert_eq!(s.pan_id, 0);
    assert_eq!(s.extended_pan_id, "unknown");
    assert!(s.permit_join);
}

#[test]
fn responses_reach_their_waiter_once() {
    let mut counter = SequenceCounter::new();
    let mut pending: PendingTable<&str> = PendingTable::new();
    let a = counter.allocate();
    let b = counter.allocate();
    assert_eq!((a, b), (1, 2));
    assert!(pending.register(a, "first").is_none());
    assert!(pending.register(b, "second").is_none());
    let reply_b = raw_frame(0x0A, b, 0, &[0x02, 0x00, 0x1C, 0x0F]);
    match dispatch_frame(&reply_b, &mut pending) {
        Dispatch::Response { waiter, frame } => {
            assert_eq!(waiter, "second");
            assert_eq!(frame.sequence, b);
        }
        _ => panic!("expected a response"),
    }
    assert!(matches!(dispatch_frame(&reply_b, &mut pending), Dispatch::Unsolicited { .. }));
    assert_eq!(pending.len(), 1);
    assert!(pending.is_waiting(a));
    assert_eq!(pending.take(a), Some("first"));
    assert_eq!(pending.take(a), None);
}

#[test]
fn sequence_counter_wraps() {
    let mut counter = SequenceCounter::new();
    let mut seen = std::collections::HashSet::new();
    for _ in 0..256 {
        assert!(seen.insert(counter.allocate()));
    }
    assert_eq!(counter.allocate(), 1);
}

#[test]
fn corrupted_response_is_dropped() {
    let mut pending: PendingTable<u8> = PendingTable::new();
    pending.register(7, 70);
    let mut reply = raw_frame(0x0A, 7, 0, &[0x03, 0x00, 0x22, 0x02, 0x01]);
    let last = reply.len() - 1;
    reply[last] ^= 0x01;
    assert!(matches!(dispatch_frame(&reply, &mut pending), Dispatch::Dropped(ProtocolError::CrcMismatch { .. })));
    assert!(pending.is_waiting(7));
}

#[test]
fn unsolicited_state_and_poll_events() {
    let mut pending: PendingTable<u8> = PendingTable::new();
    match dispatch_frame(&raw_frame(0x0E, 3, 0, &[0x0A]), &mut pending) {
        Dispatch::Unsolicited { events, .. } => {
            assert_eq!(events.len(), 2);
            assert!(matches!(events[1], DeconzEvent::ApsDataAvailable));
        }
        _ => panic!("expected events"),
    }
    match dispatch_frame(&raw_frame(0x1C, 4, 0, &[0x02, 0x34, 0x12]), &mut pending) {
        Dispatch::Unsolicited { events, .. } => {
            assert!(matches!(events[0], DeconzEvent::MacPoll { short_addr: 0x1234 }));
        }
        _ => panic!("expected events"),
    }
    match dispatch_frame(&raw_frame(0x1D, 5, 0, &[0x00]), &mut pending) {
        Dispatch::Unsolicited { events, .. } => assert!(events.is_empty()),
        _ => panic!("expected no events"),
    }
}

#[test]
fn request_payloads() {
    assert_eq!(read_parameter_payload(NetworkParameter::ProtocolVersion), vec![1, 0, 0x22]);
    assert_eq!(write_parameter_payload(NetworkParameter::PermitJoin, &[60]), vec![2, 0, 0x21, 60]);
    assert_eq!(aps_data_request_payload(), vec![1, 0, 4]);
    let bytes = encode_request(CommandId::ReadParameter, 1, read_parameter_payload(NetworkParameter::CurrentChannel));
    let mut decoder = SlipDecoder::new();
    let frames = decoder.feed(&bytes);
    let f = Frame::deserialize(&frames[0]).unwrap();
    assert_eq!(f.payload, vec![1, 0, 0x1C]);
    assert_eq!(bytes, SlipEncoder::encode(&Frame::new(CommandId::ReadParameter, 1, vec![1, 0, 0x1C]).serialize()));
}

#[test]
fn response_checks() {
    assert!(check_status(0).is_ok());
    assert_eq!(check_status(2), Err(ProtocolError::DeviceError(Status::Busy)));
    assert_eq!(check_status(0x42), Err(ProtocolError::DeviceError(Status::Error)));
    let ok = Frame::deserialize(&raw_frame(0x0A, 1, 0, &[0x03, 0x00, 0x22, 0x02, 0x01])).unwrap();
    assert_eq!(parameter_value(&ok).unwrap(), vec![0x02, 0x01]);
    let busy = Frame::deserialize(&raw_frame(0x0A, 1, 2, &[0x03, 0x00, 0x22])).unwrap();
    assert_eq!(parameter_value(&busy).unwrap_err(), ProtocolError::DeviceError(Status::Busy));
    let short = Frame::deserialize(&raw_frame(0x0A, 1, 0, &[0x01])).unwrap();
    assert!(matches!(parameter_value(&short), Err(ProtocolError::InvalidFrame(_))));
    let v = firmware_version_from_parameter(&[0x07, 0x01]).unwrap();
    assert_eq!(v.patch, 1);
    assert!(matches!(firmware_version_from_parameter(&[1]), Err(ProtocolError::InvalidFrame(_))));
    let st = Frame::deserialize(&raw_frame(0x07, 1, 0, &[0x26])).unwrap();
    assert!(device_state_response(&st).unwrap().aps_data_confirm);
    let empty = Frame::deserialize(&raw_frame(0x07, 1, 0, &[])).unwrap();
    assert!(matches!(device_state_response(&empty), Err(ProtocolError::InvalidFrame(_))));
}

#[test]
fn display_form_helpers() {
    assert_eq!(casita::types::ApsDataIndication::format_ieee(&IEEE), "00:11:22:33:44:55:66:77");
    assert_eq!(casita::engine::format_ieee(&[0xAB, 0, 0, 0, 0, 0, 0, 0x01]), "01:00:00:00:00:00:00:ab");
}

#[test]
fn reannouncement_sets_role() {
    let mut inv = DeviceInventory::new();
    inv.handle_event(DeconzEvent::DeviceAnnounced { ieee_addr: IEEE, short_addr: 1, capability: 0 }, 1);
    assert_eq!(inv.get_device(&IEEE).unwrap().device_type, DeviceType::EndDevice);
    inv.handle_event(DeconzEvent::DeviceAnnounced { ieee_addr: IEEE, short_addr: 2, capability: 0x02 }, 2);
    assert_eq!(inv.get_device(&IEEE).unwrap().device_type, DeviceType::Router);
    inv.handle_event(DeconzEvent::DeviceAnnounced { ieee_addr: IEEE, short_addr: 2, capability: 0x0C }, 3);
    assert_eq!(inv.get_device(&IEEE).unwrap().device_type, DeviceType::EndDevice);
}

#[test]
fn many_requests_in_flight_each_get_their_response() {
    let mut book: RequestBook<usize> = RequestBook::new();
    let mut seqs = Vec::new();
    for i in 0..255usize {
        let (seq, bytes) = book.begin(CommandId::ReadParameter, read_parameter_payload(NetworkParameter::CurrentChannel), i);
        assert!(!bytes.is_empty());
        seqs.push(seq);
    }
    for (i, seq) in seqs.iter().enumerate().rev() {
        match book.dispatch(&raw_frame(0x0A, *seq, 0, &[0x02, 0x00, 0x1C, 0x0F])) {
            Dispatch::Response { waiter, frame } => {
                assert_eq!(waiter, i);
                assert_eq!(frame.sequence, *seq);
            }
            _ => panic!("response not routed"),
        }
    }
    assert!(matches!(book.dispatch(&raw_frame(0x0A, seqs[0], 0, &[0x00])), Dispatch::Unsolicited { .. }));
    let (seq, _) = book.begin(CommandId::DeviceState, vec![0], 999);
    assert_eq!(book.expire(seq), Some(999));
    assert_eq!(book.expire(seq), None);
}
