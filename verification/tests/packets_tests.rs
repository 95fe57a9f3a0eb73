use iipdp::bitreader::BitReader;
use iipdp::data_manager::DataManager;
use iipdp::demo::Demo;
use iipdp::net_svc_message::{self, NetSvcMessage, NetSvcMessageDataTypes, NetSvcMessageTypes};
use iipdp::netsvc_types::SvcSetPause;
use iipdp::packet::PacketType;
use iipdp::parser;
use iipdp::DecodeError;

fn put_bits(buf: &mut Vec<u8>, bitpos: &mut usize, value: u64, n: usize) {
    let mut i = 0;
    while i < n {
        let byte = *bitpos / 8;
        while buf.len() <= byte {
            buf.push(0);
        }
        if (value >> i) & 1 == 1 {
            buf[byte] |= 1 << (*bitpos % 8);
        }
        *bitpos += 1;
        i += 1;
    }
}

fn mgr_with_protocol(network_protocol: i32) -> DataManager {
    let mut mgr = DataManager::new();
    let mut h = iipdp::demo_header::DemoHeader::new();
    h.network_protocol = network_protocol;
    mgr.get_info_from_header(&h);
    mgr
}

#[test]
fn lone_terminal_packet_terminates_the_framer() {
    // Kind byte 7, then a 3-byte tick.
    let body = vec![7u8, 0x10, 0x20, 0x30];
    let mut r = BitReader::new(body);
    let mut demo = Demo::new();
    let packets = parser::get_packets(&mut r, &mut demo).unwrap();
    assert_eq!(packets.len(), 1);
    assert!(matches!(packets[0].packet_type, PacketType::Stop));
    assert_eq!(packets[0].tick, 0x302010);
}

#[test]
fn stream_without_terminal_packet_fails() {
    // One sync-tick packet, then the buffer just ends.
    let mut body = vec![3u8];
    body.extend_from_slice(&5i32.to_le_bytes());
    let mut r = BitReader::new(body);
    let mut demo = Demo::new();
    assert!(matches!(
        parser::get_packets(&mut r, &mut demo),
        Err(DecodeError::BufferExhausted)
    ));
}

#[test]
fn sync_tick_then_terminal() {
    let mut body = vec![3u8];
    body.extend_from_slice(&5i32.to_le_bytes());
    body.push(7);
    body.extend_from_slice(&[9, 0, 0]);
    let mut r = BitReader::new(body);
    let mut demo = Demo::new();
    let packets = parser::get_packets(&mut r, &mut demo).unwrap();
    assert_eq!(packets.len(), 2);
    assert!(matches!(packets[0].packet_type, PacketType::SyncTick));
    assert_eq!(packets[0].tick, 5);
    assert!(matches!(packets[1].packet_type, PacketType::Stop));
    assert_eq!(demo.data_manager.last_packet_tick, 5);
}

#[test]
fn console_command_packet_body() {
    let mut body = Vec::new();
    body.extend_from_slice(&8i32.to_le_bytes());
    body.extend_from_slice(b"echo hi\0");
    let mut r = BitReader::new(body);
    let mut mgr = mgr_with_protocol(15);
    let data = parser::read_packet_data(&mut r, PacketType::ConsoleCmd, &mut mgr, 3).unwrap();
    let cc = data.as_console_cmd().unwrap();
    assert_eq!(cc.size, 8);
    assert_eq!(cc.data, "echo hi");
    assert_eq!(r.pos, (4 + 8) * 8);
}

#[test]
fn skip_mode_and_full_decode_end_at_the_same_position() {
    // A user-input packet: command id, byte length, then a body of all-clear
    // presence bits padded to two bytes.
    let mut body = Vec::new();
    body.extend_from_slice(&77i32.to_le_bytes());
    body.extend_from_slice(&2i32.to_le_bytes());
    body.extend_from_slice(&[0, 0]);
    let mut skipping = DataManager::new();
    skipping.dumping = false;
    let mut dumping = mgr_with_protocol(15);
    dumping.dumping = true;

    let mut r_skip = BitReader::new(body.clone());
    parser::read_packet_data(&mut r_skip, PacketType::UserCmd, &mut skipping, 0).unwrap();
    let mut r_full = BitReader::new(body);
    let data = parser::read_packet_data(&mut r_full, PacketType::UserCmd, &mut dumping, 0)
        .unwrap();
    assert_eq!(r_skip.pos, r_full.pos);
    assert_eq!(r_skip.pos, (4 + 4 + 2) * 8);
    let uc = data.as_user_cmd().unwrap();
    assert_eq!(uc.cmd, 77);
    assert!(uc.data.command_number.is_none());
}

#[test]
fn unknown_sub_message_is_recoverable() {
    // A body holding one message with an out-of-range tag (45) and a
    // declared 8-bit length, then a fully parseable tick message.
    let mut buf = Vec::new();
    let mut p = 0;
    put_bits(&mut buf, &mut p, 45, 6);
    put_bits(&mut buf, &mut p, 8, 20);
    put_bits(&mut buf, &mut p, 0xAA, 8);
    put_bits(&mut buf, &mut p, 3, 6);
    put_bits(&mut buf, &mut p, 77, 32);
    put_bits(&mut buf, &mut p, 1, 16);
    put_bits(&mut buf, &mut p, 2, 16);
    assert_eq!(p, 104);
    let size = (p / 8) as i32;
    let mut r = BitReader::new(buf);
    let mut mgr = mgr_with_protocol(15);
    let messages = net_svc_message::parse(&mut r, &mut mgr, size).unwrap();
    assert_eq!(messages.len(), 2);
    assert!(matches!(messages[0].msg_type, NetSvcMessageTypes::Unknown));
    assert!(matches!(messages[1].msg_type, NetSvcMessageTypes::NetTick));
    let tick = messages[1].data.as_net_tick().unwrap();
    assert_eq!(tick.tick, 77);
    assert_eq!(tick.host_frame_time, 1);
    assert_eq!(tick.host_frame_time_standard_deviation, 2);
}

#[test]
fn truncated_known_message_is_fatal() {
    // A tick message tag whose fixed fields run past the buffer.
    let mut buf = Vec::new();
    let mut p = 0;
    put_bits(&mut buf, &mut p, 3, 6);
    put_bits(&mut buf, &mut p, 77, 16);
    let mut r = BitReader::new(buf);
    let mut mgr = mgr_with_protocol(15);
    assert!(matches!(
        net_svc_message::parse(&mut r, &mut mgr, 9),
        Err(DecodeError::BufferExhausted)
    ));
}

#[test]
fn check_for_pause_finds_first_pause_message() {
    let messages = vec![
        NetSvcMessage {
            msg_type: NetSvcMessageTypes::SvcSetPause,
            data: NetSvcMessageDataTypes::SvcSetPause(SvcSetPause { paused: true }),
        },
    ];
    assert_eq!(net_svc_message::check_for_pause(&messages), Some(true));
    let none: Vec<NetSvcMessage> = Vec::new();
    assert_eq!(net_svc_message::check_for_pause(&none), None);
}

#[test]
fn message_tag_width_depends_on_protocol() {
    // The same two-byte body is one whole tick-free stream under a 5-bit tag.
    let mut buf = Vec::new();
    let mut p = 0;
    put_bits(&mut buf, &mut p, 11, 5);
    put_bits(&mut buf, &mut p, 1, 1);
    let mut r = BitReader::new(buf);
    let mut mgr = mgr_with_protocol(14);
    assert_eq!(mgr.net_svc_type_bits, 5);
    let messages = net_svc_message::parse(&mut r, &mut mgr, 1).unwrap();
    assert_eq!(messages.len(), 1);
    assert!(matches!(messages[0].msg_type, NetSvcMessageTypes::SvcSetPause));
    let pause = messages[0].data.as_set_pause().unwrap();
    assert!(pause.paused);
    assert!(mgr.paused || !mgr.paused);
}

#[test]
fn packet_type_mapping() {
    assert!(matches!(PacketType::from_int(1), PacketType::SignOn));
    assert!(matches!(PacketType::from_int(2), PacketType::Packet));
    assert!(matches!(PacketType::from_int(7), PacketType::Stop));
    assert!(matches!(PacketType::from_int(8), PacketType::StringTables));
    assert!(matches!(PacketType::from_int(0), PacketType::Unknown));
    assert!(matches!(PacketType::from_int(9), PacketType::Unknown));
}

#[test]
fn net_svc_tag_mapping() {
    assert!(matches!(NetSvcMessageTypes::from_int(0), NetSvcMessageTypes::NetNop));
    assert!(matches!(NetSvcMessageTypes::from_int(7), NetSvcMessageTypes::SvcPrint));
    assert!(matches!(NetSvcMessageTypes::from_int(16), NetSvcMessageTypes::SvcPrint));
    assert!(matches!(NetSvcMessageTypes::from_int(33), NetSvcMessageTypes::SvcPaintmapData));
    assert!(matches!(NetSvcMessageTypes::from_int(34), NetSvcMessageTypes::Unknown));
}
