use iipdp::bitreader::BitReader;
use iipdp::demo_header::DemoHeader;
use iipdp::data_manager::{DataManager, Game};
use iipdp::DecodeError;

fn put_padded(buf: &mut Vec<u8>, s: &str, len: usize) {
    let bytes = s.as_bytes();
    for i in 0..len {
        if i < bytes.len() {
            buf.push(bytes[i]);
        } else {
            buf.push(0);
        }
    }
}

fn golden_header(network_protocol: i32) -> Vec<u8> {
    let mut buf = Vec::new();
    buf.extend_from_slice(b"HL2DEMO\0");
    buf.extend_from_slice(&3i32.to_le_bytes());
    buf.extend_from_slice(&network_protocol.to_le_bytes());
    put_padded(&mut buf, "local server", 260);
    put_padded(&mut buf, "player", 260);
    put_padded(&mut buf, "testchmb_a_00", 260);
    put_padded(&mut buf, "portal", 260);
    buf.extend_from_slice(&17.25f32.to_bits().to_le_bytes());
    buf.extend_from_slice(&1111i32.to_le_bytes());
    buf.extend_from_slice(&2222i32.to_le_bytes());
    buf.extend_from_slice(&3333i32.to_le_bytes());
    buf
}

#[test]
fn golden_header_decodes_exactly() {
    let buf = golden_header(15);
    assert_eq!(buf.len(), 1072);
    let mut r = BitReader::new(buf);
    let h = DemoHeader::parse(&mut r).unwrap();
    assert_eq!(h.demo_file_stamp, "HL2DEMO");
    assert_eq!(h.demo_protocol, 3);
    assert_eq!(h.network_protocol, 15);
    assert_eq!(h.server_name, "local server");
    assert_eq!(h.client_name, "player");
    assert_eq!(h.map_name, "testchmb_a_00");
    assert_eq!(h.game_directory, "portal");
    assert_eq!(f32::from_bits(h.playback_time_bits), 17.25);
    assert_eq!(h.playback_ticks, 1111);
    assert_eq!(h.playback_frames, 2222);
    assert_eq!(h.sign_on_length, 3333);
    assert_eq!(r.pos, 1072 * 8);
}

#[test]
fn wrong_magic_is_malformed_header() {
    let mut buf = golden_header(15);
    buf[0] = b'X';
    let mut r = BitReader::new(buf);
    assert!(matches!(DemoHeader::parse(&mut r), Err(DecodeError::MalformedHeader)));
    assert_eq!(r.pos, 0);
}

#[test]
fn short_buffer_is_buffer_exhausted() {
    let mut buf = golden_header(15);
    buf.truncate(100);
    let mut r = BitReader::new(buf);
    assert!(matches!(DemoHeader::parse(&mut r), Err(DecodeError::BufferExhausted)));
}

#[test]
fn protocol_context_from_header() {
    let mut r = BitReader::new(golden_header(14));
    let h = DemoHeader::parse(&mut r).unwrap();
    let mut mgr = DataManager::new();
    mgr.get_info_from_header(&h);
    assert!(matches!(mgr.game, Game::PORTAL_1_3420));
    assert_eq!(mgr.net_svc_type_bits, 5);
    assert_eq!(mgr.user_message_list.len(), 30);
    assert_eq!(mgr.send_prop_amount_of_bits_to_get_num_bits, 6);
    assert_eq!(mgr.send_prop_type_list.len(), 6);

    let mut r = BitReader::new(golden_header(15));
    let h = DemoHeader::parse(&mut r).unwrap();
    let mut mgr = DataManager::new();
    mgr.get_info_from_header(&h);
    assert!(matches!(mgr.game, Game::PORTAL_1_5135));
    assert_eq!(mgr.net_svc_type_bits, 6);
    assert_eq!(mgr.user_message_list.len(), 36);
    assert_eq!(mgr.send_prop_amount_of_bits_to_get_num_bits, 7);
    assert_eq!(mgr.send_prop_type_list.len(), 7);

    let mut r = BitReader::new(golden_header(24));
    let h = DemoHeader::parse(&mut r).unwrap();
    let mut mgr = DataManager::new();
    mgr.get_info_from_header(&h);
    assert!(matches!(mgr.game, Game::PORTAL_1_1910503));
    assert_eq!(mgr.user_message_list.len(), 41);

    let mut r = BitReader::new(golden_header(99));
    let h = DemoHeader::parse(&mut r).unwrap();
    let mut mgr = DataManager::new();
    mgr.get_info_from_header(&h);
    assert!(matches!(mgr.game, Game::UNKNOWN));
}

#[test]
fn measured_and_adjusted_ticks() {
    let mut mgr = DataManager::new();
    mgr.last_packet_tick = 999;
    assert_eq!(mgr.get_measured_ticks(), 1000);
    assert_eq!(mgr.get_adjusted_ticks(), 1000);
    mgr.adj_start_tick = 100;
    assert_eq!(mgr.get_adjusted_ticks(), 900);
    mgr.adj_start_tick = 0;
    mgr.adj_end_tick = 499;
    assert_eq!(mgr.get_adjusted_ticks(), 500);
}
