use iipdp::bitreader::BitReader;
use iipdp::data_manager::DataManager;
use iipdp::netsvc_types::{
    SvcCreateStringTable, SvcServerInfo, SvcSounds, SvcUserMessage, SvcVoiceInit,
};
use iipdp::user_message::{
    CloseCaption, HudMsg, SayText2, TextMsg, UserMessageDataType, UserMessageType, VguiMenu,
    EntityPortalled, PaintWorld,
};
use iipdp::stringtable::{PlayerInfo, StringTableClass};

fn put_bits(buf: &mut Vec<u8>, bitpos: &mut usize, value: u64, n: usize) {
    let mut i = 0;
    while i < n {
        let byte = *bitpos / 8;
        while buf.len() <= byte {
            buf.push(0);
        }
        if (value >> i) & 1 == 1 {
            buf[byte] |= 1 << (*bitpos % 8);
        }
        *bitpos += 1;
        i += 1;
    }
}

fn put_cstr(buf: &mut Vec<u8>, bitpos: &mut usize, s: &str) {
    for b in s.bytes() {
        put_bits(buf, bitpos, b as u64, 8);
    }
    put_bits(buf, bitpos, 0, 8);
}

fn mgr_with_protocol(network_protocol: i32) -> DataManager {
    let mut mgr = DataManager::new();
    let mut h = iipdp::demo_header::DemoHeader::new();
    h.network_protocol = network_protocol;
    mgr.get_info_from_header(&h);
    mgr
}

fn server_info_bits(md5: bool, has_replay: bool) -> Vec<u8> {
    let mut buf = Vec::new();
    let mut p = 0;
    put_bits(&mut buf, &mut p, 24, 16); // protocol
    put_bits(&mut buf, &mut p, 2, 32); // server count
    put_bits(&mut buf, &mut p, 0, 1); // hltv
    put_bits(&mut buf, &mut p, 1, 1); // dedicated
    put_bits(&mut buf, &mut p, 0xDEAD, 32); // client crc
    put_bits(&mut buf, &mut p, 120, 16); // max classes
    if md5 {
        for i in 0..16 {
            put_bits(&mut buf, &mut p, i as u64, 8);
        }
    } else {
        put_bits(&mut buf, &mut p, 0xBEEF, 32);
    }
    put_bits(&mut buf, &mut p, 0, 8); // player slot
    put_bits(&mut buf, &mut p, 1, 8); // max clients
    put_bits(&mut buf, &mut p, 0.015f32.to_bits() as u64, 32); // tick interval
    put_bits(&mut buf, &mut p, b'w' as u64, 8); // platform
    put_cstr(&mut buf, &mut p, "portal");
    put_cstr(&mut buf, &mut p, "testchmb_a_00");
    put_cstr(&mut buf, &mut p, "sky_day01_01");
    put_cstr(&mut buf, &mut p, "host");
    if has_replay {
        put_bits(&mut buf, &mut p, 1, 1);
    }
    buf
}

#[test]
fn server_info_uses_crc_on_older_variants() {
    let mgr = mgr_with_protocol(15);
    let mut r = BitReader::new(server_info_bits(false, false));
    let m = SvcServerInfo::parse(&mut r, &mgr).unwrap();
    assert_eq!(m.protocol, 24);
    assert_eq!(m.map_crc, Some(0xBEEF));
    assert!(m.map_md5.is_none());
    assert!(m.has_replay.is_none());
    assert_eq!(m.platform, 'w');
    assert_eq!(m.map_name, "testchmb_a_00");
    assert_eq!(f32::from_bits(m.tick_interval_bits), 0.015);
}

#[test]
fn server_info_uses_md5_and_replay_flag_on_newest_variant() {
    let mgr = mgr_with_protocol(24);
    let mut r = BitReader::new(server_info_bits(true, true));
    let m = SvcServerInfo::parse(&mut r, &mgr).unwrap();
    assert!(m.map_crc.is_none());
    let md5 = m.map_md5.unwrap();
    assert_eq!(md5.len(), 16);
    assert_eq!(md5[3], 3);
    assert_eq!(m.has_replay, Some(true));
}

fn create_string_table_bits(varint_len: bool) -> Vec<u8> {
    let mut buf = Vec::new();
    let mut p = 0;
    put_cstr(&mut buf, &mut p, "downloadables");
    put_bits(&mut buf, &mut p, 256, 16); // max entries
    put_bits(&mut buf, &mut p, 3, 9); // num entries (log2(256)+1 bits)
    if varint_len {
        put_bits(&mut buf, &mut p, 16, 8); // one-byte varint, value 16
    } else {
        put_bits(&mut buf, &mut p, 16, 20);
    }
    put_bits(&mut buf, &mut p, 0, 1); // user data not fixed size
    put_bits(&mut buf, &mut p, 0, 1); // flags (one bit below demo protocol 4)
    put_bits(&mut buf, &mut p, 0, 16); // the 16 skipped table bits
    buf
}

#[test]
fn create_string_table_length_field_is_variant_dependent() {
    let mgr = mgr_with_protocol(15);
    let mut r = BitReader::new(create_string_table_bits(false));
    let m = SvcCreateStringTable::parse(&mut r, &mgr).unwrap();
    assert_eq!(m.name, "downloadables");
    assert_eq!(m.max_entries, 256);
    assert_eq!(m.num_entries, 3);
    assert_eq!(m.length, 16);
    assert!(m.flags.is_some());

    let mgr = mgr_with_protocol(24);
    let mut r = BitReader::new(create_string_table_bits(true));
    let m = SvcCreateStringTable::parse(&mut r, &mgr).unwrap();
    assert_eq!(m.length, 16);
}

#[test]
fn sounds_reliable_and_batched_forms() {
    let mut buf = Vec::new();
    let mut p = 0;
    put_bits(&mut buf, &mut p, 1, 1); // reliable
    put_bits(&mut buf, &mut p, 6, 8); // bit length
    put_bits(&mut buf, &mut p, 0, 6);
    let mut r = BitReader::new(buf);
    let m = SvcSounds::parse(&mut r).unwrap();
    assert!(m.reliable_sound);
    assert_eq!(m.num_sounds, 1);
    assert_eq!(m.length, 6);
    assert_eq!(r.pos, 1 + 8 + 6);

    let mut buf = Vec::new();
    let mut p = 0;
    put_bits(&mut buf, &mut p, 0, 1);
    put_bits(&mut buf, &mut p, 4, 8); // num sounds
    put_bits(&mut buf, &mut p, 10, 16); // bit length
    put_bits(&mut buf, &mut p, 0, 10);
    let mut r = BitReader::new(buf);
    let m = SvcSounds::parse(&mut r).unwrap();
    assert!(!m.reliable_sound);
    assert_eq!(m.num_sounds, 4);
    assert_eq!(m.length, 10);
}

#[test]
fn voice_init_reads_sample_rate_only_at_quality_255() {
    let mut buf = Vec::new();
    let mut p = 0;
    put_cstr(&mut buf, &mut p, "vaudio_celt");
    put_bits(&mut buf, &mut p, 255, 8);
    put_bits(&mut buf, &mut p, 22050, 32);
    let mut r = BitReader::new(buf);
    let m = SvcVoiceInit::parse(&mut r).unwrap();
    assert_eq!(m.codec, "vaudio_celt");
    assert_eq!(m.sample_rate, Some(22050));

    let mut buf = Vec::new();
    let mut p = 0;
    put_cstr(&mut buf, &mut p, "vaudio_miles");
    put_bits(&mut buf, &mut p, 4, 8);
    let mut r = BitReader::new(buf);
    let m = SvcVoiceInit::parse(&mut r).unwrap();
    assert_eq!(m.quality, 4);
    assert!(m.sample_rate.is_none());
}

#[test]
fn user_message_resolved_through_catalog() {
    // Catalog index 15 is the battery message on every variant.
    let mgr = mgr_with_protocol(15);
    let mut buf = Vec::new();
    let mut p = 0;
    put_bits(&mut buf, &mut p, 15, 8);
    put_bits(&mut buf, &mut p, 16, 11);
    put_bits(&mut buf, &mut p, 77, 16);
    let mut r = BitReader::new(buf);
    let m = SvcUserMessage::parse(&mut r, &mgr.user_message_list).unwrap();
    assert_eq!(m.length, 16);
    assert!(matches!(m.data.msg_type, UserMessageType::Battery));
    match m.data.data {
        UserMessageDataType::Battery(b) => assert_eq!(b.battery_val, 77),
        _ => panic!("wrong payload"),
    }
}

#[test]
fn user_message_index_past_catalog_skips_length() {
    let mgr = mgr_with_protocol(15);
    let mut buf = Vec::new();
    let mut p = 0;
    put_bits(&mut buf, &mut p, 200, 8);
    put_bits(&mut buf, &mut p, 5, 11);
    put_bits(&mut buf, &mut p, 0, 5);
    let mut r = BitReader::new(buf);
    let m = SvcUserMessage::parse(&mut r, &mgr.user_message_list).unwrap();
    assert!(matches!(m.data.msg_type, UserMessageType::Unknown));
    assert_eq!(r.pos, 8 + 11 + 5);
}

#[test]
fn close_caption_fields() {
    let mut buf = Vec::new();
    let mut p = 0;
    put_cstr(&mut buf, &mut p, "portal.glados_escape");
    put_bits(&mut buf, &mut p, 35, 16);
    put_bits(&mut buf, &mut p, 2, 8);
    let mut r = BitReader::new(buf);
    let m = CloseCaption::parse(&mut r).unwrap();
    assert_eq!(m.token_name, "portal.glados_escape");
    assert_eq!(m.duration_decis, 35);
    assert_eq!(m.flags, 2);
}

#[test]
fn say_text2_reads_token_and_four_arguments() {
    let mut buf = Vec::new();
    let mut p = 0;
    put_bits(&mut buf, &mut p, 2, 8);
    put_bits(&mut buf, &mut p, 1, 8);
    put_cstr(&mut buf, &mut p, "chat_all");
    put_cstr(&mut buf, &mut p, "player");
    put_cstr(&mut buf, &mut p, "hello");
    put_cstr(&mut buf, &mut p, "");
    put_cstr(&mut buf, &mut p, "");
    let mut r = BitReader::new(buf);
    let m = SayText2::parse(&mut r).unwrap();
    assert_eq!(m.client, 2);
    assert!(m.wants_to_chat);
    assert_eq!(m.msg_name, "chat_all");
    assert_eq!(m.msgs, vec!["player", "hello", "", ""]);
}

#[test]
fn text_msg_reads_destination_and_five_strings() {
    let mut buf = Vec::new();
    let mut p = 0;
    put_bits(&mut buf, &mut p, 3, 8);
    for s in ["a", "b", "c", "d", "e"] {
        put_cstr(&mut buf, &mut p, s);
    }
    let mut r = BitReader::new(buf);
    let m = TextMsg::parse(&mut r).unwrap();
    assert_eq!(m.destination, 3);
    assert_eq!(m.messages, vec!["a", "b", "c", "d", "e"]);
}

#[test]
fn vgui_menu_reads_declared_pair_count() {
    let mut buf = Vec::new();
    let mut p = 0;
    put_cstr(&mut buf, &mut p, "specmenu");
    put_bits(&mut buf, &mut p, 1, 8); // show
    put_bits(&mut buf, &mut p, 2, 8); // count
    put_cstr(&mut buf, &mut p, "time");
    put_cstr(&mut buf, &mut p, "120");
    put_cstr(&mut buf, &mut p, "map");
    put_cstr(&mut buf, &mut p, "escape_02");
    let mut r = BitReader::new(buf);
    let m = VguiMenu::parse(&mut r).unwrap();
    assert_eq!(m.message, "specmenu");
    assert!(m.show);
    assert_eq!(m.count, 2);
    assert_eq!(m.key_values.len(), 2);
    assert_eq!(m.key_values[0], ("time".to_string(), "120".to_string()));
    assert_eq!(m.key_values[1], ("map".to_string(), "escape_02".to_string()));
}

#[test]
fn hud_msg_body_presence_depends_on_remaining_bits() {
    // One channel byte and nothing else: no body.
    let mut r = BitReader::new(vec![2]);
    let m = HudMsg::parse(&mut r).unwrap();
    assert_eq!(m.channel, 2);
    assert!(m.msg_info.is_none());
}

#[test]
fn entity_portalled_reads_handles_and_placement() {
    let mut buf = Vec::new();
    let mut p = 0;
    put_bits(&mut buf, &mut p, 12, 32);
    put_bits(&mut buf, &mut p, 34, 32);
    for _ in 0..6 {
        put_bits(&mut buf, &mut p, 1.0f32.to_bits() as u64, 32);
    }
    let mut r = BitReader::new(buf);
    let m = EntityPortalled::parse(&mut r).unwrap();
    assert_eq!(m.portal.val, 12);
    assert_eq!(m.portalled.val, 34);
    assert_eq!(f32::from_bits(m.new_position.x_bits), 1.0);
    assert_eq!(f32::from_bits(m.new_angles.z_bits), 1.0);
}

#[test]
fn paint_world_reads_offset_triples() {
    let mut buf = Vec::new();
    let mut p = 0;
    put_bits(&mut buf, &mut p, 1, 8); // paint type
    put_bits(&mut buf, &mut p, 7, 32); // handle
    put_bits(&mut buf, &mut p, 0, 32);
    put_bits(&mut buf, &mut p, 0, 32);
    put_bits(&mut buf, &mut p, 2, 8); // two splats
    for _ in 0..3 {
        put_bits(&mut buf, &mut p, 0, 32); // center
    }
    put_bits(&mut buf, &mut p, 10, 16);
    put_bits(&mut buf, &mut p, 20, 16);
    put_bits(&mut buf, &mut p, 30, 16);
    put_bits(&mut buf, &mut p, 40, 16);
    put_bits(&mut buf, &mut p, 50, 16);
    put_bits(&mut buf, &mut p, 60, 16);
    let mut r = BitReader::new(buf);
    let m = PaintWorld::parse(&mut r).unwrap();
    assert_eq!(m.length, 2);
    assert_eq!(m.position_offsets, vec![(10, 20, 30), (40, 50, 60)]);
}

#[test]
fn player_info_record_layout() {
    let mut buf = Vec::new();
    let mut p = 0;
    for (i, b) in b"Chell".iter().enumerate() {
        let _ = i;
        put_bits(&mut buf, &mut p, *b as u64, 8);
    }
    put_bits(&mut buf, &mut p, 0, (32 - 5) * 8); // pad name to 32 bytes
    put_bits(&mut buf, &mut p, 42, 32); // user id
    put_bits(&mut buf, &mut p, 0, 33 * 8); // guid
    put_bits(&mut buf, &mut p, 0, 24); // pad
    put_bits(&mut buf, &mut p, 7, 32); // friends id
    put_bits(&mut buf, &mut p, 0, 32 * 8); // friends name
    put_bits(&mut buf, &mut p, 1, 8); // fake player
    put_bits(&mut buf, &mut p, 0, 8); // hltv
    put_bits(&mut buf, &mut p, 0, 16); // pad
    put_bits(&mut buf, &mut p, 0, 23 * 4); // custom file values
    put_bits(&mut buf, &mut p, 3, 8); // files downloaded
    put_bits(&mut buf, &mut p, 0, 24); // pad
    let mut r = BitReader::new(buf);
    let m = PlayerInfo::parse(&mut r).unwrap();
    assert_eq!(m.name, "Chell");
    assert_eq!(m.user_id, 42);
    assert_eq!(m.friends_id, 7);
    assert!(m.fake_player);
    assert!(!m.is_hltv);
    assert_eq!(m.files_downloaded, 3);
    assert_eq!(r.pos, 1020);
}

#[test]
fn string_table_class_with_length_prefixed_data() {
    let mut buf = Vec::new();
    let mut p = 0;
    put_cstr(&mut buf, &mut p, "klass");
    put_bits(&mut buf, &mut p, 1, 1);
    put_bits(&mut buf, &mut p, 4, 16);
    for b in b"data" {
        put_bits(&mut buf, &mut p, *b as u64, 8);
    }
    let mut r = BitReader::new(buf);
    let mut c = StringTableClass::new();
    c.parse(&mut r).unwrap();
    assert_eq!(c.name, "klass");
    assert_eq!(c.data, "data");
}

#[test]
fn vector_coords_presence_bits() {
    let mut buf = Vec::new();
    let mut p = 0;
    put_bits(&mut buf, &mut p, 0b101 & 1, 1); // x present
    put_bits(&mut buf, &mut p, 0, 1); // y absent
    put_bits(&mut buf, &mut p, 1, 1); // z present
    // x: zero coordinate (two clear presence bits)
    put_bits(&mut buf, &mut p, 0, 2);
    // z: integer-only coordinate of 3
    put_bits(&mut buf, &mut p, 1, 1);
    put_bits(&mut buf, &mut p, 0, 1);
    put_bits(&mut buf, &mut p, 0, 1);
    put_bits(&mut buf, &mut p, 3, 14);
    let mut r = BitReader::new(buf);
    let v = r.read_vector_coords().unwrap();
    assert!(v[0].is_some());
    assert!(v[1].is_none());
    assert_eq!(v[0].unwrap().numer, 0);
    assert_eq!(v[2].unwrap().numer, 3 * 32);
}
